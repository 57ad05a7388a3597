//! A bounded worker pool and the small utilities that grew up around it.

pub mod add_one;
pub mod adder;
pub mod averaged;
pub mod blog;
pub mod blog_typed;
pub mod channel;
pub mod decimal;
pub mod excerpt;
pub mod functions;
pub mod generic;
pub mod gui;
pub mod hello_macro;
pub mod inventory;
pub mod io_enhance_iterator;
pub mod laws;
pub mod limit_tracker;
pub mod minigrep;
pub mod model;
pub mod my_box;
pub mod pool;
pub mod rectangles;
pub mod release_crate;
pub mod restaurant;
pub mod slices;
pub mod test_control;
pub mod traits;
pub mod user;
pub mod web;

pub use pool::ThreadPool;
