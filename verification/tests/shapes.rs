use hello::averaged::AveragedCollection;
use hello::excerpt::{longest, ImportantExcerpt};
use hello::functions::{add_one, do_twice, returns_closure, Status};
use hello::generic::{largest, Point, Point2};
use hello::gui::{Button, Draw, Screen};
use hello::inventory::{Inventory, ShirtColor};
use hello::my_box::MyBox;
use hello::rectangles::{area, Rectangle};
use hello::restaurant::{Appetizer, Breakfast};
use hello::slices::{add_to_count, split_at_mut};
use hello::user::build_user;
use std::cell::Cell;
use std::rc::Rc;

#[test]
fn do_twice_adds_both_answers() {
    assert_eq!(do_twice(add_one, 5), 12);
    assert_eq!(do_twice(|x: i32| x * 2, -4), -16);
}

#[test]
fn the_returned_closure_adds_one() {
    let f = returns_closure();
    assert_eq!(f(1), 2);
    assert_eq!(f(-1), 0);
    assert_eq!(f(i32::MAX - 1), i32::MAX);
}

#[test]
fn a_status_carries_its_value() {
    let statuses: Vec<Status> = (0u32..3).map(Status::Value).collect();
    assert!(matches!(statuses[2], Status::Value(2)));
    assert!(matches!(Status::Stop, Status::Stop));
}

#[test]
fn largest_of_numbers_and_of_letters() {
    assert_eq!(*largest(&[34, 50, 25, 100, 65]), 100);
    assert_eq!(*largest(&['y', 'm', 'a', 'q']), 'y');
    assert_eq!(*largest(&[7]), 7);
    assert_eq!(*largest(&[-3, -1, -2]), -1);
}

#[test]
fn largest_keeps_the_first_of_equals() {
    let list = [(1, 'a'), (1, 'b')];
    let by_number: Vec<u32> = list.iter().map(|pair| pair.0).collect();
    assert!(std::ptr::eq(largest(&by_number), &by_number[0]));
}

#[test]
fn points_hand_out_their_coordinates() {
    let integer = Point { x: 5, y: 10 };
    assert_eq!(*integer.x(), 5);
    let mixed = Point2 { x: 5, y: 4.0 }.mixup(Point2 { x: "Hello", y: 'c' });
    assert_eq!(mixed.x, 5);
    assert_eq!(mixed.y, 'c');
}

#[test]
fn the_longer_string_wins_and_the_second_on_a_tie() {
    assert_eq!(longest("long string is long", "xyz"), "long string is long");
    assert_eq!(longest("xyz", "long string is long"), "long string is long");
    let first = String::from("abc");
    let second = String::from("xyz");
    assert!(std::ptr::eq(longest(&first, &second), second.as_str()));
    assert_eq!(longest("", ""), "");
    assert_eq!(longest("éé", "abc"), "éé");
}

#[test]
fn every_excerpt_has_level_three() {
    let novel = String::from("Call me Ishmael. Some years ago...");
    let first_sentence = novel.split('.').next().unwrap();
    let excerpt = ImportantExcerpt { part: first_sentence };
    assert_eq!(excerpt.level(), 3);
    assert_eq!(excerpt.part, "Call me Ishmael");
}

#[test]
fn the_area_is_width_times_height() {
    let rect = Rectangle { width: 30, height: 50 };
    assert_eq!(rect.area(), 1500);
    assert_eq!(area(&rect), 1500);
    assert_eq!(area(&Rectangle { width: 0, height: 7 }), 0);
    assert_eq!(Rectangle { width: 65535, height: 65537 }.area(), u32::MAX);
}

#[test]
fn a_new_user_is_active_and_has_signed_in_once() {
    let user = build_user("someone@example.com", "someusername1");
    assert!(user.active);
    assert_eq!(user.username, "someusername1");
    assert_eq!(user.email, "someone@example.com");
    assert_eq!(user.sign_in_count, 1);
}

#[test]
fn a_box_reads_like_a_reference() {
    let x = 5;
    let y = MyBox::new(x);
    assert_eq!(5, x);
    assert_eq!(5, *y);
    let m = MyBox::new(String::from("Rust"));
    let name: &str = &m;
    assert_eq!(name, "Rust");
}

#[test]
fn the_giveaway_follows_the_preference_or_the_stock() {
    let store = Inventory {
        shirts: vec![ShirtColor::Blue, ShirtColor::Red, ShirtColor::Blue],
    };
    assert_eq!(store.giveaway(Some(ShirtColor::Red)), ShirtColor::Red);
    assert_eq!(store.giveaway(None), ShirtColor::Blue);
    assert_eq!(store.most_stocked(), ShirtColor::Blue);
}

#[test]
fn red_wins_only_with_more_shirts() {
    let red = Inventory {
        shirts: vec![ShirtColor::Red, ShirtColor::Blue, ShirtColor::Red],
    };
    assert_eq!(red.most_stocked(), ShirtColor::Red);
    assert_eq!(red.giveaway(None), ShirtColor::Red);
    assert_eq!(red.giveaway(Some(ShirtColor::Blue)), ShirtColor::Blue);
    let tie = Inventory {
        shirts: vec![ShirtColor::Red, ShirtColor::Blue],
    };
    assert_eq!(tie.most_stocked(), ShirtColor::Blue);
    let empty = Inventory { shirts: vec![] };
    assert_eq!(empty.most_stocked(), ShirtColor::Blue);
}

#[test]
fn a_summer_breakfast_comes_with_the_chosen_toast() {
    let mut meal = Breakfast::summer("Rye");
    assert_eq!(meal.toast, "Rye");
    meal.toast = String::from("Wheat");
    assert_eq!(meal.toast, "Wheat");
    assert_ne!(Appetizer::Soup, Appetizer::Salad);
}

struct Probe {
    drawn: Rc<Cell<u32>>,
}

impl Draw for Probe {
    fn draw(&self) {
        self.drawn.set(self.drawn.get() + 1);
    }
}

#[test]
fn the_screen_draws_each_component_once() {
    let drawn = Rc::new(Cell::new(0));
    let screen = Screen {
        components: vec![
            Box::new(Probe { drawn: Rc::clone(&drawn) }),
            Box::new(Button {
                width: 50,
                height: 10,
                label: String::from("OK"),
            }),
            Box::new(Probe { drawn: Rc::clone(&drawn) }),
        ],
    };
    screen.run();
    assert_eq!(drawn.get(), 2);
    Screen { components: vec![] }.run();
    assert_eq!(drawn.get(), 2);
}

#[test]
fn a_slice_splits_into_two_parts_that_can_be_written() {
    let mut v = vec![1, 2, 3, 4, 5, 6];
    let r = &mut v[..];
    let (a, b) = split_at_mut(r, 3);
    assert_eq!(a, &mut [1, 2, 3]);
    assert_eq!(b, &mut [4, 5, 6]);
    a[0] = 10;
    b[2] = 60;
    assert_eq!(v, vec![10, 2, 3, 4, 5, 60]);
    let (none, all) = split_at_mut(&mut v, 0);
    assert!(none.is_empty());
    assert_eq!(all.len(), 6);
    let (all, none) = split_at_mut(&mut v, 6);
    assert_eq!(all.len(), 6);
    assert!(none.is_empty());
}

#[test]
fn the_counter_takes_what_is_added() {
    let mut counter = 0u32;
    add_to_count(&mut counter, 3);
    assert_eq!(counter, 3);
    add_to_count(&mut counter, u32::MAX - 3);
    assert_eq!(counter, u32::MAX);
}

#[test]
fn the_collection_knows_its_sum() {
    let mut numbers = AveragedCollection::new();
    assert_eq!(numbers.len(), 0);
    assert_eq!(numbers.total(), 0);
    assert_eq!(numbers.remove(), None);
    numbers.add(3);
    numbers.add(-5);
    numbers.add(i32::MAX);
    numbers.add(i32::MAX);
    assert_eq!(numbers.len(), 4);
    assert_eq!(numbers.total(), 2 * (i32::MAX as i128) - 2);
    assert_eq!(numbers.remove(), Some(i32::MAX));
    assert_eq!(numbers.remove(), Some(i32::MAX));
    assert_eq!(numbers.total(), -2);
    assert_eq!(numbers.remove(), Some(-5));
    assert_eq!(numbers.remove(), Some(3));
    assert_eq!(numbers.remove(), None);
    assert_eq!(numbers.total(), 0);
}
