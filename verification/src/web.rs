//! What a tiny web server answers: which page goes out for which request
//! line, and how the answer is framed.

use crate::decimal::{decimal, usize_text};
use vstd::prelude::*;
use vstd::string::{StringExecFns, StringSliceAdditionalSpecFns};

verus! {

/// The answer to a request line: the status line, the file whose contents
/// go out, and how long the server waits before it answers.
pub struct Route {
    pub status_line: &'static str,
    pub filename: &'static str,
    pub delay_secs: u64,
}

/// What a route holds.
pub struct RouteView {
    pub status_line: Seq<char>,
    pub filename: Seq<char>,
    pub delay_secs: nat,
}

impl View for Route {
    type V = RouteView;

    open spec fn view(&self) -> RouteView {
        RouteView {
            status_line: self.status_line@,
            filename: self.filename@,
            delay_secs: self.delay_secs as nat,
        }
    }
}

/// The answer to each request line: the front page for `/`, the same page
/// after five seconds for `/sleep`, and the page for what is not there for
/// anything else.
pub open spec fn route_for(request_line: Seq<char>) -> RouteView {
    if request_line == "GET / HTTP/1.1"@ {
        RouteView { status_line: "HTTP/1.1 200 OK"@, filename: "hello.html"@, delay_secs: 0 }
    } else if request_line == "GET /sleep HTTP/1.1"@ {
        RouteView { status_line: "HTTP/1.1 200 OK"@, filename: "hello.html"@, delay_secs: 5 }
    } else {
        RouteView { status_line: "HTTP/1.1 404 NOT FOUND"@, filename: "404.html"@, delay_secs: 0 }
    }
}

/// Whether two string slices hold the same characters.
fn same_text(left: &str, right: &str) -> (same: bool)
    ensures
        same == (left@ == right@),
{
    String::from_str(left) == String::from_str(right)
}

/// Decides what to answer to the first line of a request.
pub fn route(request_line: &str) -> (route: Route)
    ensures
        route@ == route_for(request_line@),
{
    if same_text(request_line, "GET / HTTP/1.1") {
        Route { status_line: "HTTP/1.1 200 OK", filename: "hello.html", delay_secs: 0 }
    } else if same_text(request_line, "GET /sleep HTTP/1.1") {
        Route { status_line: "HTTP/1.1 200 OK", filename: "hello.html", delay_secs: 5 }
    } else {
        Route { status_line: "HTTP/1.1 404 NOT FOUND", filename: "404.html", delay_secs: 0 }
    }
}

/// The answer that goes out: the status line, the length of the contents
/// in bytes under its header, an empty line, and the contents.
pub open spec fn response_text(status_line: Seq<char>, length: nat, contents: Seq<char>) -> Seq<
    char,
> {
    status_line + "\r\nContent-Length: "@ + decimal(length) + "\r\n\r\n"@ + contents
}

/// Frames `contents` as the answer with the status line `status_line`.
pub fn response(status_line: &str, contents: &str) -> (response: String)
    ensures
        response@ == response_text(status_line@, contents.spec_bytes().len(), contents@),
{
    let length = contents.as_bytes().len();
    let digits = usize_text(length);
    let mut response = String::from_str(status_line);
    response.append("\r\nContent-Length: ");
    response.append(digits.as_str());
    response.append("\r\n\r\n");
    response.append(contents);
    response
}

} // verus!
