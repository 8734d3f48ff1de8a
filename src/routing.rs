use vstd::prelude::*;
use vstd::string::StrSliceExecFns;
use crate::response::Status;

verus! {

/// How long, in seconds, a request for the slow path is held before it is answered.
pub const SLOW_PATH_DELAY_SECS: u64 = 10;

/// The static pages that responses are made from.
#[derive(Clone, Copy, Debug, PartialEq, Eq, Structural)]
pub enum Page {
    Hello,
    NotFound,
}

/// The name of the file that holds `page`.
pub open spec fn file_name_of(page: Page) -> Seq<char> {
    match page {
        Page::Hello => "hello.html"@,
        Page::NotFound => "404.html"@,
    }
}

impl Page {
    /// The name of the file that holds this page.
    pub fn file_name(&self) -> (r: &'static str)
        ensures
            r@ == file_name_of(*self),
    {
        match self {
            Page::Hello => "hello.html",
            Page::NotFound => "404.html",
        }
    }
}

/// What is served for one request: the status, the page, and how long to
/// wait before answering.
#[derive(Clone, Copy, Debug, PartialEq, Eq, Structural)]
pub struct Route {
    pub status: Status,
    pub page: Page,
    pub delay_secs: u64,
}

/// The route for a request line (the first line of a request, without its
/// line break): the root and the slow path serve the hello page, the slow
/// path after a delay; anything else is not found.
pub open spec fn route_of(request_line: Seq<char>) -> Route {
    if request_line == "GET / HTTP/1.1"@ {
        Route { status: Status::Found, page: Page::Hello, delay_secs: 0 }
    } else if request_line == "GET /sleep HTTP/1.1"@ {
        Route { status: Status::Found, page: Page::Hello, delay_secs: SLOW_PATH_DELAY_SECS }
    } else {
        Route { status: Status::NotFound, page: Page::NotFound, delay_secs: 0 }
    }
}

/// Whether two strings hold the same characters.
fn same_text(a: &str, b: &str) -> (r: bool)
    ensures
        r == (a@ == b@),
{
    let n = a.unicode_len();
    if n != b.unicode_len() {
        return false;
    }
    let mut i: usize = 0;
    while i < n
        invariant
            n == a@.len(),
            n == b@.len(),
            i <= n,
            forall|j: int| 0 <= j < i ==> a@[j] == b@[j],
        decreases n - i,
    {
        if a.get_char(i) != b.get_char(i) {
            return false;
        }
        i += 1;
    }
    assert(a@ =~= b@);
    true
}

/// Chooses what to serve for a request line.
pub fn route(request_line: &str) -> (r: Route)
    ensures
        r == route_of(request_line@),
{
    if same_text(request_line, "GET / HTTP/1.1") {
        Route { status: Status::Found, page: Page::Hello, delay_secs: 0 }
    } else if same_text(request_line, "GET /sleep HTTP/1.1") {
        Route { status: Status::Found, page: Page::Hello, delay_secs: SLOW_PATH_DELAY_SECS }
    } else {
        Route { status: Status::NotFound, page: Page::NotFound, delay_secs: 0 }
    }
}

/// The body served when a page's file cannot be read.
pub open spec fn fallback_body() -> Seq<char> {
    "<h1>404 - Page Not Found</h1><p>Sorry, the page you requested does not exist.</p>"@
}

/// The body to serve, given what reading the page's file gave (`None` when
/// it could not be read).
pub fn page_contents(read: Option<String>) -> (r: String)
    ensures
        r@ == match read {
            Some(s) => s@,
            None => fallback_body(),
        },
{
    match read {
        Some(s) => s,
        None => "<h1>404 - Page Not Found</h1><p>Sorry, the page you requested does not exist.</p>".to_owned(),
    }
}

} // verus!
