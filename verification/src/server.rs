//! The page that the plain listener serves for a request.

use vstd::prelude::*;
use vstd::string::*;
use crate::text::{begins_with, chars_of, has_at};

verus! {

/// What the listener answers a request with: the status line, the file whose
/// content follows it, and the seconds to wait before answering.
#[derive(Debug, Clone, Copy, PartialEq, Eq)]
pub struct Page {
    pub status_line: &'static str,
    pub filename: &'static str,
    pub delay_seconds: u64,
}

/// The request asks for the start page.
pub open spec fn asks_for_start(request: Seq<char>) -> bool {
    begins_with(request, "GET / HTTP/1.1\r"@)
}

/// The request asks for the start page after a pause.
pub open spec fn asks_for_sleep(request: Seq<char>) -> bool {
    begins_with(request, "GET /sleep HTTP/1.1\r"@)
}

/// Chooses the page for a request by the line it begins with: the start page,
/// the start page after five seconds, or the page that says that nothing was found.
pub fn choose_page(request: &str) -> (r: Page)
    ensures
        r.status_line@ == if asks_for_start(request@) || asks_for_sleep(request@) {
            "HTTP/1.1 200 OK\r\r"@
        } else {
            "HTTP/1.1 404 NOT FOUND\r\r"@
        },
        r.filename@ == if asks_for_start(request@) || asks_for_sleep(request@) {
            "hello.html"@
        } else {
            "404.html"@
        },
        r.delay_seconds == if !asks_for_start(request@) && asks_for_sleep(request@) {
            5u64
        } else {
            0u64
        },
{
    let text = chars_of(request);
    let get = chars_of("GET / HTTP/1.1\r");
    let sleep = chars_of("GET /sleep HTTP/1.1\r");
    if has_at(&text, 0, &get) {
        Page { status_line: "HTTP/1.1 200 OK\r\r", filename: "hello.html", delay_seconds: 0 }
    } else if has_at(&text, 0, &sleep) {
        Page { status_line: "HTTP/1.1 200 OK\r\r", filename: "hello.html", delay_seconds: 5 }
    } else {
        Page { status_line: "HTTP/1.1 404 NOT FOUND\r\r", filename: "404.html", delay_seconds: 0 }
    }
}

} // verus!
