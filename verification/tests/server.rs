use nmos_core::server::{choose_page, Page};

#[test]
fn the_start_page() {
    assert_eq!(
        choose_page("GET / HTTP/1.1\r\nHost: localhost\r\n\r\n"),
        Page { status_line: "HTTP/1.1 200 OK\r\r", filename: "hello.html", delay_seconds: 0 }
    );
    assert_eq!(
        choose_page("GET / HTTP/1.1\r"),
        Page { status_line: "HTTP/1.1 200 OK\r\r", filename: "hello.html", delay_seconds: 0 }
    );
}

#[test]
fn the_start_page_after_a_pause() {
    assert_eq!(
        choose_page("GET /sleep HTTP/1.1\r\n\r\n"),
        Page { status_line: "HTTP/1.1 200 OK\r\r", filename: "hello.html", delay_seconds: 5 }
    );
}

#[test]
fn everything_else_is_not_found() {
    let not_found =
        Page { status_line: "HTTP/1.1 404 NOT FOUND\r\r", filename: "404.html", delay_seconds: 0 };
    assert_eq!(choose_page(""), not_found);
    assert_eq!(choose_page("GET / HTTP/1.1"), not_found);
    assert_eq!(choose_page("GET /x HTTP/1.1\r\n"), not_found);
    assert_eq!(choose_page("POST / HTTP/1.1\r\n"), not_found);
    assert_eq!(choose_page(" GET / HTTP/1.1\r\n"), not_found);
    assert_eq!(choose_page("GET /sleep HTTP/1.0\r\n"), not_found);
}
