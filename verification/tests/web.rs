use gotify_desktop::web::{
    add_query,
    add_segment,
    change_scheme,
    check_handshake,
    check_status,
    http_scheme,
    is_short,
    join,
    same_text,
    scheme_of,
    send_api_request,
    send_request,
    MAX_TEXT,
    RequestError,
};

#[test]
fn success_range_is_accepted() {
    assert_eq!(check_status(200), Ok(()));
    assert_eq!(check_status(204), Ok(()));
    assert_eq!(check_status(299), Ok(()));
}

#[test]
fn status_outside_success_range_is_refused() {
    for code in [0_u16, 100, 199, 300, 301, 401, 404, 500, 65535] {
        assert_eq!(check_status(code), Err(RequestError::Status { code }));
    }
}

#[test]
fn handshake_accepts_informational_and_success() {
    assert_eq!(check_handshake(101), Ok(()));
    assert_eq!(check_handshake(100), Ok(()));
    assert_eq!(check_handshake(200), Ok(()));
    assert_eq!(check_handshake(299), Ok(()));
}

#[test]
fn handshake_refuses_the_rest() {
    for code in [0_u16, 99, 300, 302, 401, 403, 500, 999] {
        assert_eq!(check_handshake(code), Err(RequestError::Status { code }));
    }
}

#[test]
fn answer_needs_success_and_shape() {
    assert_eq!(send_api_request(200, Some(5)), Ok(5));
    assert_eq!(send_api_request::<u8>(200, None), Err(RequestError::Decode));
    assert_eq!(send_api_request(404, Some(5)), Err(RequestError::Status { code: 404 }));
    assert_eq!(send_api_request::<u8>(500, None), Err(RequestError::Status { code: 500 }));
}

#[test]
fn scheme_of_the_api() {
    assert_eq!(http_scheme("wss"), Some("https"));
    assert_eq!(http_scheme("ws"), Some("http"));
    assert_eq!(http_scheme("http"), None);
    assert_eq!(http_scheme("https"), None);
    assert_eq!(http_scheme("WSS"), None);
    assert_eq!(http_scheme(""), None);
    assert_eq!(http_scheme("wsss"), None);
}

#[test]
fn same_text_compares_all_of_it() {
    assert!(same_text("abc", "abc"));
    assert!(same_text("", ""));
    assert!(!same_text("abc", "abd"));
    assert!(!same_text("abc", "ab"));
}

#[test]
fn scheme_is_read_from_the_address() {
    assert_eq!(scheme_of("wss://gotify.example.org/x"), Some("wss".to_owned()));
    assert_eq!(scheme_of("WS://gotify.example.org"), Some("ws".to_owned()));
    assert_eq!(scheme_of("file:///tmp/x"), Some("file".to_owned()));
    assert_eq!(scheme_of("no scheme here"), None);
    assert_eq!(scheme_of(""), None);
}

#[test]
fn scheme_is_changed() {
    assert_eq!(
        change_scheme(Some("wss://gotify.example.org/a?b=c"), "https"),
        Some("https://gotify.example.org/a?b=c".to_owned())
    );
    assert_eq!(
        change_scheme(Some("ws://gotify.example.org:80"), "http"),
        Some("http://gotify.example.org/".to_owned())
    );
    assert_eq!(change_scheme(Some("wss://gotify.example.org"), "mailto"), None);
    assert_eq!(change_scheme(Some("wss://gotify.example.org"), "not a scheme"), None);
    assert_eq!(change_scheme(Some("nothing"), "https"), None);
    assert_eq!(change_scheme(None, "https"), None);
}

#[test]
fn segment_is_added() {
    assert_eq!(
        add_segment(Some("https://gotify.example.org"), "message"),
        Some("https://gotify.example.org/message".to_owned())
    );
    assert_eq!(
        add_segment(Some("https://gotify.example.org/base"), "a b/c"),
        Some("https://gotify.example.org/base/a%20b%2Fc".to_owned())
    );
    assert_eq!(
        add_segment(Some("https://gotify.example.org/base/?q=1"), "x"),
        Some("https://gotify.example.org/base//x?q=1".to_owned())
    );
    assert_eq!(add_segment(Some("mailto:someone@example.org"), "x"), None);
    assert_eq!(add_segment(Some("nothing"), "x"), None);
    assert_eq!(add_segment(None, "x"), None);
}

#[test]
fn query_is_added() {
    assert_eq!(
        add_query(Some("https://gotify.example.org/message"), "limit", "200"),
        Some("https://gotify.example.org/message?limit=200".to_owned())
    );
    assert_eq!(
        add_query(Some("https://gotify.example.org/message?since=4"), "a b", "c&d"),
        Some("https://gotify.example.org/message?since=4&a+b=c%26d".to_owned())
    );
    assert_eq!(add_query(Some("nothing"), "limit", "200"), None);
    assert_eq!(add_query(None, "limit", "200"), None);
}

#[test]
fn reference_is_resolved() {
    assert_eq!(
        join("https://gotify.example.org/a/b", "image/x.png"),
        Some("https://gotify.example.org/a/image/x.png".to_owned())
    );
    assert_eq!(
        join("https://gotify.example.org/a/b/", "image/x.png"),
        Some("https://gotify.example.org/a/b/image/x.png".to_owned())
    );
    assert_eq!(
        join("https://gotify.example.org/a/b", "https://other.example/i.png"),
        Some("https://other.example/i.png".to_owned())
    );
    assert_eq!(join("nothing", "image/x.png"), None);
    assert_eq!(join("https://gotify.example.org", "https://["), None);
}

#[test]
fn long_texts_are_refused() {
    let long = "a".repeat(MAX_TEXT + 1);
    let longest = "a".repeat(MAX_TEXT);
    assert!(is_short(&longest));
    assert!(!is_short(&long));
    assert!(is_short(""));
    assert_eq!(scheme_of(&format!("wss://example.org/{long}")), None);
    assert_eq!(add_segment(Some("https://example.org"), &long), None);
    assert_eq!(add_segment(Some("https://example.org"), &longest), None);
    assert_eq!(add_query(Some("https://example.org"), "k", &long), None);
    assert_eq!(add_query(Some("https://example.org"), &long, "v"), None);
    assert_eq!(join("https://example.org", &long), None);
    assert_eq!(change_scheme(Some(&format!("wss://example.org/{long}")), "https"), None);
}

#[test]
fn length_is_counted_in_characters() {
    let wide = "é".repeat(MAX_TEXT);
    assert!(is_short(&wide));
    assert!(!is_short(&format!("{wide}é")));
}

#[test]
fn body_needs_success() {
    assert_eq!(send_request(200, b"png".to_vec()), Ok(b"png".to_vec()));
    assert_eq!(send_request(204, Vec::new()), Ok(Vec::new()));
    assert_eq!(send_request(404, b"gone".to_vec()), Err(RequestError::Status { code: 404 }));
    assert_eq!(send_request(302, b"moved".to_vec()), Err(RequestError::Status { code: 302 }));
}
