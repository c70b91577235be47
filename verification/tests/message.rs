use acril_web::message::{bytes_equal, find_header, names_match, to_ascii_lower};
use acril_web::{Header, Request, Response, StatusCode};

fn header(name: &str, value: &str) -> Header {
    Header { name: name.as_bytes().to_vec(), value: value.as_bytes().to_vec() }
}

fn request(headers: Vec<Header>) -> Request {
    Request { method: String::from("GET"), target: String::from("/"), headers, body: Vec::new() }
}

#[test]
fn only_upper_case_letters_are_lowered() {
    assert_eq!(to_ascii_lower(b'A'), b'a');
    assert_eq!(to_ascii_lower(b'M'), b'm');
    assert_eq!(to_ascii_lower(b'Z'), b'z');
    assert_eq!(to_ascii_lower(b'a'), b'a');
    assert_eq!(to_ascii_lower(b'z'), b'z');
    assert_eq!(to_ascii_lower(b'@'), b'@');
    assert_eq!(to_ascii_lower(b'['), b'[');
    assert_eq!(to_ascii_lower(b'-'), b'-');
    assert_eq!(to_ascii_lower(0), 0);
    assert_eq!(to_ascii_lower(0xc4), 0xc4);
    assert_eq!(to_ascii_lower(0xff), 0xff);
}

#[test]
fn lowering_agrees_with_std_on_every_byte() {
    for b in 0..=u8::MAX {
        assert_eq!(to_ascii_lower(b), b.to_ascii_lowercase());
    }
}

#[test]
fn names_match_whatever_the_case() {
    assert!(names_match(b"Connection", b"connection"));
    assert!(names_match(b"CONNECTION", b"cOnNeCtIoN"));
    assert!(names_match(b"Content-Type", b"content-type"));
    assert!(names_match(b"", b""));
}

#[test]
fn names_of_other_letters_or_length_do_not_match() {
    assert!(!names_match(b"Connection", b"Connectio"));
    assert!(!names_match(b"Connection", b"Connections"));
    assert!(!names_match(b"Connection", b"Connectiom"));
    assert!(!names_match(b"", b"a"));
    assert!(!names_match(b"a@", b"a`"));
    assert!(!names_match(b"a[", b"a{"));
}

#[test]
fn bytes_are_equal_only_byte_for_byte() {
    assert!(bytes_equal(b"close", b"close"));
    assert!(bytes_equal(b"", b""));
    assert!(!bytes_equal(b"close", b"Close"));
    assert!(!bytes_equal(b"close", b"clos"));
    assert!(!bytes_equal(b"close", b"close "));
    assert!(!bytes_equal(b"close", b"closf"));
}

#[test]
fn lookup_finds_a_header_by_its_name() {
    let headers = vec![header("Host", "example.org"), header("Accept", "*/*")];
    assert_eq!(find_header(&headers, b"Host"), Some(&b"example.org".to_vec()));
    assert_eq!(find_header(&headers, b"Accept"), Some(&b"*/*".to_vec()));
}

#[test]
fn lookup_ignores_the_case_of_the_name() {
    let headers = vec![header("Host", "example.org"), header("cOnTeNt-LeNgTh", "12")];
    assert_eq!(find_header(&headers, b"host"), Some(&b"example.org".to_vec()));
    assert_eq!(find_header(&headers, b"HOST"), Some(&b"example.org".to_vec()));
    assert_eq!(find_header(&headers, b"Content-Length"), Some(&b"12".to_vec()));
}

#[test]
fn lookup_finds_nothing_where_no_header_has_the_name() {
    let headers = vec![header("Host", "example.org")];
    assert_eq!(find_header(&headers, b"Connection"), None);
    assert_eq!(find_header(&headers, b"Hos"), None);
    assert_eq!(find_header(&Vec::new(), b"Host"), None);
}

#[test]
fn lookup_takes_the_first_of_repeated_headers() {
    let headers = vec![
        header("Accept", "text/html"),
        header("Via", "first"),
        header("via", "second"),
        header("VIA", "third"),
    ];
    assert_eq!(find_header(&headers, b"Via"), Some(&b"first".to_vec()));
}

#[test]
fn lookup_keeps_the_value_as_it_is() {
    let headers = vec![header("Connection", "Keep-Alive")];
    assert_eq!(find_header(&headers, b"connection"), Some(&b"Keep-Alive".to_vec()));
}

#[test]
fn request_and_response_look_their_headers_up() {
    let asked = request(vec![header("Host", "example.org")]);
    assert_eq!(asked.header(b"HOST"), Some(&b"example.org".to_vec()));
    assert_eq!(asked.header(b"Accept"), None);

    let answer = Response {
        status: StatusCode::from_u16(200).unwrap(),
        headers: vec![header("Content-Type", "text/html")],
        body: Vec::new(),
    };
    assert_eq!(answer.header(b"content-type"), Some(&b"text/html".to_vec()));
    assert_eq!(answer.header(b"Content-Length"), None);
}
