use rusty_reverse_proxy::forward::{classify, ForwardError};
use rusty_reverse_proxy::translate::{is_valid_header_value, translate, upstream_url, TranslateError};

#[test]
fn upstream_url_keeps_path_and_query() {
    assert_eq!(upstream_url("127.0.0.1:9001", "/foo?x=1"), "http://127.0.0.1:9001/foo?x=1");
    assert_eq!(upstream_url("svc", ""), "http://svc");
}

#[test]
fn translate_ok() {
    let headers = vec![b"a.example.com".to_vec(), b"text/html\tq=1".to_vec()];
    assert_eq!(
        translate("127.0.0.1:9001", "/foo?x=1", &headers, Some(10), 100),
        Ok("http://127.0.0.1:9001/foo?x=1".to_string())
    );
    assert_eq!(
        translate("127.0.0.1:9001", "/", &Vec::new(), None, 0),
        Ok("http://127.0.0.1:9001/".to_string())
    );
    assert_eq!(translate("h", "/", &Vec::new(), Some(5), 5), Ok("http://h/".to_string()));
}

#[test]
fn body_too_large() {
    let ten_mb: u64 = 10 * 1024 * 1024;
    let five_mb: u64 = 5 * 1024 * 1024;
    assert_eq!(
        translate("127.0.0.1:9001", "/upload", &Vec::new(), Some(ten_mb), five_mb),
        Err(TranslateError::BodyTooLarge)
    );
    assert_eq!(translate("h", "/", &Vec::new(), Some(6), 5), Err(TranslateError::BodyTooLarge));
}

#[test]
fn malformed_header_value() {
    let headers = vec![b"ok".to_vec(), b"a\nb".to_vec()];
    assert_eq!(translate("h", "/", &headers, None, 5), Err(TranslateError::MalformedRequest));
    let headers = vec![vec![b'a', 0x7f]];
    assert_eq!(translate("h", "/", &headers, Some(5), 5), Err(TranslateError::MalformedRequest));
}

#[test]
fn non_ascii_header_value_is_forwarded() {
    let headers = vec!["caf\u{e9}".as_bytes().to_vec(), vec![0x80, 0xff]];
    assert_eq!(translate("h", "/", &headers, None, 5), Ok("http://h/".to_string()));
}

#[test]
fn body_size_is_checked_before_headers() {
    let headers = vec![vec![0u8]];
    assert_eq!(
        translate("h", "/", &headers, Some(10 * 1024 * 1024), 5 * 1024 * 1024),
        Err(TranslateError::BodyTooLarge)
    );
}

#[test]
fn header_bytes() {
    assert!(is_valid_header_value(&b" ~\t".to_vec()));
    assert!(is_valid_header_value(&Vec::new()));
    assert!(is_valid_header_value(&vec![0x80, 0xfe, 0xff]));
    assert!(!is_valid_header_value(&vec![b'\n']));
    assert!(!is_valid_header_value(&vec![0x7f]));
    assert!(!is_valid_header_value(&vec![0x00]));
}

#[test]
fn classify_failures() {
    assert_eq!(classify(true, false), ForwardError::ConnectFailed);
    assert_eq!(classify(false, true), ForwardError::UpstreamTimeout);
    assert_eq!(classify(true, true), ForwardError::ConnectFailed);
    assert_eq!(classify(false, false), ForwardError::UpstreamProtocolError);
}

#[test]
fn unreachable_upstream_is_connect_failed() {
    let rt = tokio::runtime::Builder::new_current_thread().enable_all().build().unwrap();
    let err = rt.block_on(async { reqwest::Client::new().get("http://127.0.0.1:1/").send().await });
    let err = err.expect_err("nothing listens on port 1");
    assert_eq!(ForwardError::from_reqwest(&err), ForwardError::ConnectFailed);
}
