use barcode_scanner::error::Failure;
use barcode_scanner::response::{check_response, extract_token, get_token};

#[test]
fn token_line_gives_token() {
    let resp = b"HTTP/1.1 200 OK\r\nContent-Type: text/plain\r\nx-access-token: abc123\r\n\r\nok";
    assert_eq!(get_token(resp).unwrap(), b"abc123".to_vec());
}

#[test]
fn no_token_line_gives_empty_token() {
    let resp = b"HTTP/1.1 401 Unauthorized\r\nContent-Length: 0\r\n\r\n";
    assert_eq!(get_token(resp).unwrap(), Vec::<u8>::new());
}

#[test]
fn token_match_is_case_sensitive() {
    assert_eq!(extract_token(b"X-Access-Token: abc123\r\n"), Vec::<u8>::new());
    assert_eq!(extract_token(b"  x-access-token: abc123\r\n"), Vec::<u8>::new());
}

#[test]
fn token_lines_are_joined_in_order() {
    assert_eq!(extract_token(b"x-access-token: ab\nfoo\nx-access-token: cd"), b"abcd".to_vec());
}

#[test]
fn bare_carriage_return_at_end_is_kept() {
    assert_eq!(extract_token(b"x-access-token: ab\r"), b"ab\r".to_vec());
    assert_eq!(extract_token(b"x-access-token: ab\r\n"), b"ab".to_vec());
    assert_eq!(extract_token(b"x-access-token: \r\n"), Vec::<u8>::new());
    assert_eq!(extract_token(b""), Vec::<u8>::new());
}

#[test]
fn non_text_answer_is_refused() {
    assert_eq!(get_token(b"x-access-token: \xff\xfe\r\n"), Err(Failure::InvalidText));
    assert_eq!(check_response(b"\xc3\x28"), Err(Failure::InvalidText));
    assert_eq!(check_response("HTTP/1.1 200 OK\r\n\r\nè".as_bytes()), Ok(()));
    assert_eq!(check_response(b""), Ok(()));
}
