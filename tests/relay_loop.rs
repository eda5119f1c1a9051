use barcode_scanner::http::login_request;
use barcode_scanner::relay::{ReadEvent, Relay, RelayAction, StopReason};
use barcode_scanner::response::get_token;

fn relay() -> Relay {
    Relay::new("127.0.0.1", b"abc123".to_vec(), "ST1")
}

#[test]
fn five_byte_read_sends_one_scan() {
    match relay().on_read(&ReadEvent::Data(b"12345".to_vec())) {
        RelayAction::Send(req) => {
            let text = String::from_utf8(req).unwrap();
            assert!(text.starts_with("POST /api/v1/badges/archivio HTTP/1.1\r\n"));
            assert!(text.contains("\r\nx-access-token: abc123\r\n"));
            assert!(text.ends_with("\r\n\r\n{\"barcode\":\"12345\",\"postazioneId\":\"ST1\"}"));
            assert_eq!(text.matches("POST ").count(), 1);
        }
        other => panic!("unexpected action {:?}", other),
    }
}

#[test]
fn timeout_sends_nothing_and_waits() {
    assert!(matches!(relay().on_read(&ReadEvent::TimedOut), RelayAction::Wait));
}

#[test]
fn other_read_error_stops() {
    assert!(matches!(relay().on_read(&ReadEvent::Failed), RelayAction::Stop(StopReason::DeviceError)));
}

#[test]
fn non_text_scan_stops() {
    assert!(matches!(
        relay().on_read(&ReadEvent::Data(vec![0x31, 0xff])),
        RelayAction::Stop(StopReason::InvalidText)
    ));
}

#[test]
fn empty_token_is_used_as_is() {
    let r = Relay::new("h", get_token(b"HTTP/1.1 200 OK\r\n\r\n").unwrap(), "2");
    match r.on_read(&ReadEvent::Data(b"1".to_vec())) {
        RelayAction::Send(req) => assert!(String::from_utf8(req).unwrap().contains("\r\nx-access-token: \r\n")),
        other => panic!("unexpected action {:?}", other),
    }
}

#[test]
fn login_then_one_scan_makes_two_posts_in_order() {
    let mut posts: Vec<Vec<u8>> = Vec::new();
    posts.push(login_request("127.0.0.1", "kiosk", "pw"));
    let answer = b"HTTP/1.1 200 OK\r\nx-access-token: tok9\r\nContent-Length: 0\r\n\r\n";
    let token = get_token(answer).unwrap();
    let relay = Relay::new("127.0.0.1", token, "ST1");
    let reads = vec![ReadEvent::TimedOut, ReadEvent::Data(b"9988776655".to_vec()), ReadEvent::TimedOut];
    for ev in &reads {
        match relay.on_read(ev) {
            RelayAction::Send(req) => posts.push(req),
            RelayAction::Wait => {}
            RelayAction::Stop(reason) => panic!("stopped: {:?}", reason),
        }
    }
    assert_eq!(posts.len(), 2);
    let first = String::from_utf8(posts[0].clone()).unwrap();
    let second = String::from_utf8(posts[1].clone()).unwrap();
    assert!(first.starts_with("POST /api/v1/users/login HTTP/1.1\r\n"));
    assert!(second.starts_with("POST /api/v1/badges/archivio HTTP/1.1\r\n"));
    assert!(second.contains("x-access-token: tok9\r\n"));
    assert!(second.ends_with("{\"barcode\":\"9988776655\",\"postazioneId\":\"ST1\"}"));
}
