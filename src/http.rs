//! The HTTP/1.1 requests that the bridge writes on its TLS stream, built as
//! bytes, and the number written in their `Content-Length` header.
use vstd::prelude::*;
use vstd::utf8::encode_utf8;

use crate::bytes::push_bytes;

verus! {

/// The ASCII digit of a value below ten.
pub open spec fn digit(d: nat) -> u8 {
    (48 + d) as u8
}

/// The decimal text of `n`, most significant digit first, with no leading zero.
pub open spec fn decimal(n: nat) -> Seq<u8>
    decreases n,
{
    if n < 10 {
        seq![digit(n)]
    } else {
        decimal(n / 10) + seq![digit(n % 10)]
    }
}

/// Appends the decimal text of `n` to `out`.
pub fn push_decimal(out: &mut Vec<u8>, n: usize)
    ensures
        final(out)@ == old(out)@ + decimal(n as nat),
    decreases n,
{
    if n >= 10 {
        push_decimal(out, n / 10);
    }
    out.push((48 + n % 10) as u8);
    assert(out@ =~= old(out)@ + decimal(n as nat));
}

/// The JSON body of the login request: both values stand verbatim between
/// the quotes, with no escaping.
pub open spec fn login_body_of(username: Seq<u8>, password: Seq<u8>) -> Seq<u8> {
    encode_utf8("{\"username\":\""@) + username + encode_utf8("\",\"password\":\""@) + password
        + encode_utf8("\"}"@)
}

/// The JSON body of a scan request: the scanned text and the station stand
/// verbatim between the quotes.
pub open spec fn scan_body_of(barcode: Seq<u8>, station: Seq<u8>) -> Seq<u8> {
    encode_utf8("{\"barcode\":\""@) + barcode + encode_utf8("\",\"postazioneId\":\""@) + station
        + encode_utf8("\"}"@)
}

/// The headers shared by both requests after the ones that differ, the blank
/// line, and the body.
pub open spec fn tail_of(body: Seq<u8>) -> Seq<u8> {
    encode_utf8("\r\nContent-Type: application/json; charset=utf-8\r\nContent-Length: "@)
        + decimal(body.len()) + encode_utf8("\r\n\r\n"@) + body
}

/// The whole login request.
pub open spec fn login_request_of(host: Seq<u8>, username: Seq<u8>, password: Seq<u8>) -> Seq<u8> {
    encode_utf8("POST /api/v1/users/login HTTP/1.1\r\nHost: "@) + host + tail_of(
        login_body_of(username, password),
    )
}

/// The whole request that reports one scan, carrying the bearer token.
pub open spec fn scan_request_of(
    host: Seq<u8>,
    token: Seq<u8>,
    barcode: Seq<u8>,
    station: Seq<u8>,
) -> Seq<u8> {
    encode_utf8("POST /api/v1/badges/archivio HTTP/1.1\r\nHost: "@) + host + encode_utf8(
        "\r\nx-access-token: "@,
    ) + token + tail_of(scan_body_of(barcode, station))
}

/// The body of the login request for `username` and `password`.
pub fn login_body(username: &str, password: &str) -> (r: Vec<u8>)
    ensures
        r@ == login_body_of(encode_utf8(username@), encode_utf8(password@)),
{
    let mut r: Vec<u8> = Vec::new();
    push_bytes(&mut r, "{\"username\":\"".as_bytes());
    push_bytes(&mut r, username.as_bytes());
    push_bytes(&mut r, "\",\"password\":\"".as_bytes());
    push_bytes(&mut r, password.as_bytes());
    push_bytes(&mut r, "\"}".as_bytes());
    assert(r@ =~= login_body_of(encode_utf8(username@), encode_utf8(password@)));
    r
}

/// The body of the request that reports `barcode`, read at `station`.
pub fn scan_body(barcode: &[u8], station: &str) -> (r: Vec<u8>)
    ensures
        r@ == scan_body_of(barcode@, encode_utf8(station@)),
{
    let mut r: Vec<u8> = Vec::new();
    push_bytes(&mut r, "{\"barcode\":\"".as_bytes());
    push_bytes(&mut r, barcode);
    push_bytes(&mut r, "\",\"postazioneId\":\"".as_bytes());
    push_bytes(&mut r, station.as_bytes());
    push_bytes(&mut r, "\"}".as_bytes());
    assert(r@ =~= scan_body_of(barcode@, encode_utf8(station@)));
    r
}

/// Appends the content headers, the blank line and `body` to `out`.
fn push_tail(out: &mut Vec<u8>, body: &[u8])
    ensures
        final(out)@ == old(out)@ + tail_of(body@),
{
    let ghost start = out@;
    push_bytes(out, "\r\nContent-Type: application/json; charset=utf-8\r\nContent-Length: ".as_bytes());
    push_decimal(out, body.len());
    push_bytes(out, "\r\n\r\n".as_bytes());
    push_bytes(out, body);
    assert(out@ =~= start + tail_of(body@));
}

/// The login request sent to `host` for `username` and `password`.
pub fn login_request(host: &str, username: &str, password: &str) -> (r: Vec<u8>)
    ensures
        r@ == login_request_of(
            encode_utf8(host@),
            encode_utf8(username@),
            encode_utf8(password@),
        ),
{
    let body = login_body(username, password);
    let mut r: Vec<u8> = Vec::new();
    push_bytes(&mut r, "POST /api/v1/users/login HTTP/1.1\r\nHost: ".as_bytes());
    push_bytes(&mut r, host.as_bytes());
    push_tail(&mut r, body.as_slice());
    assert(r@ =~= login_request_of(
        encode_utf8(host@),
        encode_utf8(username@),
        encode_utf8(password@),
    ));
    r
}

/// The request sent to `host` that reports `barcode`, read at `station`,
/// under the bearer `token`.
pub fn scan_request(host: &str, token: &[u8], barcode: &[u8], station: &str) -> (r: Vec<u8>)
    ensures
        r@ == scan_request_of(encode_utf8(host@), token@, barcode@, encode_utf8(station@)),
{
    let body = scan_body(barcode, station);
    let mut r: Vec<u8> = Vec::new();
    push_bytes(&mut r, "POST /api/v1/badges/archivio HTTP/1.1\r\nHost: ".as_bytes());
    push_bytes(&mut r, host.as_bytes());
    push_bytes(&mut r, "\r\nx-access-token: ".as_bytes());
    push_bytes(&mut r, token);
    push_tail(&mut r, body.as_slice());
    assert(r@ =~= scan_request_of(encode_utf8(host@), token@, barcode@, encode_utf8(station@)));
    r
}


/// The login body carries the user name and the password verbatim, each
/// between the quotes of its JSON member.
pub proof fn login_body_round_trip(username: Seq<u8>, password: Seq<u8>)
    ensures
        ({
            let body = login_body_of(username, password);
            let a = encode_utf8("{\"username\":\""@).len() as int;
            let b = a + username.len() + encode_utf8("\",\"password\":\""@).len();
            &&& body.subrange(0, a) == encode_utf8("{\"username\":\""@)
            &&& body.subrange(a, a + username.len()) == username
            &&& body.subrange(a + username.len(), b) == encode_utf8("\",\"password\":\""@)
            &&& body.subrange(b, b + password.len()) == password
            &&& body.subrange(b + password.len(), body.len() as int) == encode_utf8("\"}"@)
        }),
{
    let body = login_body_of(username, password);
    let a = encode_utf8("{\"username\":\""@).len() as int;
    let b = a + username.len() + encode_utf8("\",\"password\":\""@).len();
    assert(body.subrange(0, a) =~= encode_utf8("{\"username\":\""@));
    assert(body.subrange(a, a + username.len()) =~= username);
    assert(body.subrange(a + username.len(), b) =~= encode_utf8("\",\"password\":\""@));
    assert(body.subrange(b, b + password.len()) =~= password);
    assert(body.subrange(b + password.len(), body.len() as int) =~= encode_utf8("\"}"@));
}

} // verus!
