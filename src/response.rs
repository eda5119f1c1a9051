//! What the bridge reads back from the service: the check that an answer is
//! text, and the bearer token taken from the login answer's headers.
use vstd::prelude::*;
use vstd::utf8::{encode_utf8, valid_utf8};

use crate::bytes::{holds_at, push_range};
use crate::error::Failure;

verus! {

/// Relies on std::str::from_utf8: it succeeds on exactly the well-formed
/// UTF-8 byte sequences.
#[verifier::external_body]
pub(crate) fn is_text(b: &[u8]) -> (r: bool)
    ensures
        r == valid_utf8(b@),
{
    std::str::from_utf8(b).is_ok()
}

/// The position of the first newline at or after `i`, or the length of `s`
/// when there is none.
pub open spec fn line_stop(s: Seq<u8>, i: int) -> int
    decreases s.len() - i,
{
    if i < 0 || i >= s.len() {
        s.len() as int
    } else if s[i] == 10u8 {
        i
    } else {
        line_stop(s, i + 1)
    }
}

/// The line that starts at `i`, without its line ending: a carriage return
/// is dropped only where a newline follows it.
pub open spec fn line_at(s: Seq<u8>, i: int) -> Seq<u8> {
    let e = line_stop(s, i);
    if e < s.len() && e > i && s[e - 1] == 13u8 {
        s.subrange(i, e - 1)
    } else {
        s.subrange(i, e)
    }
}

/// The header prefix that carries the bearer token.
pub open spec fn token_header() -> Seq<u8> {
    encode_utf8("x-access-token: "@)
}

/// What follows the token header in `line`, or nothing when the line does
/// not start with it.
pub open spec fn header_value(line: Seq<u8>) -> Seq<u8> {
    let h = token_header();
    if h.len() <= line.len() && line.subrange(0, h.len() as int) == h {
        line.subrange(h.len() as int, line.len() as int)
    } else {
        Seq::empty()
    }
}

proof fn lemma_line_stop(s: Seq<u8>, i: int)
    requires
        0 <= i <= s.len(),
    ensures
        i <= line_stop(s, i) <= s.len(),
        line_stop(s, i) < s.len() ==> s[line_stop(s, i)] == 10u8,
    decreases s.len() - i,
{
    if i < s.len() && s[i] != 10u8 {
        lemma_line_stop(s, i + 1);
    }
}

#[via_fn]
proof fn token_from_decreases(s: Seq<u8>, i: int) {
    if 0 <= i < s.len() {
        lemma_line_stop(s, i);
    }
}

/// The token values of the lines from position `i` on, joined in order.
pub open spec fn token_from(s: Seq<u8>, i: int) -> Seq<u8>
    decreases s.len() + 1 - i via token_from_decreases
{
    if i < 0 || i >= s.len() {
        Seq::empty()
    } else {
        header_value(line_at(s, i)) + token_from(s, line_stop(s, i) + 1)
    }
}

/// The bearer token of a response: the rest of every line that starts with
/// `x-access-token: `, joined in order; empty when no line does.
pub open spec fn token_of(response: Seq<u8>) -> Seq<u8> {
    token_from(response, 0)
}

/// The bearer token carried by `response` (see `token_of`).
pub fn extract_token(response: &[u8]) -> (r: Vec<u8>)
    ensures
        r@ == token_of(response@),
{
    let header = "x-access-token: ".as_bytes();
    let n = response.len();
    let mut token: Vec<u8> = Vec::new();
    let mut i: usize = 0;
    while i < n
        invariant
            i <= n,
            n == response@.len(),
            header@ == token_header(),
            token_of(response@) == token@ + token_from(response@, i as int),
        decreases n - i,
    {
        let mut e: usize = i;
        while e < n && response[e] != 10u8
            invariant
                i <= e <= n,
                n == response@.len(),
                line_stop(response@, i as int) == line_stop(response@, e as int),
            decreases n - e,
        {
            e = e + 1;
        }
        let ghost s = response@;
        assert(line_stop(s, i as int) == e);
        let stop: usize = if e < n && e > i && response[e - 1] == 13u8 {
            e - 1
        } else {
            e
        };
        let ghost line = line_at(s, i as int);
        assert(line =~= s.subrange(i as int, stop as int));
        let ghost before = token@;
        if holds_at(response, i, stop, header) {
            assert(line.subrange(0, header@.len() as int) =~= s.subrange(
                i as int,
                i + header@.len(),
            ));
            push_range(&mut token, response, i + header.len(), stop);
            assert(header_value(line) =~= s.subrange(i + header@.len(), stop as int));
        } else {
            proof {
                if header@.len() <= line.len() {
                    assert(line.subrange(0, header@.len() as int) =~= s.subrange(
                        i as int,
                        i + header@.len(),
                    ));
                }
            }
        }
        assert(token@ == before + header_value(line));
        assert(token_from(s, i as int) == header_value(line) + token_from(s, e + 1));
        if e < n {
            i = e + 1;
        } else {
            i = n;
        }
        assert(token_of(s) =~= token@ + token_from(s, i as int));
    }
    token
}

/// The token of a login answer, or `InvalidText` when the answer is not
/// UTF-8 text.
pub fn get_token(response: &[u8]) -> (r: Result<Vec<u8>, Failure>)
    ensures
        valid_utf8(response@) ==> r is Ok && r->Ok_0@ == token_of(response@),
        !valid_utf8(response@) ==> r == Err::<Vec<u8>, Failure>(Failure::InvalidText),
{
    if !is_text(response) {
        return Err(Failure::InvalidText);
    }
    Ok(extract_token(response))
}

/// Accepts an answer of the service when it is UTF-8 text.
pub fn check_response(response: &[u8]) -> (r: Result<(), Failure>)
    ensures
        r is Ok <==> valid_utf8(response@),
        r is Err ==> r == Err::<(), Failure>(Failure::InvalidText),
{
    if is_text(response) {
        Ok(())
    } else {
        Err(Failure::InvalidText)
    }
}


/// Whether the token header stands in `s` from position `j` on.
pub open spec fn header_at(s: Seq<u8>, j: int) -> bool {
    &&& j + token_header().len() <= s.len()
    &&& s.subrange(j, j + token_header().len()) == token_header()
}

proof fn lemma_no_header_from(s: Seq<u8>, i: int)
    requires
        0 <= i,
        forall|j: int| 0 <= j ==> !#[trigger] header_at(s, j),
    ensures
        token_from(s, i) == Seq::<u8>::empty(),
    decreases s.len() + 1 - i,
{
    if i < s.len() {
        lemma_line_stop(s, i);
        let line = line_at(s, i);
        let h = token_header();
        if h.len() <= line.len() {
            assert(line.subrange(0, h.len() as int) =~= s.subrange(i, i + h.len()));
            assert(!header_at(s, i));
        }
        lemma_no_header_from(s, line_stop(s, i) + 1);
        assert(token_from(s, i) =~= Seq::<u8>::empty());
    }
}

/// A response in which the token header appears nowhere carries an empty
/// token.
pub proof fn token_absent(response: Seq<u8>)
    requires
        forall|j: int| 0 <= j ==> !#[trigger] header_at(response, j),
    ensures
        token_of(response) == Seq::<u8>::empty(),
{
    lemma_no_header_from(response, 0);
}

} // verus!
