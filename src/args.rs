//! The command line: `PASSWORD POSTAZIONE [HOST] [PORT]` after the program
//! name, with the host and port taking their defaults when left out.
use vstd::prelude::*;
use vstd::string::StringExecFns;
use vstd::utf8::encode_utf8;

use crate::error::Failure;

verus! {

/// The port used when none is given.
pub const DEFAULT_PORT: u16 = 4316;

/// Whether `b` is an ASCII decimal digit.
pub open spec fn is_digit(b: u8) -> bool {
    48 <= b <= 57
}

/// The number written by the decimal digits `d`, most significant first.
pub open spec fn digits_value(d: Seq<u8>) -> nat
    decreases d.len(),
{
    if d.len() == 0 {
        0
    } else {
        digits_value(d.drop_last()) * 10 + (d.last() - 48) as nat
    }
}

/// The digits of a port number: the text without one leading `+`.
pub open spec fn port_digits(t: Seq<u8>) -> Seq<u8> {
    if t.len() > 0 && t[0] == 43u8 {
        t.subrange(1, t.len() as int)
    } else {
        t
    }
}

/// Whether `t` is a port number: an optional `+`, then at least one decimal
/// digit, with a value of at most 65535 (leading zeros allowed).
pub open spec fn port_text_ok(t: Seq<u8>) -> bool {
    let d = port_digits(t);
    &&& d.len() > 0
    &&& forall|j: int| 0 <= j < d.len() ==> is_digit(#[trigger] d[j])
    &&& digits_value(d) <= 65535
}

/// The port that `t` writes.
pub open spec fn port_value(t: Seq<u8>) -> nat {
    digits_value(port_digits(t))
}

/// Reads a port number (see `port_text_ok`), or gives `BadPort`.
pub fn parse_port(text: &str) -> (r: Result<u16, Failure>)
    ensures
        port_text_ok(encode_utf8(text@)) ==> r == Ok::<u16, Failure>(
            port_value(encode_utf8(text@)) as u16,
        ),
        !port_text_ok(encode_utf8(text@)) ==> r == Err::<u16, Failure>(Failure::BadPort),
{
    let t = text.as_bytes();
    let ghost tb = t@;
    let start: usize = if t.len() > 0 && t[0] == 43u8 {
        1
    } else {
        0
    };
    let ghost d = port_digits(tb);
    assert(tb == encode_utf8(text@));
    assert(d =~= tb.subrange(start as int, tb.len() as int));
    if start == t.len() {
        assert(d.len() == 0);
        return Err(Failure::BadPort);
    }
    let mut v: u32 = 0;
    let mut k: usize = start;
    while k < t.len()
        invariant
            tb == t@,
            tb == encode_utf8(text@),
            d == port_digits(tb),
            start <= k <= t@.len(),
            d == t@.subrange(start as int, t@.len() as int),
            forall|j: int| 0 <= j < k - start ==> is_digit(#[trigger] d[j]),
            v <= 65536,
            v <= 65535 ==> v == digits_value(d.subrange(0, k - start)),
            v == 65536 ==> digits_value(d.subrange(0, k - start)) > 65535,
        decreases t@.len() - k,
    {
        let b = t[k];
        if b < 48u8 || b > 57u8 {
            assert(!is_digit(d[k - start]));
            return Err(Failure::BadPort);
        }
        let ghost old_v = digits_value(d.subrange(0, k - start));
        let ghost next = d.subrange(0, k + 1 - start);
        assert(next.drop_last() =~= d.subrange(0, k - start));
        assert(digits_value(next) == old_v * 10 + (b - 48) as nat);
        if v == 65536 {
            assert(old_v * 10 + (b - 48) as nat > 65535) by (nonlinear_arith)
                requires
                    old_v > 65535,
            ;
        } else {
            let w: u32 = v * 10 + (b - 48) as u32;
            if w > 65535 {
                v = 65536;
            } else {
                v = w;
            }
        }
        k = k + 1;
    }
    assert(d.subrange(0, d.len() as int) =~= d);
    if v > 65535 {
        Err(Failure::BadPort)
    } else {
        Ok(v as u16)
    }
}

/// The values given on the command line.
#[derive(Debug)]
pub struct CmdArgs {
    pub password: String,
    pub postazione: String,
    pub host: String,
    pub port: u16,
}

/// What reading `rest`, the arguments after the program name, gives: a
/// missing password or station first, then a port that is not a number; the
/// host defaults to `127.0.0.1` and the port to 4316; further arguments are
/// ignored.
pub open spec fn parsed_from(rest: Seq<String>, r: Result<CmdArgs, Failure>) -> bool {
    if rest.len() < 2 {
        r == Err::<CmdArgs, Failure>(Failure::MissingArgument)
    } else if rest.len() >= 4 && !port_text_ok(encode_utf8(rest[3]@)) {
        r == Err::<CmdArgs, Failure>(Failure::BadPort)
    } else {
        &&& r is Ok
        &&& r->Ok_0.password@ == rest[0]@
        &&& r->Ok_0.postazione@ == rest[1]@
        &&& r->Ok_0.host@ == (if rest.len() >= 3 {
            rest[2]@
        } else {
            "127.0.0.1"@
        })
        &&& r->Ok_0.port == (if rest.len() >= 4 {
            port_value(encode_utf8(rest[3]@))
        } else {
            DEFAULT_PORT as nat
        })
    }
}

impl CmdArgs {
    /// Reads the arguments after the program name (see `parsed_from`).
    pub fn build(rest: &[String]) -> (r: Result<CmdArgs, Failure>)
        ensures
            parsed_from(rest@, r),
    {
        if rest.len() < 2 {
            return Err(Failure::MissingArgument);
        }
        let password = rest[0].clone();
        let postazione = rest[1].clone();
        let host = if rest.len() >= 3 {
            rest[2].clone()
        } else {
            String::from_str("127.0.0.1")
        };
        let port = if rest.len() >= 4 {
            match parse_port(rest[3].as_str()) {
                Ok(p) => p,
                Err(e) => {
                    return Err(e);
                },
            }
        } else {
            DEFAULT_PORT
        };
        Ok(CmdArgs { password, postazione, host, port })
    }
}

/// The running program: its name, for messages, and its arguments once read.
pub struct Program {
    name: String,
    args: Option<CmdArgs>,
}

impl Program {
    /// The name that messages carry.
    pub closed spec fn spec_name(&self) -> Seq<char> {
        self.name@
    }

    /// The arguments, once read.
    pub closed spec fn spec_args(&self) -> Option<CmdArgs> {
        self.args
    }

    /// A program named by the first item of `argv`, or `barcode_scanner`
    /// when `argv` is empty; no arguments are read yet.
    pub fn new(argv: &[String]) -> (r: Program)
        ensures
            r.spec_name() == (if argv@.len() > 0 {
                argv@[0]@
            } else {
                "barcode_scanner"@
            }),
            r.spec_args() is None,
    {
        let name = if argv.len() > 0 {
            argv[0].clone()
        } else {
            String::from_str("barcode_scanner")
        };
        Program { name, args: None }
    }

    /// The arguments, once read.
    pub fn get_args(&self) -> (r: &Option<CmdArgs>)
        ensures
            *r == self.spec_args(),
    {
        &self.args
    }

    /// Reads the arguments after the program name; on an error the program
    /// is left as it was.
    pub fn set_args(&mut self, rest: &[String]) -> (r: Result<(), Failure>)
        ensures
            final(self).spec_name() == old(self).spec_name(),
            r is Ok ==> final(self).spec_args() is Some && parsed_from(
                rest@,
                Ok(final(self).spec_args()->Some_0),
            ),
            r is Err ==> final(self).spec_args() == old(self).spec_args() && parsed_from(
                rest@,
                Err(r->Err_0),
            ),
    {
        match CmdArgs::build(rest) {
            Ok(a) => {
                self.args = Some(a);
                Ok(())
            },
            Err(e) => Err(e),
        }
    }

    /// The usage line: `usage: NAME PASSWORD POSTAZIONE HOST PORT`.
    pub fn usage(&self) -> (r: String)
        ensures
            r@ == "usage: "@ + self.spec_name() + " PASSWORD POSTAZIONE HOST PORT"@,
    {
        let mut r = String::new();
        r.append("usage: ");
        r.append(self.name.as_str());
        r.append(" PASSWORD POSTAZIONE HOST PORT");
        r
    }

    /// The line that reports `err`: `NAME: error: ERR`.
    pub fn print_err(&self, err: &str) -> (r: String)
        ensures
            r@ == self.spec_name() + ": error: "@ + err@,
    {
        let mut r = String::new();
        r.append(self.name.as_str());
        r.append(": error: ");
        r.append(err);
        r
    }

    /// The status the process ends with when it gives up.
    pub fn fail(&self) -> (r: i32)
        ensures
            r == 1,
    {
        1
    }

    /// The line that reports `err`, and the status the process then ends with.
    pub fn print_fail(&self, err: &str) -> (r: (String, i32))
        ensures
            r.0@ == self.spec_name() + ": error: "@ + err@,
            r.1 == 1,
    {
        (self.print_err(err), self.fail())
    }
}


/// Left out, the host reads `127.0.0.1` and the port 4316; the password and
/// the station cannot be left out.
pub proof fn command_line_defaults(rest: Seq<String>, r: Result<CmdArgs, Failure>)
    requires
        parsed_from(rest, r),
    ensures
        rest.len() < 2 <==> r == Err::<CmdArgs, Failure>(Failure::MissingArgument),
        rest.len() == 2 ==> r is Ok && r->Ok_0.host@ == "127.0.0.1"@ && r->Ok_0.port == 4316,
        rest.len() == 3 ==> r is Ok && r->Ok_0.host@ == rest[2]@ && r->Ok_0.port == 4316,
{
}

} // verus!
