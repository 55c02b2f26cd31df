use vstd::prelude::*;
use vstd::string::StringSliceAdditionalSpecFns;
use vstd::utf8::{decode_utf8, encode_utf8, encode_utf8_decode_utf8, valid_utf8};

use crate::status::{Failure, LXET_ERR_INVALID_ARG};

verus! {

/// `std::str::from_utf8`: the string slice over `bytes` when they are valid
/// UTF-8, and nothing otherwise.
#[verifier::external_body]
fn str_from_utf8(bytes: &[u8]) -> (r: Option<&str>)
    ensures
        r is Some <==> valid_utf8(bytes@),
        r matches Some(s) ==> s.spec_bytes() == bytes@,
{
    std::str::from_utf8(bytes).ok()
}

/// The text of a C string given by its bytes (without the terminating NUL),
/// when they are valid UTF-8.
pub fn decode_c_text(bytes: &[u8]) -> (r: Option<String>)
    ensures
        r is Some <==> valid_utf8(bytes@),
        r matches Some(s) ==> s@ == decode_utf8(bytes@),
{
    match str_from_utf8(bytes) {
        Some(s) => {
            proof {
                encode_utf8_decode_utf8(s@);
            }
            Some(s.to_owned())
        },
        None => None,
    }
}

/// The decimal digit for `d`.
pub open spec fn digit_char(d: nat) -> char {
    ((48 + d) as u32) as char
}

/// The decimal representation of `n`, most significant digit first.
pub open spec fn decimal_chars(n: nat) -> Seq<char>
    decreases n,
{
    if n < 10 {
        seq![digit_char(n)]
    } else {
        decimal_chars(n / 10) + seq![digit_char(n % 10)]
    }
}

fn digit_str(d: usize) -> (s: &'static str)
    requires
        d < 10,
    ensures
        s@ == seq![digit_char(d as nat)],
{
    proof {
        reveal_strlit("0");
        reveal_strlit("1");
        reveal_strlit("2");
        reveal_strlit("3");
        reveal_strlit("4");
        reveal_strlit("5");
        reveal_strlit("6");
        reveal_strlit("7");
        reveal_strlit("8");
        reveal_strlit("9");
    }
    match d {
        0 => "0",
        1 => "1",
        2 => "2",
        3 => "3",
        4 => "4",
        5 => "5",
        6 => "6",
        7 => "7",
        8 => "8",
        _ => "9",
    }
}

/// `n` written in decimal, as `format!("{n}")` writes it.
pub fn decimal(n: usize) -> (s: String)
    ensures
        s@ == decimal_chars(n as nat),
    decreases n,
{
    if n < 10 {
        digit_str(n).to_owned()
    } else {
        let mut s = decimal(n / 10);
        s.append(digit_str(n % 10));
        s
    }
}

/// The message left for a NULL string argument described by `what`.
pub open spec fn null_pointer_message(what: Seq<char>) -> Seq<char> {
    what + " pointer is NULL"@
}

/// The message left for a string argument described by `what` whose bytes
/// are not UTF-8.
pub open spec fn not_utf8_message(what: Seq<char>) -> Seq<char> {
    what + " is not valid UTF-8"@
}

/// A required C-string argument: `None` stands for a NULL pointer, `Some`
/// for the bytes before the terminating NUL. NULL and non-UTF-8 input are
/// rejected with `LXET_ERR_INVALID_ARG` and a message that names the
/// argument by `what`.
pub fn cstr_to_string(p: Option<&[u8]>, what: &str) -> (r: Result<String, Failure>)
    ensures
        match p {
            None => r matches Err(f) && f.code == LXET_ERR_INVALID_ARG && f.message@
                == null_pointer_message(what@),
            Some(bytes) => if valid_utf8(bytes@) {
                r matches Ok(s) && s@ == decode_utf8(bytes@)
            } else {
                r matches Err(f) && f.code == LXET_ERR_INVALID_ARG && f.message@
                    == not_utf8_message(what@)
            },
        },
{
    match p {
        None => {
            let mut message = what.to_owned();
            message.append(" pointer is NULL");
            Err(Failure { code: LXET_ERR_INVALID_ARG, message })
        },
        Some(bytes) => match decode_c_text(bytes) {
            Some(s) => Ok(s),
            None => {
                let mut message = what.to_owned();
                message.append(" is not valid UTF-8");
                Err(Failure { code: LXET_ERR_INVALID_ARG, message })
            },
        },
    }
}

/// An optional C-string argument: NULL and non-UTF-8 input both give `None`.
pub fn cstr_to_opt_string(p: Option<&[u8]>) -> (r: Option<String>)
    ensures
        match p {
            None => r is None,
            Some(bytes) => if valid_utf8(bytes@) {
                r matches Some(s) && s@ == decode_utf8(bytes@)
            } else {
                r is None
            },
        },
{
    match p {
        None => None,
        Some(bytes) => decode_c_text(bytes),
    }
}

/// The text of any string survives its own UTF-8 encoding: handing
/// `cstr_to_string` the bytes of a string gives back that string.
pub proof fn lemma_c_text_round_trip(chars: Seq<char>)
    ensures
        valid_utf8(encode_utf8(chars)),
        decode_utf8(encode_utf8(chars)) == chars,
{
    vstd::utf8::encode_utf8_valid_utf8(chars);
    encode_utf8_decode_utf8(chars);
}

} // verus!
