//! The single error kind of this library, and the verified rendering of its
//! human-readable messages.

use vstd::prelude::*;
use vstd::string::StringExecFns;

verus! {

/// Error returned by every failing decode or agreement operation, carrying a
/// human-readable message that identifies the failure condition.
pub struct InvalidKeyError(pub String);

/// The character standing for one decimal digit.
pub open spec fn digit_char(d: nat) -> char {
    if d == 0 {
        '0'
    } else if d == 1 {
        '1'
    } else if d == 2 {
        '2'
    } else if d == 3 {
        '3'
    } else if d == 4 {
        '4'
    } else if d == 5 {
        '5'
    } else if d == 6 {
        '6'
    } else if d == 7 {
        '7'
    } else if d == 8 {
        '8'
    } else {
        '9'
    }
}

/// The decimal rendering of a number: most significant digit first, no sign,
/// no padding, a single `'0'` for zero.
pub open spec fn dec_rep(v: nat) -> Seq<char>
    decreases v,
{
    if v < 10 {
        seq![digit_char(v)]
    } else {
        dec_rep(v / 10) + seq![digit_char(v % 10)]
    }
}

/// Message for a buffer too short to hold a curve-type tag.
pub open spec fn no_key_type_msg() -> Seq<char> {
    "No key type identifier"@
}

/// Message for an unrecognized curve-type tag, carrying the offending tag value.
pub open spec fn bad_key_type_msg(tag: u8) -> Seq<char> {
    "Bad key type: "@ + dec_rep(tag as nat)
}

/// Message for a recognized tag followed by too few key bytes, carrying the
/// total buffer length.
pub open spec fn bad_key_length_msg(len: nat) -> Seq<char> {
    "Bad key length: "@ + dec_rep(len)
}

/// Message for private-key material whose length is not exactly 32 bytes.
pub open spec fn private_decode_err_msg() -> Seq<char> {
    "Error decoding private point"@
}

/// Message for an agreement attempted between keys of differing or unsupported
/// curve types.
pub open spec fn type_mismatch_msg() -> Seq<char> {
    "Public and private keys must be of the same type!"@
}

fn digit_str(d: u8) -> (r: &'static str)
    requires
        d < 10,
    ensures
        r@ == seq![digit_char(d as nat)],
{
    proof {
        reveal_strlit("0");
        reveal_strlit("1");
        reveal_strlit("2");
        reveal_strlit("3");
        reveal_strlit("4");
        reveal_strlit("5");
        reveal_strlit("6");
        reveal_strlit("7");
        reveal_strlit("8");
        reveal_strlit("9");
    }
    match d {
        0 => "0",
        1 => "1",
        2 => "2",
        3 => "3",
        4 => "4",
        5 => "5",
        6 => "6",
        7 => "7",
        8 => "8",
        _ => "9",
    }
}

fn append_decimal(s: &mut String, v: u64)
    ensures
        final(s)@ == old(s)@ + dec_rep(v as nat),
    decreases v,
{
    if v >= 10 {
        append_decimal(s, v / 10);
    }
    let d = digit_str((v % 10) as u8);
    s.append(d);
    proof {
        assert(s@ =~= old(s)@ + dec_rep(v as nat));
    }
}

pub fn no_key_type_string() -> (r: String)
    ensures
        r@ == no_key_type_msg(),
{
    "No key type identifier".to_owned()
}

pub fn bad_key_type_string(tag: u8) -> (r: String)
    ensures
        r@ == bad_key_type_msg(tag),
{
    let mut s = "Bad key type: ".to_owned();
    append_decimal(&mut s, tag as u64);
    s
}

pub fn bad_key_length_string(len: usize) -> (r: String)
    ensures
        r@ == bad_key_length_msg(len as nat),
{
    let mut s = "Bad key length: ".to_owned();
    append_decimal(&mut s, len as u64);
    s
}

pub fn private_decode_err_string() -> (r: String)
    ensures
        r@ == private_decode_err_msg(),
{
    "Error decoding private point".to_owned()
}

pub fn type_mismatch_string() -> (r: String)
    ensures
        r@ == type_mismatch_msg(),
{
    "Public and private keys must be of the same type!".to_owned()
}

} // verus!
