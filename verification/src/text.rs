//! Text that the library hands back: decimal numbers and the strings that
//! device responses carry.

use vstd::prelude::*;
use vstd::string::StringExecFns;
use vstd::slice::slice_to_vec;
use vstd::utf8::{decode_utf8, encode_utf8, encode_utf8_decode_utf8, valid_utf8};

verus! {

/// The character of a decimal digit.
pub open spec fn digit_char(d: nat) -> char {
    if d == 0 {
        '0'
    } else if d == 1 {
        '1'
    } else if d == 2 {
        '2'
    } else if d == 3 {
        '3'
    } else if d == 4 {
        '4'
    } else if d == 5 {
        '5'
    } else if d == 6 {
        '6'
    } else if d == 7 {
        '7'
    } else if d == 8 {
        '8'
    } else {
        '9'
    }
}

/// The decimal numeral of `n`: no sign, no leading zero, `"0"` for zero.
pub open spec fn decimal(n: nat) -> Seq<char>
    decreases n,
{
    if n < 10 {
        seq![digit_char(n)]
    } else {
        decimal(n / 10).push(digit_char(n % 10))
    }
}

/// The one-character string of a decimal digit.
fn digit_str(d: u64) -> (s: &'static str)
    requires
        d < 10,
    ensures
        s@ == seq![digit_char(d as nat)],
{
    proof {
        reveal_strlit("0");
        reveal_strlit("1");
        reveal_strlit("2");
        reveal_strlit("3");
        reveal_strlit("4");
        reveal_strlit("5");
        reveal_strlit("6");
        reveal_strlit("7");
        reveal_strlit("8");
        reveal_strlit("9");
    }
    let s = if d == 0 {
        "0"
    } else if d == 1 {
        "1"
    } else if d == 2 {
        "2"
    } else if d == 3 {
        "3"
    } else if d == 4 {
        "4"
    } else if d == 5 {
        "5"
    } else if d == 6 {
        "6"
    } else if d == 7 {
        "7"
    } else if d == 8 {
        "8"
    } else {
        "9"
    };
    assert(s@ =~= seq![digit_char(d as nat)]);
    s
}

/// Appends the decimal numeral of `n` to `out`.
pub fn append_decimal(out: &mut String, n: u64)
    ensures
        final(out)@ == old(out)@ + decimal(n as nat),
    decreases n,
{
    if n >= 10 {
        append_decimal(out, n / 10);
    }
    out.append(digit_str(n % 10));
    assert(out@ =~= old(out)@ + decimal(n as nat));
}

/// The decimal numeral of `n` as a string.
pub fn decimal_string(n: u64) -> (s: String)
    ensures
        s@ == decimal(n as nat),
{
    let mut s = String::new();
    append_decimal(&mut s, n);
    assert(s@ =~= decimal(n as nat));
    s
}

/// A number that may be absent: its decimal numeral, or `absent`.
pub open spec fn optional_decimal(n: Option<u8>) -> Seq<char> {
    match n {
        Some(n) => decimal(n as nat),
        None => "absent"@,
    }
}

/// Appends a number that may be absent to `out`.
pub fn append_optional_decimal(out: &mut String, n: Option<u8>)
    ensures
        final(out)@ == old(out)@ + optional_decimal(n),
{
    match n {
        Some(n) => append_decimal(out, n as u64),
        None => out.append("absent"),
    }
}

/// `yes` or `no`.
pub open spec fn yes_no(b: bool) -> Seq<char> {
    if b {
        "yes"@
    } else {
        "no"@
    }
}

/// Appends `yes` or `no` to `out`.
pub fn append_yes_no(out: &mut String, b: bool)
    ensures
        final(out)@ == old(out)@ + yes_no(b),
{
    if b {
        out.append("yes");
    } else {
        out.append("no");
    }
}

/// The text in a field of bytes: what the bytes decode to as UTF-8, and
/// nothing where they are not well-formed UTF-8.
pub open spec fn field_text(bytes: Seq<u8>) -> Seq<char> {
    if valid_utf8(bytes) {
        decode_utf8(bytes)
    } else {
        Seq::empty()
    }
}

/// Reads the text in a field of bytes.
pub fn text_of(bytes: &[u8]) -> (text: String)
    ensures
        text@ == field_text(bytes@),
{
    match string_from_utf8(slice_to_vec(bytes)) {
        Some(text) => {
            proof {
                encode_utf8_decode_utf8(text@);
            }
            text
        },
        None => String::new(),
    }
}

/// `String::from_utf8` of the standard library: the string whose UTF-8
/// encoding is exactly `bytes`, if `bytes` is well-formed UTF-8, and nothing
/// otherwise.
#[verifier::external_body]
pub(crate) fn string_from_utf8(bytes: Vec<u8>) -> (text: Option<String>)
    ensures
        text is Some <==> valid_utf8(bytes@),
        text matches Some(s) ==> encode_utf8(s@) == bytes@,
{
    String::from_utf8(bytes).ok()
}

} // verus!
