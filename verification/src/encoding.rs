//! Form-urlencoding of request bodies and decimal rendering of numbers.
//!
//! The backend API takes `application/x-www-form-urlencoded` request bodies.
//! The encoding is specified here byte-for-byte over the UTF-8 bytes of the
//! key/value pairs: ASCII alphanumerics and `*-._` pass through, a space
//! becomes `+`, and every other byte becomes `%XX` with uppercase hex digits.

use vstd::prelude::*;
use vstd::string::*;
use vstd::utf8::encode_utf8;

verus! {

/// Appends one character to a string.
///
/// Relies on `String::push` from std: it appends exactly the given `char`
/// to the end of the string.
#[verifier::external_body]
fn push_char(s: &mut String, c: char)
    ensures
        final(s)@ == old(s)@.push(c),
{
    s.push(c);
}

/// The uppercase hexadecimal digit for a value below sixteen.
pub open spec fn hex_digit_char(n: u8) -> char
    recommends
        n < 16,
{
    if n < 10 {
        ((48 + n) as u8) as char
    } else {
        ((55 + n) as u8) as char
    }
}

/// Bytes that pass through form-urlencoding unchanged: ASCII alphanumerics
/// and `*`, `-`, `.`, `_`.
pub open spec fn is_form_unreserved_byte(b: u8) -> bool {
    (48 <= b && b <= 57) || (65 <= b && b <= 90) || (97 <= b && b <= 122) || b == 42 || b == 45
        || b == 46 || b == 95
}

/// The characters a single byte encodes to.
pub open spec fn form_encoded_byte(b: u8) -> Seq<char> {
    if b == 32 {
        seq!['+']
    } else if is_form_unreserved_byte(b) {
        seq![b as char]
    } else {
        seq!['%', hex_digit_char(b / 16), hex_digit_char(b % 16)]
    }
}

/// The characters a byte sequence encodes to, byte by byte.
pub open spec fn form_encoded_bytes(s: Seq<u8>) -> Seq<char>
    decreases s.len(),
{
    if s.len() == 0 {
        Seq::empty()
    } else {
        form_encoded_bytes(s.drop_last()) + form_encoded_byte(s.last())
    }
}

/// The characters a string encodes to: its UTF-8 bytes, byte by byte.
pub open spec fn form_encoded_str(s: Seq<char>) -> Seq<char> {
    form_encoded_bytes(encode_utf8(s))
}

/// One `key=value` pair, both sides encoded.
pub open spec fn form_encoded_pair(k: Seq<char>, v: Seq<char>) -> Seq<char> {
    form_encoded_str(k) + seq!['='] + form_encoded_str(v)
}

/// The character sequences of a list of key/value pairs.
pub open spec fn pairs_view(ps: Seq<(String, String)>) -> Seq<(Seq<char>, Seq<char>)> {
    ps.map_values(|p: (String, String)| (p.0@, p.1@))
}

/// A whole body: `key=value` pairs joined with `&`.
pub open spec fn form_encoded_pairs(ps: Seq<(Seq<char>, Seq<char>)>) -> Seq<char>
    decreases ps.len(),
{
    if ps.len() == 0 {
        Seq::empty()
    } else {
        let last = form_encoded_pair(ps.last().0, ps.last().1);
        if ps.len() == 1 {
            last
        } else {
            form_encoded_pairs(ps.drop_last()) + seq!['&'] + last
        }
    }
}

/// The exec hex digit agrees with `hex_digit_char`.
fn hex_digit(n: u8) -> (c: char)
    requires
        n < 16,
    ensures
        c == hex_digit_char(n),
{
    if n < 10 {
        (48 + n) as char
    } else {
        (55 + n) as char
    }
}

/// Appends the form-urlencoding of one byte to `out`.
fn push_encoded_byte(out: &mut String, b: u8)
    ensures
        final(out)@ == old(out)@ + form_encoded_byte(b),
{
    if b == 32 {
        push_char(out, '+');
        assert(out@ =~= old(out)@ + form_encoded_byte(b));
    } else if (48 <= b && b <= 57) || (65 <= b && b <= 90) || (97 <= b && b <= 122) || b == 42
        || b == 45 || b == 46 || b == 95 {
        push_char(out, b as char);
        assert(out@ =~= old(out)@ + form_encoded_byte(b));
    } else {
        push_char(out, '%');
        push_char(out, hex_digit(b / 16));
        push_char(out, hex_digit(b % 16));
        assert(out@ =~= old(out)@ + form_encoded_byte(b));
    }
}

/// Appends the form-urlencoding of a whole string to `out`.
fn push_encoded_str(out: &mut String, s: &str)
    ensures
        final(out)@ == old(out)@ + form_encoded_str(s@),
{
    let bytes: &[u8] = s.as_bytes();
    assert(bytes@.take(0) =~= Seq::<u8>::empty());
    for i in 0..bytes.len()
        invariant
            bytes@ == encode_utf8(s@),
            out@ == old(out)@ + form_encoded_bytes(bytes@.take(i as int)),
    {
        push_encoded_byte(out, bytes[i]);
        assert(bytes@.take(i + 1).drop_last() =~= bytes@.take(i as int));
        assert(bytes@.take(i + 1).last() == bytes@[i as int]);
    }
    assert(bytes@.take(bytes@.len() as int) =~= bytes@);
}

/// Builds a form-urlencoded body from `key=value` pairs, joined with `&`.
pub fn form_urlencode(pairs: &Vec<(String, String)>) -> (r: String)
    ensures
        r@ == form_encoded_pairs(pairs_view(pairs@)),
{
    let mut out = String::new();
    for i in 0..pairs.len()
        invariant
            out@ == form_encoded_pairs(pairs_view(pairs@.take(i as int))),
    {
        if i > 0 {
            push_char(&mut out, '&');
        }
        push_encoded_str(&mut out, pairs[i].0.as_str());
        push_char(&mut out, '=');
        push_encoded_str(&mut out, pairs[i].1.as_str());
        proof {
            let ghost prev = pairs@.take(i as int);
            let ghost cur = pairs@.take(i + 1);
            assert(pairs_view(cur).drop_last() =~= pairs_view(prev));
            assert(pairs_view(cur).last() == (pairs@[i as int].0@, pairs@[i as int].1@));
        }
    }
    assert(pairs_view(pairs@.take(pairs@.len() as int)) =~= pairs_view(pairs@));
    out
}

/// The decimal digit character for a value below ten.
pub open spec fn dec_digit_char(n: int) -> char
    recommends
        0 <= n < 10,
{
    ((48 + n) as u8) as char
}

/// The decimal rendering of a natural number, most significant digit first,
/// without leading zeros (a lone zero renders as `0`).
pub open spec fn dec_chars(n: nat) -> Seq<char>
    decreases n,
{
    if n < 10 {
        seq![dec_digit_char(n as int)]
    } else {
        dec_chars(n / 10) + seq![dec_digit_char((n % 10) as int)]
    }
}

/// Appends the decimal rendering of `n` to `out`.
fn push_decimal(out: &mut String, n: u64)
    ensures
        final(out)@ == old(out)@ + dec_chars(n as nat),
    decreases n,
{
    if n < 10 {
        push_char(out, (48 + n as u8) as char);
        assert(out@ =~= old(out)@ + dec_chars(n as nat));
    } else {
        push_decimal(out, n / 10);
        push_char(out, (48 + (n % 10) as u8) as char);
        assert(out@ =~= old(out)@ + dec_chars(n as nat));
    }
}

/// Renders an unsigned number in decimal.
pub fn u64_to_string(n: u64) -> (r: String)
    ensures
        r@ == dec_chars(n as nat),
{
    let mut out = String::new();
    push_decimal(&mut out, n);
    assert(out@ =~= dec_chars(n as nat));
    out
}

/// Renders a 32-bit unsigned number in decimal.
pub fn u32_to_string(n: u32) -> (r: String)
    ensures
        r@ == dec_chars(n as nat),
{
    u64_to_string(n as u64)
}

/// Compares two string slices for equality of their character sequences.
pub fn str_eq(a: &str, b: &str) -> (r: bool)
    ensures
        r == (a@ == b@),
{
    let sa: String = a.to_owned();
    let sb: String = b.to_owned();
    sa.eq(&sb)
}

} // verus!
