//! Percent-encoding of query-string components, exactly as the
//! `application/x-www-form-urlencoded` serialization does it: bytes that
//! are ASCII alphanumeric or one of `*-._` stand for themselves, a space
//! becomes `+`, and every other byte of the UTF-8 encoding becomes `%`
//! followed by two uppercase hex digits.

use vstd::prelude::*;
use vstd::string::StringSliceAdditionalSpecFns;
use vstd::utf8::encode_utf8;

verus! {

/// A byte that the form encoding passes through unchanged.
pub open spec fn unreserved_byte(b: u8) -> bool {
    ||| b == 42u8
    ||| b == 45u8
    ||| b == 46u8
    ||| b == 95u8
    ||| 48u8 <= b <= 57u8
    ||| 65u8 <= b <= 90u8
    ||| 97u8 <= b <= 122u8
}

/// The uppercase hex digit for a value below 16.
pub open spec fn hex_digit_upper(n: int) -> char {
    if n == 0 {
        '0'
    } else if n == 1 {
        '1'
    } else if n == 2 {
        '2'
    } else if n == 3 {
        '3'
    } else if n == 4 {
        '4'
    } else if n == 5 {
        '5'
    } else if n == 6 {
        '6'
    } else if n == 7 {
        '7'
    } else if n == 8 {
        '8'
    } else if n == 9 {
        '9'
    } else if n == 10 {
        'A'
    } else if n == 11 {
        'B'
    } else if n == 12 {
        'C'
    } else if n == 13 {
        'D'
    } else if n == 14 {
        'E'
    } else {
        'F'
    }
}

/// What one byte of input contributes to the encoded output.
pub open spec fn encoded_byte(b: u8) -> Seq<char> {
    if unreserved_byte(b) {
        seq![b as char]
    } else if b == 32u8 {
        seq!['+']
    } else {
        seq!['%', hex_digit_upper(b as int / 16), hex_digit_upper(b as int % 16)]
    }
}

/// The form encoding of a byte sequence.
pub open spec fn form_encoded_bytes(bs: Seq<u8>) -> Seq<char>
    decreases bs.len(),
{
    if bs.len() == 0 {
        Seq::empty()
    } else {
        form_encoded_bytes(bs.drop_last()) + encoded_byte(bs.last())
    }
}

/// The form encoding of a string: its UTF-8 bytes, encoded byte by byte.
pub open spec fn form_of(s: Seq<char>) -> Seq<char> {
    form_encoded_bytes(encode_utf8(s))
}

/// Relies on `String::push`: appends exactly the given character.
#[verifier::external_body]
pub(crate) fn push_char(out: &mut String, c: char)
    ensures
        final(out)@ == old(out)@.push(c),
{
    out.push(c);
}

/// The uppercase hex digit for a value below 16.
fn hex_upper(n: u8) -> (c: char)
    requires
        n < 16,
    ensures
        c == hex_digit_upper(n as int),
{
    if n < 10 {
        (48u8 + n) as char
    } else {
        (65u8 + (n - 10)) as char
    }
}

proof fn lemma_form_encoded_bytes_snoc(bs: Seq<u8>, i: int)
    requires
        0 <= i < bs.len(),
    ensures
        form_encoded_bytes(bs.take(i + 1)) == form_encoded_bytes(bs.take(i)) + encoded_byte(
            bs[i],
        ),
{
    let t = bs.take(i + 1);
    assert(t.drop_last() =~= bs.take(i));
    assert(t.last() == bs[i]);
}

/// Append the form encoding of `s` to `out`.
pub fn append_form_encoded(out: &mut String, s: &str)
    ensures
        final(out)@ == old(out)@ + form_of(s@),
{
    let bytes: &[u8] = s.as_bytes();
    let n = bytes.len();
    let mut i: usize = 0;
    while i < n
        invariant
            bytes@ == encode_utf8(s@),
            n == bytes@.len(),
            i <= n,
            out@ == old(out)@ + form_encoded_bytes(bytes@.take(i as int)),
        decreases n - i,
    {
        let b = bytes[i];
        if (48u8 <= b && b <= 57u8) || (65u8 <= b && b <= 90u8) || (97u8 <= b && b <= 122u8) || b
            == 42u8 || b == 45u8 || b == 46u8 || b == 95u8 {
            push_char(out, b as char);
        } else if b == 32u8 {
            push_char(out, '+');
        } else {
            push_char(out, '%');
            push_char(out, hex_upper(b / 16));
            push_char(out, hex_upper(b % 16));
        }
        proof {
            lemma_form_encoded_bytes_snoc(bytes@, i as int);
            assert(out@ =~= old(out)@ + form_encoded_bytes(bytes@.take(i + 1)));
        }
        i = i + 1;
    }
    proof {
        assert(bytes@.take(n as int) =~= bytes@);
    }
}

} // verus!
