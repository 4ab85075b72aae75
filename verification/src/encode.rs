//! Percent-encoding of URI query parameters, done by the `urlencoding`
//! crate behind a trusted wrapper. For ASCII input the encoding is pinned
//! down exactly by [`ascii_percent_encoding`]; for arbitrary input the
//! result is named by [`percent_encoded`].

use vstd::prelude::*;

verus! {

/// What `urlencoding::encode` returns for the characters `s`: the
/// percent-encoding of their UTF-8 bytes. The result depends on the
/// characters alone.
pub uninterp spec fn percent_encoded(s: Seq<char>) -> Seq<char>;

/// A byte the encoder passes through unchanged: ASCII alphanumerics
/// and `-`, `_`, `.`, `~`.
pub open spec fn is_unreserved_char(c: char) -> bool {
    ||| 48 <= c as u32 <= 57
    ||| 65 <= c as u32 <= 90
    ||| 97 <= c as u32 <= 122
    ||| c == '-'
    ||| c == '.'
    ||| c == '_'
    ||| c == '~'
}

/// The uppercase hexadecimal digit for a value below sixteen.
pub open spec fn hex_digit_char(d: u32) -> char {
    if d == 0 {
        '0'
    } else if d == 1 {
        '1'
    } else if d == 2 {
        '2'
    } else if d == 3 {
        '3'
    } else if d == 4 {
        '4'
    } else if d == 5 {
        '5'
    } else if d == 6 {
        '6'
    } else if d == 7 {
        '7'
    } else if d == 8 {
        '8'
    } else if d == 9 {
        '9'
    } else if d == 10 {
        'A'
    } else if d == 11 {
        'B'
    } else if d == 12 {
        'C'
    } else if d == 13 {
        'D'
    } else if d == 14 {
        'E'
    } else {
        'F'
    }
}

/// How one ASCII character leaves the encoder: unchanged when
/// unreserved, else `%` and two uppercase hexadecimal digits.
pub open spec fn encoded_ascii_char(c: char) -> Seq<char> {
    if is_unreserved_char(c) {
        seq![c]
    } else {
        seq!['%', hex_digit_char(c as u32 / 16), hex_digit_char(c as u32 % 16)]
    }
}

/// An ASCII character.
pub open spec fn is_ascii_char(c: char) -> bool {
    (c as u32) < 128
}

/// Every character of `s` is ASCII.
pub open spec fn ascii_seq(s: Seq<char>) -> bool {
    forall|i: int| 0 <= i < s.len() ==> is_ascii_char(#[trigger] s[i])
}

/// The percent-encoding of an ASCII string, character by character.
pub open spec fn ascii_percent_encoding(s: Seq<char>) -> Seq<char>
    decreases s.len(),
{
    if s.len() == 0 {
        Seq::empty()
    } else {
        ascii_percent_encoding(s.drop_last()) + encoded_ascii_char(s.last())
    }
}

/// Relies on `urlencoding::encode`: percent-encodes every byte of the
/// UTF-8 form of `s` except ASCII alphanumerics and `-`, `_`, `.`, `~`,
/// each as `%` plus two uppercase hexadecimal digits; the result depends
/// on the input characters alone.
#[verifier::external_body]
pub(crate) fn percent_encode(s: &str) -> (r: String)
    ensures
        r@ == percent_encoded(s@),
        ascii_seq(s@) ==> r@ == ascii_percent_encoding(s@),
{
    urlencoding::encode(s).into_owned()
}

} // verus!
