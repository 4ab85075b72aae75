//! Phone-number normalization for the chat opener: keep the decimal
//! digits, demand at least nine of them, and apply the fixed default
//! country prefix.

use vstd::prelude::*;
use vstd::string::StrSliceExecFns;
use vstd::string::StringExecFns;
use crate::text::{digits_of, extract_digits};
use crate::BackendError;

verus! {

/// The fixed default country calling code applied to chat numbers.
pub open spec fn country_prefix() -> Seq<char> {
    "972"@
}

/// The fewest digits a chat number may carry.
pub open spec fn min_chat_digits() -> int {
    9
}

/// The default-prefixed form of a digit string: a leading zero is
/// replaced by the country prefix; a string already starting with the
/// prefix passes through; otherwise the prefix is prepended.
pub open spec fn prefixed_digits(digits: Seq<char>) -> Seq<char> {
    if digits.len() >= 1 && digits.first() == '0' {
        country_prefix() + digits.drop_first()
    } else if digits.len() >= 3 && digits.subrange(0, 3) == country_prefix() {
        digits
    } else {
        country_prefix() + digits
    }
}

/// Normalizes a caller-supplied chat number: keeps the decimal digits
/// of `phone`, rejects fewer than nine with
/// [`BackendError::InvalidPhoneNumber`], and otherwise returns the
/// default-prefixed form of [`prefixed_digits`].
pub fn normalize_chat_phone(phone: &str) -> (r: Result<String, BackendError>)
    ensures
        match r {
            Result::Ok(n) => digits_of(phone@).len() >= min_chat_digits() && n@ == prefixed_digits(
                digits_of(phone@),
            ),
            Result::Err(e) => digits_of(phone@).len() < min_chat_digits() && e
                == BackendError::InvalidPhoneNumber,
        },
{
    let digits = extract_digits(phone);
    let ds = digits.as_str();
    let n: usize = ds.unicode_len();
    if n < 9 {
        return Result::Err(BackendError::InvalidPhoneNumber);
    }
    proof {
        reveal_strlit("972");
    }
    if ds.get_char(0) == '0' {
        let rest = ds.substring_char(1, n);
        let mut out = String::from_str("972");
        out.append(rest);
        proof {
            assert(ds@.drop_first() =~= ds@.subrange(1, n as int));
        }
        Result::Ok(out)
    } else if ds.get_char(0) == '9' && ds.get_char(1) == '7' && ds.get_char(2) == '2' {
        proof {
            assert(ds@.subrange(0, 3) =~= "972"@);
        }
        Result::Ok(digits)
    } else {
        proof {
            if ds@.subrange(0, 3) == "972"@ {
                assert(ds@.subrange(0, 3)[0] == '9');
                assert(ds@.subrange(0, 3)[1] == '7');
                assert(ds@.subrange(0, 3)[2] == '2');
            }
        }
        let mut out = String::from_str("972");
        out.append(ds);
        Result::Ok(out)
    }
}

} // verus!
