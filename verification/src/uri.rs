//! Construction of the URIs the dispatcher hands to the platform
//! launchers: `mailto:`, `tel:`, `whatsapp://send?phone=`,
//! `https://web.whatsapp.com/send?phone=` and `https://wa.me/`.

use vstd::prelude::*;
use vstd::string::StringExecFns;
use crate::encode::{ascii_percent_encoding, ascii_seq, percent_encode, percent_encoded};

verus! {

/// The view of an optional string argument.
pub open spec fn opt_view(o: Option<&str>) -> Option<Seq<char>> {
    match o {
        Option::None => Option::None,
        Option::Some(s) => Option::Some(s@),
    }
}

/// How one query parameter leaves the percent-encoder: pinned down
/// character by character for ASCII input, and named by
/// [`percent_encoded`] otherwise.
pub open spec fn encoded_param(s: Seq<char>) -> Seq<char> {
    if ascii_seq(s) {
        ascii_percent_encoding(s)
    } else {
        percent_encoded(s)
    }
}

/// The query part of a `mailto:` URI: `?subject=...&body=...` with
/// percent-encoded values, each parameter present only when supplied,
/// and `&` only between two present parameters.
pub open spec fn mailto_query(subject: Option<Seq<char>>, body: Option<Seq<char>>) -> Seq<char> {
    match (subject, body) {
        (Option::None, Option::None) => Seq::empty(),
        (Option::Some(s), Option::None) => "?subject="@ + encoded_param(s),
        (Option::None, Option::Some(b)) => "?body="@ + encoded_param(b),
        (Option::Some(s), Option::Some(b)) => "?subject="@ + encoded_param(s) + "&body="@
            + encoded_param(b),
    }
}

/// The full `mailto:` URI for an address and optional subject and body.
pub open spec fn mailto_uri(
    email: Seq<char>,
    subject: Option<Seq<char>>,
    body: Option<Seq<char>>,
) -> Seq<char> {
    "mailto:"@ + email + mailto_query(subject, body)
}

/// Builds the `mailto:` URI of [`mailto_uri`].
pub fn mailto_target(email: &str, subject: Option<&str>, body: Option<&str>) -> (r: String)
    ensures
        r@ == mailto_uri(email@, opt_view(subject), opt_view(body)),
{
    let mut r = String::from_str("mailto:");
    r.append(email);
    match (subject, body) {
        (Option::None, Option::None) => {},
        (Option::Some(s), Option::None) => {
            r.append("?subject=");
            let enc = percent_encode(s);
            r.append(enc.as_str());
        },
        (Option::None, Option::Some(b)) => {
            r.append("?body=");
            let enc = percent_encode(b);
            r.append(enc.as_str());
        },
        (Option::Some(s), Option::Some(b)) => {
            r.append("?subject=");
            let enc_s = percent_encode(s);
            r.append(enc_s.as_str());
            r.append("&body=");
            let enc_b = percent_encode(b);
            r.append(enc_b.as_str());
        },
    }
    r
}

/// The `tel:` URI for a phone number.
pub open spec fn tel_uri(phone: Seq<char>) -> Seq<char> {
    "tel:"@ + phone
}

/// Builds the `tel:` URI of [`tel_uri`].
pub fn tel_target(phone: &str) -> (r: String)
    ensures
        r@ == tel_uri(phone@),
{
    let mut r = String::from_str("tel:");
    r.append(phone);
    r
}

/// The native chat application URI for a normalized number.
pub open spec fn whatsapp_app_uri(digits: Seq<char>) -> Seq<char> {
    "whatsapp://send?phone="@ + digits
}

/// Builds the URI of [`whatsapp_app_uri`].
pub fn whatsapp_app_target(digits: &str) -> (r: String)
    ensures
        r@ == whatsapp_app_uri(digits@),
{
    let mut r = String::from_str("whatsapp://send?phone=");
    r.append(digits);
    r
}

/// The browser fallback URL for a normalized number.
pub open spec fn whatsapp_web_url(digits: Seq<char>) -> Seq<char> {
    "https://web.whatsapp.com/send?phone="@ + digits
}

/// Builds the URL of [`whatsapp_web_url`].
pub fn whatsapp_web_target(digits: &str) -> (r: String)
    ensures
        r@ == whatsapp_web_url(digits@),
{
    let mut r = String::from_str("https://web.whatsapp.com/send?phone=");
    r.append(digits);
    r
}

/// The short chat link for a normalized number.
pub open spec fn wa_me_url(digits: Seq<char>) -> Seq<char> {
    "https://wa.me/"@ + digits
}

/// Builds the URL of [`wa_me_url`].
pub fn wa_me_target(digits: &str) -> (r: String)
    ensures
        r@ == wa_me_url(digits@),
{
    let mut r = String::from_str("https://wa.me/");
    r.append(digits);
    r
}

} // verus!
