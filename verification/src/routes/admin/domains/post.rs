//! Creating a domain: how the payload's fields are stored.
use vstd::prelude::*;
use crate::text::{
    chars_of, string_of, to_lowercase, trim, trim_end_char, trim_end_matches_char, trim_ws,
    unicode_lowercase,
};

verus! {

/// A domain name as stored: trimmed, without trailing dots, lowercased.
pub open spec fn spec_normalize_domain(domain: Seq<char>) -> Seq<char> {
    unicode_lowercase(trim_end_char(trim_ws(domain), '.'))
}

/// Normalizes a domain name from a payload.
pub fn normalize_domain(domain: &str) -> (res: String)
    ensures
        res@ == spec_normalize_domain(domain@),
{
    let trimmed = trim_end_matches_char(&trim(&chars_of(domain)), '.');
    to_lowercase(string_of(&trimmed).as_str())
}

/// Normalizes a provider name from a payload: trimmed and lowercased.
pub fn normalize_provider(provider: &str) -> (res: String)
    ensures
        res@ == unicode_lowercase(trim_ws(provider@)),
{
    to_lowercase(string_of(&trim(&chars_of(provider))).as_str())
}

/// Trims a zone id or credential from a payload.
pub fn trim_field(value: &str) -> (res: String)
    ensures
        res@ == trim_ws(value@),
{
    string_of(&trim(&chars_of(value)))
}

} // verus!
