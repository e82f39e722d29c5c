//! Identifiers (UUIDs) as 128-bit values and their text form.
use vstd::prelude::*;
use crate::text::{copy_range, digit_char, extend_chars};

verus! {

/// Lowercase hexadecimal digit of `d < 16`.
pub open spec fn hex_char(d: nat) -> char {
    if d < 10 {
        digit_char(d)
    } else {
        ((87 + d) as u32) as char
    }
}

/// The `n` least significant hexadecimal digits of `v`, most significant
/// first, lowercase.
pub open spec fn hex_digits(v: nat, n: nat) -> Seq<char>
    decreases n,
{
    if n == 0 {
        seq![]
    } else {
        hex_digits(v / 16, (n - 1) as nat).push(hex_char(v % 16))
    }
}

/// Hyphenated lowercase form of a UUID given as its big-endian 128-bit value:
/// 8-4-4-4-12 hexadecimal digits.
pub open spec fn uuid_text(id: u128) -> Seq<char> {
    let h = hex_digits(id as nat, 32);
    h.subrange(0, 8) + seq!['-'] + h.subrange(8, 12) + seq!['-'] + h.subrange(12, 16) + seq!['-']
        + h.subrange(16, 20) + seq!['-'] + h.subrange(20, 32)
}

/// Lowercase hexadecimal digit of `d < 16`.
fn hex_digit(d: u128) -> (res: char)
    requires
        d < 16,
    ensures
        res == hex_char(d as nat),
{
    if d < 10 {
        let v: u8 = (48 + d) as u8;
        v as char
    } else {
        let v: u8 = (87 + d) as u8;
        v as char
    }
}

/// The `n` least significant hexadecimal digits of `v`, most significant
/// first.
fn hex_digits_of(v: u128, n: usize) -> (res: Vec<char>)
    ensures
        res@ == hex_digits(v as nat, n as nat),
    decreases n,
{
    if n == 0 {
        Vec::new()
    } else {
        let mut digits = hex_digits_of(v / 16, n - 1);
        digits.push(hex_digit(v % 16));
        digits
    }
}

/// The hyphenated lowercase form of a UUID given as its big-endian 128-bit
/// value, as `uuid::Uuid` displays it.
pub fn uuid_chars(id: u128) -> (res: Vec<char>)
    ensures
        res@ == uuid_text(id),
{
    let h = hex_digits_of(id, 32);
    proof {
        lemma_hex_digits_len(id as nat, 32);
    }
    let mut text = copy_range(&h, 0, 8);
    text.push('-');
    extend_chars(&mut text, &copy_range(&h, 8, 12));
    text.push('-');
    extend_chars(&mut text, &copy_range(&h, 12, 16));
    text.push('-');
    extend_chars(&mut text, &copy_range(&h, 16, 20));
    text.push('-');
    extend_chars(&mut text, &copy_range(&h, 20, 32));
    proof {
        let h = hex_digits(id as nat, 32);
        assert(text@ =~= h.subrange(0, 8) + seq!['-'] + h.subrange(8, 12) + seq!['-']
            + h.subrange(12, 16) + seq!['-'] + h.subrange(16, 20) + seq!['-'] + h.subrange(
            20,
            32,
        ));
    }
    text
}

/// `hex_digits(v, n)` has `n` digits.
proof fn lemma_hex_digits_len(v: nat, n: nat)
    ensures
        hex_digits(v, n).len() == n,
    decreases n,
{
    if n > 0 {
        lemma_hex_digits_len(v / 16, (n - 1) as nat);
    }
}

/// What `text.parse::<uuid::Uuid>()` gives, as the big-endian 128-bit value:
/// `None` where the text is not a UUID in one of the crate's formats.
pub uninterp spec fn uuid_parse(text: Seq<char>) -> Option<u128>;

/// Parses a UUID with `uuid::Uuid`'s `FromStr` (hyphenated, simple, braced
/// or URN form); the contract names the outcome without stating the grammar.
#[verifier::external_body]
pub(crate) fn parse_uuid(text: &str) -> (res: Option<u128>)
    ensures
        res == uuid_parse(text@),
{
    match text.parse::<uuid::Uuid>() {
        Ok(id) => Some(id.as_u128()),
        Err(_) => None,
    }
}

/// The UUID in the path segment at `index`, if there is such a segment and
/// it parses.
pub fn segment_uuid(segments: &[String], index: usize) -> (res: Option<u128>)
    ensures
        res == (if index < segments@.len() {
            uuid_parse(segments@[index as int]@)
        } else {
            None
        }),
{
    if index < segments.len() {
        parse_uuid(segments[index].as_str())
    } else {
        None
    }
}

} // verus!
