//! IP addresses as plain integers, with their textual forms.
use vstd::prelude::*;
use crate::text::{chars_of, extend_chars, nat_decimal, u64_decimal};

verus! {

/// An IPv6 address: its 128-bit value (most significant byte first) and the
/// text `Display for Ipv6Addr` gives for it. Values are read from and
/// written to text outside this crate (`std::net` is not available here).
#[derive(Clone, PartialEq, Eq, Debug)]
pub struct Ipv6Value {
    pub bits: u128,
    pub text: String,
}

impl Ipv6Value {
    /// A copy of this value.
    pub fn duplicate(&self) -> (res: Ipv6Value)
        ensures
            res.bits == self.bits,
            res.text@ == self.text@,
    {
        Ipv6Value { bits: self.bits, text: self.text.clone() }
    }
}

/// An IP address: IPv4 as its 32-bit value, IPv6 as [`Ipv6Value`].
#[derive(Clone, PartialEq, Eq, Debug)]
pub enum IpValue {
    V4(u32),
    V6(Ipv6Value),
}

/// The unspecified address (`0.0.0.0` or `::`).
pub open spec fn spec_is_unspecified(ip: IpValue) -> bool {
    match ip {
        IpValue::V4(v) => v == 0,
        IpValue::V6(v) => v.bits == 0,
    }
}

/// Two readings denote the same address (`==` on `IpAddr`).
pub open spec fn same_address(a: IpValue, b: IpValue) -> bool {
    match (a, b) {
        (IpValue::V4(x), IpValue::V4(y)) => x == y,
        (IpValue::V6(x), IpValue::V6(y)) => x.bits == y.bits,
        _ => false,
    }
}

impl IpValue {
    /// Whether this is the unspecified address (`Ipv4Addr::is_unspecified`,
    /// `Ipv6Addr::is_unspecified`).
    pub fn is_unspecified(&self) -> (res: bool)
        ensures
            res == spec_is_unspecified(*self),
    {
        match self {
            IpValue::V4(v) => *v == 0,
            IpValue::V6(v) => v.bits == 0,
        }
    }

    /// Whether two readings denote the same address.
    pub fn same_as(&self, other: &IpValue) -> (res: bool)
        ensures
            res == same_address(*self, *other),
    {
        match (self, other) {
            (IpValue::V4(x), IpValue::V4(y)) => *x == *y,
            (IpValue::V6(x), IpValue::V6(y)) => x.bits == y.bits,
            _ => false,
        }
    }
}

/// Octet `k` (0 is the most significant) of an IPv4 address.
pub open spec fn octet(v: u32, k: nat) -> nat {
    if k == 0 {
        (v as nat / 16777216) % 256
    } else if k == 1 {
        (v as nat / 65536) % 256
    } else if k == 2 {
        (v as nat / 256) % 256
    } else {
        v as nat % 256
    }
}

/// Dotted-decimal text of an IPv4 address (`Display for Ipv4Addr`).
pub open spec fn ipv4_text(v: u32) -> Seq<char> {
    nat_decimal(octet(v, 0)) + seq!['.'] + nat_decimal(octet(v, 1)) + seq!['.'] + nat_decimal(
        octet(v, 2),
    ) + seq!['.'] + nat_decimal(octet(v, 3))
}

/// Text of an address as `Display for IpAddr` writes it.
pub open spec fn ip_text(ip: IpValue) -> Seq<char> {
    match ip {
        IpValue::V4(v) => ipv4_text(v),
        IpValue::V6(v) => v.text@,
    }
}

/// Dotted-decimal text of an IPv4 address.
pub fn ipv4_chars(v: u32) -> (res: Vec<char>)
    ensures
        res@ == ipv4_text(v),
{
    let mut res = u64_decimal(((v / 16777216) % 256) as u64);
    res.push('.');
    let b = u64_decimal(((v / 65536) % 256) as u64);
    extend_chars(&mut res, &b);
    res.push('.');
    let c = u64_decimal(((v / 256) % 256) as u64);
    extend_chars(&mut res, &c);
    res.push('.');
    let d = u64_decimal((v % 256) as u64);
    extend_chars(&mut res, &d);
    res
}

/// Text of an address (`Display for IpAddr`).
pub fn ip_chars(ip: &IpValue) -> (res: Vec<char>)
    ensures
        res@ == ip_text(*ip),
{
    match ip {
        IpValue::V4(v) => ipv4_chars(*v),
        IpValue::V6(v) => chars_of(v.text.as_str()),
    }
}

} // verus!
