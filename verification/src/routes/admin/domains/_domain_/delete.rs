//! Deleting a domain, which takes its subdomains along only when forced.
use vstd::prelude::*;
use crate::text::{chars_of, extend_chars, nat_decimal, string_of, u64_decimal};

verus! {

/// Query parameters of the domain deletion.
#[derive(Clone, Copy, Debug, Default, PartialEq, Eq, Structural)]
pub struct Params {
    /// Also delete all subdomains under this domain.
    pub force: bool,
}

/// What deleting a domain does.
#[derive(Clone, Copy, PartialEq, Eq, Structural, Debug)]
pub enum DomainDeletion {
    /// The domain still has subdomains and `force` was not given (409).
    Refuse,
    /// Delete the subdomains' records and rows, then the domain.
    WithSubdomains,
    /// Delete the domain only.
    DomainOnly,
}

/// A domain with subdomains is only deleted with `force`, and then takes its
/// subdomains along.
pub fn domain_deletion(subdomain_count: i64, force: bool) -> (res: DomainDeletion)
    ensures
        subdomain_count > 0 && !force ==> res == DomainDeletion::Refuse,
        subdomain_count > 0 && force ==> res == DomainDeletion::WithSubdomains,
        subdomain_count <= 0 ==> res == DomainDeletion::DomainOnly,
{
    if subdomain_count > 0 && !force {
        DomainDeletion::Refuse
    } else if subdomain_count > 0 {
        DomainDeletion::WithSubdomains
    } else {
        DomainDeletion::DomainOnly
    }
}

/// The conflict message of a refused domain deletion.
pub fn refuse_deletion_message(subdomain_count: i64) -> (res: String)
    requires
        subdomain_count > 0,
    ensures
        res@ == "domain still has "@ + nat_decimal(subdomain_count as nat)
            + " subdomain(s), pass force to delete them"@,
{
    let mut text = chars_of("domain still has ");
    extend_chars(&mut text, &u64_decimal(subdomain_count as u64));
    extend_chars(&mut text, &chars_of(" subdomain(s), pass force to delete them"));
    string_of(&text)
}

} // verus!
