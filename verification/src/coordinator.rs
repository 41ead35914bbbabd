//! Assembly of a routing coordinator from a discovered routing table.
//!
//! The coordinator that actually dispatches requests is a capability the
//! surrounding system supplies: anything that accepts endpoint registrations
//! and may reject one with an error. It is modeled as a trait so the
//! assembler can be exercised against any implementation; the library ships
//! a simple verified one that accepts plain web addresses.

use vstd::prelude::*;
use vstd::string::StrSliceExecFns;

use crate::address_map::assoc_map;
use crate::address_map::lemma_assoc_map_len;
use crate::address_map::unique_keys;
use crate::address_map::AddressMap;

verus! {

/// Why the coordinator rejected an endpoint registration.
#[derive(Debug, Clone, PartialEq, Eq)]
pub struct RegistrationError {
    /// The logical service name whose registration was rejected.
    pub service: String,
    /// The coordinator's description of the rejection.
    pub message: String,
}

/// A routing coordinator: accumulates registered (service name, address)
/// endpoints, and may reject a registration by its own rules.
pub trait Coordinator: Sized {
    /// The endpoints registered so far, service name to address.
    spec fn endpoints(&self) -> Map<Seq<char>, Seq<char>>;

    /// A fresh coordinator with no registered endpoints.
    fn new() -> (coordinator: Self)
        ensures
            coordinator.endpoints() == Map::<Seq<char>, Seq<char>>::empty(),
    ;

    /// Registers `url` as the endpoint of `service`. On acceptance the
    /// returned coordinator holds exactly the previous endpoints plus this
    /// one; on rejection an error describes the refusal.
    fn add_url(self, service: &str, url: &str) -> (result: Result<Self, RegistrationError>)
        ensures
            (result matches Ok(c) ==> c.endpoints() == self.endpoints().insert(service@, url@)),
    ;
}

/// Registers every entry of `graphql_services` into a fresh coordinator.
/// On the first rejected registration the error surfaces immediately and no
/// coordinator is returned; a returned coordinator therefore holds exactly
/// the discovered endpoints. An empty table is not an error: it yields a
/// coordinator with no endpoints.
pub fn create_coordinator<C: Coordinator>(graphql_services: &AddressMap) -> (result: Result<
    C,
    RegistrationError,
>)
    ensures
        (result matches Ok(c) ==> c.endpoints() == graphql_services@),
        graphql_services@ == Map::<Seq<char>, Seq<char>>::empty() ==> result is Ok,
{
    let mut coordinator = C::new();
    let entries = graphql_services.entries();
    let n = entries.len();
    let mut i: usize = 0;
    while i < n
        invariant
            n == entries@.len(),
            i <= n,
            assoc_map(entries@) == graphql_services@,
            unique_keys(entries@),
            coordinator.endpoints() == assoc_map(entries@.take(i as int)),
        decreases n - i,
    {
        let pair = &entries[i];
        match coordinator.add_url(pair.0.as_str(), pair.1.as_str()) {
            Ok(c) => {
                coordinator = c;
                proof {
                    assert(entries@.take(i as int + 1).drop_last() =~= entries@.take(i as int));
                    assert(coordinator.endpoints() =~= assoc_map(entries@.take(i as int + 1)));
                }
            },
            Err(e) => {
                proof {
                    lemma_assoc_map_len(entries@);
                    assert(Map::<Seq<char>, Seq<char>>::empty().dom() =~= Set::empty());
                }
                return Err(e);
            },
        }
        i = i + 1;
    }
    proof {
        assert(entries@.take(n as int) =~= entries@);
    }
    Ok(coordinator)
}

/// Whether an address carries one of the wire protocols the simple
/// coordinator can dispatch to: plain or TLS web endpoints.
pub open spec fn spec_supported_scheme(url: Seq<char>) -> bool {
    ||| (url.len() >= "http://"@.len() && url.take("http://"@.len() as int) == "http://"@)
    ||| (url.len() >= "https://"@.len() && url.take("https://"@.len() as int) == "https://"@)
}

/// Whether `s` starts with `prefix`.
fn has_prefix(s: &str, prefix: &str) -> (r: bool)
    ensures
        r == (s@.len() >= prefix@.len() && s@.take(prefix@.len() as int) == prefix@),
{
    let n = prefix.unicode_len();
    let m = s.unicode_len();
    if m < n {
        return false;
    }
    for i in 0..n
        invariant
            n == prefix@.len(),
            m == s@.len(),
            n <= m,
            forall|j: int| 0 <= j < i ==> s@[j] == prefix@[j],
    {
        if s.get_char(i) != prefix.get_char(i) {
            return false;
        }
    }
    proof {
        assert(s@.take(prefix@.len() as int) =~= prefix@);
    }
    true
}

/// A simple verified coordinator: it registers any endpoint whose address is
/// a plain or TLS web address and rejects every other scheme.
#[derive(Debug)]
pub struct SimpleCoordinator {
    table: AddressMap,
}

impl SimpleCoordinator {
    /// The address registered for `service`, if any.
    pub fn endpoint_of<'a>(&'a self, service: &str) -> (address: Option<&'a String>)
        ensures
            match address {
                Some(a) => self.endpoints().contains_key(service@) && a@
                    == self.endpoints().index(service@),
                None => !self.endpoints().contains_key(service@),
            },
    {
        self.table.get(service)
    }

    /// How many endpoints are registered.
    pub fn endpoint_count(&self) -> (n: usize)
        ensures
            self.endpoints().dom().finite(),
            n == self.endpoints().dom().len(),
    {
        self.table.len()
    }
}

impl Coordinator for SimpleCoordinator {
    closed spec fn endpoints(&self) -> Map<Seq<char>, Seq<char>> {
        self.table@
    }

    fn new() -> (coordinator: Self)
        ensures
            coordinator.endpoints() == Map::<Seq<char>, Seq<char>>::empty(),
    {
        SimpleCoordinator { table: AddressMap::new() }
    }

    /// Accepts exactly the addresses with a supported scheme; a rejection
    /// names the service whose registration failed.
    fn add_url(self, service: &str, url: &str) -> (result: Result<Self, RegistrationError>)
        ensures
            (result matches Ok(c) ==> c.endpoints() == self.endpoints().insert(service@, url@)),
            result is Ok <==> spec_supported_scheme(url@),
            (result matches Err(e) ==> e.service@ == service@),
    {
        if has_prefix(url, "http://") || has_prefix(url, "https://") {
            let mut table = self.table;
            table.insert(service.to_owned(), url.to_owned());
            Ok(SimpleCoordinator { table })
        } else {
            Err(
                RegistrationError {
                    service: service.to_owned(),
                    message: "unsupported address scheme".to_owned(),
                },
            )
        }
    }
}

} // verus!
