//! The local half of service discovery: deciding which of the resources the
//! registry returned take part in the routing mesh, and building the routing
//! table from them.
//!
//! The remote half — the namespace-scoped list call filtered by presence of
//! the marker label — is an optimization performed by the surrounding
//! program; every resource handed here is still subjected to the precise
//! filter (resource name and both marker labels present).

use vstd::prelude::*;

use crate::address::spec_address;
use crate::address::synthesize_address;
use crate::address_map::AddressMap;
use crate::resource::spec_label_value;
use crate::resource::ServiceResource;
use crate::resource::SpecResource;
use crate::resource::LABEL_GRAPHQL_PROTOCOL;
use crate::resource::LABEL_GRAPHQL_SERVICE;

verus! {

/// The resource's logical service name: the value of its marker label.
pub open spec fn spec_service_label(r: SpecResource) -> Option<Seq<char>> {
    spec_label_value(r.labels, LABEL_GRAPHQL_SERVICE@)
}

/// The resource's declared wire protocol: the value of its protocol label.
pub open spec fn spec_protocol_label(r: SpecResource) -> Option<Seq<char>> {
    spec_label_value(r.labels, LABEL_GRAPHQL_PROTOCOL@)
}

/// A resource is eligible when it has a name, a service-name label and a
/// protocol label; a resource missing any of the three is silently skipped.
pub open spec fn eligible(r: SpecResource) -> bool {
    &&& r.name is Some
    &&& spec_service_label(r) is Some
    &&& spec_protocol_label(r) is Some
}

/// What one resource contributes to the routing table: nothing when it is
/// ineligible or declares no port; otherwise one entry under its service
/// name, whose address is formed from the last declared port — an address
/// per earlier port is inserted and then overwritten, so only the last
/// survives.
pub open spec fn apply_resource(
    m: Map<Seq<char>, Seq<char>>,
    r: SpecResource,
) -> Map<Seq<char>, Seq<char>> {
    if eligible(r) && r.ports.len() > 0 {
        m.insert(
            spec_service_label(r)->0,
            spec_address(spec_protocol_label(r)->0, r.name->0, r.ports.last()),
        )
    } else {
        m
    }
}

/// The routing table discovered from `resources`, processed in order.
pub open spec fn discovered_map(resources: Seq<SpecResource>) -> Map<Seq<char>, Seq<char>>
    decreases resources.len(),
{
    if resources.len() == 0 {
        Map::empty()
    } else {
        apply_resource(discovered_map(resources.drop_last()), resources.last())
    }
}

/// The models of a sequence of resources.
pub open spec fn resource_views(s: Seq<ServiceResource>) -> Seq<SpecResource> {
    Seq::new(s.len(), |i: int| s[i]@)
}

/// Registers the addresses contributed by one resource: for each declared
/// port of an eligible resource, the address `{protocol}://{name}:{port}`
/// under the service-name label's value, each insertion overwriting the
/// previous one.
fn register_resource(table: &mut AddressMap, service: &ServiceResource)
    ensures
        final(table)@ == apply_resource(old(table)@, service@),
{
    if let Some(host) = &service.name {
        if let Some(service_name) = service.get_label_value(LABEL_GRAPHQL_SERVICE) {
            if let Some(protocol) = service.get_label_value(LABEL_GRAPHQL_PROTOCOL) {
                let ghost base = table@;
                let ghost key = spec_service_label(service@)->0;
                let m = service.ports.len();
                for j in 0..m
                    invariant
                        m == service.ports.len(),
                        service_name@ == key,
                        spec_protocol_label(service@) == Some(protocol@),
                        service@.name == Some(host@),
                        j == 0 ==> table@ == base,
                        j > 0 ==> table@ == base.insert(
                            key,
                            spec_address(protocol@, host@, service@.ports[j - 1]),
                        ),
                {
                    let port = service.ports[j];
                    let address = synthesize_address(protocol.as_str(), host.as_str(), port);
                    table.insert(service_name.clone(), address);
                    proof {
                        if j > 0 {
                            assert(table@ =~= base.insert(
                                key,
                                spec_address(protocol@, host@, service@.ports[j as int]),
                            ));
                        }
                    }
                }
            }
        }
    }
}

/// Builds the routing table from the service resources the registry
/// returned: every eligible resource contributes, per declared port, an
/// address `{protocol}://{resourceName}:{port}` under its service-name
/// label's value; resources missing a name or either label contribute
/// nothing, without error.
pub fn find_graphql_services(services: &Vec<ServiceResource>) -> (table: AddressMap)
    ensures
        table@ == discovered_map(resource_views(services@)),
{
    let mut table = AddressMap::new();
    let n = services.len();
    for idx in 0..n
        invariant
            n == services.len(),
            table@ == discovered_map(resource_views(services@).take(idx as int)),
    {
        register_resource(&mut table, &services[idx]);
        proof {
            let rs = resource_views(services@);
            assert(rs.take(idx as int + 1).drop_last() =~= rs.take(idx as int));
            assert(rs.take(idx as int + 1).last() == services@[idx as int]@);
        }
    }
    proof {
        assert(resource_views(services@).take(n as int) =~= resource_views(services@));
    }
    table
}

} // verus!
