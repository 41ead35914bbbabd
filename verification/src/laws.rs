//! Laws of the discovery pipeline, stated over the mathematical model and
//! proved once for all inputs.

use vstd::prelude::*;

use crate::address::spec_address;
use crate::discovery::apply_resource;
use crate::discovery::discovered_map;
use crate::discovery::eligible;
use crate::discovery::spec_protocol_label;
use crate::discovery::spec_service_label;
use crate::resource::SpecResource;

verus! {

/// Law: every eligible resource that declares at least one port is
/// represented in the discovered table — its service-label value is a key
/// of the map.
pub proof fn lemma_eligible_resource_registered(resources: Seq<SpecResource>, i: int)
    requires
        0 <= i < resources.len(),
        eligible(resources[i]),
        resources[i].ports.len() > 0,
    ensures
        discovered_map(resources).contains_key(spec_service_label(resources[i])->0),
    decreases resources.len(),
{
    if i < resources.len() - 1 {
        assert(resources.drop_last()[i] == resources[i]);
        lemma_eligible_resource_registered(resources.drop_last(), i);
    }
}

/// Law: every address in the discovered table has the form
/// `{protocol}://{host}:{port}`, where the host is the resource's own name,
/// the protocol is its protocol label, the port is the last one it declares,
/// and the key is its service-label value — for some eligible resource of
/// the input.
pub proof fn lemma_discovered_address_form(resources: Seq<SpecResource>, k: Seq<char>)
    requires
        discovered_map(resources).contains_key(k),
    ensures
        exists|i: int|
            #![auto]
            0 <= i < resources.len() && eligible(resources[i]) && spec_service_label(resources[i])
                == Some(k) && resources[i].ports.len() > 0 && discovered_map(resources)[k]
                == spec_address(
                spec_protocol_label(resources[i])->0,
                resources[i].name->0,
                resources[i].ports.last(),
            ),
    decreases resources.len(),
{
    let n = resources.len() as int;
    let last = resources.last();
    if eligible(last) && last.ports.len() > 0 && spec_service_label(last)->0 == k {
        assert(resources[n - 1] == last);
        assert(discovered_map(resources)[k] == spec_address(
            spec_protocol_label(last)->0,
            last.name->0,
            last.ports.last(),
        ));
    } else {
        lemma_discovered_address_form(resources.drop_last(), k);
        let j = choose|j: int|
            #![auto]
            0 <= j < resources.drop_last().len() && eligible(resources.drop_last()[j])
                && spec_service_label(resources.drop_last()[j]) == Some(k)
                && resources.drop_last()[j].ports.len() > 0 && discovered_map(
                resources.drop_last(),
            )[k] == spec_address(
                spec_protocol_label(resources.drop_last()[j])->0,
                resources.drop_last()[j].name->0,
                resources.drop_last()[j].ports.last(),
            );
        assert(resources.drop_last()[j] == resources[j]);
    }
}

/// Law: when a single eligible resource carries a service label, the
/// discovered table maps that label to exactly the address synthesized from
/// that resource — its protocol label, its own resource name as host, and
/// the last of its declared ports.
pub proof fn lemma_unique_service_entry(resources: Seq<SpecResource>, i: int)
    requires
        0 <= i < resources.len(),
        eligible(resources[i]),
        resources[i].ports.len() > 0,
        forall|j: int|
            0 <= j < resources.len() && j != i && #[trigger] eligible(resources[j])
                ==> spec_service_label(resources[j]) != spec_service_label(resources[i]),
    ensures
        discovered_map(resources).contains_key(spec_service_label(resources[i])->0),
        discovered_map(resources)[spec_service_label(resources[i])->0] == spec_address(
            spec_protocol_label(resources[i])->0,
            resources[i].name->0,
            resources[i].ports.last(),
        ),
{
    let k = spec_service_label(resources[i])->0;
    lemma_eligible_resource_registered(resources, i);
    lemma_discovered_address_form(resources, k);
    let j = choose|j: int|
        #![auto]
        0 <= j < resources.len() && eligible(resources[j]) && spec_service_label(resources[j])
            == Some(k) && resources[j].ports.len() > 0 && discovered_map(resources)[k]
            == spec_address(
            spec_protocol_label(resources[j])->0,
            resources[j].name->0,
            resources[j].ports.last(),
        );
    assert(spec_service_label(resources[i]) == Some(k));
    assert(j == i);
}

/// Law: a resource missing its name, its service-name label or its protocol
/// label contributes nothing — removing it from the input leaves the
/// discovered table unchanged.
pub proof fn lemma_ineligible_resource_ignored(resources: Seq<SpecResource>, i: int)
    requires
        0 <= i < resources.len(),
        !eligible(resources[i]),
    ensures
        discovered_map(resources) == discovered_map(resources.remove(i)),
    decreases resources.len(),
{
    let n = resources.len() as int;
    if i == n - 1 {
        assert(resources.remove(i) =~= resources.drop_last());
    } else {
        assert(resources.drop_last()[i] == resources[i]);
        lemma_ineligible_resource_ignored(resources.drop_last(), i);
        assert(resources.remove(i).drop_last() =~= resources.drop_last().remove(i));
        assert(resources.remove(i).last() == resources.last());
        assert(discovered_map(resources.remove(i)) == apply_resource(
            discovered_map(resources.drop_last().remove(i)),
            resources.last(),
        ));
    }
}

/// Law: a resource declaring several ports under one service-name label
/// still yields a single entry, whose address is formed from the last
/// declared port; the addresses of the earlier ports are overwritten.
pub proof fn lemma_last_port_wins(m: Map<Seq<char>, Seq<char>>, r: SpecResource)
    requires
        eligible(r),
        r.ports.len() > 0,
    ensures
        apply_resource(m, r) == m.insert(
            spec_service_label(r)->0,
            spec_address(spec_protocol_label(r)->0, r.name->0, r.ports.last()),
        ),
{
}

} // verus!
