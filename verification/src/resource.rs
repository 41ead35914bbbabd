//! The library's model of a cluster service resource and the label lookup
//! that discovery performs on it.
//!
//! A resource is reduced to the three things discovery reads: its own name,
//! its key/value labels, and the network ports its spec declares. The
//! surrounding program converts the cluster API's representation into this
//! type before calling into the library.

use vstd::prelude::*;

verus! {

/// Label key that marks a resource as a routable GraphQL service; its value
/// is the logical service name under which the address is registered.
pub const LABEL_GRAPHQL_SERVICE: &'static str = "graphgate.org/service";

/// Label key whose value is the wire protocol (the URL scheme) of a service.
pub const LABEL_GRAPHQL_PROTOCOL: &'static str = "graphgate.org/protocol";

/// A cluster service resource, reduced to the fields that discovery reads.
pub struct ServiceResource {
    /// The resource's own name; used as the host part of the address.
    pub name: Option<String>,
    /// The resource's labels, in the order the registry reports them.
    pub labels: Vec<(String, String)>,
    /// Every port declared by the resource's spec, in declaration order.
    pub ports: Vec<i32>,
}

/// Mathematical model of a service resource.
pub struct SpecResource {
    pub name: Option<Seq<char>>,
    pub labels: Seq<(Seq<char>, Seq<char>)>,
    pub ports: Seq<int>,
}

impl View for ServiceResource {
    type V = SpecResource;

    open spec fn view(&self) -> SpecResource {
        SpecResource {
            name: match self.name {
                Some(n) => Some(n@),
                None => None,
            },
            labels: self.labels@.map_values(|p: (String, String)| (p.0@, p.1@)),
            ports: self.ports@.map_values(|p: i32| p as int),
        }
    }
}

/// The value of the first label whose key is `key`, if any.
pub open spec fn spec_label_value(labels: Seq<(Seq<char>, Seq<char>)>, key: Seq<char>) -> Option<
    Seq<char>,
>
    decreases labels.len(),
{
    if labels.len() == 0 {
        None
    } else if labels.first().0 == key {
        Some(labels.first().1)
    } else {
        spec_label_value(labels.drop_first(), key)
    }
}

proof fn lemma_label_value_no_match(labels: Seq<(Seq<char>, Seq<char>)>, key: Seq<char>)
    requires
        forall|j: int| 0 <= j < labels.len() ==> (#[trigger] labels[j]).0 != key,
    ensures
        spec_label_value(labels, key) is None,
    decreases labels.len(),
{
    if labels.len() > 0 {
        lemma_label_value_no_match(labels.drop_first(), key);
    }
}

proof fn lemma_label_value_first_match(labels: Seq<(Seq<char>, Seq<char>)>, key: Seq<char>, i: int)
    requires
        0 <= i < labels.len(),
        labels[i].0 == key,
        forall|j: int| 0 <= j < i ==> (#[trigger] labels[j]).0 != key,
    ensures
        spec_label_value(labels, key) == Some(labels[i].1),
    decreases labels.len(),
{
    if i > 0 {
        lemma_label_value_first_match(labels.drop_first(), key, i - 1);
    }
}

impl ServiceResource {
    /// The value of the first of this resource's labels named `name`, if any.
    pub fn get_label_value<'a>(&'a self, name: &str) -> (value: Option<&'a String>)
        ensures
            match value {
                Some(v) => spec_label_value(self@.labels, name@) == Some(v@),
                None => spec_label_value(self@.labels, name@) is None,
            },
    {
        let needle: String = name.to_owned();
        let n = self.labels.len();
        for i in 0..n
            invariant
                n == self.labels.len(),
                needle@ == name@,
                forall|j: int| 0 <= j < i ==> (#[trigger] self@.labels[j]).0 != name@,
        {
            if self.labels[i].0 == needle {
                proof {
                    lemma_label_value_first_match(self@.labels, name@, i as int);
                }
                return Some(&self.labels[i].1);
            }
        }
        proof {
            lemma_label_value_no_match(self@.labels, name@);
        }
        None
    }
}

} // verus!
