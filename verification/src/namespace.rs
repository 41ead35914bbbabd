//! Resolution of the cluster namespace that discovery queries.
//!
//! The surrounding program reads the namespace file that the cluster runtime
//! exposes to in-cluster workloads and hands the outcome here; any failure to
//! read it falls back uniformly to the default namespace.

use vstd::prelude::*;

verus! {

/// Well-known path of the file whose content is the active namespace.
pub const NAMESPACE_PATH: &'static str = "/var/run/secrets/kubernetes.io/serviceaccount/namespace";

/// Namespace used whenever the namespace file cannot be read.
pub const DEFAULT_NAMESPACE: &'static str = "default";

/// Turns the outcome of reading the namespace file into the namespace to
/// query: the file's content when it was readable, the default namespace
/// otherwise. The two failure causes (file absent, file unreadable) are not
/// distinguished.
pub fn resolve_namespace(content: Option<String>) -> (namespace: String)
    ensures
        match content {
            Some(ns) => namespace@ == ns@,
            None => namespace@ == DEFAULT_NAMESPACE@,
        },
{
    match content {
        Some(ns) => ns,
        None => DEFAULT_NAMESPACE.to_owned(),
    }
}

} // verus!
