//! The protocol-neutral record model: endpoints and change sets as the
//! upstream reconciler speaks of them.

use vstd::prelude::*;

verus! {

/// The domain filters returned by filter negotiation.
#[derive(Debug, Clone, PartialEq, Eq)]
pub struct Filters {
    pub filters: Vec<String>,
}

/// One logical DNS record as the reconciler sees it: a name, a record type,
/// and one value per physical backend record.
#[derive(Debug, Clone, PartialEq, Eq)]
pub struct Endpoint {
    pub dns_name: String,
    pub targets: Vec<String>,
    pub record_type: String,
    pub record_ttl: Option<u32>,
    pub set_identifier: String,
    pub labels: Vec<(String, String)>,
    pub provider_specific: Vec<ProviderSpecificProperty>,
}

impl Default for Endpoint {
    /// An endpoint with every field empty or absent.
    fn default() -> (r: Endpoint)
        ensures
            r.dns_name@ == Seq::<char>::empty(),
            r.targets@ == Seq::<String>::empty(),
            r.record_type@ == Seq::<char>::empty(),
            r.record_ttl is None,
            r.set_identifier@ == Seq::<char>::empty(),
            r.labels@ == Seq::<(String, String)>::empty(),
            r.provider_specific@ == Seq::<ProviderSpecificProperty>::empty(),
    {
        Endpoint {
            dns_name: String::new(),
            targets: Vec::new(),
            record_type: String::new(),
            record_ttl: None,
            set_identifier: String::new(),
            labels: Vec::new(),
            provider_specific: Vec::new(),
        }
    }
}

/// A named provider-specific property carried through unchanged.
#[derive(Debug, Clone, PartialEq, Eq)]
pub struct ProviderSpecificProperty {
    pub name: String,
    pub value: String,
}

/// A batch of desired changes: creations, deletions, and paired old/new
/// updates. Absent lists mean empty lists.
#[derive(Debug, Clone)]
pub struct Changes {
    pub create: Option<Vec<Endpoint>>,
    pub update_old: Option<Vec<Endpoint>>,
    pub update_new: Option<Vec<Endpoint>>,
    pub delete: Option<Vec<Endpoint>>,
}

/// The endpoints of an optional list: absent means empty.
pub open spec fn opt_endpoints(o: Option<Vec<Endpoint>>) -> Seq<Endpoint> {
    match o {
        Some(v) => v@,
        None => Seq::empty(),
    }
}

/// The deletion set of a change batch: `delete` then `update_old`.
pub open spec fn deletions_of(c: Changes) -> Seq<Endpoint> {
    opt_endpoints(c.delete) + opt_endpoints(c.update_old)
}

/// The addition set of a change batch: `create` then `update_new`.
pub open spec fn additions_of(c: Changes) -> Seq<Endpoint> {
    opt_endpoints(c.create) + opt_endpoints(c.update_new)
}

} // verus!
