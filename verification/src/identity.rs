//! Principals: the organizer, ticket holders, buyers, the payment asset.

use vstd::prelude::*;
use vstd::std_specs::cmp::PartialEqSpecImpl;

verus! {

/// A principal, known by its account key.
///
/// The ledger never looks inside a key: two identities are the same
/// principal exactly when their keys are the same text.
#[derive(Debug)]
pub struct Identity {
    key: String,
}

impl View for Identity {
    type V = Seq<char>;

    closed spec fn view(&self) -> Seq<char> {
        self.key@
    }
}

impl Identity {
    /// The principal whose account key is `key`.
    pub fn new(key: &str) -> (id: Identity)
        ensures
            id@ == key@,
    {
        Identity { key: key.to_owned() }
    }

    /// The account key of this principal.
    pub fn key(&self) -> (key: &str)
        ensures
            key@ == self@,
    {
        self.key.as_str()
    }
}

impl Clone for Identity {
    fn clone(&self) -> (copy: Identity)
        ensures
            copy@ == self@,
    {
        Identity { key: self.key.clone() }
    }
}

impl PartialEq for Identity {
    fn eq(&self, other: &Identity) -> (same: bool) {
        self.key == other.key
    }
}

impl Eq for Identity {}

impl PartialEqSpecImpl for Identity {
    open spec fn obeys_eq_spec() -> bool {
        true
    }

    open spec fn eq_spec(&self, other: &Identity) -> bool {
        self@ == other@
    }
}

} // verus!
