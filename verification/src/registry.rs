//! The configuration of a ledger: who organizes, and in what asset tickets
//! are paid.

use crate::identity::Identity;
use crate::ledger::RegistryState;
use vstd::prelude::*;

verus! {

/// The configuration that is fixed when the ledger is set up.
#[derive(Debug)]
pub struct Registry {
    /// The organizer: mints tickets, and receives primary proceeds and
    /// resale commissions.
    pub owner: Identity,
    /// The asset in which tickets are paid.
    pub token: Identity,
}

impl View for Registry {
    type V = RegistryState;

    open spec fn view(&self) -> RegistryState {
        RegistryState { owner: self.owner@, token: self.token@ }
    }
}

impl Clone for Registry {
    fn clone(&self) -> (copy: Registry)
        ensures
            copy@ == self@,
    {
        Registry { owner: self.owner.clone(), token: self.token.clone() }
    }
}

} // verus!
