//! Identities of users, chats, messages, notifications and envelopes.

use vstd::prelude::*;

verus! {

/// A 128-bit identity. The value zero is the distinguished unset identity:
/// it names nobody and is never routed to.
#[derive(Clone, Copy, Debug, PartialEq, Eq, Structural, Hash)]
pub struct Identity {
    pub value: u128,
}

impl Identity {
    /// The identity that names nobody.
    pub open spec fn spec_unset() -> Identity {
        Identity { value: 0 }
    }

    /// Whether this identity names somebody.
    pub open spec fn spec_is_valid(&self) -> bool {
        self.value != 0
    }

    /// An identity with the given value.
    pub open spec fn spec_new(value: u128) -> Identity {
        Identity { value }
    }

    /// An identity with the given value.
    #[verifier::when_used_as_spec(spec_new)]
    pub fn new(value: u128) -> (id: Identity)
        ensures
            id == Identity::spec_new(value),
    {
        Identity { value }
    }

    /// The identity that names nobody.
    #[verifier::when_used_as_spec(spec_unset)]
    pub fn unset() -> (id: Identity)
        ensures
            id == Identity::spec_unset(),
            !id.spec_is_valid(),
    {
        Identity { value: 0 }
    }

    /// Whether this identity names somebody.
    #[verifier::when_used_as_spec(spec_is_valid)]
    pub fn is_valid(&self) -> (valid: bool)
        ensures
            valid == self.spec_is_valid(),
    {
        self.value != 0
    }

    /// The 128-bit value.
    pub fn get_value(&self) -> (value: u128)
        ensures
            value == self.value,
    {
        self.value
    }
}

} // verus!
