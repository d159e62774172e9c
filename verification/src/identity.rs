//! Identities of the parties and accounts an escrow deals with.

use anchor_lang::prelude::Pubkey;
use vstd::prelude::*;
use vstd::std_specs::cmp::PartialEqSpecImpl;

verus! {

/// A public key: the identity of a party, of a custody account or of a record.
#[derive(Clone, Copy, Debug)]
pub struct Identity {
    pub bytes: [u8; 32],
}

impl View for Identity {
    type V = Seq<u8>;

    open spec fn view(&self) -> Seq<u8> {
        self.bytes@
    }
}

/// The key that stands for "nobody": thirty-two zero bytes.
pub open spec fn unset_key() -> Seq<u8> {
    Seq::new(32, |i: int| 0u8)
}

/// `Pubkey::default()`, which is the key made of thirty-two zero bytes.
#[verifier::external_body]
fn default_key() -> (key: Identity)
    ensures
        key@ == unset_key(),
{
    Identity { bytes: Pubkey::default().to_bytes() }
}

/// `Pubkey`'s `==`, which holds exactly when the two keys have the same bytes.
#[verifier::external_body]
fn keys_equal(a: &Identity, b: &Identity) -> (same: bool)
    ensures
        same == (a@ == b@),
{
    Pubkey::new_from_array(a.bytes) == Pubkey::new_from_array(b.bytes)
}

impl Identity {
    /// The identity with the given bytes.
    pub fn new(bytes: [u8; 32]) -> (key: Identity)
        ensures
            key@ == bytes@,
    {
        Identity { bytes }
    }

    /// Whether this is the unset key.
    pub open spec fn is_unset(&self) -> bool {
        self@ == unset_key()
    }
}

impl Default for Identity {
    fn default() -> (key: Identity)
        ensures
            key@ == unset_key(),
    {
        default_key()
    }
}

impl PartialEq for Identity {
    fn eq(&self, other: &Identity) -> (same: bool) {
        keys_equal(self, other)
    }
}

impl PartialEqSpecImpl for Identity {
    open spec fn obeys_eq_spec() -> bool {
        true
    }

    open spec fn eq_spec(&self, other: &Identity) -> bool {
        self@ == other@
    }
}

impl Eq for Identity {}

} // verus!
