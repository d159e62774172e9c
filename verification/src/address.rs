//! The seeds from which the address of an escrow record is derived, and by
//! which the record signs for the funds it holds.
//!
//! The address of a record is a function of the program that keeps it and of
//! the gig identifier alone, so that anyone can compute where the record of a
//! gig lives, and no gig has more than one.

use crate::identity::Identity;
use anchor_lang::prelude::Pubkey;
use vstd::prelude::*;
use vstd::slice::slice_to_vec;
use vstd::utf8::encode_utf8;

verus! {

/// The fixed first seed of every escrow record: the bytes of `escrow`.
pub open spec fn escrow_tag() -> Seq<u8> {
    seq![101u8, 115u8, 99u8, 114u8, 111u8, 119u8]
}

/// The seeds that locate the record of a gig: the tag and the gig identifier.
pub open spec fn escrow_seeds(gig_id: Seq<char>) -> Seq<Seq<u8>> {
    seq![escrow_tag(), encode_utf8(gig_id)]
}

/// The seeds by which the record of a gig signs: those that locate it, and
/// the bump.
pub open spec fn signer_seeds(gig_id: Seq<char>, bump: u8) -> Seq<Seq<u8>> {
    seq![escrow_tag(), encode_utf8(gig_id), seq![bump]]
}

/// The address and bump that `Pubkey::try_find_program_address` finds for
/// `seeds` under the program `program_id`, if it finds any.
pub uninterp spec fn found_program_address(seeds: Seq<Seq<u8>>, program_id: Seq<u8>) -> Option<
    (Seq<u8>, u8),
>;

/// Where the record of a gig lives under the program `program_id`, and the
/// bump of that address, if the gig identifier admits an address.
pub open spec fn escrow_address(program_id: Seq<u8>, gig_id: Seq<char>) -> Option<(Seq<u8>, u8)> {
    found_program_address(escrow_seeds(gig_id), program_id)
}

/// `Pubkey::try_find_program_address` on the two seeds `tag` and `gig`. It
/// searches the bumps from 255 downwards for the first that, hashed with the
/// seeds and the program, gives a key off the curve. The outcome depends on
/// the seeds and the program alone, which is all that is claimed here.
#[verifier::external_body]
fn try_find_program_address(tag: &[u8], gig: &[u8], program_id: &Identity) -> (found: Option<
    (Identity, u8),
>)
    ensures
        match found {
            Some((address, bump)) => found_program_address(seq![tag@, gig@], program_id@) == Some(
                (address@, bump),
            ),
            None => found_program_address(seq![tag@, gig@], program_id@) is None,
        },
{
    let program = Pubkey::new_from_array(program_id.bytes);
    match Pubkey::try_find_program_address(&[tag, gig], &program) {
        Some((address, bump)) => Some((Identity { bytes: address.to_bytes() }, bump)),
        None => None,
    }
}

/// The tag as bytes.
fn tag_bytes() -> (tag: Vec<u8>)
    ensures
        tag@ == escrow_tag(),
{
    let tag: Vec<u8> = vec![101u8, 115u8, 99u8, 114u8, 111u8, 119u8];
    assert(tag@ =~= escrow_tag());
    tag
}

/// Finds where the record of `gig_id` lives under the program `program_id`.
pub fn find_escrow_address(program_id: &Identity, gig_id: &str) -> (found: Option<(Identity, u8)>)
    ensures
        match found {
            Some((address, bump)) => escrow_address(program_id@, gig_id@) == Some((address@, bump)),
            None => escrow_address(program_id@, gig_id@) is None,
        },
{
    let tag = tag_bytes();
    try_find_program_address(tag.as_slice(), gig_id.as_bytes(), program_id)
}

/// Builds the seeds by which the record of `gig_id` signs.
pub fn signer_seeds_for(gig_id: &str, bump: u8) -> (seeds: Vec<Vec<u8>>)
    ensures
        seeds.deep_view() == signer_seeds(gig_id@, bump),
{
    let gig: Vec<u8> = slice_to_vec(gig_id.as_bytes());
    let last: Vec<u8> = vec![bump];
    let seeds: Vec<Vec<u8>> = vec![tag_bytes(), gig, last];
    assert(seeds.deep_view() =~= signer_seeds(gig_id@, bump)) by {
        assert(seeds.deep_view().len() == 3);
        assert(seeds.deep_view()[0] =~= escrow_tag());
        assert(seeds.deep_view()[1] =~= encode_utf8(gig_id@));
        assert(seeds.deep_view()[2] =~= seq![bump]);
    }
    seeds
}

} // verus!
