//! The escrow authority of a contract: the address, derived from the
//! creator's identity, under which the contract alone may move its escrow.

use vstd::prelude::*;
use anchor_lang::prelude::Pubkey;
use crate::accounts::Address;

verus! {

/// What `Pubkey::try_find_program_address` returns for the two seeds
/// `prefix` and `owner` under `program_id`: the derived address with its
/// bump seed, or nothing where no bump seed gives an address off the curve.
/// It is a function of the three byte strings alone.
pub uninterp spec fn program_address(prefix: Seq<u8>, owner: Seq<u8>, program_id: Seq<u8>) -> Option<
    (Seq<u8>, u8),
>;

/// The first seed of every escrow authority: the text `option_contract`.
pub open spec fn escrow_seed_prefix() -> Seq<u8> {
    seq![111u8, 112u8, 116u8, 105u8, 111u8, 110u8, 95u8, 99u8, 111u8, 110u8, 116u8, 114u8, 97u8, 99u8, 116u8]
}

/// The address whose bytes are `bytes`.
pub open spec fn address_of(bytes: Seq<u8>) -> Address {
    Address { bytes: choose|array: [u8; 32]| array@ == bytes }
}

/// The escrow authority of the contract that `creator` issues under
/// `program_id`, with its bump seed, where there is one.
pub open spec fn escrow_authority(creator: Address, program_id: Address) -> Option<(Address, u8)> {
    match program_address(escrow_seed_prefix(), creator@, program_id@) {
        Some((bytes, bump)) => Some((address_of(bytes), bump)),
        None => None,
    }
}

/// An address is the address of its own bytes.
pub proof fn lemma_address_of_view(address: Address)
    ensures
        address_of(address@) == address,
{
    let chosen = choose|array: [u8; 32]| array@ == address@;
    assert(address.bytes@ == address@);
    assert(chosen@ == address@);
    assert(chosen =~= address.bytes);
}

/// Calls `Pubkey::try_find_program_address` with the seeds `prefix` and
/// `owner` under `program_id`. The contract claims only that the result is
/// the one that the call gives for these three arguments.
#[verifier::external_body]
fn try_find_program_address(prefix: &Vec<u8>, owner: &Address, program_id: &Address) -> (res: Option<
    (Address, u8),
>)
    ensures
        match res {
            Some((address, bump)) => program_address(prefix@, owner@, program_id@) == Some(
                (address@, bump),
            ),
            None => program_address(prefix@, owner@, program_id@) is None,
        },
{
    let program = Pubkey::new_from_array(program_id.bytes);
    match Pubkey::try_find_program_address(&[prefix.as_slice(), &owner.bytes], &program) {
        Some((key, bump)) => Some((Address { bytes: key.to_bytes() }, bump)),
        None => None,
    }
}

/// Builds the first seed of an escrow authority.
pub fn escrow_seed() -> (seed: Vec<u8>)
    ensures
        seed@ == escrow_seed_prefix(),
{
    let seed: Vec<u8> = vec![111u8, 112u8, 116u8, 105u8, 111u8, 110u8, 95u8, 99u8, 111u8, 110u8, 116u8, 114u8, 97u8, 99u8, 116u8];
    assert(seed@ =~= escrow_seed_prefix());
    seed
}

/// Derives the escrow authority of the contract that `creator` issues under
/// `program_id`.
pub fn derive_escrow_authority(creator: &Address, program_id: &Address) -> (res: Option<
    (Address, u8),
>)
    ensures
        res == escrow_authority(*creator, *program_id),
{
    let seed = escrow_seed();
    let found = try_find_program_address(&seed, creator, program_id);
    proof {
        if let Some((address, bump)) = found {
            lemma_address_of_view(address);
        }
    }
    found
}

} // verus!
