use vstd::prelude::*;
use anchor_lang::solana_program::pubkey::Pubkey;
use crate::address::Address;

verus! {

broadcast use vstd::array::axiom_array_ext_equal;

/// The program-derived address and bump seed that solana-program finds for
/// the seed list `[seed]` under the program `program`, or `None` when no
/// bump seed yields an address off the ed25519 curve.
pub uninterp spec fn program_address_of(seed: Seq<u8>, program: Seq<u8>) -> Option<(Seq<u8>, u8)>;

/// Relies on `Pubkey::try_find_program_address` of solana-program (re-exported
/// by anchor-lang): its result depends on the seeds and the program id alone.
#[verifier::external_body]
fn find_program_address(seed: &Address, program: &Address) -> (r: Option<(Address, u8)>)
    ensures
        match r {
            Some((a, b)) => program_address_of(seed@, program@) == Some((a@, b)),
            None => program_address_of(seed@, program@) is None,
        },
{
    let seeds: [&[u8]; 1] = [&seed.bytes];
    match Pubkey::try_find_program_address(&seeds, &Pubkey::new_from_array(program.bytes)) {
        Some((key, bump)) => Some((Address { bytes: key.to_bytes() }, bump)),
        None => None,
    }
}

/// The custodial signing capability for the escrow accounts of one seller:
/// the address derived from the seller's address, and the bump seed with
/// which the program signs for it. It is never a key pair.
#[derive(Clone, Copy, Debug, PartialEq, Eq)]
pub struct Authority {
    pub seller: Address,
    pub address: Address,
    pub bump: u8,
}

impl Authority {
    /// This capability is the one derived from `self.seller` under `program`.
    pub open spec fn derived_under(self, program: Seq<u8>) -> bool {
        program_address_of(self.seller@, program) == Some((self.address@, self.bump))
    }
}

/// Derives the custodial authority of `seller` under the program `program_id`.
pub fn derive_authority(seller: &Address, program_id: &Address) -> (r: Option<Authority>)
    ensures
        match r {
            Some(a) => a.seller == *seller && a.derived_under(program_id@),
            None => program_address_of(seller@, program_id@) is None,
        },
{
    match find_program_address(seller, program_id) {
        Some((address, bump)) => Some(Authority { seller: *seller, address, bump }),
        None => None,
    }
}

/// Derivation is stable: two capabilities derived from the same seller under
/// the same program are the same capability.
pub proof fn lemma_derivation_is_stable(a1: Authority, a2: Authority, program: Seq<u8>)
    requires
        a1.derived_under(program),
        a2.derived_under(program),
        a1.seller == a2.seller,
    ensures
        a1 == a2,
{
    assert(a1.address.bytes@ == a2.address.bytes@);
    assert forall|i: int| 0 <= i < 32 implies a1.address.bytes[i] == a2.address.bytes[i] by {
        assert(a1.address.bytes@[i] == a2.address.bytes@[i]);
    }
    assert(a1.address.bytes =~= a2.address.bytes);
}

} // verus!
