//! Addresses.

use vstd::prelude::*;

verus! {

/// The address of an account, a mint or a program: 32 bytes.
#[derive(Clone, Copy, Debug, PartialEq, Eq)]
pub struct Pubkey {
    pub bytes: [u8; 32],
}

impl View for Pubkey {
    type V = Seq<u8>;

    open spec fn view(&self) -> Seq<u8> {
        self.bytes@
    }
}

/// The address of zeros.
pub open spec fn zero_key() -> Pubkey {
    Pubkey { bytes: vstd::array::spec_array_fill_for_copy_type::<u8, 32>(0u8) }
}

impl Pubkey {
    /// Whether the two addresses have the same bytes.
    pub fn same_as(&self, other: &Pubkey) -> (same: bool)
        ensures
            same == (*self == *other),
            same == (self@ == other@),
    {
        let mut i: usize = 0;
        while i < 32
            invariant
                i <= 32,
                forall|j: int| 0 <= j < i ==> self.bytes[j] == other.bytes[j],
            decreases 32 - i,
        {
            if self.bytes[i] != other.bytes[i] {
                assert(self@[i as int] != other@[i as int]);
                return false;
            }
            i = i + 1;
        }
        assert(self.bytes =~= other.bytes);
        assert(self@ =~= other@);
        true
    }
}

/// The address that `Pubkey::create_program_address` derives from a seed, a bump
/// and a program, if there is one.
pub uninterp spec fn program_address(seed: Seq<u8>, bump: u8, program_id: Seq<u8>) -> Option<
    Seq<u8>,
>;

/// `Pubkey::create_program_address` of `solana_pubkey`, on the seed and on the
/// bump as a seed of one byte. What it derives is a function of these alone.
#[verifier::external_body]
pub(crate) fn create_program_address(seed: &[u8], bump: u8, program_id: &Pubkey) -> (address:
    Option<Pubkey>)
    ensures
        program_address(seed@, bump, program_id@) == (match address {
            Some(key) => Some(key@),
            None => None,
        }),
{
    let program_id = solana_pubkey::Pubkey::from(program_id.bytes);
    let address = solana_pubkey::Pubkey::create_program_address(&[seed, &[bump]], &program_id);
    Some(Pubkey { bytes: address.ok()?.to_bytes() })
}

impl Default for Pubkey {
    fn default() -> (key: Self)
        ensures
            key == zero_key(),
            forall|i: int| 0 <= i < 32 ==> key@[i] == 0,
    {
        Pubkey { bytes: [0u8; 32] }
    }
}

} // verus!
