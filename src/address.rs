use vstd::prelude::*;
use anchor_lang::solana_program::pubkey::Pubkey;

verus! {

/// A 32-byte account identifier of the host ledger.
#[derive(Clone, Copy, Debug, Eq)]
pub struct AccountId {
    pub bytes: [u8; 32],
}

impl View for AccountId {
    type V = Seq<u8>;

    open spec fn view(&self) -> Seq<u8> {
        self.bytes@
    }
}

impl PartialEq for AccountId {
    fn eq(&self, o: &AccountId) -> (r: bool)
        ensures
            r == (self@ == o@),
    {
        let mut i: usize = 0;
        while i < 32
            invariant
                i <= 32,
                forall|j: int| 0 <= j < i ==> self.bytes@[j] == o.bytes@[j],
            decreases 32 - i,
        {
            if self.bytes[i] != o.bytes[i] {
                return false;
            }
            i = i + 1;
        }
        assert(self@ =~= o@);
        true
    }
}

impl vstd::std_specs::cmp::PartialEqSpecImpl for AccountId {
    open spec fn obeys_eq_spec() -> bool {
        true
    }

    open spec fn eq_spec(&self, o: &AccountId) -> bool {
        self@ == o@
    }
}

/// The address derived from `seeds` under `program`, when the seeds
/// yield an address off the curve (within the seed limits).
pub uninterp spec fn program_address_of(seeds: Seq<Seq<u8>>, program: Seq<u8>) -> Option<Seq<u8>>;

/// The first (address, capability byte) pair found for `seeds` under
/// `program`, trying capability bytes downward from 255.
pub uninterp spec fn found_address_of(seeds: Seq<Seq<u8>>, program: Seq<u8>) -> Option<(Seq<u8>, u8)>;

pub open spec fn seeds_view(seeds: Seq<Vec<u8>>) -> Seq<Seq<u8>> {
    seeds.map_values(|s: Vec<u8>| s@)
}

pub open spec fn account_opt_view(a: Option<AccountId>) -> Option<Seq<u8>> {
    match a {
        Some(k) => Some(k@),
        None => None,
    }
}

/// Relies on Pubkey::create_program_address: the derived address, or an
/// error when the seeds are out of limits or the result lies on the curve.
#[verifier::external_body]
pub(crate) fn create_program_address(seeds: &Vec<Vec<u8>>, program: &AccountId) -> (r: Option<AccountId>)
    ensures
        account_opt_view(r) == program_address_of(seeds_view(seeds@), program@),
{
    let s: Vec<&[u8]> = seeds.iter().map(|v| v.as_slice()).collect();
    Pubkey::create_program_address(&s, &Pubkey::new_from_array(program.bytes))
        .ok()
        .map(|k| AccountId { bytes: k.to_bytes() })
}

/// Relies on Pubkey::try_find_program_address: the first capability byte,
/// from 255 down, for which create_program_address succeeds on the seeds
/// followed by that byte, together with the address it gives.
#[verifier::external_body]
pub(crate) fn try_find_program_address(seeds: &Vec<Vec<u8>>, program: &AccountId) -> (r: Option<(AccountId, u8)>)
    ensures
        match r {
            Some((a, b)) => found_address_of(seeds_view(seeds@), program@) == Some((a@, b))
                && program_address_of(seeds_view(seeds@).push(seq![b]), program@) == Some(a@),
            None => found_address_of(seeds_view(seeds@), program@) is None,
        },
{
    let s: Vec<&[u8]> = seeds.iter().map(|v| v.as_slice()).collect();
    Pubkey::try_find_program_address(&s, &Pubkey::new_from_array(program.bytes))
        .map(|(k, b)| (AccountId { bytes: k.to_bytes() }, b))
}

} // verus!
