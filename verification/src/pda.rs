use anchor_lang::prelude::Pubkey;
use vstd::prelude::*;
use vstd::slice::slice_to_vec;
use vstd::utf8::encode_utf8;

use crate::address::Address;
use crate::state::byte_len;

verus! {

/// Most seeds a derivation accepts, the bump seed included.
pub const MAX_SEEDS: usize = 16;

/// Longest single seed a derivation accepts, in bytes.
pub const MAX_SEED_LEN: usize = 32;

/// The program-derived address (and its bump seed) that the address
/// derivation of the Solana SDK finds for `seeds` under `program_id`, or
/// `None` when it finds none.
pub uninterp spec fn derived_address(seeds: Seq<Seq<u8>>, program_id: Seq<u8>) -> Option<(Seq<u8>, u8)>;

/// Calls `Pubkey::try_find_program_address` (solana-pubkey, re-exported by
/// anchor-lang). Claimed: the result is `derived_address` of the seeds and the
/// program id; it is `None` when there are `MAX_SEEDS` seeds or more (the bump
/// seed would make one too many) or when a seed is longer than
/// `MAX_SEED_LEN` bytes, as `create_program_address` then fails for every bump.
#[verifier::external_body]
fn try_find_program_address(seeds: &Vec<Vec<u8>>, program_id: &Address) -> (r: Option<(Address, u8)>)
    ensures
        match derived_address(seeds.deep_view(), program_id@) {
            Some((a, b)) => r matches Some((x, y)) && x@ == a && y == b,
            None => r is None,
        },
        seeds@.len() >= MAX_SEEDS ==> r is None,
        (exists|i: int| 0 <= i < seeds@.len() && seeds@[i]@.len() > MAX_SEED_LEN) ==> r is None,
{
    let slices: Vec<&[u8]> = seeds.iter().map(|s| s.as_slice()).collect();
    let program = Pubkey::new_from_array(program_id.0);
    Pubkey::try_find_program_address(&slices, &program).map(|(key, bump)| (Address(key.to_bytes()), bump))
}

/// The id of the charity program, `CRFmqtbgKoKERdFzFuBTRS5YuDfLYphfRGmGo6Zcn3Qa`
/// in base58.
pub open spec fn program_id_bytes() -> Seq<u8> {
    seq![
        169u8, 167, 51, 29, 79, 205, 36, 96, 89, 74, 189, 109, 116, 55, 99, 159,
        216, 229, 133, 94, 29, 122, 60, 117, 169, 239, 136, 42, 233, 164, 59, 23,
    ]
}

/// The id of the charity program.
pub fn program_id() -> (r: Address)
    ensures
        r@ == program_id_bytes(),
{
    let r = Address([
        169u8, 167, 51, 29, 79, 205, 36, 96, 89, 74, 189, 109, 116, 55, 99, 159,
        216, 229, 133, 94, 29, 122, 60, 117, 169, 239, 136, 42, 233, 164, 59, 23,
    ]);
    assert(r@ =~= program_id_bytes());
    r
}

/// The ASCII bytes of `campaign`.
pub open spec fn campaign_tag() -> Seq<u8> {
    seq![99u8, 97, 109, 112, 97, 105, 103, 110]
}

/// The ASCII bytes of `donation`.
pub open spec fn donation_tag() -> Seq<u8> {
    seq![100u8, 111, 110, 97, 116, 105, 111, 110]
}

/// Seeds of a campaign account: the tag, the authority and the UTF-8 name.
pub open spec fn campaign_seeds(authority: Seq<u8>, name: Seq<char>) -> Seq<Seq<u8>> {
    seq![campaign_tag(), authority, encode_utf8(name)]
}

/// Seeds of a donation record: the tag, the campaign and the donor.
pub open spec fn donation_record_seeds(campaign: Seq<u8>, donor: Seq<u8>) -> Seq<Seq<u8>> {
    seq![donation_tag(), campaign, donor]
}

/// The address a program-derived-address search yields, if any.
pub open spec fn found_address(found: Option<(Seq<u8>, u8)>, r: Option<Address>) -> bool {
    match found {
        Some((a, _)) => r matches Some(x) && x@ == a,
        None => r is None,
    }
}

fn address_bytes(a: &Address) -> (r: Vec<u8>)
    ensures
        r@ == a@,
{
    slice_to_vec(a.0.as_slice())
}

/// Address of the campaign that `authority` created under `name`, whose UTF-8
/// encoding must fit in one seed; `None` only in the statistically improbable
/// case that no bump seed gives a program address.
pub fn campaign_pda(authority: &Address, name: &str) -> (r: Option<Address>)
    requires
        byte_len(name@) <= MAX_SEED_LEN,
    ensures
        found_address(derived_address(campaign_seeds(authority@, name@), program_id_bytes()), r),
{
    let mut seeds: Vec<Vec<u8>> = Vec::new();
    seeds.push(vec![99u8, 97, 109, 112, 97, 105, 103, 110]);
    seeds.push(address_bytes(authority));
    seeds.push(slice_to_vec(name.as_bytes()));
    proof {
        assert(seeds@[0]@ =~= campaign_tag());
        assert(seeds.deep_view()[0] =~= campaign_tag());
        assert(seeds.deep_view()[1] =~= authority@);
        assert(seeds.deep_view()[2] =~= encode_utf8(name@));
        assert(seeds.deep_view() =~= campaign_seeds(authority@, name@));
    }
    let program = program_id();
    match try_find_program_address(&seeds, &program) {
        Some((key, _bump)) => Some(key),
        None => None,
    }
}

/// Address of the record of what `donor` gave to `campaign`; `None` only in
/// the statistically improbable case that no bump seed gives a program
/// address.
pub fn donation_record_pda(campaign: &Address, donor: &Address) -> (r: Option<Address>)
    ensures
        found_address(derived_address(donation_record_seeds(campaign@, donor@), program_id_bytes()), r),
{
    let mut seeds: Vec<Vec<u8>> = Vec::new();
    seeds.push(vec![100u8, 111, 110, 97, 116, 105, 111, 110]);
    seeds.push(address_bytes(campaign));
    seeds.push(address_bytes(donor));
    proof {
        assert(seeds@[0]@ =~= donation_tag());
        assert(seeds.deep_view()[0] =~= donation_tag());
        assert(seeds.deep_view()[1] =~= campaign@);
        assert(seeds.deep_view()[2] =~= donor@);
        assert(seeds.deep_view() =~= donation_record_seeds(campaign@, donor@));
    }
    let program = program_id();
    match try_find_program_address(&seeds, &program) {
        Some((key, _bump)) => Some(key),
        None => None,
    }
}

} // verus!
