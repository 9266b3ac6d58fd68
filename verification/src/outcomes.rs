//! What each instruction does, stated directly over its inputs and results:
//! when it is accepted, which refusal comes on which input, and which fields
//! change and how.
use vstd::prelude::*;
use vstd::utf8::{encode_utf8, encode_utf8_decode_utf8};

use crate::address::Address;
use crate::error::CharityError;
use crate::instructions::{
    close_check, donate_outcome, initialize_check, new_campaign, refund_outcome, withdraw_outcome,
};
use crate::pda::{campaign_seeds, donation_record_seeds};
use crate::state::{Campaign, DonationRecord};

verus! {

// ---------------------------------------------------------------------------
// initialize_campaign
// ---------------------------------------------------------------------------

/// A campaign is created exactly when the UTF-8 encoding of its name takes at
/// most 50 bytes, that of its description at most 200, and its deadline is 0 or later than `now`; the
/// name is checked first, then the description, then the deadline.
pub proof fn law_initialize_accepts_exactly(
    name: Seq<char>,
    description: Seq<char>,
    deadline_unix: i64,
    now: i64,
)
    ensures
        initialize_check(name, description, deadline_unix, now) is Ok <==> (encode_utf8(name).len() <= 50
            && encode_utf8(description).len() <= 200 && (deadline_unix == 0 || deadline_unix > now)),
        encode_utf8(name).len() > 50 ==> initialize_check(name, description, deadline_unix, now) == Err::<
            (),
            CharityError,
        >(CharityError::NameTooLong),
        encode_utf8(name).len() <= 50 && encode_utf8(description).len() > 200 ==> initialize_check(
            name,
            description,
            deadline_unix,
            now,
        ) == Err::<(), CharityError>(CharityError::DescriptionTooLong),
        encode_utf8(name).len() <= 50 && encode_utf8(description).len() <= 200 && deadline_unix != 0 && deadline_unix
            <= now ==> initialize_check(name, description, deadline_unix, now) == Err::<
            (),
            CharityError,
        >(CharityError::InvalidDeadline),
{
}

/// A new campaign holds the authority, name, description, goal, deadline,
/// bump and creation slot it was given, and starts with nothing raised,
/// withdrawn or counted, in epoch 0.
pub proof fn law_new_campaign_as_given(
    authority: Address,
    bump: u8,
    name: String,
    description: String,
    goal_lamports: u64,
    deadline_unix: i64,
    created_slot: u64,
)
    ensures
        ({
            let c = new_campaign(
                authority,
                bump,
                name,
                description,
                goal_lamports,
                deadline_unix,
                created_slot,
            );
            &&& c.authority == authority
            &&& c.name == name
            &&& c.description == description
            &&& c.goal_lamports == goal_lamports
            &&& c.deadline_unix == deadline_unix
            &&& c.bump == bump
            &&& c.created_slot == created_slot
            &&& c.amount_raised == 0
            &&& c.amount_withdrawn == 0
            &&& c.donor_count == 0
            &&& c.epoch == 0
        }),
{
}

// ---------------------------------------------------------------------------
// donate
// ---------------------------------------------------------------------------

/// The fields a donation, withdrawal or refund never touches.
pub open spec fn same_settings(a: Campaign, b: Campaign) -> bool {
    &&& a.authority == b.authority
    &&& a.name == b.name
    &&& a.description == b.description
    &&& a.goal_lamports == b.goal_lamports
    &&& a.deadline_unix == b.deadline_unix
    &&& a.bump == b.bump
    &&& a.created_slot == b.created_slot
}

/// A donation of nothing is refused with `InvalidAmount`.
pub proof fn law_donation_of_nothing_refused(
    campaign: Campaign,
    record: DonationRecord,
    donor: Address,
    campaign_key: Address,
    record_bump: u8,
    now: i64,
)
    ensures
        donate_outcome(campaign, record, donor, campaign_key, record_bump, 0, now) == Err::<
            (Campaign, DonationRecord),
            CharityError,
        >(CharityError::InvalidAmount),
{
}

/// Once a campaign's deadline has passed, every donation to it is refused
/// with `DeadlinePassed`, whoever gives and whatever the record holds.
pub proof fn law_donation_refused_after_deadline(
    campaign: Campaign,
    record: DonationRecord,
    donor: Address,
    campaign_key: Address,
    record_bump: u8,
    amount: u64,
    now: i64,
)
    requires
        amount > 0,
        campaign.deadline_unix != 0,
        now > campaign.deadline_unix,
    ensures
        donate_outcome(campaign, record, donor, campaign_key, record_bump, amount, now) == Err::<
            (Campaign, DonationRecord),
            CharityError,
        >(CharityError::DeadlinePassed),
{
}

/// A positive donation before the deadline (or to a campaign without one)
/// whose totals fit in 64 bits is accepted: the amount is added to what the
/// campaign raised and to what the record gave in this creation and in the
/// current epoch, the record is stamped with the campaign's creation slot and
/// epoch, and nothing else of the campaign changes but the donor count.
pub proof fn law_donation_accepted(
    campaign: Campaign,
    record: DonationRecord,
    donor: Address,
    campaign_key: Address,
    record_bump: u8,
    amount: u64,
    now: i64,
)
    requires
        amount > 0,
        campaign.deadline_unix == 0 || now <= campaign.deadline_unix,
        campaign.amount_raised + amount <= u64::MAX,
        record.created_slot == campaign.created_slot ==> record.amount + amount <= u64::MAX,
        record.created_slot == campaign.created_slot && record.epoch == campaign.epoch
            ==> record.unspent + amount <= u64::MAX,
        record.created_slot != campaign.created_slot || (record.amount == 0 && record.donor@
            == Address::spec_zero()) ==> campaign.donor_count < u64::MAX,
    ensures
        donate_outcome(campaign, record, donor, campaign_key, record_bump, amount, now) matches Ok(
            (c, r),
        ) && {
            &&& c.amount_raised == campaign.amount_raised + amount
            &&& c.amount_withdrawn == campaign.amount_withdrawn
            &&& c.epoch == campaign.epoch
            &&& same_settings(c, campaign)
            &&& r.amount == if record.created_slot == campaign.created_slot {
                record.amount + amount
            } else {
                amount as int
            }
            &&& r.unspent == if record.created_slot == campaign.created_slot && record.epoch
                == campaign.epoch {
                record.unspent + amount
            } else {
                amount as int
            }
            &&& r.created_slot == campaign.created_slot
            &&& r.epoch == campaign.epoch
        },
{
}

/// Who a donation counts: an all-zero record, or one left from an earlier
/// creation of the campaign, is claimed for the donor and adds one donor; a
/// record already in use in this creation keeps its owner and adds none.
pub proof fn law_donation_counts_new_donors_once(
    campaign: Campaign,
    record: DonationRecord,
    donor: Address,
    campaign_key: Address,
    record_bump: u8,
    amount: u64,
    now: i64,
)
    ensures
        donate_outcome(campaign, record, donor, campaign_key, record_bump, amount, now) matches Ok(
            (c, r),
        ) ==> if record.created_slot != campaign.created_slot || (record.amount == 0
            && record.donor@ == Address::spec_zero()) {
            &&& c.donor_count == campaign.donor_count + 1
            &&& r.donor == donor
            &&& r.campaign == campaign_key
            &&& r.bump == record_bump
        } else {
            &&& c.donor_count == campaign.donor_count
            &&& r.donor == record.donor
            &&& r.campaign == record.campaign
            &&& r.bump == record.bump
        },
{
}

/// A donation that would take the raised total, the record's donation in
/// this creation, its gift in the current epoch, or (for a donor who joins)
/// the donor count past 64 bits is refused with `MathOverflow`.
pub proof fn law_donation_overflow_refused(
    campaign: Campaign,
    record: DonationRecord,
    donor: Address,
    campaign_key: Address,
    record_bump: u8,
    amount: u64,
    now: i64,
)
    requires
        amount > 0,
        campaign.deadline_unix == 0 || now <= campaign.deadline_unix,
        campaign.amount_raised + amount > u64::MAX || (record.created_slot
            == campaign.created_slot && record.amount + amount > u64::MAX) || (
        record.created_slot == campaign.created_slot && record.epoch == campaign.epoch
            && record.unspent + amount > u64::MAX) || ((record.created_slot
            != campaign.created_slot || (record.amount == 0 && record.donor@
            == Address::spec_zero())) && campaign.donor_count == u64::MAX),
    ensures
        donate_outcome(campaign, record, donor, campaign_key, record_bump, amount, now) == Err::<
            (Campaign, DonationRecord),
            CharityError,
        >(CharityError::MathOverflow),
{
}

// ---------------------------------------------------------------------------
// withdraw
// ---------------------------------------------------------------------------

/// The authority may take any positive amount up to what was raised and not
/// withdrawn that the account holds above its rent-exempt minimum: the
/// lamports move to the authority, the withdrawn total grows by the amount,
/// and the epoch ends exactly when nothing unwithdrawn is left.
pub proof fn law_withdrawal_accepted(
    campaign: Campaign,
    lamports: u64,
    authority_lamports: u64,
    rent_exempt_minimum: u64,
    amount: u64,
)
    requires
        0 < amount,
        campaign.amount_withdrawn + amount <= campaign.amount_raised,
        rent_exempt_minimum + amount <= lamports,
        lamports + authority_lamports <= u64::MAX,
        campaign.amount_withdrawn + amount < campaign.amount_raised || campaign.epoch < u64::MAX,
    ensures
        withdraw_outcome(
            campaign,
            campaign.authority,
            lamports,
            authority_lamports,
            rent_exempt_minimum,
            amount,
        ) matches Ok((c, l, a)) && {
            &&& l == lamports - amount
            &&& a == authority_lamports + amount
            &&& c.amount_withdrawn == campaign.amount_withdrawn + amount
            &&& c.amount_raised == campaign.amount_raised
            &&& c.donor_count == campaign.donor_count
            &&& same_settings(c, campaign)
            &&& c.epoch == if campaign.amount_withdrawn + amount == campaign.amount_raised {
                campaign.epoch + 1
            } else {
                campaign.epoch as int
            }
        },
{
}

/// The authority's withdrawal of nothing is refused with `InvalidAmount`;
/// of more than is unwithdrawn, or more than the account holds above its
/// rent-exempt minimum, with `InsufficientFunds`; of everything unwithdrawn
/// when the epoch count is exhausted, with `MathOverflow`.
pub proof fn law_withdrawal_refusals(
    campaign: Campaign,
    lamports: u64,
    authority_lamports: u64,
    rent_exempt_minimum: u64,
    amount: u64,
)
    ensures
        amount == 0 ==> withdraw_outcome(
            campaign,
            campaign.authority,
            lamports,
            authority_lamports,
            rent_exempt_minimum,
            amount,
        ) == Err::<(Campaign, u64, u64), CharityError>(CharityError::InvalidAmount),
        amount > 0 && (campaign.amount_withdrawn + amount > campaign.amount_raised
            || rent_exempt_minimum + amount > lamports) ==> withdraw_outcome(
            campaign,
            campaign.authority,
            lamports,
            authority_lamports,
            rent_exempt_minimum,
            amount,
        ) == Err::<(Campaign, u64, u64), CharityError>(CharityError::InsufficientFunds),
        amount > 0 && campaign.amount_withdrawn + amount == campaign.amount_raised
            && rent_exempt_minimum + amount <= lamports && campaign.epoch == u64::MAX
            ==> withdraw_outcome(
            campaign,
            campaign.authority,
            lamports,
            authority_lamports,
            rent_exempt_minimum,
            amount,
        ) == Err::<(Campaign, u64, u64), CharityError>(CharityError::MathOverflow),
{
}

// ---------------------------------------------------------------------------
// request_refund
// ---------------------------------------------------------------------------

/// A donor whose record gave something in the current epoch of this creation
/// of the campaign, while the campaign holds that much above its rent-exempt
/// minimum, is paid all of it: the record keeps only what earlier, withdrawn
/// epochs took, the raised total drops by the payment, and the epoch ends
/// exactly when nothing unwithdrawn is left.
pub proof fn law_refund_pays_current_gift(
    campaign: Campaign,
    record: DonationRecord,
    lamports: u64,
    donor_lamports: u64,
    rent_exempt_minimum: u64,
)
    requires
        record.created_slot == campaign.created_slot,
        record.epoch == campaign.epoch,
        0 < record.unspent <= record.amount,
        rent_exempt_minimum + record.unspent <= lamports,
        record.unspent <= campaign.amount_raised,
        campaign.amount_raised - record.unspent <= campaign.amount_withdrawn ==> campaign.epoch
            < u64::MAX,
        lamports + donor_lamports <= u64::MAX,
    ensures
        refund_outcome(
            campaign,
            record,
            record.donor,
            lamports,
            donor_lamports,
            rent_exempt_minimum,
        ) matches Ok((c, r, l, d)) && {
            &&& d == donor_lamports + record.unspent
            &&& l == lamports - record.unspent
            &&& r.amount == record.amount - record.unspent
            &&& r.unspent == 0
            &&& r.donor == record.donor
            &&& r.campaign == record.campaign
            &&& r.bump == record.bump
            &&& r.created_slot == record.created_slot
            &&& r.epoch == record.epoch
            &&& c.amount_raised == campaign.amount_raised - record.unspent
            &&& c.amount_withdrawn == campaign.amount_withdrawn
            &&& c.donor_count == campaign.donor_count
            &&& same_settings(c, campaign)
            &&& c.epoch == if campaign.amount_raised - record.unspent <= campaign.amount_withdrawn {
                campaign.epoch + 1
            } else {
                campaign.epoch as int
            }
        },
{
}

/// The donor's refund of an empty record is refused with `InvalidAmount`; of
/// a record with nothing given in the current epoch of this creation, or
/// more than the account holds above its rent-exempt minimum, with
/// `InsufficientFunds`; of more than the campaign counts as raised, or of
/// the last of what is unwithdrawn when the epoch count is exhausted, with
/// `MathOverflow`.
pub proof fn law_refund_refusals(
    campaign: Campaign,
    record: DonationRecord,
    lamports: u64,
    donor_lamports: u64,
    rent_exempt_minimum: u64,
)
    ensures
        record.amount == 0 ==> refund_outcome(
            campaign,
            record,
            record.donor,
            lamports,
            donor_lamports,
            rent_exempt_minimum,
        ) == Err::<(Campaign, DonationRecord, u64, u64), CharityError>(
            CharityError::InvalidAmount,
        ),
        record.amount > 0 && (record.created_slot != campaign.created_slot || record.epoch
            != campaign.epoch || record.unspent == 0 || rent_exempt_minimum + record.unspent
            > lamports) ==> refund_outcome(
            campaign,
            record,
            record.donor,
            lamports,
            donor_lamports,
            rent_exempt_minimum,
        ) == Err::<(Campaign, DonationRecord, u64, u64), CharityError>(
            CharityError::InsufficientFunds,
        ),
        record.amount > 0 && record.created_slot == campaign.created_slot && record.epoch
            == campaign.epoch && 0 < record.unspent && rent_exempt_minimum + record.unspent
            <= lamports && record.unspent > campaign.amount_raised ==> refund_outcome(
            campaign,
            record,
            record.donor,
            lamports,
            donor_lamports,
            rent_exempt_minimum,
        ) == Err::<(Campaign, DonationRecord, u64, u64), CharityError>(CharityError::MathOverflow),
        record.created_slot == campaign.created_slot && record.epoch == campaign.epoch && 0
            < record.unspent <= record.amount && rent_exempt_minimum + record.unspent <= lamports
            && record.unspent <= campaign.amount_raised && campaign.amount_raised - record.unspent
            <= campaign.amount_withdrawn && campaign.epoch == u64::MAX ==> refund_outcome(
            campaign,
            record,
            record.donor,
            lamports,
            donor_lamports,
            rent_exempt_minimum,
        ) == Err::<(Campaign, DonationRecord, u64, u64), CharityError>(CharityError::MathOverflow),
{
}

// ---------------------------------------------------------------------------
// close_campaign
// ---------------------------------------------------------------------------

/// A campaign may be closed exactly by its authority, once everything raised
/// has been withdrawn, in a slot after the one it was created in, whatever
/// its goal, deadline or other fields.
pub proof fn law_close_allowed_exactly(campaign: Campaign, signer: Address, slot: u64)
    ensures
        close_check(campaign, signer, slot) is Ok <==> (signer@ == campaign.authority@
            && campaign.amount_raised == campaign.amount_withdrawn && slot > campaign.created_slot),
        signer@ == campaign.authority@ && campaign.amount_raised != campaign.amount_withdrawn
            ==> close_check(campaign, signer, slot) == Err::<(), CharityError>(
            CharityError::PendingDonorFunds,
        ),
        signer@ == campaign.authority@ && campaign.amount_raised == campaign.amount_withdrawn
            && slot <= campaign.created_slot ==> close_check(campaign, signer, slot) == Err::<
            (),
            CharityError,
        >(CharityError::CampaignTooNew),
{
}

// ---------------------------------------------------------------------------
// Account addresses
// ---------------------------------------------------------------------------

/// A campaign's address is derived from three seeds: the bytes of `campaign`,
/// the authority, and the UTF-8 bytes of the name as given.
pub proof fn law_campaign_seeds_are_tag_authority_name(authority: Seq<u8>, name: Seq<char>)
    ensures
        campaign_seeds(authority, name).len() == 3,
        campaign_seeds(authority, name)[0] == seq![99u8, 97, 109, 112, 97, 105, 103, 110],
        campaign_seeds(authority, name)[1] == authority,
        campaign_seeds(authority, name)[2] == encode_utf8(name),
{
}

/// Different authorities or names never share their seeds, so each campaign
/// of each authority has an address of its own.
pub proof fn law_campaign_seeds_tell_campaigns_apart(
    authority1: Seq<u8>,
    name1: Seq<char>,
    authority2: Seq<u8>,
    name2: Seq<char>,
)
    requires
        campaign_seeds(authority1, name1) == campaign_seeds(authority2, name2),
    ensures
        authority1 == authority2,
        name1 == name2,
{
    assert(campaign_seeds(authority1, name1)[1] == campaign_seeds(authority2, name2)[1]);
    assert(campaign_seeds(authority1, name1)[2] == campaign_seeds(authority2, name2)[2]);
    encode_utf8_decode_utf8(name1);
    encode_utf8_decode_utf8(name2);
}

/// A donation record's address is derived from three seeds: the bytes of
/// `donation`, the campaign and the donor.
pub proof fn law_donation_record_seeds_are_tag_campaign_donor(campaign: Seq<u8>, donor: Seq<u8>)
    ensures
        donation_record_seeds(campaign, donor).len() == 3,
        donation_record_seeds(campaign, donor)[0] == seq![100u8, 111, 110, 97, 116, 105, 111, 110],
        donation_record_seeds(campaign, donor)[1] == campaign,
        donation_record_seeds(campaign, donor)[2] == donor,
{
}

} // verus!
