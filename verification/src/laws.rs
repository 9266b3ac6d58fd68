//! Properties that hold across instructions and across whole sets of
//! donation records, stated over the rules in `instructions`.
use vstd::prelude::*;

use crate::address::Address;
use crate::error::CharityError;
use crate::instructions::{
    close_check, donate_outcome, in_current_epoch, initialize_check, new_campaign, refund_due,
    refund_outcome, spendable, unwithdrawn, withdraw_outcome,
};
use crate::state::{byte_len, Campaign, DonationRecord, CAMPAIGN_MAX_SIZE};

verus! {

// ---------------------------------------------------------------------------
// Views over a set of donation records
// ---------------------------------------------------------------------------

/// Sum of `f` over a list of donation records.
pub open spec fn total(records: Seq<DonationRecord>, f: spec_fn(DonationRecord) -> int) -> int
    decreases records.len(),
{
    if records.len() == 0 {
        0
    } else {
        total(records.drop_last(), f) + f(records.last())
    }
}

/// Outstanding donation a record holds in this creation of the campaign.
pub open spec fn owed_in(campaign: Campaign) -> spec_fn(DonationRecord) -> int {
    |r: DonationRecord|
        if r.created_slot == campaign.created_slot {
            r.amount as int
        } else {
            0
        }
}

/// What a refund of a record would pay now.
pub open spec fn due_in(campaign: Campaign) -> spec_fn(DonationRecord) -> int {
    |r: DonationRecord| refund_due(campaign, r)
}

/// 1 for a record a donor claimed in this creation of the campaign.
pub open spec fn donor_in(campaign: Campaign) -> spec_fn(DonationRecord) -> int {
    |r: DonationRecord|
        if r.created_slot == campaign.created_slot && r.donor@ != Address::spec_zero() {
            1
        } else {
            0
        }
}

/// The campaign has raised exactly what the records of this creation hold.
pub open spec fn raised_matches(campaign: Campaign, records: Seq<DonationRecord>) -> bool {
    campaign.amount_raised == total(records, owed_in(campaign))
}

/// The donor count is the number of records claimed in this creation.
pub open spec fn donors_match(campaign: Campaign, records: Seq<DonationRecord>) -> bool {
    campaign.donor_count == total(records, donor_in(campaign))
}

/// Every lamport raised and not withdrawn belongs to a gift of the current
/// epoch that its donor could still reclaim, and no record of this creation
/// is ahead of the campaign's epoch.
pub open spec fn pool_owed_to_current_gifts(
    campaign: Campaign,
    records: Seq<DonationRecord>,
) -> bool {
    &&& unwithdrawn(campaign) <= total(records, due_in(campaign))
    &&& forall|i: int|
        0 <= i < records.len() && #[trigger] records[i].created_slot == campaign.created_slot
            ==> records[i].epoch <= campaign.epoch
}

/// A record never counts more as given in its epoch than it has outstanding.
pub open spec fn record_valid(record: DonationRecord) -> bool {
    record.unspent <= record.amount
}

/// The campaign account holds exactly its rent-exempt minimum plus every
/// donation still outstanding that the owner has not withdrawn.
pub open spec fn holds_funds(campaign: Campaign, lamports: u64, rent_exempt_minimum: u64) -> bool {
    &&& campaign.amount_withdrawn <= campaign.amount_raised
    &&& lamports == rent_exempt_minimum + campaign.amount_raised - campaign.amount_withdrawn
}

/// Bytes a campaign takes in its account: discriminator, authority, the name
/// and the description each behind a 4-byte length, seven 8-byte numbers and
/// the bump.
pub open spec fn campaign_space(campaign: Campaign) -> nat {
    8 + 32 + 4 + byte_len(campaign.name@) + 4 + byte_len(campaign.description@) + 7 * 8 + 1
}

// ---------------------------------------------------------------------------
// Lemmas
// ---------------------------------------------------------------------------

proof fn lemma_total_update(
    records: Seq<DonationRecord>,
    i: int,
    record: DonationRecord,
    f: spec_fn(DonationRecord) -> int,
)
    requires
        0 <= i < records.len(),
    ensures
        total(records.update(i, record), f) == total(records, f) - f(records[i]) + f(record),
    decreases records.len(),
{
    let updated = records.update(i, record);
    if i == records.len() - 1 {
        assert(updated.drop_last() =~= records.drop_last());
    } else {
        lemma_total_update(records.drop_last(), i, record, f);
        assert(updated.drop_last() =~= records.drop_last().update(i, record));
    }
}

proof fn lemma_total_same(
    records: Seq<DonationRecord>,
    f: spec_fn(DonationRecord) -> int,
    g: spec_fn(DonationRecord) -> int,
)
    requires
        forall|i: int| 0 <= i < records.len() ==> f(#[trigger] records[i]) == g(records[i]),
    ensures
        total(records, f) == total(records, g),
    decreases records.len(),
{
    if records.len() > 0 {
        let rest = records.drop_last();
        assert forall|i: int| 0 <= i < rest.len() implies f(#[trigger] rest[i]) == g(rest[i]) by {
            assert(rest[i] == records[i]);
        }
        lemma_total_same(rest, f, g);
        assert(f(records[records.len() - 1]) == g(records[records.len() - 1]));
    }
}

proof fn lemma_total_zero(records: Seq<DonationRecord>, f: spec_fn(DonationRecord) -> int)
    requires
        forall|i: int| 0 <= i < records.len() ==> f(#[trigger] records[i]) == 0,
    ensures
        total(records, f) == 0,
    decreases records.len(),
{
    if records.len() > 0 {
        let rest = records.drop_last();
        assert forall|i: int| 0 <= i < rest.len() implies f(#[trigger] rest[i]) == 0 by {
            assert(rest[i] == records[i]);
        }
        lemma_total_zero(rest, f);
        assert(f(records[records.len() - 1]) == 0);
    }
}

// ---------------------------------------------------------------------------
// Funds held by the campaign account
// ---------------------------------------------------------------------------

/// A donation keeps the campaign account holding exactly its rent-exempt
/// minimum plus what is raised and not withdrawn, once the transfer has added
/// the donated lamports to it.
pub proof fn law_donation_keeps_funds_held(
    campaign: Campaign,
    record: DonationRecord,
    donor: Address,
    campaign_key: Address,
    record_bump: u8,
    amount: u64,
    now: i64,
    lamports: u64,
    rent_exempt_minimum: u64,
)
    requires
        lamports == rent_exempt_minimum + campaign.amount_raised - campaign.amount_withdrawn,
        lamports + amount <= u64::MAX,
    ensures
        donate_outcome(campaign, record, donor, campaign_key, record_bump, amount, now) matches Ok(
            (c, _),
        ) ==> lamports + amount == rent_exempt_minimum + c.amount_raised - c.amount_withdrawn,
{
}

/// A withdrawal keeps the campaign account holding exactly its rent-exempt
/// minimum plus what is raised and not withdrawn.
pub proof fn law_withdrawal_keeps_funds_held(
    campaign: Campaign,
    signer: Address,
    lamports: u64,
    authority_lamports: u64,
    rent_exempt_minimum: u64,
    amount: u64,
)
    requires
        lamports == rent_exempt_minimum + campaign.amount_raised - campaign.amount_withdrawn,
    ensures
        withdraw_outcome(
            campaign,
            signer,
            lamports,
            authority_lamports,
            rent_exempt_minimum,
            amount,
        ) matches Ok((c, l, _)) ==> holds_funds(c, l, rent_exempt_minimum),
{
}

/// A refund keeps the campaign account holding exactly its rent-exempt
/// minimum plus what is raised and not withdrawn.
pub proof fn law_refund_keeps_funds_held(
    campaign: Campaign,
    record: DonationRecord,
    signer: Address,
    lamports: u64,
    donor_lamports: u64,
    rent_exempt_minimum: u64,
)
    requires
        lamports == rent_exempt_minimum + campaign.amount_raised - campaign.amount_withdrawn,
    ensures
        refund_outcome(
            campaign,
            record,
            signer,
            lamports,
            donor_lamports,
            rent_exempt_minimum,
        ) matches Ok((c, _, l, _)) ==> holds_funds(c, l, rent_exempt_minimum),
{
}

/// A withdrawal never takes the withdrawn total above what was raised.
pub proof fn law_withdrawal_within_raised(
    campaign: Campaign,
    signer: Address,
    lamports: u64,
    authority_lamports: u64,
    rent_exempt_minimum: u64,
    amount: u64,
)
    ensures
        withdraw_outcome(
            campaign,
            signer,
            lamports,
            authority_lamports,
            rent_exempt_minimum,
            amount,
        ) matches Ok((c, _, _)) ==> c.amount_withdrawn <= c.amount_raised,
{
}

/// While the campaign account holds its funds, what lies above the rent-exempt
/// minimum is exactly what was raised and not yet withdrawn.
pub proof fn law_spendable_is_unwithdrawn(
    campaign: Campaign,
    lamports: u64,
    rent_exempt_minimum: u64,
)
    requires
        holds_funds(campaign, lamports, rent_exempt_minimum),
    ensures
        spendable(lamports, rent_exempt_minimum) == unwithdrawn(campaign),
{
}

/// A campaign that may be closed owes its donors nothing: its account holds
/// no more than the rent-exempt minimum.
pub proof fn law_closing_leaves_only_rent(
    campaign: Campaign,
    signer: Address,
    slot: u64,
    lamports: u64,
    rent_exempt_minimum: u64,
)
    requires
        holds_funds(campaign, lamports, rent_exempt_minimum),
    ensures
        close_check(campaign, signer, slot) is Ok ==> lamports == rent_exempt_minimum,
{
}

/// A withdrawal moves lamports from the campaign to its authority without
/// creating or destroying any, and never takes the campaign below its
/// rent-exempt minimum.
pub proof fn law_withdrawal_moves_lamports(
    campaign: Campaign,
    signer: Address,
    lamports: u64,
    authority_lamports: u64,
    rent_exempt_minimum: u64,
    amount: u64,
)
    requires
        lamports + authority_lamports <= u64::MAX,
    ensures
        withdraw_outcome(
            campaign,
            signer,
            lamports,
            authority_lamports,
            rent_exempt_minimum,
            amount,
        ) matches Ok((_, l, a)) ==> {
            &&& l + a == lamports + authority_lamports
            &&& a == authority_lamports + amount
            &&& l >= rent_exempt_minimum
        },
{
}

/// A refund pays the donor what is due to the record, taken from the campaign
/// account without creating or destroying lamports and without going below
/// the rent-exempt minimum.
pub proof fn law_refund_moves_lamports(
    campaign: Campaign,
    record: DonationRecord,
    signer: Address,
    lamports: u64,
    donor_lamports: u64,
    rent_exempt_minimum: u64,
)
    requires
        lamports + donor_lamports <= u64::MAX,
    ensures
        refund_outcome(
            campaign,
            record,
            signer,
            lamports,
            donor_lamports,
            rent_exempt_minimum,
        ) matches Ok((c, r, l, d)) ==> {
            &&& l + d == lamports + donor_lamports
            &&& d == donor_lamports + refund_due(campaign, record)
            &&& l >= rent_exempt_minimum
            &&& r.amount == record.amount - refund_due(campaign, record)
            &&& r.unspent == 0
            &&& c.amount_raised == campaign.amount_raised - refund_due(campaign, record)
            &&& c.amount_withdrawn == campaign.amount_withdrawn
            &&& c.donor_count == campaign.donor_count
        },
{
}

/// Only the campaign's authority may withdraw from it or close it, and only
/// the donor of a record may have it refunded.
pub proof fn law_only_owners_act(
    campaign: Campaign,
    record: DonationRecord,
    signer: Address,
    lamports: u64,
    other_lamports: u64,
    rent_exempt_minimum: u64,
    amount: u64,
    slot: u64,
)
    ensures
        signer@ != campaign.authority@ ==> withdraw_outcome(
            campaign,
            signer,
            lamports,
            other_lamports,
            rent_exempt_minimum,
            amount,
        ) == Err::<(Campaign, u64, u64), CharityError>(CharityError::Unauthorized),
        signer@ != campaign.authority@ ==> close_check(campaign, signer, slot) == Err::<
            (),
            CharityError,
        >(CharityError::Unauthorized),
        signer@ != record.donor@ ==> refund_outcome(
            campaign,
            record,
            signer,
            lamports,
            other_lamports,
            rent_exempt_minimum,
        ) == Err::<(Campaign, DonationRecord, u64, u64), CharityError>(CharityError::Unauthorized),
{
}

/// The owner can take out any positive amount up to what was raised and not
/// yet withdrawn, whatever the goal and the deadline: no all-or-nothing
/// gating.
pub proof fn law_owner_can_withdraw_unwithdrawn(
    campaign: Campaign,
    lamports: u64,
    authority_lamports: u64,
    rent_exempt_minimum: u64,
    amount: u64,
)
    requires
        holds_funds(campaign, lamports, rent_exempt_minimum),
        0 < amount <= unwithdrawn(campaign),
        campaign.epoch < u64::MAX,
    ensures
        withdraw_outcome(
            campaign,
            campaign.authority,
            lamports,
            authority_lamports,
            rent_exempt_minimum,
            amount,
        ) is Ok,
{
}

// ---------------------------------------------------------------------------
// What a refund pays
// ---------------------------------------------------------------------------

/// A donor whose whole outstanding donation was given in the current epoch,
/// and whose campaign holds that much, gets all of it back; the record ends
/// at zero.
pub proof fn law_refund_pays_outstanding_in_full(
    campaign: Campaign,
    record: DonationRecord,
    lamports: u64,
    donor_lamports: u64,
    rent_exempt_minimum: u64,
)
    requires
        in_current_epoch(campaign, record),
        0 < record.amount == record.unspent,
        record.amount <= spendable(lamports, rent_exempt_minimum),
        record.amount <= campaign.amount_raised,
        campaign.epoch < u64::MAX,
        lamports + donor_lamports <= u64::MAX,
    ensures
        refund_outcome(
            campaign,
            record,
            record.donor,
            lamports,
            donor_lamports,
            rent_exempt_minimum,
        ) matches Ok((c, r, l, d)) && d == donor_lamports + record.amount && l == lamports
            - record.amount && r.amount == 0 && c.amount_raised == campaign.amount_raised
            - record.amount,
{
}

/// A refund the campaign cannot cover above its rent-exempt minimum is
/// refused with `InsufficientFunds`; nothing is paid in part.
pub proof fn law_refund_refused_when_short(
    campaign: Campaign,
    record: DonationRecord,
    lamports: u64,
    donor_lamports: u64,
    rent_exempt_minimum: u64,
)
    requires
        record.amount > 0,
        refund_due(campaign, record) > spendable(lamports, rent_exempt_minimum),
    ensures
        refund_outcome(
            campaign,
            record,
            record.donor,
            lamports,
            donor_lamports,
            rent_exempt_minimum,
        ) == Err::<(Campaign, DonationRecord, u64, u64), CharityError>(
            CharityError::InsufficientFunds,
        ),
{
}

/// A record whose latest donation was given in an ended epoch (the owner
/// withdrew, or donors reclaimed, everything raised since) or in an earlier
/// creation of the campaign is owed nothing: its refund is refused.
pub proof fn law_spent_records_owe_nothing(
    campaign: Campaign,
    record: DonationRecord,
    signer: Address,
    lamports: u64,
    donor_lamports: u64,
    rent_exempt_minimum: u64,
)
    requires
        !in_current_epoch(campaign, record),
    ensures
        refund_due(campaign, record) == 0,
        refund_outcome(
            campaign,
            record,
            signer,
            lamports,
            donor_lamports,
            rent_exempt_minimum,
        ) is Err,
{
}

/// Withdrawing everything unwithdrawn ends the epoch: no record of it is owed
/// anything afterwards.
pub proof fn law_emptying_withdrawal_ends_epoch(
    campaign: Campaign,
    record: DonationRecord,
    signer: Address,
    lamports: u64,
    authority_lamports: u64,
    rent_exempt_minimum: u64,
    amount: u64,
)
    requires
        record.epoch <= campaign.epoch,
    ensures
        withdraw_outcome(
            campaign,
            signer,
            lamports,
            authority_lamports,
            rent_exempt_minimum,
            amount,
        ) matches Ok((c, _, _)) ==> (c.amount_withdrawn == c.amount_raised ==> refund_due(
            c,
            record,
        ) == 0),
{
}

/// Refunding the last of what is unwithdrawn ends the epoch as well: the
/// other records of it, whose gifts the owner withdrew, are owed nothing.
pub proof fn law_emptying_refund_ends_epoch(
    campaign: Campaign,
    record: DonationRecord,
    other: DonationRecord,
    signer: Address,
    lamports: u64,
    donor_lamports: u64,
    rent_exempt_minimum: u64,
)
    requires
        other.epoch <= campaign.epoch,
    ensures
        refund_outcome(
            campaign,
            record,
            signer,
            lamports,
            donor_lamports,
            rent_exempt_minimum,
        ) matches Ok((c, _, _, _)) ==> (c.amount_raised <= c.amount_withdrawn ==> refund_due(
            c,
            other,
        ) == 0),
{
}

/// A gift the owner withdrew, together with everything else unwithdrawn, is
/// not paid back out of a later donor's gift: after such a withdrawal and a
/// donation to another record, a refund of the earlier record is refused.
pub proof fn law_withdrawn_gift_not_paid_from_later_gift(
    campaign: Campaign,
    record: DonationRecord,
    other: DonationRecord,
    lamports: u64,
    authority_lamports: u64,
    rent_exempt_minimum: u64,
    amount: u64,
    donor: Address,
    campaign_key: Address,
    record_bump: u8,
    gift: u64,
    now: i64,
    refund_lamports: u64,
    donor_lamports: u64,
)
    requires
        record.epoch <= campaign.epoch,
    ensures
        withdraw_outcome(
            campaign,
            campaign.authority,
            lamports,
            authority_lamports,
            rent_exempt_minimum,
            amount,
        ) matches Ok((c, _, _)) ==> (c.amount_withdrawn == c.amount_raised ==> (donate_outcome(
            c,
            other,
            donor,
            campaign_key,
            record_bump,
            gift,
            now,
        ) matches Ok((c2, _)) ==> refund_outcome(
            c2,
            record,
            record.donor,
            refund_lamports,
            donor_lamports,
            rent_exempt_minimum,
        ) is Err)),
{
}

/// A campaign created again at the same address after being closed owes
/// nothing to the records of that campaign or of any earlier one, since
/// creation slots only grow.
pub proof fn law_recreated_campaign_owes_old_records_nothing(
    closed: Campaign,
    signer: Address,
    close_slot: u64,
    authority: Address,
    bump: u8,
    name: String,
    description: String,
    goal_lamports: u64,
    deadline_unix: i64,
    new_slot: u64,
    record: DonationRecord,
    lamports: u64,
    donor_lamports: u64,
    rent_exempt_minimum: u64,
)
    requires
        close_check(closed, signer, close_slot) is Ok,
        new_slot >= close_slot,
        record.created_slot <= closed.created_slot,
    ensures
        refund_outcome(
            new_campaign(
                authority,
                bump,
                name,
                description,
                goal_lamports,
                deadline_unix,
                new_slot,
            ),
            record,
            record.donor,
            lamports,
            donor_lamports,
            rent_exempt_minimum,
        ) is Err,
{
}

/// A donor who gives `amount` and asks for a refund right away gets exactly
/// `amount` back, and the campaign's account and totals are as they were.
pub proof fn law_donate_then_refund_returns_the_gift(
    campaign: Campaign,
    record: DonationRecord,
    donor: Address,
    campaign_key: Address,
    record_bump: u8,
    amount: u64,
    now: i64,
    lamports: u64,
    donor_lamports: u64,
    rent_exempt_minimum: u64,
)
    requires
        record.amount == 0,
        record_valid(record),
        lamports >= rent_exempt_minimum,
        campaign.epoch < u64::MAX,
        lamports + donor_lamports + amount <= u64::MAX,
    ensures
        donate_outcome(campaign, record, donor, campaign_key, record_bump, amount, now) matches Ok(
            (c, r),
        ) ==> refund_outcome(
            c,
            r,
            r.donor,
            (lamports + amount) as u64,
            donor_lamports,
            rent_exempt_minimum,
        ) matches Ok((c2, r2, l2, d2)) && l2 == lamports && d2 == donor_lamports + amount
            && c2.amount_raised == campaign.amount_raised && c2.amount_withdrawn
            == campaign.amount_withdrawn && c2.donor_count == c.donor_count && r2.amount == 0,
{
}

/// Once a refund has been paid, asking again right away is refused and moves
/// nothing; when the refund paid the whole outstanding donation the answer is
/// `InvalidAmount`.
pub proof fn law_second_refund_refused(
    campaign: Campaign,
    record: DonationRecord,
    signer: Address,
    lamports: u64,
    donor_lamports: u64,
    rent_exempt_minimum: u64,
)
    requires
        lamports + donor_lamports <= u64::MAX,
    ensures
        refund_outcome(
            campaign,
            record,
            signer,
            lamports,
            donor_lamports,
            rent_exempt_minimum,
        ) matches Ok((c, r, l, d)) ==> {
            &&& refund_outcome(c, r, signer, l, d, rent_exempt_minimum) is Err
            &&& record.unspent == record.amount ==> refund_outcome(
                c,
                r,
                signer,
                l,
                d,
                rent_exempt_minimum,
            ) == Err::<(Campaign, DonationRecord, u64, u64), CharityError>(
                CharityError::InvalidAmount,
            )
        },
{
}

// ---------------------------------------------------------------------------
// The campaign's totals against its donation records
// ---------------------------------------------------------------------------

/// Donations and refunds keep a record's unspent part within its outstanding
/// donation.
pub proof fn law_records_stay_valid(
    campaign: Campaign,
    record: DonationRecord,
    donor: Address,
    campaign_key: Address,
    record_bump: u8,
    amount: u64,
    now: i64,
    signer: Address,
    lamports: u64,
    donor_lamports: u64,
    rent_exempt_minimum: u64,
)
    requires
        record_valid(record),
    ensures
        donate_outcome(campaign, record, donor, campaign_key, record_bump, amount, now) matches Ok(
            (_, r),
        ) ==> record_valid(r),
        refund_outcome(
            campaign,
            record,
            signer,
            lamports,
            donor_lamports,
            rent_exempt_minimum,
        ) matches Ok((_, r, _, _)) ==> record_valid(r),
{
}

/// A freshly created (all-zero) donation record changes none of the
/// campaign's totals.
pub proof fn law_new_record_keeps_ledger(
    campaign: Campaign,
    records: Seq<DonationRecord>,
    record: DonationRecord,
)
    requires
        raised_matches(campaign, records),
        donors_match(campaign, records),
        pool_owed_to_current_gifts(campaign, records),
        record.is_unclaimed(),
        record.unspent == 0,
        record.epoch == 0,
    ensures
        raised_matches(campaign, records.push(record)),
        donors_match(campaign, records.push(record)),
        pool_owed_to_current_gifts(campaign, records.push(record)),
{
    let pushed = records.push(record);
    assert(pushed.drop_last() =~= records);
    assert forall|i: int|
        0 <= i < pushed.len() && #[trigger] pushed[i].created_slot == campaign.created_slot implies pushed[i].epoch
        <= campaign.epoch by {
        if i < records.len() {
            assert(pushed[i] == records[i]);
        }
    }
}

/// A donation by a donor other than the all-zero address keeps the campaign's
/// totals in step with its records: what was raised is what the records of
/// this creation hold, the donor count is the number of records claimed, and
/// every unwithdrawn lamport is owed to a gift of the current epoch.
pub proof fn law_donation_keeps_ledger(
    campaign: Campaign,
    records: Seq<DonationRecord>,
    i: int,
    donor: Address,
    campaign_key: Address,
    record_bump: u8,
    amount: u64,
    now: i64,
)
    requires
        0 <= i < records.len(),
        donor@ != Address::spec_zero(),
        raised_matches(campaign, records),
        donors_match(campaign, records),
        pool_owed_to_current_gifts(campaign, records),
    ensures
        donate_outcome(campaign, records[i], donor, campaign_key, record_bump, amount, now) matches Ok(
            (c, r),
        ) ==> {
            &&& raised_matches(c, records.update(i, r))
            &&& donors_match(c, records.update(i, r))
            &&& pool_owed_to_current_gifts(c, records.update(i, r))
        },
{
    if let Ok((c, r)) = donate_outcome(
        campaign,
        records[i],
        donor,
        campaign_key,
        record_bump,
        amount,
        now,
    ) {
        let updated = records.update(i, r);
        lemma_total_update(records, i, r, owed_in(campaign));
        lemma_total_update(records, i, r, donor_in(campaign));
        lemma_total_update(records, i, r, due_in(campaign));
        lemma_total_same(updated, owed_in(c), owed_in(campaign));
        lemma_total_same(updated, donor_in(c), donor_in(campaign));
        lemma_total_same(updated, due_in(c), due_in(campaign));
        assert forall|j: int|
            0 <= j < updated.len() && #[trigger] updated[j].created_slot == c.created_slot implies updated[j].epoch
            <= c.epoch by {
            if j != i {
                assert(updated[j] == records[j]);
            }
        }
    }
}

/// A withdrawal keeps the campaign's totals in step with its records. When it
/// takes everything unwithdrawn the epoch ends and nothing is owed any more.
pub proof fn law_withdrawal_keeps_ledger(
    campaign: Campaign,
    records: Seq<DonationRecord>,
    signer: Address,
    lamports: u64,
    authority_lamports: u64,
    rent_exempt_minimum: u64,
    amount: u64,
)
    requires
        raised_matches(campaign, records),
        donors_match(campaign, records),
        pool_owed_to_current_gifts(campaign, records),
    ensures
        withdraw_outcome(
            campaign,
            signer,
            lamports,
            authority_lamports,
            rent_exempt_minimum,
            amount,
        ) matches Ok((c, _, _)) ==> {
            &&& raised_matches(c, records)
            &&& donors_match(c, records)
            &&& pool_owed_to_current_gifts(c, records)
        },
{
    if let Ok((c, _, _)) = withdraw_outcome(
        campaign,
        signer,
        lamports,
        authority_lamports,
        rent_exempt_minimum,
        amount,
    ) {
        lemma_total_same(records, owed_in(c), owed_in(campaign));
        lemma_total_same(records, donor_in(c), donor_in(campaign));
        if c.epoch == campaign.epoch {
            lemma_total_same(records, due_in(c), due_in(campaign));
        } else {
            assert forall|j: int| 0 <= j < records.len() implies due_in(c)(#[trigger] records[j])
                == 0 by {
                if records[j].created_slot == campaign.created_slot {
                    assert(records[j].epoch <= campaign.epoch);
                }
            }
            lemma_total_zero(records, due_in(c));
        }
    }
}

/// A refund keeps the campaign's totals in step with its records. When it
/// pays out the last of what is unwithdrawn the epoch ends and nothing is
/// owed any more.
pub proof fn law_refund_keeps_ledger(
    campaign: Campaign,
    records: Seq<DonationRecord>,
    i: int,
    signer: Address,
    lamports: u64,
    donor_lamports: u64,
    rent_exempt_minimum: u64,
)
    requires
        0 <= i < records.len(),
        raised_matches(campaign, records),
        donors_match(campaign, records),
        pool_owed_to_current_gifts(campaign, records),
    ensures
        refund_outcome(
            campaign,
            records[i],
            signer,
            lamports,
            donor_lamports,
            rent_exempt_minimum,
        ) matches Ok((c, r, _, _)) ==> {
            &&& raised_matches(c, records.update(i, r))
            &&& donors_match(c, records.update(i, r))
            &&& pool_owed_to_current_gifts(c, records.update(i, r))
        },
{
    if let Ok((c, r, _, _)) = refund_outcome(
        campaign,
        records[i],
        signer,
        lamports,
        donor_lamports,
        rent_exempt_minimum,
    ) {
        let updated = records.update(i, r);
        lemma_total_update(records, i, r, owed_in(campaign));
        lemma_total_update(records, i, r, donor_in(campaign));
        lemma_total_update(records, i, r, due_in(campaign));
        lemma_total_same(updated, owed_in(c), owed_in(campaign));
        lemma_total_same(updated, donor_in(c), donor_in(campaign));
        assert forall|j: int|
            0 <= j < updated.len() && #[trigger] updated[j].created_slot == c.created_slot implies updated[j].epoch
            <= c.epoch by {
            if j != i {
                assert(updated[j] == records[j]);
            }
        }
        if c.epoch == campaign.epoch {
            lemma_total_same(updated, due_in(c), due_in(campaign));
        } else {
            assert forall|j: int| 0 <= j < updated.len() implies due_in(c)(#[trigger] updated[j])
                == 0 by {
                if j != i && updated[j].created_slot == campaign.created_slot {
                    assert(updated[j] == records[j]);
                    assert(records[j].epoch <= campaign.epoch);
                }
            }
            lemma_total_zero(updated, due_in(c));
        }
    }
}

/// A donation never changes what a refund of another record would pay: only
/// emptying the campaign, by withdrawal or refund, spends earlier gifts.
pub proof fn law_donation_leaves_other_dues(
    campaign: Campaign,
    record: DonationRecord,
    other: DonationRecord,
    donor: Address,
    campaign_key: Address,
    record_bump: u8,
    amount: u64,
    now: i64,
)
    ensures
        donate_outcome(campaign, record, donor, campaign_key, record_bump, amount, now) matches Ok(
            (c, _),
        ) ==> refund_due(c, other) == refund_due(campaign, other),
{
}

/// A donor who already holds a record in this creation of the campaign is not
/// counted again when giving more, and keeps the record.
pub proof fn law_returning_donor_counted_once(
    campaign: Campaign,
    record: DonationRecord,
    donor: Address,
    campaign_key: Address,
    record_bump: u8,
    amount: u64,
    now: i64,
)
    requires
        record.created_slot == campaign.created_slot,
        record.donor@ != Address::spec_zero(),
    ensures
        donate_outcome(campaign, record, donor, campaign_key, record_bump, amount, now) matches Ok(
            (c, r),
        ) ==> c.donor_count == campaign.donor_count && r.donor == record.donor && r.campaign
            == record.campaign && r.bump == record.bump,
{
}

/// Every campaign that initialisation accepts fits in the space reserved for
/// a campaign account.
pub proof fn law_new_campaign_fits(
    authority: Address,
    bump: u8,
    name: String,
    description: String,
    goal_lamports: u64,
    deadline_unix: i64,
    now: i64,
    created_slot: u64,
)
    requires
        initialize_check(name@, description@, deadline_unix, now) is Ok,
    ensures
        campaign_space(
            new_campaign(
                authority,
                bump,
                name,
                description,
                goal_lamports,
                deadline_unix,
                created_slot,
            ),
        ) <= CAMPAIGN_MAX_SIZE,
{
}

} // verus!
