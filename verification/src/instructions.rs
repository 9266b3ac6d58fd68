use vstd::prelude::*;

use crate::address::Address;
use crate::error::CharityError;
use crate::state::{byte_len, Campaign, DonationRecord, MAX_DESCRIPTION_LEN, MAX_NAME_LEN};

verus! {

// ---------------------------------------------------------------------------
// The rules, stated over whole account values
// ---------------------------------------------------------------------------

/// A deadline that a new campaign may be given at time `now`: none (0), or one
/// strictly in the future.
pub open spec fn valid_new_deadline(deadline_unix: i64, now: i64) -> bool {
    deadline_unix == 0 || deadline_unix > now
}

/// Donations are open at time `now`: no deadline, or the deadline not yet
/// passed (the deadline second itself still counts).
pub open spec fn accepting_donations(deadline_unix: i64, now: i64) -> bool {
    deadline_unix == 0 || now <= deadline_unix
}

/// Lamports an account holds above the rent-exempt minimum (0 if below it).
pub open spec fn spendable(lamports: u64, rent_exempt_minimum: u64) -> int {
    if lamports >= rent_exempt_minimum {
        lamports - rent_exempt_minimum
    } else {
        0
    }
}

/// Donations raised and not withdrawn.
pub open spec fn unwithdrawn(campaign: Campaign) -> int {
    campaign.amount_raised - campaign.amount_withdrawn
}

/// The record's latest donation belongs to this creation of the campaign and
/// to its current epoch.
pub open spec fn in_current_epoch(campaign: Campaign, record: DonationRecord) -> bool {
    record.created_slot == campaign.created_slot && record.epoch == campaign.epoch
}

/// What a refund of the record would pay: everything it gave in the current
/// epoch; nothing for a record of an ended epoch (its funds were withdrawn)
/// or of an earlier creation of the campaign.
pub open spec fn refund_due(campaign: Campaign, record: DonationRecord) -> int {
    if in_current_epoch(campaign, record) {
        record.unspent as int
    } else {
        0
    }
}

/// The campaign a successful initialisation creates.
pub open spec fn new_campaign(
    authority: Address,
    bump: u8,
    name: String,
    description: String,
    goal_lamports: u64,
    deadline_unix: i64,
    created_slot: u64,
) -> Campaign {
    Campaign {
        authority,
        name,
        description,
        goal_lamports,
        deadline_unix,
        amount_raised: 0,
        amount_withdrawn: 0,
        donor_count: 0,
        bump,
        created_slot,
        epoch: 0,
    }
}

/// Whether a campaign may be created, and why not.
pub open spec fn initialize_check(
    name: Seq<char>,
    description: Seq<char>,
    deadline_unix: i64,
    now: i64,
) -> Result<(), CharityError> {
    if byte_len(name) > MAX_NAME_LEN {
        Err(CharityError::NameTooLong)
    } else if byte_len(description) > MAX_DESCRIPTION_LEN {
        Err(CharityError::DescriptionTooLong)
    } else if !valid_new_deadline(deadline_unix, now) {
        Err(CharityError::InvalidDeadline)
    } else {
        Ok(())
    }
}

/// The donor joins this creation of the campaign with this donation: the
/// record is still empty, or left over from an earlier creation.
pub open spec fn joins(campaign: Campaign, record: DonationRecord) -> bool {
    record.created_slot != campaign.created_slot || record.is_unclaimed()
}

/// Campaign and donation record after `donor` gives `amount` at time `now`,
/// or why the donation is refused. The lamports themselves travel from the
/// donor to the campaign account through a system transfer.
pub open spec fn donate_outcome(
    campaign: Campaign,
    record: DonationRecord,
    donor: Address,
    campaign_key: Address,
    record_bump: u8,
    amount: u64,
    now: i64,
) -> Result<(Campaign, DonationRecord), CharityError> {
    let first = joins(campaign, record);
    let given = if record.created_slot != campaign.created_slot {
        0
    } else {
        record.amount as int
    };
    let unspent = refund_due(campaign, record);
    if amount == 0 {
        Err(CharityError::InvalidAmount)
    } else if !accepting_donations(campaign.deadline_unix, now) {
        Err(CharityError::DeadlinePassed)
    } else if first && campaign.donor_count + 1 > u64::MAX {
        Err(CharityError::MathOverflow)
    } else if given + amount > u64::MAX || unspent + amount > u64::MAX {
        Err(CharityError::MathOverflow)
    } else if campaign.amount_raised + amount > u64::MAX {
        Err(CharityError::MathOverflow)
    } else {
        Ok(
            (
                Campaign {
                    amount_raised: (campaign.amount_raised + amount) as u64,
                    donor_count: if first {
                        (campaign.donor_count + 1) as u64
                    } else {
                        campaign.donor_count
                    },
                    ..campaign
                },
                DonationRecord {
                    donor: if first {
                        donor
                    } else {
                        record.donor
                    },
                    campaign: if first {
                        campaign_key
                    } else {
                        record.campaign
                    },
                    amount: (given + amount) as u64,
                    bump: if first {
                        record_bump
                    } else {
                        record.bump
                    },
                    unspent: (unspent + amount) as u64,
                    created_slot: campaign.created_slot,
                    epoch: campaign.epoch,
                },
            ),
        )
    }
}

/// Campaign, campaign lamports and authority lamports after `signer` takes
/// `amount` out, or why the withdrawal is refused. At most what was raised and
/// not yet withdrawn can be taken, and only from lamports above the
/// rent-exempt minimum. Taking all of it ends the epoch.
pub open spec fn withdraw_outcome(
    campaign: Campaign,
    signer: Address,
    campaign_lamports: u64,
    authority_lamports: u64,
    rent_exempt_minimum: u64,
    amount: u64,
) -> Result<(Campaign, u64, u64), CharityError> {
    let emptied = amount == unwithdrawn(campaign);
    if signer@ != campaign.authority@ {
        Err(CharityError::Unauthorized)
    } else if amount == 0 {
        Err(CharityError::InvalidAmount)
    } else if amount > unwithdrawn(campaign) || amount > spendable(
        campaign_lamports,
        rent_exempt_minimum,
    ) {
        Err(CharityError::InsufficientFunds)
    } else if emptied && campaign.epoch + 1 > u64::MAX {
        Err(CharityError::MathOverflow)
    } else {
        Ok(
            (
                Campaign {
                    amount_withdrawn: (campaign.amount_withdrawn + amount) as u64,
                    epoch: if emptied {
                        (campaign.epoch + 1) as u64
                    } else {
                        campaign.epoch
                    },
                    ..campaign
                },
                (campaign_lamports - amount) as u64,
                (authority_lamports + amount) as u64,
            ),
        )
    }
}

/// Campaign, donation record, campaign lamports and donor lamports after
/// `signer` reclaims what the record gave in the current epoch, or why the
/// refund is refused. Refunding the last of what is unwithdrawn ends the
/// epoch.
pub open spec fn refund_outcome(
    campaign: Campaign,
    record: DonationRecord,
    signer: Address,
    campaign_lamports: u64,
    donor_lamports: u64,
    rent_exempt_minimum: u64,
) -> Result<(Campaign, DonationRecord, u64, u64), CharityError> {
    let due = refund_due(campaign, record);
    let emptied = campaign.amount_raised - due <= campaign.amount_withdrawn;
    if signer@ != record.donor@ {
        Err(CharityError::Unauthorized)
    } else if record.amount == 0 {
        Err(CharityError::InvalidAmount)
    } else if due == 0 || due > spendable(campaign_lamports, rent_exempt_minimum) {
        Err(CharityError::InsufficientFunds)
    } else if campaign.amount_raised < due || record.amount < due {
        Err(CharityError::MathOverflow)
    } else if emptied && campaign.epoch + 1 > u64::MAX {
        Err(CharityError::MathOverflow)
    } else {
        Ok(
            (
                Campaign {
                    amount_raised: (campaign.amount_raised - due) as u64,
                    epoch: if emptied {
                        (campaign.epoch + 1) as u64
                    } else {
                        campaign.epoch
                    },
                    ..campaign
                },
                DonationRecord { amount: (record.amount - due) as u64, unspent: 0, ..record },
                (campaign_lamports - due) as u64,
                (donor_lamports + due) as u64,
            ),
        )
    }
}

/// Whether `signer` may close the campaign in slot `slot`, and why not.
pub open spec fn close_check(campaign: Campaign, signer: Address, slot: u64) -> Result<
    (),
    CharityError,
> {
    if signer@ != campaign.authority@ {
        Err(CharityError::Unauthorized)
    } else if campaign.amount_raised != campaign.amount_withdrawn {
        Err(CharityError::PendingDonorFunds)
    } else if slot <= campaign.created_slot {
        Err(CharityError::CampaignTooNew)
    } else {
        Ok(())
    }
}

// ---------------------------------------------------------------------------
// The instructions
// ---------------------------------------------------------------------------

/// Creates a campaign owned by `authority`, checking the name and description
/// lengths and that the deadline (0 for none) lies after `now`, in slot
/// `created_slot`.
pub fn initialize_campaign(
    authority: Address,
    bump: u8,
    name: String,
    description: String,
    goal_lamports: u64,
    deadline_unix: i64,
    now: i64,
    created_slot: u64,
) -> (r: Result<Campaign, CharityError>)
    ensures
        match initialize_check(name@, description@, deadline_unix, now) {
            Ok(_) => r == Ok::<Campaign, CharityError>(
                new_campaign(
                    authority,
                    bump,
                    name,
                    description,
                    goal_lamports,
                    deadline_unix,
                    created_slot,
                ),
            ),
            Err(e) => r == Err::<Campaign, CharityError>(e),
        },
{
    if name.as_str().as_bytes().len() > MAX_NAME_LEN {
        return Err(CharityError::NameTooLong);
    }
    if description.as_str().as_bytes().len() > MAX_DESCRIPTION_LEN {
        return Err(CharityError::DescriptionTooLong);
    }
    if !(deadline_unix == 0 || deadline_unix > now) {
        return Err(CharityError::InvalidDeadline);
    }
    Ok(
        Campaign {
            authority,
            name,
            description,
            goal_lamports,
            deadline_unix,
            amount_raised: 0,
            amount_withdrawn: 0,
            donor_count: 0,
            bump,
            created_slot,
            epoch: 0,
        },
    )
}

/// Records a donation of `amount` lamports by `donor` at time `now`.
///
/// A fresh (all-zero) record, or one left over from an earlier creation of the
/// campaign, is claimed for `donor` and counted as a new donor. The lamports
/// themselves are moved by a system transfer that the caller makes once the
/// donation is accepted; a refused donation leaves both accounts as they were.
pub fn donate(
    campaign: &mut Campaign,
    record: &mut DonationRecord,
    donor: Address,
    campaign_key: Address,
    record_bump: u8,
    amount: u64,
    now: i64,
) -> (r: Result<(), CharityError>)
    ensures
        match donate_outcome(
            *old(campaign),
            *old(record),
            donor,
            campaign_key,
            record_bump,
            amount,
            now,
        ) {
            Ok((c, d)) => r is Ok && *final(campaign) == c && *final(record) == d,
            Err(e) => r == Err::<(), CharityError>(e) && *final(campaign) == *old(campaign)
                && *final(record) == *old(record),
        },
{
    if amount == 0 {
        return Err(CharityError::InvalidAmount);
    }
    let deadline = campaign.deadline_unix;
    if !(deadline == 0 || now <= deadline) {
        return Err(CharityError::DeadlinePassed);
    }
    let same_creation = record.created_slot == campaign.created_slot;
    let first = !same_creation || (record.amount == 0 && record.donor.is_zero());
    let donor_count = if first {
        match campaign.donor_count.checked_add(1) {
            Some(n) => n,
            None => return Err(CharityError::MathOverflow),
        }
    } else {
        campaign.donor_count
    };
    let given = if same_creation {
        record.amount
    } else {
        0
    };
    let unspent = if same_creation && record.epoch == campaign.epoch {
        record.unspent
    } else {
        0
    };
    let (donated, unspent) = match (given.checked_add(amount), unspent.checked_add(amount)) {
        (Some(d), Some(u)) => (d, u),
        _ => return Err(CharityError::MathOverflow),
    };
    let raised = match campaign.amount_raised.checked_add(amount) {
        Some(n) => n,
        None => return Err(CharityError::MathOverflow),
    };
    if first {
        record.donor = donor;
        record.campaign = campaign_key;
        record.bump = record_bump;
    }
    record.amount = donated;
    record.unspent = unspent;
    record.created_slot = campaign.created_slot;
    record.epoch = campaign.epoch;
    campaign.donor_count = donor_count;
    campaign.amount_raised = raised;
    Ok(())
}

/// Moves `amount` lamports from the campaign account to its authority, who
/// must be the `signer`. At most what was raised and not yet withdrawn can be
/// taken, and only from lamports above the rent-exempt minimum; taking all of
/// it ends the epoch, so that nothing given before is refundable any more. A
/// refused withdrawal changes nothing.
pub fn withdraw(
    campaign: &mut Campaign,
    signer: Address,
    campaign_lamports: &mut u64,
    authority_lamports: &mut u64,
    rent_exempt_minimum: u64,
    amount: u64,
) -> (r: Result<(), CharityError>)
    requires
        *old(campaign_lamports) + *old(authority_lamports) <= u64::MAX,
    ensures
        match withdraw_outcome(
            *old(campaign),
            signer,
            *old(campaign_lamports),
            *old(authority_lamports),
            rent_exempt_minimum,
            amount,
        ) {
            Ok((c, cl, al)) => r is Ok && *final(campaign) == c && *final(campaign_lamports) == cl
                && *final(authority_lamports) == al,
            Err(e) => r == Err::<(), CharityError>(e) && *final(campaign) == *old(campaign)
                && *final(campaign_lamports) == *old(campaign_lamports) && *final(authority_lamports)
                == *old(authority_lamports),
        },
{
    if !signer.same_as(&campaign.authority) {
        return Err(CharityError::Unauthorized);
    }
    if amount == 0 {
        return Err(CharityError::InvalidAmount);
    }
    let unwithdrawn = campaign.amount_raised.saturating_sub(campaign.amount_withdrawn);
    let withdrawable = campaign_lamports.saturating_sub(rent_exempt_minimum);
    if amount > unwithdrawn || amount > withdrawable {
        return Err(CharityError::InsufficientFunds);
    }
    let emptied = amount == unwithdrawn;
    let epoch = if emptied {
        match campaign.epoch.checked_add(1) {
            Some(n) => n,
            None => return Err(CharityError::MathOverflow),
        }
    } else {
        campaign.epoch
    };
    *campaign_lamports = *campaign_lamports - amount;
    *authority_lamports = *authority_lamports + amount;
    campaign.amount_withdrawn = campaign.amount_withdrawn + amount;
    campaign.epoch = epoch;
    Ok(())
}

/// Pays the donor, who must be the `signer`, everything the record gave in
/// the current epoch of this creation of the campaign, as long as the campaign
/// holds that much above its rent-exempt minimum. When nothing of the record
/// was given in an earlier epoch this is the whole outstanding donation and
/// the record ends at zero. A record of an ended epoch or of an earlier
/// creation is owed nothing. A refused refund changes nothing.
pub fn request_refund(
    campaign: &mut Campaign,
    record: &mut DonationRecord,
    signer: Address,
    campaign_lamports: &mut u64,
    donor_lamports: &mut u64,
    rent_exempt_minimum: u64,
) -> (r: Result<(), CharityError>)
    requires
        *old(campaign_lamports) + *old(donor_lamports) <= u64::MAX,
    ensures
        match refund_outcome(
            *old(campaign),
            *old(record),
            signer,
            *old(campaign_lamports),
            *old(donor_lamports),
            rent_exempt_minimum,
        ) {
            Ok((c, d, cl, dl)) => r is Ok && *final(campaign) == c && *final(record) == d
                && *final(campaign_lamports) == cl && *final(donor_lamports) == dl,
            Err(e) => r == Err::<(), CharityError>(e) && *final(campaign) == *old(campaign)
                && *final(record) == *old(record) && *final(campaign_lamports) == *old(
                campaign_lamports,
            ) && *final(donor_lamports) == *old(donor_lamports),
        },
{
    if !signer.same_as(&record.donor) {
        return Err(CharityError::Unauthorized);
    }
    if record.amount == 0 {
        return Err(CharityError::InvalidAmount);
    }
    let due = if record.created_slot == campaign.created_slot && record.epoch == campaign.epoch {
        record.unspent
    } else {
        0
    };
    let available = campaign_lamports.saturating_sub(rent_exempt_minimum);
    if due == 0 || due > available {
        return Err(CharityError::InsufficientFunds);
    }
    let raised = match campaign.amount_raised.checked_sub(due) {
        Some(n) => n,
        None => return Err(CharityError::MathOverflow),
    };
    let remaining = match record.amount.checked_sub(due) {
        Some(n) => n,
        None => return Err(CharityError::MathOverflow),
    };
    let epoch = if raised <= campaign.amount_withdrawn {
        match campaign.epoch.checked_add(1) {
            Some(n) => n,
            None => return Err(CharityError::MathOverflow),
        }
    } else {
        campaign.epoch
    };
    *campaign_lamports = *campaign_lamports - due;
    *donor_lamports = *donor_lamports + due;
    record.amount = remaining;
    record.unspent = 0;
    campaign.amount_raised = raised;
    campaign.epoch = epoch;
    Ok(())
}

/// Allows `signer` to close the campaign in slot `slot` only if it is the
/// authority, every donation still outstanding has been withdrawn, and the
/// campaign was created in an earlier slot (so that a campaign created again
/// at the same address gets a later creation slot).
pub fn close_campaign(campaign: &Campaign, signer: Address, slot: u64) -> (r: Result<
    (),
    CharityError,
>)
    ensures
        r == close_check(*campaign, signer, slot),
{
    if !signer.same_as(&campaign.authority) {
        return Err(CharityError::Unauthorized);
    }
    if campaign.amount_raised != campaign.amount_withdrawn {
        return Err(CharityError::PendingDonorFunds);
    }
    if slot <= campaign.created_slot {
        return Err(CharityError::CampaignTooNew);
    }
    Ok(())
}

} // verus!
