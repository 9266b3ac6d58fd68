use vstd::prelude::*;
use vstd::utf8::encode_utf8;

use crate::address::Address;

verus! {

/// Longest campaign name accepted, in bytes of its UTF-8 encoding.
pub const MAX_NAME_LEN: usize = 50;

/// Longest campaign description accepted, in bytes of its UTF-8 encoding.
pub const MAX_DESCRIPTION_LEN: usize = 200;

/// Account space reserved for a campaign: discriminator, authority, name
/// (length prefix and at most `MAX_NAME_LEN` bytes), description (length
/// prefix and at most `MAX_DESCRIPTION_LEN` bytes), goal, deadline, raised,
/// withdrawn, donor count, bump, creation slot and epoch.
pub const CAMPAIGN_MAX_SIZE: usize = 8 + 32 + 4 + MAX_NAME_LEN + 4 + MAX_DESCRIPTION_LEN + 8 + 8
    + 8 + 8 + 8 + 1 + 8 + 8;

/// Account space reserved for a donation record: discriminator, donor,
/// campaign, amount, bump, unspent amount, creation slot and epoch.
pub const DONATION_RECORD_MAX_SIZE: usize = 8 + 32 + 32 + 8 + 1 + 8 + 8 + 8;

/// Number of bytes in the UTF-8 encoding of a string.
pub open spec fn byte_len(s: Seq<char>) -> nat {
    encode_utf8(s).len()
}

/// A fundraising campaign.
pub struct Campaign {
    /// The owner, who alone may withdraw and close.
    pub authority: Address,
    pub name: String,
    pub description: String,
    /// Informational target; nothing enforces it.
    pub goal_lamports: u64,
    /// Unix time after which donations are refused; 0 means no deadline.
    pub deadline_unix: i64,
    /// Donations received and not refunded.
    pub amount_raised: u64,
    /// Funds the owner has taken out.
    pub amount_withdrawn: u64,
    /// Number of donation records claimed by a donor in this creation of the
    /// campaign.
    pub donor_count: u64,
    pub bump: u8,
    /// Slot the campaign was created in. A campaign is never closed in the slot
    /// it was created in, so a campaign created again at the same address has a
    /// later one; this tells its records apart from those of earlier creations.
    pub created_slot: u64,
    /// Counts the times everything raised was withdrawn or refunded; what was
    /// given in an earlier epoch is no longer held by the campaign.
    pub epoch: u64,
}

/// What one donor has outstanding in one campaign.
pub struct DonationRecord {
    pub donor: Address,
    pub campaign: Address,
    /// Donated and not yet refunded.
    pub amount: u64,
    pub bump: u8,
    /// The part of `amount` given in the record's epoch, which the campaign
    /// still holds unless the owner has withdrawn it since.
    pub unspent: u64,
    /// Creation slot and epoch of the campaign at the record's latest donation.
    pub created_slot: u64,
    pub epoch: u64,
}

impl DonationRecord {
    /// A record that no donation has claimed yet: the all-zero account that
    /// the runtime hands over when the record is first created.
    pub open spec fn is_unclaimed(self) -> bool {
        self.amount == 0 && self.donor@ == Address::spec_zero()
    }
}

} // verus!
