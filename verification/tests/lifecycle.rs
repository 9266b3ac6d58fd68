use solana_charity_donations::{
    close_campaign, donate, initialize_campaign, request_refund, withdraw, Address, Campaign,
    CharityError, DonationRecord,
};

const OWNER: Address = Address([1u8; 32]);
const ALICE: Address = Address([2u8; 32]);
const BOB: Address = Address([3u8; 32]);
const KEY: Address = Address([4u8; 32]);
const RENT: u64 = 3_000_000;
const SLOT: u64 = 1_234;

fn empty_record() -> DonationRecord {
    DonationRecord {
        donor: Address([0u8; 32]),
        campaign: Address([0u8; 32]),
        amount: 0,
        bump: 0,
        unspent: 0,
        created_slot: 0,
        epoch: 0,
    }
}

/// The campaign account holds its rent minimum plus what is raised and not
/// withdrawn, and the totals agree with the records: what was raised is what
/// the records of this creation hold, the donor count is the number of records
/// claimed, and every unwithdrawn lamport is owed to a gift of the current
/// epoch.
fn consistent(c: &Campaign, lamports: u64, records: &[&DonationRecord]) -> bool {
    let outstanding: u64 =
        records.iter().filter(|r| r.created_slot == c.created_slot).map(|r| r.amount).sum();
    let due: u64 = records
        .iter()
        .filter(|r| r.created_slot == c.created_slot && r.epoch == c.epoch)
        .map(|r| r.unspent)
        .sum();
    let claimed = records
        .iter()
        .filter(|r| r.created_slot == c.created_slot && r.donor.0 != [0u8; 32])
        .count() as u64;
    let epochs_behind = records
        .iter()
        .all(|r| r.created_slot != c.created_slot || r.epoch <= c.epoch);
    c.amount_withdrawn <= c.amount_raised
        && lamports == RENT + c.amount_raised - c.amount_withdrawn
        && c.amount_raised == outstanding
        && c.amount_raised - c.amount_withdrawn <= due
        && c.donor_count == claimed
        && epochs_behind
        && records.iter().all(|r| r.unspent <= r.amount)
}

#[test]
fn full_campaign_lifecycle() {
    let mut c = initialize_campaign(OWNER, 250, "flood-relief".to_string(), "relief".to_string(), 10, 0, 1, SLOT)
        .unwrap();
    let mut lamports = RENT;
    let mut owner: u64 = 0;
    let mut alice = empty_record();
    let mut bob = empty_record();
    assert!(consistent(&c, lamports, &[&alice, &bob]));

    donate(&mut c, &mut alice, ALICE, KEY, 1, 1_500, 2).unwrap();
    lamports += 1_500;
    donate(&mut c, &mut bob, BOB, KEY, 2, 700, 3).unwrap();
    lamports += 700;
    donate(&mut c, &mut alice, ALICE, KEY, 1, 500, 4).unwrap();
    lamports += 500;
    assert_eq!(c.donor_count, 2);
    assert!(consistent(&c, lamports, &[&alice, &bob]));

    // 600 of 2_700 taken: 2_100 is still held.
    withdraw(&mut c, OWNER, &mut lamports, &mut owner, RENT, 600).unwrap();
    assert!(consistent(&c, lamports, &[&alice, &bob]));

    let mut alice_wallet: u64 = 0;
    request_refund(&mut c, &mut alice, ALICE, &mut lamports, &mut alice_wallet, RENT).unwrap();
    assert_eq!(alice_wallet, 2_000);
    assert_eq!(alice.amount, 0);
    assert!(consistent(&c, lamports, &[&alice, &bob]));
    assert_eq!(close_campaign(&c, OWNER, SLOT + 10), Err(CharityError::PendingDonorFunds));

    // 100 is left for Bob's 700: nothing is paid in part.
    let mut bob_wallet: u64 = 0;
    assert_eq!(
        request_refund(&mut c, &mut bob, BOB, &mut lamports, &mut bob_wallet, RENT),
        Err(CharityError::InsufficientFunds)
    );
    assert_eq!(bob_wallet, 0);
    withdraw(&mut c, OWNER, &mut lamports, &mut owner, RENT, 100).unwrap();
    assert_eq!((owner, lamports), (700, RENT));
    assert!(consistent(&c, lamports, &[&alice, &bob]));
    assert_eq!(close_campaign(&c, OWNER, SLOT + 10), Ok(()));

    // Alice comes back after her refund: still one of two donors.
    donate(&mut c, &mut alice, ALICE, KEY, 1, 50, 5).unwrap();
    lamports += 50;
    assert_eq!(c.donor_count, 2);
    assert!(consistent(&c, lamports, &[&alice, &bob]));
    // Bob's gift was withdrawn; Alice's new one is hers to reclaim.
    assert_eq!(
        request_refund(&mut c, &mut bob, BOB, &mut lamports, &mut bob_wallet, RENT),
        Err(CharityError::InsufficientFunds)
    );
    request_refund(&mut c, &mut alice, ALICE, &mut lamports, &mut alice_wallet, RENT).unwrap();
    assert_eq!((alice_wallet, lamports), (2_050, RENT));
    assert!(consistent(&c, lamports, &[&alice, &bob]));
}

#[test]
fn owner_withdraws_before_goal_and_deadline() {
    // Goal of 1_000_000 lamports not reached, deadline still ahead.
    let mut c = initialize_campaign(OWNER, 1, "relief".to_string(), String::new(), 1_000_000, 500, 1, SLOT).unwrap();
    let mut lamports = RENT;
    let mut alice = empty_record();
    donate(&mut c, &mut alice, ALICE, KEY, 1, 400, 2).unwrap();
    lamports += 400;
    let mut owner: u64 = 0;
    withdraw(&mut c, OWNER, &mut lamports, &mut owner, RENT, 400).unwrap();
    assert_eq!(owner, 400);
    assert_eq!(lamports, RENT);
    assert!(consistent(&c, lamports, &[&alice]));
}

#[test]
fn donate_then_refund_returns_the_gift() {
    let mut c = initialize_campaign(OWNER, 1, "relief".to_string(), String::new(), 0, 0, 1, SLOT).unwrap();
    let mut lamports = RENT;
    let mut alice = empty_record();
    let mut bob = empty_record();
    donate(&mut c, &mut alice, ALICE, KEY, 1, 300, 2).unwrap();
    lamports += 300;
    donate(&mut c, &mut bob, BOB, KEY, 2, 123, 2).unwrap();
    lamports += 123;
    let mut wallet: u64 = 10;
    request_refund(&mut c, &mut bob, BOB, &mut lamports, &mut wallet, RENT).unwrap();
    assert_eq!(wallet, 133);
    assert_eq!((c.amount_raised, lamports), (300, RENT + 300));
    assert!(consistent(&c, lamports, &[&alice, &bob]));
}

#[test]
fn refunds_never_exceed_what_is_left() {
    let mut c = initialize_campaign(OWNER, 1, "relief".to_string(), String::new(), 0, 0, 1, SLOT).unwrap();
    let mut lamports = RENT;
    let mut a = empty_record();
    let mut b = empty_record();
    let mut d = empty_record();
    donate(&mut c, &mut a, ALICE, KEY, 1, 7, 2).unwrap();
    donate(&mut c, &mut b, BOB, KEY, 2, 11, 2).unwrap();
    donate(&mut c, &mut d, OWNER, KEY, 3, 5, 2).unwrap();
    lamports += 23;
    let mut owner: u64 = 0;
    withdraw(&mut c, OWNER, &mut lamports, &mut owner, RENT, 13).unwrap();
    let mut paid: u64 = 0;
    request_refund(&mut c, &mut a, ALICE, &mut lamports, &mut paid, RENT).unwrap();
    assert_eq!(
        request_refund(&mut c, &mut b, BOB, &mut lamports, &mut paid, RENT),
        Err(CharityError::InsufficientFunds)
    );
    assert_eq!(
        request_refund(&mut c, &mut d, OWNER, &mut lamports, &mut paid, RENT),
        Err(CharityError::InsufficientFunds)
    );
    assert_eq!(paid, 7);
    assert!(paid <= 10);
    assert!(consistent(&c, lamports, &[&a, &b, &d]));
}

#[test]
fn largest_accepted_campaign_fits_its_account() {
    let c = initialize_campaign(OWNER, 1, "n".repeat(50), "d".repeat(200), 0, 0, 1, SLOT).unwrap();
    let space = 8 + 32 + 4 + c.name.len() + 4 + c.description.len() + 7 * 8 + 1;
    assert!(space <= solana_charity_donations::state::CAMPAIGN_MAX_SIZE);
}
