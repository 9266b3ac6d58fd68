use anchor_lang::prelude::Pubkey;
use solana_charity_donations::{campaign_pda, donation_record_pda, program_id, Address};

fn program() -> Pubkey {
    "CRFmqtbgKoKERdFzFuBTRS5YuDfLYphfRGmGo6Zcn3Qa".parse().unwrap()
}

#[test]
fn program_id_is_the_declared_id() {
    assert_eq!(program_id().0, program().to_bytes());
}

#[test]
fn campaign_address_matches_the_sdk_derivation() {
    let authority = Address([7u8; 32]);
    let (expected, _) = Pubkey::find_program_address(
        &[b"campaign", &authority.0, "flood-relief".as_bytes()],
        &program(),
    );
    let got = campaign_pda(&authority, "flood-relief").unwrap();
    assert_eq!(got.0, expected.to_bytes());
    // The derivation depends on the name and on the authority.
    assert_ne!(campaign_pda(&authority, "flood-relief-2").unwrap().0, got.0);
    assert_ne!(campaign_pda(&Address([8u8; 32]), "flood-relief").unwrap().0, got.0);
    // And is not the authority handed back.
    assert_ne!(got.0, authority.0);
}

#[test]
fn donation_record_address_matches_the_sdk_derivation() {
    let campaign = Address([9u8; 32]);
    let donor = Address([10u8; 32]);
    let (expected, _) =
        Pubkey::find_program_address(&[b"donation", &campaign.0, &donor.0], &program());
    let got = donation_record_pda(&campaign, &donor).unwrap();
    assert_eq!(got.0, expected.to_bytes());
    assert_ne!(donation_record_pda(&donor, &campaign).unwrap().0, got.0);
}

#[test]
fn name_filling_a_whole_seed_has_a_campaign_address() {
    let authority = Address([7u8; 32]);
    let name = "a".repeat(32);
    let (expected, _) =
        Pubkey::find_program_address(&[b"campaign", &authority.0, name.as_bytes()], &program());
    assert_eq!(campaign_pda(&authority, &name).unwrap().0, expected.to_bytes());
    // Sixteen two-byte characters: 32 bytes.
    assert!(campaign_pda(&authority, &"é".repeat(16)).is_some());
}
