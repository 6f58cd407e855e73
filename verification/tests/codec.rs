//! Wire-layout tests: round trips for both record types, agreement with the
//! canonical binary codec, and decoding of zero-filled slots.

use solpay_codes::keys::Key;
use solpay_codes::projects::state::{
    ProjectAccountState, ProjectAccountStateData, PROJECT_ACCOUNT_LENGTH, decode_project,
    serialize_project_into, title_char_count, project_discriminator,
};
use solpay_codes::affiliates::state::{
    AffiliateAccountState, AffiliateAccountStateData, AFFILIATE_ACCOUNT_LENGTH, decode_affiliate,
    serialize_affiliate_into, affiliate_discriminator,
};

fn key_from_bytes(b: [u8; 32]) -> Key {
    Key {
        w0: u64::from_le_bytes(b[0..8].try_into().unwrap()),
        w1: u64::from_le_bytes(b[8..16].try_into().unwrap()),
        w2: u64::from_le_bytes(b[16..24].try_into().unwrap()),
        w3: u64::from_le_bytes(b[24..32].try_into().unwrap()),
    }
}

fn sample_project() -> ProjectAccountState {
    ProjectAccountState {
        discriminator: project_discriminator(),
        is_initialized: true,
        data_version: 0,
        data: ProjectAccountStateData {
            project_owner_pubkey: key_from_bytes([7u8; 32]),
            candy_machine_id: key_from_bytes([9u8; 32]),
            affiliate_fee_percentage: 2.5f64.to_bits(),
            affiliate_target_in_sol: 3,
            max_affiliate_count: 5,
            affiliate_count: 2,
            title: "My Campaign".as_bytes().to_vec(),
            created_at: 1_700_000_001,
            updated_at: 1_700_000_002,
        },
    }
}

#[test]
fn project_record_round_trips() {
    let rec = sample_project();
    let mut slot = vec![0u8; PROJECT_ACCOUNT_LENGTH];
    serialize_project_into(&rec, &mut slot);
    assert_eq!(slot.len(), PROJECT_ACCOUNT_LENGTH);
    let back = decode_project(&slot).expect("a written slot must decode");
    assert_eq!(back.discriminator, "project_account".as_bytes().to_vec());
    assert!(back.is_initialized);
    assert_eq!(back.data_version, 0);
    assert_eq!(back.data.project_owner_pubkey, rec.data.project_owner_pubkey);
    assert_eq!(back.data.candy_machine_id, rec.data.candy_machine_id);
    assert_eq!(f64::from_bits(back.data.affiliate_fee_percentage), 2.5);
    assert_eq!(back.data.affiliate_target_in_sol, 3);
    assert_eq!(back.data.max_affiliate_count, 5);
    assert_eq!(back.data.affiliate_count, 2);
    assert_eq!(back.data.title, "My Campaign".as_bytes().to_vec());
    assert_eq!(back.data.created_at, 1_700_000_001);
    assert_eq!(back.data.updated_at, 1_700_000_002);
}

#[test]
fn project_record_matches_canonical_codec() {
    let rec = sample_project();
    let mut slot = vec![0u8; PROJECT_ACCOUNT_LENGTH];
    serialize_project_into(&rec, &mut slot);
    let reference = borsh::to_vec(&(
        "project_account".to_string(),
        true,
        0u8,
        [7u8; 32],
        [9u8; 32],
        2.5f64,
        3u8,
        5u8,
        2u8,
        "My Campaign".to_string(),
        1_700_000_001i64,
        1_700_000_002i64,
    ))
    .unwrap();
    assert_eq!(&slot[..reference.len()], &reference[..]);
    assert!(slot[reference.len()..].iter().all(|&b| b == 0));
}

#[test]
fn affiliate_record_round_trips_and_matches_canonical_codec() {
    let rec = AffiliateAccountState {
        discriminator: affiliate_discriminator(),
        is_initialized: true,
        data_version: 0,
        data: AffiliateAccountStateData {
            affiliate_pubkey: key_from_bytes([1u8; 32]),
            project_owner_pubkey: key_from_bytes([2u8; 32]),
            candy_machine_id: key_from_bytes([3u8; 32]),
            total_redeemed_amount_in_sol: 12,
            created_at: -5,
        },
    };
    let mut slot = vec![0u8; AFFILIATE_ACCOUNT_LENGTH];
    serialize_affiliate_into(&rec, &mut slot);
    let back = decode_affiliate(&slot).expect("a written slot must decode");
    assert_eq!(back.discriminator, "affiliate_account".as_bytes().to_vec());
    assert!(back.is_initialized);
    assert_eq!(back.data.affiliate_pubkey, rec.data.affiliate_pubkey);
    assert_eq!(back.data.project_owner_pubkey, rec.data.project_owner_pubkey);
    assert_eq!(back.data.candy_machine_id, rec.data.candy_machine_id);
    assert_eq!(back.data.total_redeemed_amount_in_sol, 12);
    assert_eq!(back.data.created_at, -5);

    let reference = borsh::to_vec(&(
        "affiliate_account".to_string(),
        true,
        0u8,
        [1u8; 32],
        [2u8; 32],
        [3u8; 32],
        12u32,
        -5i64,
    ))
    .unwrap();
    assert_eq!(reference.len(), AFFILIATE_ACCOUNT_LENGTH);
    assert_eq!(&slot[..], &reference[..]);
}

#[test]
fn zeroed_project_slot_decodes_as_uninitialized() {
    let slot = vec![0u8; PROJECT_ACCOUNT_LENGTH];
    let rec = decode_project(&slot).expect("a zero-filled slot must decode");
    assert!(!rec.is_initialized);
    assert_eq!(rec.data.affiliate_count, 0);
    assert_eq!(rec.data.max_affiliate_count, 0);
    assert!(rec.discriminator.is_empty());
}

#[test]
fn zeroed_affiliate_slot_decodes_as_uninitialized() {
    let slot = vec![0u8; AFFILIATE_ACCOUNT_LENGTH];
    let rec = decode_affiliate(&slot).expect("a zero-filled slot must decode");
    assert!(!rec.is_initialized);
    assert_eq!(rec.data.total_redeemed_amount_in_sol, 0);
}

#[test]
fn truncated_slot_does_not_decode() {
    let rec = sample_project();
    let mut slot = vec![0u8; PROJECT_ACCOUNT_LENGTH];
    serialize_project_into(&rec, &mut slot);
    slot.truncate(50);
    assert!(decode_project(&slot).is_none());
    assert!(decode_affiliate(&vec![1u8, 2u8]).is_none());
}

#[test]
fn title_character_count_follows_characters_not_bytes() {
    let ascii = "x".repeat(50);
    assert_eq!(title_char_count(&ascii.as_bytes().to_vec()), 50);
    let wide = "\u{00e9}".repeat(50);
    assert_eq!(wide.as_bytes().len(), 100);
    assert_eq!(title_char_count(&wide.as_bytes().to_vec()), 50);
    assert_eq!(title_char_count(&Vec::new()), 0);
}
