//! Lifecycle tests: the spec scenarios (cap reached, insufficient balance,
//! lowering the maximum, non-administrator close), re-initialization,
//! conservation on close, and address validation against the real
//! derivation.

use solana_program::pubkey::Pubkey;
use solpay_codes::accounts::{
    Account, LedgerEnv, LinkagePolicy, ProgramConfig, AFFILIATE_REGISTRATION_FEE,
};
use solpay_codes::affiliates::close_affiliate_account::close_affiliate_account;
use solpay_codes::affiliates::redeem_reward::redeem_reward;
use solpay_codes::affiliates::register_affiliate_account::register_affiliate_account;
use solpay_codes::affiliates::state::{
    decode_affiliate, serialize_affiliate_into, AffiliateAccountState, AffiliateAccountStateData,
    AFFILIATE_ACCOUNT_LENGTH,
};
use solpay_codes::error::{CandyMachineAffiliatesError as E, ProgramFault};
use solpay_codes::keys::Key;
use solpay_codes::projects::close_project_account::close_project_account;
use solpay_codes::projects::register_project_account::register_project_account;
use solpay_codes::projects::state::{decode_project, serialize_project_into, PROJECT_ACCOUNT_LENGTH};
use solpay_codes::projects::update_project_account::update_project_account;
use solpay_codes::utils::validate_client_pda;

fn key_from_bytes(b: [u8; 32]) -> Key {
    Key {
        w0: u64::from_le_bytes(b[0..8].try_into().unwrap()),
        w1: u64::from_le_bytes(b[8..16].try_into().unwrap()),
        w2: u64::from_le_bytes(b[16..24].try_into().unwrap()),
        w3: u64::from_le_bytes(b[24..32].try_into().unwrap()),
    }
}

fn key_to_bytes(k: &Key) -> [u8; 32] {
    let mut b = [0u8; 32];
    b[0..8].copy_from_slice(&k.w0.to_le_bytes());
    b[8..16].copy_from_slice(&k.w1.to_le_bytes());
    b[16..24].copy_from_slice(&k.w2.to_le_bytes());
    b[24..32].copy_from_slice(&k.w3.to_le_bytes());
    b
}

fn derive(seeds: &[&[u8]], program: &Key) -> Key {
    let pid = Pubkey::new_from_array(key_to_bytes(program));
    let (pk, _bump) = Pubkey::find_program_address(seeds, &pid);
    key_from_bytes(pk.to_bytes())
}

fn project_pda(program: &Key, owner: &Key, cmid: &Key) -> Key {
    derive(
        &[b"project_account", &key_to_bytes(owner), &key_to_bytes(cmid)],
        program,
    )
}

fn affiliate_pda(program: &Key, affiliate: &Key, owner: &Key, cmid: &Key) -> Key {
    derive(
        &[
            b"affiliate_account",
            &key_to_bytes(affiliate),
            &key_to_bytes(owner),
            &key_to_bytes(cmid),
        ],
        program,
    )
}

fn fresh_account(key: Key, lamports: u64, signer: bool) -> Account {
    Account {
        key,
        is_signer: signer,
        owner: Key { w0: 0, w1: 0, w2: 0, w3: 0 },
        lamports,
        data: Vec::new(),
    }
}

struct World {
    program: Key,
    cfg: ProgramConfig,
    env: LedgerEnv,
    owner: Key,
    cmid: Key,
    system: Account,
}

fn world(linkage: LinkagePolicy) -> World {
    let program = key_from_bytes([1u8; 32]);
    let admin = key_from_bytes([0xAAu8; 32]);
    let treasury = key_from_bytes([0xBBu8; 32]);
    World {
        program,
        cfg: ProgramConfig {
            admin,
            treasury,
            linkage,
        },
        env: LedgerEnv {
            now: 1_700_000_000,
            project_rent_lamports: 3_000_000,
            affiliate_rent_lamports: 2_000_000,
        },
        owner: key_from_bytes([2u8; 32]),
        cmid: key_from_bytes([3u8; 32]),
        system: fresh_account(Key { w0: 0, w1: 0, w2: 0, w3: 0 }, 1, false),
    }
}

fn registered_project(w: &World, max_affiliate_count: u8) -> (Account, Account) {
    let mut owner_acc = fresh_account(w.owner, 10_000_000_000, true);
    let mut pda = fresh_account(project_pda(&w.program, &w.owner, &w.cmid), 0, false);
    register_project_account(
        &w.program,
        &w.env,
        &mut owner_acc,
        &mut pda,
        &w.system,
        w.cmid,
        2.5f64.to_bits(),
        1,
        max_affiliate_count,
        b"Campaign".to_vec(),
    )
    .expect("registration must succeed");
    (owner_acc, pda)
}

fn enrolled_affiliate(w: &World, project: &mut Account, seed: u8) -> (Account, Account, Account) {
    let aff_key = key_from_bytes([seed; 32]);
    let mut aff = fresh_account(aff_key, 5_000_000_000, true);
    let mut apda = fresh_account(
        affiliate_pda(&w.program, &aff_key, &w.owner, &w.cmid),
        0,
        false,
    );
    let mut treasury = fresh_account(w.cfg.treasury, 0, false);
    register_affiliate_account(
        &w.program,
        &w.cfg,
        &w.env,
        &mut aff,
        &mut apda,
        project,
        &mut treasury,
        &w.system,
        w.owner,
        w.cmid,
    )
    .expect("enrollment must succeed");
    (aff, apda, treasury)
}

#[test]
fn register_project_initializes_record() {
    let w = world(LinkagePolicy::MatchEither);
    let (owner_acc, pda) = registered_project(&w, 2);
    assert_eq!(owner_acc.lamports, 10_000_000_000 - 3_000_000);
    assert_eq!(pda.lamports, 3_000_000);
    assert_eq!(pda.owner, w.program);
    assert_eq!(pda.data.len(), PROJECT_ACCOUNT_LENGTH);
    let rec = decode_project(&pda.data).unwrap();
    assert!(rec.is_initialized);
    assert_eq!(rec.data.project_owner_pubkey, w.owner);
    assert_eq!(rec.data.candy_machine_id, w.cmid);
    assert_eq!(rec.data.affiliate_count, 0);
    assert_eq!(rec.data.max_affiliate_count, 2);
    assert_eq!(rec.data.created_at, 1_700_000_000);
}

#[test]
fn register_project_rejects_bad_inputs() {
    let w = world(LinkagePolicy::MatchEither);
    // Wrong derived address.
    let mut owner_acc = fresh_account(w.owner, 10_000_000_000, true);
    let mut wrong = fresh_account(key_from_bytes([99u8; 32]), 0, false);
    assert_eq!(
        register_project_account(
            &w.program,
            &w.env,
            &mut owner_acc,
            &mut wrong,
            &w.system,
            w.cmid,
            0,
            1,
            2,
            b"t".to_vec()
        ),
        Err(ProgramFault::Custom(E::InvalidPDA))
    );
    // Missing signature.
    let mut unsigned = fresh_account(w.owner, 10_000_000_000, false);
    let mut pda = fresh_account(project_pda(&w.program, &w.owner, &w.cmid), 0, false);
    assert_eq!(
        register_project_account(
            &w.program,
            &w.env,
            &mut unsigned,
            &mut pda,
            &w.system,
            w.cmid,
            0,
            1,
            2,
            b"t".to_vec()
        ),
        Err(ProgramFault::MissingRequiredSignature)
    );
    // Fifty-one characters are one too many.
    let mut owner_acc = fresh_account(w.owner, 10_000_000_000, true);
    let long_title = "x".repeat(51).into_bytes();
    assert_eq!(
        register_project_account(
            &w.program,
            &w.env,
            &mut owner_acc,
            &mut pda,
            &w.system,
            w.cmid,
            0,
            1,
            2,
            long_title
        ),
        Err(ProgramFault::Custom(E::ProjectTitleTooLong))
    );
    // Fifty characters, even wide ones, are fine.
    let wide_title = "\u{00e9}".repeat(50).into_bytes();
    assert!(register_project_account(
        &w.program,
        &w.env,
        &mut owner_acc,
        &mut pda,
        &w.system,
        w.cmid,
        0,
        1,
        2,
        wide_title
    )
    .is_ok());
    // A maximum of zero is rejected.
    let mut owner_acc = fresh_account(w.owner, 10_000_000_000, true);
    let mut pda2 = fresh_account(
        project_pda(&w.program, &w.owner, &key_from_bytes([4u8; 32])),
        0,
        false,
    );
    assert_eq!(
        register_project_account(
            &w.program,
            &w.env,
            &mut owner_acc,
            &mut pda2,
            &w.system,
            key_from_bytes([4u8; 32]),
            0,
            1,
            0,
            b"t".to_vec()
        ),
        Err(ProgramFault::Custom(E::InvalidProjectMaxAffiliateCount))
    );
}

#[test]
fn register_project_twice_is_rejected_and_leaves_record() {
    let w = world(LinkagePolicy::MatchEither);
    let (mut owner_acc, mut pda) = registered_project(&w, 2);
    let before = pda.data.clone();
    let r = register_project_account(
        &w.program,
        &w.env,
        &mut owner_acc,
        &mut pda,
        &w.system,
        w.cmid,
        0,
        9,
        9,
        b"other".to_vec(),
    );
    assert_eq!(r, Err(ProgramFault::AccountAlreadyInUse));
    assert_eq!(pda.data, before);
    assert_eq!(pda.lamports, 3_000_000);
}

#[test]
fn third_enrollment_hits_the_cap() {
    let w = world(LinkagePolicy::MatchEither);
    let (_owner_acc, mut project) = registered_project(&w, 2);
    let (aff1, apda1, treasury1) = enrolled_affiliate(&w, &mut project, 10);
    assert_eq!(aff1.lamports, 5_000_000_000 - AFFILIATE_REGISTRATION_FEE - 2_000_000);
    assert_eq!(apda1.lamports, 2_000_000);
    assert_eq!(treasury1.lamports, AFFILIATE_REGISTRATION_FEE);
    let arec = decode_affiliate(&apda1.data).unwrap();
    assert!(arec.is_initialized);
    assert_eq!(arec.data.affiliate_pubkey, key_from_bytes([10u8; 32]));
    assert_eq!(arec.data.total_redeemed_amount_in_sol, 0);
    let (_aff2, _apda2, _t2) = enrolled_affiliate(&w, &mut project, 11);
    assert_eq!(decode_project(&project.data).unwrap().data.affiliate_count, 2);

    let aff3_key = key_from_bytes([12u8; 32]);
    let mut aff3 = fresh_account(aff3_key, 5_000_000_000, true);
    let mut apda3 = fresh_account(
        affiliate_pda(&w.program, &aff3_key, &w.owner, &w.cmid),
        0,
        false,
    );
    let mut treasury = fresh_account(w.cfg.treasury, 0, false);
    let r = register_affiliate_account(
        &w.program,
        &w.cfg,
        &w.env,
        &mut aff3,
        &mut apda3,
        &mut project,
        &mut treasury,
        &w.system,
        w.owner,
        w.cmid,
    );
    assert_eq!(r, Err(ProgramFault::Custom(E::ProjectMaxAffiliateCountReached)));
    assert_eq!(decode_project(&project.data).unwrap().data.affiliate_count, 2);
    assert_eq!(aff3.lamports, 5_000_000_000);
    assert_eq!(treasury.lamports, 0);
    assert!(apda3.data.is_empty());
}

#[test]
fn enrollment_rejects_wrong_treasury() {
    let w = world(LinkagePolicy::MatchEither);
    let (_owner_acc, mut project) = registered_project(&w, 2);
    let aff_key = key_from_bytes([10u8; 32]);
    let mut aff = fresh_account(aff_key, 5_000_000_000, true);
    let mut apda = fresh_account(
        affiliate_pda(&w.program, &aff_key, &w.owner, &w.cmid),
        0,
        false,
    );
    let mut not_treasury = fresh_account(key_from_bytes([0xCCu8; 32]), 0, false);
    let r = register_affiliate_account(
        &w.program,
        &w.cfg,
        &w.env,
        &mut aff,
        &mut apda,
        &mut project,
        &mut not_treasury,
        &w.system,
        w.owner,
        w.cmid,
    );
    assert_eq!(r, Err(ProgramFault::Custom(E::IncorrectTreasuryAccount)));
}

#[test]
fn redemption_is_bounded_by_balance() {
    let w = world(LinkagePolicy::MatchEither);
    let (_owner_acc, mut project) = registered_project(&w, 2);
    let (mut aff, mut apda, _t) = enrolled_affiliate(&w, &mut project, 10);
    // The slot holds only its reserve: below the one-reward-unit target.
    let balance_before = apda.lamports;
    let signer_before = aff.lamports;
    let r = redeem_reward(
        &w.program,
        &w.cfg,
        &mut aff,
        &mut apda,
        &project,
        w.owner,
        w.cmid,
    );
    assert_eq!(r, Err(ProgramFault::Custom(E::AffiliateAccountBalanceNotEnough)));
    assert_eq!(apda.lamports, balance_before);
    assert_eq!(aff.lamports, signer_before);
    assert_eq!(
        decode_affiliate(&apda.data).unwrap().data.total_redeemed_amount_in_sol,
        0
    );
    // Fund the slot and redeem: exactly the target amount moves.
    apda.lamports += 1_000_000_000;
    let balance_before = apda.lamports;
    let signer_before = aff.lamports;
    redeem_reward(
        &w.program,
        &w.cfg,
        &mut aff,
        &mut apda,
        &project,
        w.owner,
        w.cmid,
    )
    .expect("a funded slot must redeem");
    assert_eq!(apda.lamports, balance_before - 1_000_000_000);
    assert_eq!(aff.lamports, signer_before + 1_000_000_000);
    assert_eq!(
        decode_affiliate(&apda.data).unwrap().data.total_redeemed_amount_in_sol,
        1
    );
}

#[test]
fn redemption_linkage_policies_differ_on_half_matches() {
    // A record whose campaign differs from the project's, owner agreeing.
    let build = |linkage: LinkagePolicy| {
        let w = world(linkage);
        let (_owner_acc, mut project) = registered_project(&w, 2);
        let (mut aff, mut apda, _t) = enrolled_affiliate(&w, &mut project, 10);
        let mut rec = decode_affiliate(&apda.data).unwrap();
        rec.data.candy_machine_id = key_from_bytes([77u8; 32]);
        let mut slot = apda.data.clone();
        serialize_affiliate_into(&rec, &mut slot);
        apda.data = slot;
        apda.lamports += 1_000_000_000;
        let r = redeem_reward(
            &w.program,
            &w.cfg,
            &mut aff,
            &mut apda,
            &project,
            w.owner,
            w.cmid,
        );
        r
    };
    // Lenient: one agreeing identity is enough.
    assert!(build(LinkagePolicy::MatchEither).is_ok());
    // Strict: both must agree.
    assert_eq!(
        build(LinkagePolicy::MatchBoth),
        Err(ProgramFault::Custom(E::RewardRedeemMismatchedAccounts))
    );
}

#[test]
fn redemption_rejects_fully_mismatched_records() {
    let w = world(LinkagePolicy::MatchEither);
    let (_owner_acc, mut project) = registered_project(&w, 2);
    let (mut aff, mut apda, _t) = enrolled_affiliate(&w, &mut project, 10);
    let mut rec = decode_affiliate(&apda.data).unwrap();
    rec.data.candy_machine_id = key_from_bytes([77u8; 32]);
    rec.data.project_owner_pubkey = key_from_bytes([78u8; 32]);
    let mut slot = apda.data.clone();
    serialize_affiliate_into(&rec, &mut slot);
    apda.data = slot;
    apda.lamports += 1_000_000_000;
    let r = redeem_reward(
        &w.program,
        &w.cfg,
        &mut aff,
        &mut apda,
        &project,
        w.owner,
        w.cmid,
    );
    assert_eq!(r, Err(ProgramFault::Custom(E::RewardRedeemMismatchedAccounts)));
}

#[test]
fn lowering_the_maximum_below_enrollment_fails_without_mutation() {
    let w = world(LinkagePolicy::MatchEither);
    let (_owner_acc, mut project) = registered_project(&w, 2);
    let _ = enrolled_affiliate(&w, &mut project, 10);
    let _ = enrolled_affiliate(&w, &mut project, 11);
    let before = project.data.clone();
    let mut admin_acc = fresh_account(w.cfg.admin, 1, true);
    let r = update_project_account(
        &w.program,
        &w.cfg,
        &w.env,
        &mut admin_acc,
        &mut project,
        w.owner,
        w.cmid,
        0,
        1,
        1,
        b"New".to_vec(),
    );
    assert_eq!(
        r,
        Err(ProgramFault::Custom(
            E::ProjectAffiliateCountLargerThanNewMaxAffiliateCount
        ))
    );
    assert_eq!(project.data, before);
    // Lowering to the current enrollment is allowed.
    let r = update_project_account(
        &w.program,
        &w.cfg,
        &w.env,
        &mut admin_acc,
        &mut project,
        w.owner,
        w.cmid,
        0,
        1,
        2,
        b"New".to_vec(),
    );
    assert!(r.is_ok());
    let rec = decode_project(&project.data).unwrap();
    assert_eq!(rec.data.max_affiliate_count, 2);
    assert_eq!(rec.data.title, b"New".to_vec());
    assert_eq!(rec.data.affiliate_count, 2);
}

#[test]
fn update_requires_the_administrator() {
    let w = world(LinkagePolicy::MatchEither);
    let (mut owner_acc, mut project) = registered_project(&w, 2);
    let r = update_project_account(
        &w.program,
        &w.cfg,
        &w.env,
        &mut owner_acc,
        &mut project,
        w.owner,
        w.cmid,
        0,
        1,
        2,
        b"New".to_vec(),
    );
    assert_eq!(r, Err(ProgramFault::Custom(E::ActionNotAllowed)));
}

#[test]
fn close_project_by_non_administrator_leaves_slot_untouched() {
    let w = world(LinkagePolicy::MatchEither);
    let (mut owner_acc, mut project) = registered_project(&w, 2);
    let mut dest = fresh_account(key_from_bytes([50u8; 32]), 7, false);
    let data_before = project.data.clone();
    let r = close_project_account(
        &w.program,
        &w.cfg,
        &mut owner_acc,
        &mut project,
        &mut dest,
        w.owner,
        w.cmid,
    );
    assert_eq!(r, Err(ProgramFault::Custom(E::ActionNotAllowed)));
    assert_eq!(project.data, data_before);
    assert_eq!(project.lamports, 3_000_000);
    assert_eq!(dest.lamports, 7);
}

#[test]
fn close_project_conserves_value() {
    let w = world(LinkagePolicy::MatchEither);
    let (_owner_acc, mut project) = registered_project(&w, 2);
    let mut admin_acc = fresh_account(w.cfg.admin, 1, true);
    let mut dest = fresh_account(key_from_bytes([50u8; 32]), 7, false);
    let total_before = project.lamports + dest.lamports;
    close_project_account(
        &w.program,
        &w.cfg,
        &mut admin_acc,
        &mut project,
        &mut dest,
        w.owner,
        w.cmid,
    )
    .expect("the administrator closes the project");
    assert_eq!(project.lamports, 0);
    assert!(project.data.is_empty());
    assert_eq!(dest.lamports, total_before);
}

#[test]
fn close_project_rejects_uninitialized_and_overflowing_destinations() {
    let w = world(LinkagePolicy::MatchEither);
    let mut admin_acc = fresh_account(w.cfg.admin, 1, true);
    // A zero-filled slot decodes as uninitialized.
    let mut empty_slot = fresh_account(project_pda(&w.program, &w.owner, &w.cmid), 5, false);
    empty_slot.owner = w.program;
    empty_slot.data = vec![0u8; PROJECT_ACCOUNT_LENGTH];
    let mut dest = fresh_account(key_from_bytes([50u8; 32]), 7, false);
    let r = close_project_account(
        &w.program,
        &w.cfg,
        &mut admin_acc,
        &mut empty_slot,
        &mut dest,
        w.owner,
        w.cmid,
    );
    assert_eq!(r, Err(ProgramFault::Custom(E::UninitializedAccount)));
    // A destination that cannot hold the balance.
    let (_owner_acc, mut project) = registered_project(&w, 2);
    let mut rich_dest = fresh_account(key_from_bytes([50u8; 32]), u64::MAX, false);
    let r = close_project_account(
        &w.program,
        &w.cfg,
        &mut admin_acc,
        &mut project,
        &mut rich_dest,
        w.owner,
        w.cmid,
    );
    assert_eq!(r, Err(ProgramFault::Custom(E::AmountOverflow)));
    assert_eq!(project.lamports, 3_000_000);
}

#[test]
fn close_affiliate_pays_the_treasury_and_lowers_the_count() {
    let w = world(LinkagePolicy::MatchEither);
    let (_owner_acc, mut project) = registered_project(&w, 2);
    let (_aff, mut apda, mut treasury) = enrolled_affiliate(&w, &mut project, 10);
    assert_eq!(decode_project(&project.data).unwrap().data.affiliate_count, 1);
    let mut admin_acc = fresh_account(w.cfg.admin, 1, true);
    let treasury_before = treasury.lamports;
    let slot_before = apda.lamports;
    close_affiliate_account(
        &w.program,
        &w.cfg,
        &mut admin_acc,
        &mut apda,
        &mut project,
        &mut treasury,
        key_from_bytes([10u8; 32]),
        w.owner,
        w.cmid,
    )
    .expect("the administrator closes the enrollment");
    assert_eq!(apda.lamports, 0);
    assert!(apda.data.is_empty());
    assert_eq!(treasury.lamports, treasury_before + slot_before);
    assert_eq!(decode_project(&project.data).unwrap().data.affiliate_count, 0);
}

#[test]
fn address_validation_binds_the_exact_seed_tuple() {
    let w = world(LinkagePolicy::MatchEither);
    let good = fresh_account(project_pda(&w.program, &w.owner, &w.cmid), 0, false);
    let seeds = vec![
        b"project_account".to_vec(),
        key_to_bytes(&w.owner).to_vec(),
        key_to_bytes(&w.cmid).to_vec(),
    ];
    let (ok, _bump) = validate_client_pda(&good, &seeds, &w.program);
    assert!(ok);
    // A different campaign gives a different address; validation refuses it.
    let other_cmid = key_from_bytes([4u8; 32]);
    let other = project_pda(&w.program, &w.owner, &other_cmid);
    assert_ne!(other, good.key);
    let (ok, _bump) = validate_client_pda(&fresh_account(other, 0, false), &seeds, &w.program);
    assert!(!ok);
}

#[test]
fn remaining_runtime_faults_have_witnesses() {
    let w = world(LinkagePolicy::MatchEither);
    // A system-program account with the wrong identity.
    let mut owner_acc = fresh_account(w.owner, 10_000_000_000, true);
    let mut pda = fresh_account(project_pda(&w.program, &w.owner, &w.cmid), 0, false);
    let bad_system = fresh_account(key_from_bytes([42u8; 32]), 1, false);
    assert_eq!(
        register_project_account(
            &w.program,
            &w.env,
            &mut owner_acc,
            &mut pda,
            &bad_system,
            w.cmid,
            0,
            1,
            2,
            b"t".to_vec()
        ),
        Err(ProgramFault::IncorrectProgramId)
    );
    // A signer who cannot fund the reserve.
    let mut poor = fresh_account(w.owner, 10, true);
    assert_eq!(
        register_project_account(
            &w.program,
            &w.env,
            &mut poor,
            &mut pda,
            &w.system,
            w.cmid,
            0,
            1,
            2,
            b"t".to_vec()
        ),
        Err(ProgramFault::InsufficientFunds)
    );
    // A record slot owned by a foreign program.
    let mut admin_acc = fresh_account(w.cfg.admin, 1, true);
    let mut foreign = fresh_account(project_pda(&w.program, &w.owner, &w.cmid), 5, false);
    foreign.owner = key_from_bytes([42u8; 32]);
    let mut dest = fresh_account(key_from_bytes([50u8; 32]), 7, false);
    assert_eq!(
        close_project_account(
            &w.program,
            &w.cfg,
            &mut admin_acc,
            &mut foreign,
            &mut dest,
            w.owner,
            w.cmid
        ),
        Err(ProgramFault::IllegalOwner)
    );
    // A program-owned slot whose bytes are not a record.
    let mut garbage = fresh_account(project_pda(&w.program, &w.owner, &w.cmid), 5, false);
    garbage.owner = w.program;
    garbage.data = vec![1u8, 2u8, 3u8];
    assert_eq!(
        close_project_account(
            &w.program,
            &w.cfg,
            &mut admin_acc,
            &mut garbage,
            &mut dest,
            w.owner,
            w.cmid
        ),
        Err(ProgramFault::InvalidAccountData)
    );
}

#[test]
fn update_rejects_an_image_that_no_longer_fits_its_slot() {
    let w = world(LinkagePolicy::MatchEither);
    // A valid record in a slot with no room to spare for a longer title.
    let rec = solpay_codes::projects::state::ProjectAccountState {
        discriminator: solpay_codes::projects::state::project_discriminator(),
        is_initialized: true,
        data_version: 0,
        data: solpay_codes::projects::state::ProjectAccountStateData {
            project_owner_pubkey: w.owner,
            candy_machine_id: w.cmid,
            affiliate_fee_percentage: 0,
            affiliate_target_in_sol: 1,
            max_affiliate_count: 2,
            affiliate_count: 0,
            title: Vec::new(),
            created_at: 0,
            updated_at: 0,
        },
    };
    let mut slot = vec![0u8; 116];
    serialize_project_into(&rec, &mut slot);
    let mut tight = fresh_account(project_pda(&w.program, &w.owner, &w.cmid), 5, false);
    tight.owner = w.program;
    tight.data = slot;
    let mut admin_acc = fresh_account(w.cfg.admin, 1, true);
    let r = update_project_account(
        &w.program,
        &w.cfg,
        &w.env,
        &mut admin_acc,
        &mut tight,
        w.owner,
        w.cmid,
        0,
        1,
        2,
        b"longer title".to_vec(),
    );
    assert_eq!(r, Err(ProgramFault::AccountDataTooSmall));
}
