//! End-to-end: a raw command buffer through the dispatcher against a set of
//! accounts.

use solana_program::pubkey::Pubkey;
use solpay_codes::accounts::{Account, LedgerEnv, LinkagePolicy, ProgramConfig};
use solpay_codes::error::ProgramFault;
use solpay_codes::keys::Key;
use solpay_codes::processor::process_instruction;
use solpay_codes::projects::state::decode_project;

fn key_from_bytes(b: [u8; 32]) -> Key {
    Key {
        w0: u64::from_le_bytes(b[0..8].try_into().unwrap()),
        w1: u64::from_le_bytes(b[8..16].try_into().unwrap()),
        w2: u64::from_le_bytes(b[16..24].try_into().unwrap()),
        w3: u64::from_le_bytes(b[24..32].try_into().unwrap()),
    }
}

fn key_to_bytes(k: &Key) -> [u8; 32] {
    let mut b = [0u8; 32];
    b[0..8].copy_from_slice(&k.w0.to_le_bytes());
    b[8..16].copy_from_slice(&k.w1.to_le_bytes());
    b[16..24].copy_from_slice(&k.w2.to_le_bytes());
    b[24..32].copy_from_slice(&k.w3.to_le_bytes());
    b
}

fn fresh_account(key: Key, lamports: u64, signer: bool) -> Account {
    Account {
        key,
        is_signer: signer,
        owner: Key { w0: 0, w1: 0, w2: 0, w3: 0 },
        lamports,
        data: Vec::new(),
    }
}

#[test]
fn dispatches_register_project_from_raw_bytes() {
    let program = key_from_bytes([1u8; 32]);
    let cfg = ProgramConfig {
        admin: key_from_bytes([0xAAu8; 32]),
        treasury: key_from_bytes([0xBBu8; 32]),
        linkage: LinkagePolicy::MatchEither,
    };
    let env = LedgerEnv {
        now: 42,
        project_rent_lamports: 3_000_000,
        affiliate_rent_lamports: 2_000_000,
    };
    let owner = key_from_bytes([2u8; 32]);
    let cmid = key_from_bytes([3u8; 32]);
    let pid = Pubkey::new_from_array(key_to_bytes(&program));
    let (pda_pk, _bump) = Pubkey::find_program_address(
        &[b"project_account", &key_to_bytes(&owner), &key_to_bytes(&cmid)],
        &pid,
    );
    let mut accounts = vec![
        fresh_account(owner, 10_000_000_000, true),
        fresh_account(key_from_bytes(pda_pk.to_bytes()), 0, false),
        fresh_account(Key { w0: 0, w1: 0, w2: 0, w3: 0 }, 1, false),
    ];
    let mut data = vec![0u8];
    data.extend_from_slice(&key_to_bytes(&cmid));
    data.extend_from_slice(&1.0f64.to_le_bytes());
    data.push(1);
    data.push(4);
    data.extend_from_slice(&(2u32).to_le_bytes());
    data.extend_from_slice(b"hi");
    process_instruction(&program, &cfg, env, &mut accounts, &data)
        .expect("the command must dispatch and succeed");
    let rec = decode_project(&accounts[1].data).unwrap();
    assert!(rec.is_initialized);
    assert_eq!(rec.data.max_affiliate_count, 4);
    assert_eq!(rec.data.title, b"hi".to_vec());
    assert_eq!(rec.data.created_at, 42);
    assert_eq!(accounts[0].lamports, 10_000_000_000 - 3_000_000);
    assert_eq!(accounts[1].owner, program);
}

#[test]
fn dispatcher_reports_missing_accounts_and_bad_commands() {
    let program = key_from_bytes([1u8; 32]);
    let cfg = ProgramConfig {
        admin: key_from_bytes([0xAAu8; 32]),
        treasury: key_from_bytes([0xBBu8; 32]),
        linkage: LinkagePolicy::MatchEither,
    };
    let env = LedgerEnv {
        now: 42,
        project_rent_lamports: 3_000_000,
        affiliate_rent_lamports: 2_000_000,
    };
    let mut no_accounts: Vec<Account> = Vec::new();
    // An unknown tag is an invalid command.
    assert_eq!(
        process_instruction(&program, &cfg, env, &mut no_accounts, &vec![9u8]),
        Err(ProgramFault::InvalidInstructionData)
    );
    // A known command with too few accounts.
    let mut data = vec![2u8];
    data.extend_from_slice(&[5u8; 32]);
    data.extend_from_slice(&[6u8; 32]);
    assert_eq!(
        process_instruction(&program, &cfg, env, &mut no_accounts, &data),
        Err(ProgramFault::NotEnoughAccountKeys)
    );
}
