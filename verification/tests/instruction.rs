//! Command-decoder tests: each variant, unknown tags, and malformed
//! payloads.

use solpay_codes::keys::Key;
use solpay_codes::error::{CandyMachineAffiliatesError, ProgramFault};
use solpay_codes::instruction::CandyMachineAffiliatesInstruction;

fn key_from_bytes(b: [u8; 32]) -> Key {
    Key {
        w0: u64::from_le_bytes(b[0..8].try_into().unwrap()),
        w1: u64::from_le_bytes(b[8..16].try_into().unwrap()),
        w2: u64::from_le_bytes(b[16..24].try_into().unwrap()),
        w3: u64::from_le_bytes(b[24..32].try_into().unwrap()),
    }
}

fn push_string(buf: &mut Vec<u8>, s: &str) {
    buf.extend_from_slice(&(s.len() as u32).to_le_bytes());
    buf.extend_from_slice(s.as_bytes());
}

#[test]
fn unpack_register_project() {
    let mut buf = vec![0u8];
    buf.extend_from_slice(&[9u8; 32]);
    buf.extend_from_slice(&1.5f64.to_le_bytes());
    buf.push(2);
    buf.push(7);
    push_string(&mut buf, "hello");
    match CandyMachineAffiliatesInstruction::unpack(&buf).unwrap() {
        CandyMachineAffiliatesInstruction::RegisterProject {
            candy_machine_id,
            affiliate_fee_percentage,
            affiliate_target_in_sol,
            max_affiliate_count,
            title,
        } => {
            assert_eq!(candy_machine_id, key_from_bytes([9u8; 32]));
            assert_eq!(f64::from_bits(affiliate_fee_percentage), 1.5);
            assert_eq!(affiliate_target_in_sol, 2);
            assert_eq!(max_affiliate_count, 7);
            assert_eq!(title, b"hello".to_vec());
        }
        _ => panic!("wrong variant"),
    }
}

#[test]
fn unpack_update_project() {
    let mut buf = vec![1u8];
    buf.extend_from_slice(&[4u8; 32]);
    buf.extend_from_slice(&[9u8; 32]);
    buf.extend_from_slice(&0.25f64.to_le_bytes());
    buf.push(1);
    buf.push(3);
    push_string(&mut buf, "t");
    match CandyMachineAffiliatesInstruction::unpack(&buf).unwrap() {
        CandyMachineAffiliatesInstruction::UpdateProject {
            project_owner_pubkey,
            candy_machine_id,
            affiliate_fee_percentage,
            affiliate_target_in_sol,
            max_affiliate_count,
            title,
        } => {
            assert_eq!(project_owner_pubkey, key_from_bytes([4u8; 32]));
            assert_eq!(candy_machine_id, key_from_bytes([9u8; 32]));
            assert_eq!(f64::from_bits(affiliate_fee_percentage), 0.25);
            assert_eq!(affiliate_target_in_sol, 1);
            assert_eq!(max_affiliate_count, 3);
            assert_eq!(title, b"t".to_vec());
        }
        _ => panic!("wrong variant"),
    }
}

#[test]
fn unpack_two_key_variants() {
    for (tag, which) in [(2u8, "close"), (3u8, "register"), (4u8, "redeem")] {
        let mut buf = vec![tag];
        buf.extend_from_slice(&[5u8; 32]);
        buf.extend_from_slice(&[6u8; 32]);
        let owner = key_from_bytes([5u8; 32]);
        let cmid = key_from_bytes([6u8; 32]);
        match (which, CandyMachineAffiliatesInstruction::unpack(&buf).unwrap()) {
            (
                "close",
                CandyMachineAffiliatesInstruction::CloseProject {
                    project_owner_pubkey,
                    candy_machine_id,
                },
            ) => {
                assert_eq!(project_owner_pubkey, owner);
                assert_eq!(candy_machine_id, cmid);
            }
            (
                "register",
                CandyMachineAffiliatesInstruction::RegisterAffiliate {
                    project_owner_pubkey,
                    candy_machine_id,
                },
            ) => {
                assert_eq!(project_owner_pubkey, owner);
                assert_eq!(candy_machine_id, cmid);
            }
            (
                "redeem",
                CandyMachineAffiliatesInstruction::RedeemReward {
                    project_owner_pubkey,
                    candy_machine_id,
                },
            ) => {
                assert_eq!(project_owner_pubkey, owner);
                assert_eq!(candy_machine_id, cmid);
            }
            _ => panic!("wrong variant for tag {tag}"),
        }
    }
}

#[test]
fn unpack_close_affiliate() {
    let mut buf = vec![5u8];
    buf.extend_from_slice(&[1u8; 32]);
    buf.extend_from_slice(&[2u8; 32]);
    buf.extend_from_slice(&[3u8; 32]);
    match CandyMachineAffiliatesInstruction::unpack(&buf).unwrap() {
        CandyMachineAffiliatesInstruction::CloseAffiliateAccount {
            affiliate_pubkey,
            project_owner_pubkey,
            candy_machine_id,
        } => {
            assert_eq!(affiliate_pubkey, key_from_bytes([1u8; 32]));
            assert_eq!(project_owner_pubkey, key_from_bytes([2u8; 32]));
            assert_eq!(candy_machine_id, key_from_bytes([3u8; 32]));
        }
        _ => panic!("wrong variant"),
    }
}

#[test]
fn unpack_rejects_bad_input() {
    // Empty buffer.
    assert!(matches!(
        CandyMachineAffiliatesInstruction::unpack(&Vec::new()),
        Err(ProgramFault::InvalidInstructionData)
    ));
    // Unknown tag.
    assert!(matches!(
        CandyMachineAffiliatesInstruction::unpack(&vec![6u8]),
        Err(ProgramFault::InvalidInstructionData)
    ));
    // Truncated payload.
    let mut buf = vec![2u8];
    buf.extend_from_slice(&[5u8; 32]);
    assert!(matches!(
        CandyMachineAffiliatesInstruction::unpack(&buf),
        Err(ProgramFault::InvalidInstructionData)
    ));
    // Trailing bytes must be rejected: the payload is consumed exactly.
    let mut buf = vec![2u8];
    buf.extend_from_slice(&[5u8; 32]);
    buf.extend_from_slice(&[6u8; 32]);
    buf.push(0);
    assert!(matches!(
        CandyMachineAffiliatesInstruction::unpack(&buf),
        Err(ProgramFault::InvalidInstructionData)
    ));
    // A title length prefix that overruns the buffer.
    let mut buf = vec![0u8];
    buf.extend_from_slice(&[9u8; 32]);
    buf.extend_from_slice(&1.0f64.to_le_bytes());
    buf.push(1);
    buf.push(1);
    buf.extend_from_slice(&(100u32).to_le_bytes());
    buf.push(b'x');
    assert!(matches!(
        CandyMachineAffiliatesInstruction::unpack(&buf),
        Err(ProgramFault::InvalidInstructionData)
    ));
}

#[test]
fn error_codes_are_stable() {
    type E = CandyMachineAffiliatesError;
    let all = [
        E::ActionNotAllowed,
        E::UninitializedAccount,
        E::InvalidPDA,
        E::InvalidDataLength,
        E::AmountOverflow,
        E::ProjectTitleTooLong,
        E::InvalidProjectMaxAffiliateCount,
        E::ProjectMaxAffiliateCountReached,
        E::ProjectAffiliateCountLargerThanNewMaxAffiliateCount,
        E::IncorrectTreasuryAccount,
        E::RewardRedeemMismatchedAccounts,
        E::AffiliateAccountBalanceNotEnough,
    ];
    for (i, e) in all.iter().enumerate() {
        assert_eq!(e.code(), i as u32);
    }
}
