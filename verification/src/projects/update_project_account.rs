//! UpdateProject: the administrator overwrites a project record's economics
//! and metadata; the enrollment maximum can only be lowered to a value that
//! still covers the current enrollment.

use vstd::prelude::*;
use crate::keys::Key;
use crate::accounts::{Account, AccountV, LedgerEnv, ProgramConfig};
use crate::error::{ProgramFault, CandyMachineAffiliatesError};
use crate::utils::{spec_validate_client_pda, validate_client_pda};
use crate::wire::read_bytes;
use crate::projects::state::{
    ProjectAccountState, ProjectAccountStateData, ProjectAccountStateV, ProjectAccountStateDataV,
    MAX_PROJECT_TITLE_LENGTH, MAX_PROJECT_TITLE_BYTES, project_seeds, make_project_seeds,
    parse_project, decode_project, utf8_char_count, title_char_count, serialize_project_into,
};

verus! {

/// The outcome of UpdateProject. Checked in order: the signature, the
/// administrator identity, program ownership of the slot, the record address
/// against the (tag, owner, campaign) seed tuple, the title and maximum
/// bounds; then the stored record, which must still cover the current
/// enrollment with the new maximum and leave room in the slot for the new
/// image. On success the economics, the title and `updated_at` are
/// overwritten; counts, identities and `created_at` stay.
pub open spec fn update_project_spec(
    program_id: Key,
    cfg: ProgramConfig,
    env: LedgerEnv,
    initializer: AccountV,
    pda_account: AccountV,
    project_owner_pubkey: Key,
    candy_machine_id: Key,
    affiliate_fee_percentage: u64,
    affiliate_target_in_sol: u8,
    max_affiliate_count: u8,
    title: Seq<u8>,
) -> Result<AccountV, ProgramFault> {
    if !initializer.is_signer {
        Err(ProgramFault::MissingRequiredSignature)
    } else if initializer.key != cfg.admin {
        Err(ProgramFault::Custom(CandyMachineAffiliatesError::ActionNotAllowed))
    } else if pda_account.owner != program_id {
        Err(ProgramFault::IllegalOwner)
    } else if !spec_validate_client_pda(
        pda_account.key,
        project_seeds(project_owner_pubkey, candy_machine_id),
        program_id,
    ).0 {
        Err(ProgramFault::Custom(CandyMachineAffiliatesError::InvalidPDA))
    } else if utf8_char_count(title) > MAX_PROJECT_TITLE_LENGTH || title.len()
        > MAX_PROJECT_TITLE_BYTES {
        Err(ProgramFault::Custom(CandyMachineAffiliatesError::ProjectTitleTooLong))
    } else if max_affiliate_count == 0 {
        Err(ProgramFault::Custom(CandyMachineAffiliatesError::InvalidProjectMaxAffiliateCount))
    } else {
        match parse_project(pda_account.data) {
            None => Err(ProgramFault::InvalidAccountData),
            Some(rec) => {
                if max_affiliate_count < rec.data.affiliate_count {
                    Err(
                        ProgramFault::Custom(
                            CandyMachineAffiliatesError::ProjectAffiliateCountLargerThanNewMaxAffiliateCount,
                        ),
                    )
                } else {
                    let rec2 = ProjectAccountStateV {
                        data: ProjectAccountStateDataV {
                            affiliate_fee_percentage: affiliate_fee_percentage,
                            affiliate_target_in_sol: affiliate_target_in_sol,
                            max_affiliate_count: max_affiliate_count,
                            title: title,
                            updated_at: env.now,
                            ..rec.data
                        },
                        ..rec
                    };
                    if rec2.encoded_len() > pda_account.data.len() {
                        Err(ProgramFault::AccountDataTooSmall)
                    } else {
                        Ok(
                            AccountV {
                                data: rec2.encoding() + pda_account.data.skip(rec2.encoded_len()),
                                ..pda_account
                            },
                        )
                    }
                }
            },
        }
    }
}

/// Overwrites a project record's economics and metadata in place.
pub fn update_project_account(
    program_id: &Key,
    cfg: &ProgramConfig,
    env: &LedgerEnv,
    initializer: &mut Account,
    pda_account: &mut Account,
    project_owner_pubkey: Key,
    candy_machine_id: Key,
    affiliate_fee_percentage: u64,
    affiliate_target_in_sol: u8,
    max_affiliate_count: u8,
    title: Vec<u8>,
) -> (r: Result<(), ProgramFault>)
    ensures
        final(initializer)@ == old(initializer)@,
        (match update_project_spec(
            *program_id,
            *cfg,
            *env,
            old(initializer)@,
            old(pda_account)@,
            project_owner_pubkey,
            candy_machine_id,
            affiliate_fee_percentage,
            affiliate_target_in_sol,
            max_affiliate_count,
            title@,
        ) {
            Ok(out) => r is Ok && final(pda_account)@ == out,
            Err(e) => r == Err::<(), ProgramFault>(e) && final(pda_account)@ == old(pda_account)@,
        }),
{
    if !initializer.is_signer {
        return Err(ProgramFault::MissingRequiredSignature);
    }
    if initializer.key != cfg.admin {
        return Err(ProgramFault::Custom(CandyMachineAffiliatesError::ActionNotAllowed));
    }
    if pda_account.owner != *program_id {
        return Err(ProgramFault::IllegalOwner);
    }
    let seeds = make_project_seeds(&project_owner_pubkey, &candy_machine_id);
    let (pda_is_valid, _bump_seed) = validate_client_pda(pda_account, &seeds, program_id);
    if !pda_is_valid {
        return Err(ProgramFault::Custom(CandyMachineAffiliatesError::InvalidPDA));
    }
    if title_char_count(&title) > MAX_PROJECT_TITLE_LENGTH || title.len()
        > MAX_PROJECT_TITLE_BYTES {
        return Err(ProgramFault::Custom(CandyMachineAffiliatesError::ProjectTitleTooLong));
    }
    if max_affiliate_count == 0 {
        return Err(
            ProgramFault::Custom(CandyMachineAffiliatesError::InvalidProjectMaxAffiliateCount),
        );
    }
    let rec = match decode_project(&pda_account.data) {
        None => { return Err(ProgramFault::InvalidAccountData) },
        Some(rec) => rec,
    };
    if max_affiliate_count < rec.data.affiliate_count {
        return Err(
            ProgramFault::Custom(
                CandyMachineAffiliatesError::ProjectAffiliateCountLargerThanNewMaxAffiliateCount,
            ),
        );
    }
    let rec2 = ProjectAccountState {
        discriminator: rec.discriminator,
        is_initialized: rec.is_initialized,
        data_version: rec.data_version,
        data: ProjectAccountStateData {
            project_owner_pubkey: rec.data.project_owner_pubkey,
            candy_machine_id: rec.data.candy_machine_id,
            affiliate_fee_percentage: affiliate_fee_percentage,
            affiliate_target_in_sol: affiliate_target_in_sol,
            max_affiliate_count: max_affiliate_count,
            affiliate_count: rec.data.affiliate_count,
            title: title,
            created_at: rec.data.created_at,
            updated_at: env.now,
        },
    };
    let n = pda_account.data.len();
    if n < 101 || rec2.discriminator.len() > n - 101 || rec2.data.title.len() > n - 101
        - rec2.discriminator.len() {
        return Err(ProgramFault::AccountDataTooSmall);
    }
    let mut slot = read_bytes(&pda_account.data, 0, n);
    serialize_project_into(&rec2, &mut slot);
    pda_account.data = slot;
    proof {
        let out = update_project_spec(
            *program_id,
            *cfg,
            *env,
            old(initializer)@,
            old(pda_account)@,
            project_owner_pubkey,
            candy_machine_id,
            affiliate_fee_percentage,
            affiliate_target_in_sol,
            max_affiliate_count,
            title@,
        ).unwrap();
        assert(old(pda_account)@.data.subrange(0, n as int) =~= old(pda_account)@.data);
        assert(pda_account@ =~= out);
    }
    Ok(())
}

} // verus!
