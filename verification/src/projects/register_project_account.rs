//! RegisterProject: any signer creates the record of one of their campaigns.

use vstd::prelude::*;
use crate::keys::Key;
use crate::accounts::{Account, AccountV, LedgerEnv, spec_create_account, system_owner,
    make_zero_bytes};
use crate::error::{ProgramFault, CandyMachineAffiliatesError};
use crate::utils::{spec_validate_client_pda, validate_client_pda};
use crate::projects::state::{
    ProjectAccountState, ProjectAccountStateData, ProjectAccountStateV, ProjectAccountStateDataV,
    PROJECT_ACCOUNT_LENGTH, PROJECT_ACCOUNT_DATA_VERSION, MAX_PROJECT_TITLE_LENGTH,
    MAX_PROJECT_TITLE_BYTES, project_seeds, make_project_seeds, project_discriminator,
    project_discriminator_bytes, utf8_char_count, title_char_count, serialize_project_into,
};

verus! {

/// The outcome of RegisterProject. Checked in order: the ledger program
/// account, the signature, the record address against the (tag, signer,
/// campaign) seed tuple, the title bound (at most fifty characters, and at
/// most the two hundred bytes the slot reserves), a positive enrollment
/// maximum; then the slot is created, funded with the reserve from the
/// signer, and initialized with counts at zero and both timestamps at `now`.
pub open spec fn register_project_spec(
    program_id: Key,
    env: LedgerEnv,
    initializer: AccountV,
    pda_account: AccountV,
    system_program: AccountV,
    candy_machine_id: Key,
    affiliate_fee_percentage: u64,
    affiliate_target_in_sol: u8,
    max_affiliate_count: u8,
    title: Seq<u8>,
) -> Result<(AccountV, AccountV), ProgramFault> {
    if system_program.key != system_owner() {
        Err(ProgramFault::IncorrectProgramId)
    } else if !initializer.is_signer {
        Err(ProgramFault::MissingRequiredSignature)
    } else if !spec_validate_client_pda(
        pda_account.key,
        project_seeds(initializer.key, candy_machine_id),
        program_id,
    ).0 {
        Err(ProgramFault::Custom(CandyMachineAffiliatesError::InvalidPDA))
    } else if utf8_char_count(title) > MAX_PROJECT_TITLE_LENGTH || title.len()
        > MAX_PROJECT_TITLE_BYTES {
        Err(ProgramFault::Custom(CandyMachineAffiliatesError::ProjectTitleTooLong))
    } else if max_affiliate_count == 0 {
        Err(ProgramFault::Custom(CandyMachineAffiliatesError::InvalidProjectMaxAffiliateCount))
    } else {
        match spec_create_account(
            initializer,
            pda_account,
            env.project_rent_lamports,
            PROJECT_ACCOUNT_LENGTH as int,
            program_id,
        ) {
            Err(e) => Err(e),
            Ok((payer, fresh)) => {
                let rec = ProjectAccountStateV {
                    discriminator: project_discriminator_bytes(),
                    is_initialized: true,
                    data_version: PROJECT_ACCOUNT_DATA_VERSION,
                    data: ProjectAccountStateDataV {
                        project_owner_pubkey: initializer.key,
                        candy_machine_id: candy_machine_id,
                        affiliate_fee_percentage: affiliate_fee_percentage,
                        affiliate_target_in_sol: affiliate_target_in_sol,
                        max_affiliate_count: max_affiliate_count,
                        affiliate_count: 0,
                        title: title,
                        created_at: env.now,
                        updated_at: env.now,
                    },
                };
                Ok(
                    (
                        payer,
                        AccountV {
                            data: rec.encoding() + fresh.data.skip(rec.encoded_len()),
                            ..fresh
                        },
                    ),
                )
            },
        }
    }
}

/// Creates and initializes a project record in a fresh storage slot.
pub fn register_project_account(
    program_id: &Key,
    env: &LedgerEnv,
    initializer: &mut Account,
    pda_account: &mut Account,
    system_program: &Account,
    candy_machine_id: Key,
    affiliate_fee_percentage: u64,
    affiliate_target_in_sol: u8,
    max_affiliate_count: u8,
    title: Vec<u8>,
) -> (r: Result<(), ProgramFault>)
    ensures
        (match register_project_spec(
            *program_id,
            *env,
            old(initializer)@,
            old(pda_account)@,
            system_program@,
            candy_machine_id,
            affiliate_fee_percentage,
            affiliate_target_in_sol,
            max_affiliate_count,
            title@,
        ) {
            Ok(outs) => r is Ok && final(initializer)@ == outs.0 && final(pda_account)@ == outs.1,
            Err(e) => r == Err::<(), ProgramFault>(e) && final(initializer)@ == old(initializer)@
                && final(pda_account)@ == old(pda_account)@,
        }),
{
    if system_program.key != Key::zero() {
        return Err(ProgramFault::IncorrectProgramId);
    }
    if !initializer.is_signer {
        return Err(ProgramFault::MissingRequiredSignature);
    }
    let seeds = make_project_seeds(&initializer.key, &candy_machine_id);
    let (pda_is_valid, _bump_seed) = validate_client_pda(pda_account, &seeds, program_id);
    if !pda_is_valid {
        return Err(ProgramFault::Custom(CandyMachineAffiliatesError::InvalidPDA));
    }
    if title_char_count(&title) > MAX_PROJECT_TITLE_LENGTH || title.len()
        > MAX_PROJECT_TITLE_BYTES {
        return Err(ProgramFault::Custom(CandyMachineAffiliatesError::ProjectTitleTooLong));
    }
    if max_affiliate_count == 0 {
        return Err(
            ProgramFault::Custom(CandyMachineAffiliatesError::InvalidProjectMaxAffiliateCount),
        );
    }
    if pda_account.lamports != 0 || pda_account.data.len() != 0 || pda_account.owner != Key::zero()
    {
        return Err(ProgramFault::AccountAlreadyInUse);
    }
    if initializer.lamports < env.project_rent_lamports {
        return Err(ProgramFault::InsufficientFunds);
    }
    let rec = ProjectAccountState {
        discriminator: project_discriminator(),
        is_initialized: true,
        data_version: PROJECT_ACCOUNT_DATA_VERSION,
        data: ProjectAccountStateData {
            project_owner_pubkey: initializer.key,
            candy_machine_id: candy_machine_id,
            affiliate_fee_percentage: affiliate_fee_percentage,
            affiliate_target_in_sol: affiliate_target_in_sol,
            max_affiliate_count: max_affiliate_count,
            affiliate_count: 0,
            title: title,
            created_at: env.now,
            updated_at: env.now,
        },
    };
    let mut slot = make_zero_bytes(PROJECT_ACCOUNT_LENGTH);
    serialize_project_into(&rec, &mut slot);
    initializer.lamports = initializer.lamports - env.project_rent_lamports;
    pda_account.lamports = env.project_rent_lamports;
    pda_account.owner = *program_id;
    pda_account.data = slot;
    proof {
        let spec_rec = ProjectAccountStateV {
            discriminator: project_discriminator_bytes(),
            is_initialized: true,
            data_version: PROJECT_ACCOUNT_DATA_VERSION,
            data: ProjectAccountStateDataV {
                project_owner_pubkey: old(initializer)@.key,
                candy_machine_id: candy_machine_id,
                affiliate_fee_percentage: affiliate_fee_percentage,
                affiliate_target_in_sol: affiliate_target_in_sol,
                max_affiliate_count: max_affiliate_count,
                affiliate_count: 0,
                title: title@,
                created_at: env.now,
                updated_at: env.now,
            },
        };
        assert(rec@ =~= spec_rec);
        let outs = register_project_spec(
            *program_id,
            *env,
            old(initializer)@,
            old(pda_account)@,
            system_program@,
            candy_machine_id,
            affiliate_fee_percentage,
            affiliate_target_in_sol,
            max_affiliate_count,
            title@,
        ).unwrap();
        assert(initializer@ =~= outs.0);
        assert(pda_account@ =~= outs.1);
    }
    Ok(())
}

} // verus!
