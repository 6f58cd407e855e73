//! RegisterAffiliate: a signer enrolls in a campaign, paying the fixed fee
//! to the treasury; a fresh affiliate record is created and the project's
//! enrollment count rises by one.

use vstd::prelude::*;
use crate::keys::Key;
use crate::accounts::{
    Account, AccountV, LedgerEnv, ProgramConfig, spec_create_account, system_owner,
    make_zero_bytes, AFFILIATE_REGISTRATION_FEE,
};
use crate::error::{ProgramFault, CandyMachineAffiliatesError};
use crate::utils::{spec_validate_client_pda, validate_client_pda};
use crate::wire::read_bytes;
use crate::projects::state::{
    ProjectAccountState, ProjectAccountStateData, ProjectAccountStateV, ProjectAccountStateDataV,
    project_seeds, make_project_seeds, parse_project, decode_project, serialize_project_into,
    lemma_parse_project_fits,
};
use crate::affiliates::state::{
    AffiliateAccountState, AffiliateAccountStateData, AffiliateAccountStateV,
    AffiliateAccountStateDataV, AFFILIATE_ACCOUNT_LENGTH, AFFILIATE_ACCOUNT_DATA_VERSION,
    affiliate_seeds, make_affiliate_seeds, affiliate_discriminator, affiliate_discriminator_bytes,
    serialize_affiliate_into,
};

verus! {

/// The outcome of RegisterAffiliate. Checked in order: the ledger program
/// account, the signature, both record addresses (the new affiliate slot
/// against (tag, signer, owner, campaign); the project slot against (tag,
/// owner, campaign)), the treasury identity, the signer's ability to pay the
/// fee, the stored project record and its enrollment cap; then the affiliate
/// slot is created (funded by the signer), initialized with nothing yet
/// redeemed, and the project's enrollment count rises by one. Everything
/// happens, or nothing does.
pub open spec fn register_affiliate_spec(
    program_id: Key,
    cfg: ProgramConfig,
    env: LedgerEnv,
    initializer: AccountV,
    pda_account: AccountV,
    project_pda_account: AccountV,
    solpay_treasury: AccountV,
    system_program: AccountV,
    project_owner_pubkey: Key,
    candy_machine_id: Key,
) -> Result<(AccountV, AccountV, AccountV, AccountV), ProgramFault> {
    if system_program.key != system_owner() {
        Err(ProgramFault::IncorrectProgramId)
    } else if !initializer.is_signer {
        Err(ProgramFault::MissingRequiredSignature)
    } else if !spec_validate_client_pda(
        pda_account.key,
        affiliate_seeds(initializer.key, project_owner_pubkey, candy_machine_id),
        program_id,
    ).0 {
        Err(ProgramFault::Custom(CandyMachineAffiliatesError::InvalidPDA))
    } else if !spec_validate_client_pda(
        project_pda_account.key,
        project_seeds(project_owner_pubkey, candy_machine_id),
        program_id,
    ).0 {
        Err(ProgramFault::Custom(CandyMachineAffiliatesError::InvalidPDA))
    } else if solpay_treasury.key != cfg.treasury {
        Err(ProgramFault::Custom(CandyMachineAffiliatesError::IncorrectTreasuryAccount))
    } else if initializer.lamports < AFFILIATE_REGISTRATION_FEE {
        Err(ProgramFault::InsufficientFunds)
    } else if solpay_treasury.lamports + AFFILIATE_REGISTRATION_FEE > u64::MAX {
        Err(ProgramFault::Custom(CandyMachineAffiliatesError::AmountOverflow))
    } else {
        let init1 = AccountV {
            lamports: (initializer.lamports - AFFILIATE_REGISTRATION_FEE) as u64,
            ..initializer
        };
        let treasury1 = AccountV {
            lamports: (solpay_treasury.lamports + AFFILIATE_REGISTRATION_FEE) as u64,
            ..solpay_treasury
        };
        match parse_project(project_pda_account.data) {
            None => Err(ProgramFault::InvalidAccountData),
            Some(proj) => {
                if proj.data.affiliate_count == proj.data.max_affiliate_count {
                    Err(
                        ProgramFault::Custom(
                            CandyMachineAffiliatesError::ProjectMaxAffiliateCountReached,
                        ),
                    )
                } else {
                    match spec_create_account(
                        init1,
                        pda_account,
                        env.affiliate_rent_lamports,
                        AFFILIATE_ACCOUNT_LENGTH as int,
                        program_id,
                    ) {
                        Err(e) => Err(e),
                        Ok((init2, fresh)) => {
                            if proj.data.affiliate_count == 255 {
                                Err(ProgramFault::Custom(CandyMachineAffiliatesError::AmountOverflow))
                            } else {
                                let arec = AffiliateAccountStateV {
                                    discriminator: affiliate_discriminator_bytes(),
                                    is_initialized: true,
                                    data_version: AFFILIATE_ACCOUNT_DATA_VERSION,
                                    data: AffiliateAccountStateDataV {
                                        affiliate_pubkey: initializer.key,
                                        project_owner_pubkey: project_owner_pubkey,
                                        candy_machine_id: candy_machine_id,
                                        total_redeemed_amount_in_sol: 0,
                                        created_at: env.now,
                                    },
                                };
                                let proj2 = ProjectAccountStateV {
                                    data: ProjectAccountStateDataV {
                                        affiliate_count: (proj.data.affiliate_count + 1) as u8,
                                        ..proj.data
                                    },
                                    ..proj
                                };
                                Ok(
                                    (
                                        init2,
                                        AccountV {
                                            data: arec.encoding() + fresh.data.skip(
                                                arec.encoded_len(),
                                            ),
                                            ..fresh
                                        },
                                        AccountV {
                                            data: proj2.encoding() + project_pda_account.data.skip(
                                                proj2.encoded_len(),
                                            ),
                                            ..project_pda_account
                                        },
                                        treasury1,
                                    ),
                                )
                            }
                        },
                    }
                }
            },
        }
    }
}

/// Enrolls a signer as an affiliate of a campaign.
pub fn register_affiliate_account(
    program_id: &Key,
    cfg: &ProgramConfig,
    env: &LedgerEnv,
    initializer: &mut Account,
    pda_account: &mut Account,
    project_pda_account: &mut Account,
    solpay_treasury: &mut Account,
    system_program: &Account,
    project_owner_pubkey: Key,
    candy_machine_id: Key,
) -> (r: Result<(), ProgramFault>)
    ensures
        (match register_affiliate_spec(
            *program_id,
            *cfg,
            *env,
            old(initializer)@,
            old(pda_account)@,
            old(project_pda_account)@,
            old(solpay_treasury)@,
            system_program@,
            project_owner_pubkey,
            candy_machine_id,
        ) {
            Ok(outs) => r is Ok && final(initializer)@ == outs.0 && final(pda_account)@ == outs.1
                && final(project_pda_account)@ == outs.2 && final(solpay_treasury)@ == outs.3,
            Err(e) => r == Err::<(), ProgramFault>(e) && final(initializer)@ == old(initializer)@
                && final(pda_account)@ == old(pda_account)@ && final(project_pda_account)@ == old(
                project_pda_account,
            )@ && final(solpay_treasury)@ == old(solpay_treasury)@,
        }),
{
    if system_program.key != Key::zero() {
        return Err(ProgramFault::IncorrectProgramId);
    }
    if !initializer.is_signer {
        return Err(ProgramFault::MissingRequiredSignature);
    }
    let aff_seeds = make_affiliate_seeds(&initializer.key, &project_owner_pubkey, &candy_machine_id);
    let (aff_pda_is_valid, _bump_seed) = validate_client_pda(pda_account, &aff_seeds, program_id);
    if !aff_pda_is_valid {
        return Err(ProgramFault::Custom(CandyMachineAffiliatesError::InvalidPDA));
    }
    let proj_seeds = make_project_seeds(&project_owner_pubkey, &candy_machine_id);
    let (proj_pda_is_valid, _proj_bump) = validate_client_pda(
        project_pda_account,
        &proj_seeds,
        program_id,
    );
    if !proj_pda_is_valid {
        return Err(ProgramFault::Custom(CandyMachineAffiliatesError::InvalidPDA));
    }
    if solpay_treasury.key != cfg.treasury {
        return Err(ProgramFault::Custom(CandyMachineAffiliatesError::IncorrectTreasuryAccount));
    }
    if initializer.lamports < AFFILIATE_REGISTRATION_FEE {
        return Err(ProgramFault::InsufficientFunds);
    }
    if solpay_treasury.lamports > u64::MAX - AFFILIATE_REGISTRATION_FEE {
        return Err(ProgramFault::Custom(CandyMachineAffiliatesError::AmountOverflow));
    }
    let init_lamports_after_fee = initializer.lamports - AFFILIATE_REGISTRATION_FEE;
    let treasury_lamports_after_fee = solpay_treasury.lamports + AFFILIATE_REGISTRATION_FEE;
    let proj = match decode_project(&project_pda_account.data) {
        None => { return Err(ProgramFault::InvalidAccountData) },
        Some(p) => p,
    };
    if proj.data.affiliate_count == proj.data.max_affiliate_count {
        return Err(ProgramFault::Custom(CandyMachineAffiliatesError::ProjectMaxAffiliateCountReached));
    }
    if pda_account.lamports != 0 || pda_account.data.len() != 0 || pda_account.owner != Key::zero()
    {
        return Err(ProgramFault::AccountAlreadyInUse);
    }
    if init_lamports_after_fee < env.affiliate_rent_lamports {
        return Err(ProgramFault::InsufficientFunds);
    }
    if proj.data.affiliate_count == 255 {
        return Err(ProgramFault::Custom(CandyMachineAffiliatesError::AmountOverflow));
    }
    let arec = AffiliateAccountState {
        discriminator: affiliate_discriminator(),
        is_initialized: true,
        data_version: AFFILIATE_ACCOUNT_DATA_VERSION,
        data: AffiliateAccountStateData {
            affiliate_pubkey: initializer.key,
            project_owner_pubkey: project_owner_pubkey,
            candy_machine_id: candy_machine_id,
            total_redeemed_amount_in_sol: 0,
            created_at: env.now,
        },
    };
    let mut aff_slot = make_zero_bytes(AFFILIATE_ACCOUNT_LENGTH);
    serialize_affiliate_into(&arec, &mut aff_slot);
    let proj2 = ProjectAccountState {
        discriminator: proj.discriminator,
        is_initialized: proj.is_initialized,
        data_version: proj.data_version,
        data: ProjectAccountStateData {
            project_owner_pubkey: proj.data.project_owner_pubkey,
            candy_machine_id: proj.data.candy_machine_id,
            affiliate_fee_percentage: proj.data.affiliate_fee_percentage,
            affiliate_target_in_sol: proj.data.affiliate_target_in_sol,
            max_affiliate_count: proj.data.max_affiliate_count,
            affiliate_count: proj.data.affiliate_count + 1,
            title: proj.data.title,
            created_at: proj.data.created_at,
            updated_at: proj.data.updated_at,
        },
    };
    let pn = project_pda_account.data.len();
    proof {
        lemma_parse_project_fits(old(project_pda_account)@.data);
    }
    let mut proj_slot = read_bytes(&project_pda_account.data, 0, pn);
    serialize_project_into(&proj2, &mut proj_slot);
    initializer.lamports = init_lamports_after_fee - env.affiliate_rent_lamports;
    solpay_treasury.lamports = treasury_lamports_after_fee;
    pda_account.lamports = env.affiliate_rent_lamports;
    pda_account.owner = *program_id;
    pda_account.data = aff_slot;
    project_pda_account.data = proj_slot;
    proof {
        let outs = register_affiliate_spec(
            *program_id,
            *cfg,
            *env,
            old(initializer)@,
            old(pda_account)@,
            old(project_pda_account)@,
            old(solpay_treasury)@,
            system_program@,
            project_owner_pubkey,
            candy_machine_id,
        ).unwrap();
        assert(old(project_pda_account)@.data.subrange(0, pn as int) =~= old(
            project_pda_account,
        )@.data);
        assert(initializer@ =~= outs.0);
        assert(pda_account@ =~= outs.1);
        assert(project_pda_account@ =~= outs.2);
        assert(solpay_treasury@ =~= outs.3);
    }
    Ok(())
}

} // verus!
