//! CloseAffiliateAccount: the administrator drains an initialized affiliate
//! record's slot into the treasury, zeroes the slot, and lowers the
//! project's enrollment count by one.

use vstd::prelude::*;
use crate::keys::Key;
use crate::accounts::{Account, AccountV, ProgramConfig};
use crate::error::{ProgramFault, CandyMachineAffiliatesError};
use crate::utils::{spec_validate_client_pda, validate_client_pda};
use crate::wire::read_bytes;
use crate::projects::state::{
    ProjectAccountState, ProjectAccountStateData, ProjectAccountStateV, ProjectAccountStateDataV,
    project_seeds, make_project_seeds, parse_project, decode_project, serialize_project_into,
    lemma_parse_project_fits,
};
use crate::affiliates::state::{affiliate_seeds, make_affiliate_seeds, parse_affiliate,
    decode_affiliate};

verus! {

/// The outcome of CloseAffiliateAccount. Checked in order: the signature,
/// the administrator identity, program ownership of the affiliate slot, both
/// record addresses, the treasury identity, the stored affiliate record
/// (which must decode and be initialized), that the treasury can hold the
/// drained balance, and the stored project record, whose enrollment count
/// must be positive. On success the affiliate slot's whole balance moves to
/// the treasury — no value is created or destroyed — the slot is left empty,
/// and the project's count falls by one.
pub open spec fn close_affiliate_spec(
    program_id: Key,
    cfg: ProgramConfig,
    initializer: AccountV,
    pda_account: AccountV,
    project_pda_account: AccountV,
    solpay_treasury: AccountV,
    affiliate_pubkey: Key,
    project_owner_pubkey: Key,
    candy_machine_id: Key,
) -> Result<(AccountV, AccountV, AccountV), ProgramFault> {
    if !initializer.is_signer {
        Err(ProgramFault::MissingRequiredSignature)
    } else if initializer.key != cfg.admin {
        Err(ProgramFault::Custom(CandyMachineAffiliatesError::ActionNotAllowed))
    } else if pda_account.owner != program_id {
        Err(ProgramFault::IllegalOwner)
    } else if !spec_validate_client_pda(
        pda_account.key,
        affiliate_seeds(affiliate_pubkey, project_owner_pubkey, candy_machine_id),
        program_id,
    ).0 {
        Err(ProgramFault::Custom(CandyMachineAffiliatesError::InvalidPDA))
    } else if !spec_validate_client_pda(
        project_pda_account.key,
        project_seeds(project_owner_pubkey, candy_machine_id),
        program_id,
    ).0 {
        Err(ProgramFault::Custom(CandyMachineAffiliatesError::InvalidPDA))
    } else if solpay_treasury.key != cfg.treasury {
        Err(ProgramFault::Custom(CandyMachineAffiliatesError::IncorrectTreasuryAccount))
    } else {
        match parse_affiliate(pda_account.data) {
            None => Err(ProgramFault::InvalidAccountData),
            Some(arec) => {
                if !arec.is_initialized {
                    Err(ProgramFault::Custom(CandyMachineAffiliatesError::UninitializedAccount))
                } else if solpay_treasury.lamports + pda_account.lamports > u64::MAX {
                    Err(ProgramFault::Custom(CandyMachineAffiliatesError::AmountOverflow))
                } else {
                    match parse_project(project_pda_account.data) {
                        None => Err(ProgramFault::InvalidAccountData),
                        Some(proj) => {
                            if proj.data.affiliate_count == 0 {
                                Err(
                                    ProgramFault::Custom(
                                        CandyMachineAffiliatesError::AmountOverflow,
                                    ),
                                )
                            } else {
                                let proj2 = ProjectAccountStateV {
                                    data: ProjectAccountStateDataV {
                                        affiliate_count: (proj.data.affiliate_count - 1) as u8,
                                        ..proj.data
                                    },
                                    ..proj
                                };
                                Ok(
                                    (
                                        AccountV {
                                            lamports: 0,
                                            data: Seq::<u8>::empty(),
                                            ..pda_account
                                        },
                                        AccountV {
                                            data: proj2.encoding() + project_pda_account.data.skip(
                                                proj2.encoded_len(),
                                            ),
                                            ..project_pda_account
                                        },
                                        AccountV {
                                            lamports: (solpay_treasury.lamports
                                                + pda_account.lamports) as u64,
                                            ..solpay_treasury
                                        },
                                    ),
                                )
                            }
                        },
                    }
                }
            },
        }
    }
}

/// Drains an affiliate record's slot into the treasury and lowers the
/// project's enrollment count.
pub fn close_affiliate_account(
    program_id: &Key,
    cfg: &ProgramConfig,
    initializer: &mut Account,
    pda_account: &mut Account,
    project_pda_account: &mut Account,
    solpay_treasury: &mut Account,
    affiliate_pubkey: Key,
    project_owner_pubkey: Key,
    candy_machine_id: Key,
) -> (r: Result<(), ProgramFault>)
    ensures
        final(initializer)@ == old(initializer)@,
        (match close_affiliate_spec(
            *program_id,
            *cfg,
            old(initializer)@,
            old(pda_account)@,
            old(project_pda_account)@,
            old(solpay_treasury)@,
            affiliate_pubkey,
            project_owner_pubkey,
            candy_machine_id,
        ) {
            Ok(outs) => r is Ok && final(pda_account)@ == outs.0 && final(project_pda_account)@
                == outs.1 && final(solpay_treasury)@ == outs.2,
            Err(e) => r == Err::<(), ProgramFault>(e) && final(pda_account)@ == old(pda_account)@
                && final(project_pda_account)@ == old(project_pda_account)@
                && final(solpay_treasury)@ == old(solpay_treasury)@,
        }),
{
    if !initializer.is_signer {
        return Err(ProgramFault::MissingRequiredSignature);
    }
    if initializer.key != cfg.admin {
        return Err(ProgramFault::Custom(CandyMachineAffiliatesError::ActionNotAllowed));
    }
    if pda_account.owner != *program_id {
        return Err(ProgramFault::IllegalOwner);
    }
    let aff_seeds = make_affiliate_seeds(&affiliate_pubkey, &project_owner_pubkey, &candy_machine_id);
    let (aff_pda_is_valid, _bump_seed) = validate_client_pda(pda_account, &aff_seeds, program_id);
    if !aff_pda_is_valid {
        return Err(ProgramFault::Custom(CandyMachineAffiliatesError::InvalidPDA));
    }
    let proj_seeds = make_project_seeds(&project_owner_pubkey, &candy_machine_id);
    let (proj_pda_is_valid, _proj_bump) = validate_client_pda(
        project_pda_account,
        &proj_seeds,
        program_id,
    );
    if !proj_pda_is_valid {
        return Err(ProgramFault::Custom(CandyMachineAffiliatesError::InvalidPDA));
    }
    if solpay_treasury.key != cfg.treasury {
        return Err(ProgramFault::Custom(CandyMachineAffiliatesError::IncorrectTreasuryAccount));
    }
    let arec = match decode_affiliate(&pda_account.data) {
        None => { return Err(ProgramFault::InvalidAccountData) },
        Some(a) => a,
    };
    if !arec.is_initialized() {
        return Err(ProgramFault::Custom(CandyMachineAffiliatesError::UninitializedAccount));
    }
    if solpay_treasury.lamports > u64::MAX - pda_account.lamports {
        return Err(ProgramFault::Custom(CandyMachineAffiliatesError::AmountOverflow));
    }
    let proj = match decode_project(&project_pda_account.data) {
        None => { return Err(ProgramFault::InvalidAccountData) },
        Some(p) => p,
    };
    if proj.data.affiliate_count == 0 {
        return Err(ProgramFault::Custom(CandyMachineAffiliatesError::AmountOverflow));
    }
    let proj2 = ProjectAccountState {
        discriminator: proj.discriminator,
        is_initialized: proj.is_initialized,
        data_version: proj.data_version,
        data: ProjectAccountStateData {
            project_owner_pubkey: proj.data.project_owner_pubkey,
            candy_machine_id: proj.data.candy_machine_id,
            affiliate_fee_percentage: proj.data.affiliate_fee_percentage,
            affiliate_target_in_sol: proj.data.affiliate_target_in_sol,
            max_affiliate_count: proj.data.max_affiliate_count,
            affiliate_count: proj.data.affiliate_count - 1,
            title: proj.data.title,
            created_at: proj.data.created_at,
            updated_at: proj.data.updated_at,
        },
    };
    let pn = project_pda_account.data.len();
    proof {
        lemma_parse_project_fits(old(project_pda_account)@.data);
    }
    let mut proj_slot = read_bytes(&project_pda_account.data, 0, pn);
    serialize_project_into(&proj2, &mut proj_slot);
    solpay_treasury.lamports = solpay_treasury.lamports + pda_account.lamports;
    pda_account.lamports = 0;
    pda_account.data = Vec::new();
    project_pda_account.data = proj_slot;
    proof {
        let outs = close_affiliate_spec(
            *program_id,
            *cfg,
            old(initializer)@,
            old(pda_account)@,
            old(project_pda_account)@,
            old(solpay_treasury)@,
            affiliate_pubkey,
            project_owner_pubkey,
            candy_machine_id,
        ).unwrap();
        assert(old(project_pda_account)@.data.subrange(0, pn as int) =~= old(
            project_pda_account,
        )@.data);
        assert(pda_account@.data =~= Seq::<u8>::empty());
        assert(pda_account@ =~= outs.0);
        assert(project_pda_account@ =~= outs.1);
        assert(solpay_treasury@ =~= outs.2);
    }
    Ok(())
}

} // verus!
