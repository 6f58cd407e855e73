//! CloseProject: the administrator drains an initialized project record's
//! slot into a destination account and zeroes the slot.

use vstd::prelude::*;
use crate::keys::Key;
use crate::accounts::{Account, AccountV, ProgramConfig};
use crate::error::{ProgramFault, CandyMachineAffiliatesError};
use crate::utils::{spec_validate_client_pda, validate_client_pda};
use crate::projects::state::{project_seeds, make_project_seeds, parse_project, decode_project};

verus! {

/// The outcome of CloseProject. Checked in order: the signature, the
/// administrator identity, program ownership of the slot, the record address,
/// the stored record (which must decode and be initialized), and that the
/// destination can hold the drained balance. On success the slot's whole
/// balance moves to the destination and the slot is left empty: no value is
/// created or destroyed.
pub open spec fn close_project_spec(
    program_id: Key,
    cfg: ProgramConfig,
    initializer: AccountV,
    pda_account: AccountV,
    owner_account: AccountV,
    project_owner_pubkey: Key,
    candy_machine_id: Key,
) -> Result<(AccountV, AccountV), ProgramFault> {
    if !initializer.is_signer {
        Err(ProgramFault::MissingRequiredSignature)
    } else if initializer.key != cfg.admin {
        Err(ProgramFault::Custom(CandyMachineAffiliatesError::ActionNotAllowed))
    } else if pda_account.owner != program_id {
        Err(ProgramFault::IllegalOwner)
    } else if !spec_validate_client_pda(
        pda_account.key,
        project_seeds(project_owner_pubkey, candy_machine_id),
        program_id,
    ).0 {
        Err(ProgramFault::Custom(CandyMachineAffiliatesError::InvalidPDA))
    } else {
        match parse_project(pda_account.data) {
            None => Err(ProgramFault::InvalidAccountData),
            Some(rec) => {
                if !rec.is_initialized {
                    Err(ProgramFault::Custom(CandyMachineAffiliatesError::UninitializedAccount))
                } else if owner_account.lamports + pda_account.lamports > u64::MAX {
                    Err(ProgramFault::Custom(CandyMachineAffiliatesError::AmountOverflow))
                } else {
                    Ok(
                        (
                            AccountV { lamports: 0, data: Seq::<u8>::empty(), ..pda_account },
                            AccountV {
                                lamports: (owner_account.lamports + pda_account.lamports) as u64,
                                ..owner_account
                            },
                        ),
                    )
                }
            },
        }
    }
}

/// Drains and zeroes a project record's slot.
pub fn close_project_account(
    program_id: &Key,
    cfg: &ProgramConfig,
    initializer: &mut Account,
    pda_account: &mut Account,
    owner_account: &mut Account,
    project_owner_pubkey: Key,
    candy_machine_id: Key,
) -> (r: Result<(), ProgramFault>)
    ensures
        final(initializer)@ == old(initializer)@,
        (match close_project_spec(
            *program_id,
            *cfg,
            old(initializer)@,
            old(pda_account)@,
            old(owner_account)@,
            project_owner_pubkey,
            candy_machine_id,
        ) {
            Ok(outs) => r is Ok && final(pda_account)@ == outs.0 && final(owner_account)@
                == outs.1,
            Err(e) => r == Err::<(), ProgramFault>(e) && final(pda_account)@ == old(pda_account)@
                && final(owner_account)@ == old(owner_account)@,
        }),
{
    if !initializer.is_signer {
        return Err(ProgramFault::MissingRequiredSignature);
    }
    if initializer.key != cfg.admin {
        return Err(ProgramFault::Custom(CandyMachineAffiliatesError::ActionNotAllowed));
    }
    if pda_account.owner != *program_id {
        return Err(ProgramFault::IllegalOwner);
    }
    let seeds = make_project_seeds(&project_owner_pubkey, &candy_machine_id);
    let (pda_is_valid, _bump_seed) = validate_client_pda(pda_account, &seeds, program_id);
    if !pda_is_valid {
        return Err(ProgramFault::Custom(CandyMachineAffiliatesError::InvalidPDA));
    }
    let rec = match decode_project(&pda_account.data) {
        None => { return Err(ProgramFault::InvalidAccountData) },
        Some(rec) => rec,
    };
    if !rec.is_initialized() {
        return Err(ProgramFault::Custom(CandyMachineAffiliatesError::UninitializedAccount));
    }
    if owner_account.lamports > u64::MAX - pda_account.lamports {
        return Err(ProgramFault::Custom(CandyMachineAffiliatesError::AmountOverflow));
    }
    owner_account.lamports = owner_account.lamports + pda_account.lamports;
    pda_account.lamports = 0;
    pda_account.data = Vec::new();
    proof {
        let outs = close_project_spec(
            *program_id,
            *cfg,
            old(initializer)@,
            old(pda_account)@,
            old(owner_account)@,
            project_owner_pubkey,
            candy_machine_id,
        ).unwrap();
        assert(pda_account@.data =~= Seq::<u8>::empty());
        assert(pda_account@ =~= outs.0);
        assert(owner_account@ =~= outs.1);
    }
    Ok(())
}

} // verus!
