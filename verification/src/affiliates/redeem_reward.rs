//! RedeemReward: an enrolled affiliate whose slot balance has reached the
//! project's target withdraws exactly the target amount; the cumulative
//! redemption counter rises by the target. Redemption is bounded only by the
//! funds present: each call is checked against the current balance.

use vstd::prelude::*;
use crate::keys::Key;
use crate::accounts::{Account, AccountV, ProgramConfig, LinkagePolicy, LAMPORTS_PER_SOL};
use crate::error::{ProgramFault, CandyMachineAffiliatesError};
use crate::utils::{spec_validate_client_pda, validate_client_pda};
use crate::wire::read_bytes;
use crate::projects::state::{project_seeds, make_project_seeds, parse_project, decode_project,
    ProjectAccountStateV};
use crate::affiliates::state::{
    AffiliateAccountState, AffiliateAccountStateData, AffiliateAccountStateV, affiliate_seeds,
    make_affiliate_seeds, parse_affiliate, decode_affiliate, serialize_affiliate_into,
    lemma_parse_affiliate_fits,
};

verus! {

/// Whether the affiliate record and the project record fail the linkage
/// check: under `MatchEither` the pair is rejected only when both the owner
/// and the campaign identities differ; under `MatchBoth`, when either
/// differs.
pub open spec fn linkage_mismatch(
    policy: LinkagePolicy,
    arec: AffiliateAccountStateV,
    proj: ProjectAccountStateV,
) -> bool {
    let owner_differs = arec.data.project_owner_pubkey != proj.data.project_owner_pubkey;
    let campaign_differs = arec.data.candy_machine_id != proj.data.candy_machine_id;
    match policy {
        LinkagePolicy::MatchEither => owner_differs && campaign_differs,
        LinkagePolicy::MatchBoth => owner_differs || campaign_differs,
    }
}

/// The amount one redemption moves: the project's target in whole reward
/// units, in native units.
pub open spec fn spec_redeem_amount(target: u8) -> u64 {
    ((target as int) * (LAMPORTS_PER_SOL as int)) as u64
}

/// The outcome of RedeemReward. Checked in order: the signature, program
/// ownership of both slots, both record addresses, both stored records
/// (which must decode and be initialized), the linkage between them under
/// the configured policy, and that the affiliate slot's balance covers the
/// target amount. On success exactly the target amount moves from the
/// affiliate slot to the signer — never more than the balance present — and
/// the cumulative counter rises by the target.
pub open spec fn redeem_reward_spec(
    program_id: Key,
    cfg: ProgramConfig,
    initializer: AccountV,
    affiliate_pda_account: AccountV,
    project_pda_account: AccountV,
    project_owner_pubkey: Key,
    candy_machine_id: Key,
) -> Result<(AccountV, AccountV), ProgramFault> {
    if !initializer.is_signer {
        Err(ProgramFault::MissingRequiredSignature)
    } else if affiliate_pda_account.owner != program_id {
        Err(ProgramFault::IllegalOwner)
    } else if project_pda_account.owner != program_id {
        Err(ProgramFault::IllegalOwner)
    } else if !spec_validate_client_pda(
        affiliate_pda_account.key,
        affiliate_seeds(initializer.key, project_owner_pubkey, candy_machine_id),
        program_id,
    ).0 {
        Err(ProgramFault::Custom(CandyMachineAffiliatesError::InvalidPDA))
    } else if !spec_validate_client_pda(
        project_pda_account.key,
        project_seeds(project_owner_pubkey, candy_machine_id),
        program_id,
    ).0 {
        Err(ProgramFault::Custom(CandyMachineAffiliatesError::InvalidPDA))
    } else {
        match parse_affiliate(affiliate_pda_account.data) {
            None => Err(ProgramFault::InvalidAccountData),
            Some(arec) => {
                if !arec.is_initialized {
                    Err(ProgramFault::Custom(CandyMachineAffiliatesError::UninitializedAccount))
                } else {
                    match parse_project(project_pda_account.data) {
                        None => Err(ProgramFault::InvalidAccountData),
                        Some(proj) => {
                            if !proj.is_initialized {
                                Err(
                                    ProgramFault::Custom(
                                        CandyMachineAffiliatesError::UninitializedAccount,
                                    ),
                                )
                            } else if linkage_mismatch(cfg.linkage, arec, proj) {
                                Err(
                                    ProgramFault::Custom(
                                        CandyMachineAffiliatesError::RewardRedeemMismatchedAccounts,
                                    ),
                                )
                            } else {
                                let amount = spec_redeem_amount(proj.data.affiliate_target_in_sol);
                                if affiliate_pda_account.lamports < amount {
                                    Err(
                                        ProgramFault::Custom(
                                            CandyMachineAffiliatesError::AffiliateAccountBalanceNotEnough,
                                        ),
                                    )
                                } else if initializer.lamports + amount > u64::MAX {
                                    Err(
                                        ProgramFault::Custom(
                                            CandyMachineAffiliatesError::AmountOverflow,
                                        ),
                                    )
                                } else if arec.data.total_redeemed_amount_in_sol
                                    + proj.data.affiliate_target_in_sol > u32::MAX {
                                    Err(
                                        ProgramFault::Custom(
                                            CandyMachineAffiliatesError::AmountOverflow,
                                        ),
                                    )
                                } else {
                                    let arec2 = AffiliateAccountStateV {
                                        data: crate::affiliates::state::AffiliateAccountStateDataV {
                                            total_redeemed_amount_in_sol: (
                                            arec.data.total_redeemed_amount_in_sol
                                                + proj.data.affiliate_target_in_sol) as u32,
                                            ..arec.data
                                        },
                                        ..arec
                                    };
                                    Ok(
                                        (
                                            AccountV {
                                                lamports: (initializer.lamports + amount) as u64,
                                                ..initializer
                                            },
                                            AccountV {
                                                lamports: (affiliate_pda_account.lamports
                                                    - amount) as u64,
                                                data: arec2.encoding()
                                                    + affiliate_pda_account.data.skip(
                                                    arec2.encoded_len(),
                                                ),
                                                ..affiliate_pda_account
                                            },
                                        ),
                                    )
                                }
                            }
                        },
                    }
                }
            },
        }
    }
}

/// Pays out one redemption to the signing affiliate.
pub fn redeem_reward(
    program_id: &Key,
    cfg: &ProgramConfig,
    initializer: &mut Account,
    affiliate_pda_account: &mut Account,
    project_pda_account: &Account,
    project_owner_pubkey: Key,
    candy_machine_id: Key,
) -> (r: Result<(), ProgramFault>)
    ensures
        (match redeem_reward_spec(
            *program_id,
            *cfg,
            old(initializer)@,
            old(affiliate_pda_account)@,
            project_pda_account@,
            project_owner_pubkey,
            candy_machine_id,
        ) {
            Ok(outs) => r is Ok && final(initializer)@ == outs.0 && final(affiliate_pda_account)@
                == outs.1,
            Err(e) => r == Err::<(), ProgramFault>(e) && final(initializer)@ == old(initializer)@
                && final(affiliate_pda_account)@ == old(affiliate_pda_account)@,
        }),
{
    if !initializer.is_signer {
        return Err(ProgramFault::MissingRequiredSignature);
    }
    if affiliate_pda_account.owner != *program_id {
        return Err(ProgramFault::IllegalOwner);
    }
    if project_pda_account.owner != *program_id {
        return Err(ProgramFault::IllegalOwner);
    }
    let aff_seeds = make_affiliate_seeds(&initializer.key, &project_owner_pubkey, &candy_machine_id);
    let (aff_pda_is_valid, _bump_seed) = validate_client_pda(
        affiliate_pda_account,
        &aff_seeds,
        program_id,
    );
    if !aff_pda_is_valid {
        return Err(ProgramFault::Custom(CandyMachineAffiliatesError::InvalidPDA));
    }
    let proj_seeds = make_project_seeds(&project_owner_pubkey, &candy_machine_id);
    let (proj_pda_is_valid, _proj_bump) = validate_client_pda(
        project_pda_account,
        &proj_seeds,
        program_id,
    );
    if !proj_pda_is_valid {
        return Err(ProgramFault::Custom(CandyMachineAffiliatesError::InvalidPDA));
    }
    let arec = match decode_affiliate(&affiliate_pda_account.data) {
        None => { return Err(ProgramFault::InvalidAccountData) },
        Some(a) => a,
    };
    if !arec.is_initialized() {
        return Err(ProgramFault::Custom(CandyMachineAffiliatesError::UninitializedAccount));
    }
    let proj = match decode_project(&project_pda_account.data) {
        None => { return Err(ProgramFault::InvalidAccountData) },
        Some(p) => p,
    };
    if !proj.is_initialized() {
        return Err(ProgramFault::Custom(CandyMachineAffiliatesError::UninitializedAccount));
    }
    let owner_differs = arec.data.project_owner_pubkey != proj.data.project_owner_pubkey;
    let campaign_differs = arec.data.candy_machine_id != proj.data.candy_machine_id;
    let mismatched = match cfg.linkage {
        LinkagePolicy::MatchEither => owner_differs && campaign_differs,
        LinkagePolicy::MatchBoth => owner_differs || campaign_differs,
    };
    if mismatched {
        return Err(
            ProgramFault::Custom(CandyMachineAffiliatesError::RewardRedeemMismatchedAccounts),
        );
    }
    let amount = (proj.data.affiliate_target_in_sol as u64) * LAMPORTS_PER_SOL;
    if affiliate_pda_account.lamports < amount {
        return Err(
            ProgramFault::Custom(CandyMachineAffiliatesError::AffiliateAccountBalanceNotEnough),
        );
    }
    if initializer.lamports > u64::MAX - amount {
        return Err(ProgramFault::Custom(CandyMachineAffiliatesError::AmountOverflow));
    }
    if arec.data.total_redeemed_amount_in_sol > u32::MAX - (proj.data.affiliate_target_in_sol
        as u32) {
        return Err(ProgramFault::Custom(CandyMachineAffiliatesError::AmountOverflow));
    }
    let arec2 = AffiliateAccountState {
        discriminator: arec.discriminator,
        is_initialized: arec.is_initialized,
        data_version: arec.data_version,
        data: AffiliateAccountStateData {
            affiliate_pubkey: arec.data.affiliate_pubkey,
            project_owner_pubkey: arec.data.project_owner_pubkey,
            candy_machine_id: arec.data.candy_machine_id,
            total_redeemed_amount_in_sol: arec.data.total_redeemed_amount_in_sol
                + (proj.data.affiliate_target_in_sol as u32),
            created_at: arec.data.created_at,
        },
    };
    let an = affiliate_pda_account.data.len();
    proof {
        lemma_parse_affiliate_fits(old(affiliate_pda_account)@.data);
    }
    let mut aff_slot = read_bytes(&affiliate_pda_account.data, 0, an);
    serialize_affiliate_into(&arec2, &mut aff_slot);
    initializer.lamports = initializer.lamports + amount;
    affiliate_pda_account.lamports = affiliate_pda_account.lamports - amount;
    affiliate_pda_account.data = aff_slot;
    proof {
        let outs = redeem_reward_spec(
            *program_id,
            *cfg,
            old(initializer)@,
            old(affiliate_pda_account)@,
            project_pda_account@,
            project_owner_pubkey,
            candy_machine_id,
        ).unwrap();
        assert(old(affiliate_pda_account)@.data.subrange(0, an as int) =~= old(
            affiliate_pda_account,
        )@.data);
        assert(initializer@ =~= outs.0);
        assert(affiliate_pda_account@ =~= outs.1);
    }
    Ok(())
}

} // verus!
