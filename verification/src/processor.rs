//! The dispatcher: decodes a command buffer and routes it, one to one, to
//! its operation. It adds no checks of its own; every authorization and
//! validation rule lives in the operation it routes to.

use vstd::prelude::*;
use crate::keys::Key;
use crate::accounts::{Account, AccountV, LedgerEnv, ProgramConfig};
use crate::error::ProgramFault;
use crate::instruction::{CandyMachineAffiliatesInstruction, CandyMachineAffiliatesInstructionV,
    unpack_spec};
use crate::projects::register_project_account::{register_project_spec, register_project_account};
use crate::projects::update_project_account::{update_project_spec, update_project_account};
use crate::projects::close_project_account::{close_project_spec, close_project_account};
use crate::affiliates::register_affiliate_account::{register_affiliate_spec,
    register_affiliate_account};
use crate::affiliates::redeem_reward::{redeem_reward_spec, redeem_reward};
use crate::affiliates::close_affiliate_account::{close_affiliate_spec, close_affiliate_account};

verus! {

/// What one invocation does to the accounts it was handed: the command
/// buffer decodes to an operation, the operation's accounts are the leading
/// ones in its fixed order, and the operation's outcome replaces them; any
/// trailing accounts are ignored and kept. Every failure leaves all accounts
/// as they were.
pub open spec fn process_spec(
    program_id: Key,
    cfg: ProgramConfig,
    env: LedgerEnv,
    accs: Seq<AccountV>,
    input: Seq<u8>,
) -> Result<Seq<AccountV>, ProgramFault> {
    match unpack_spec(input) {
        Err(e) => Err(e),
        Ok(iv) => match iv {
            CandyMachineAffiliatesInstructionV::RegisterProject {
                candy_machine_id,
                affiliate_fee_percentage,
                affiliate_target_in_sol,
                max_affiliate_count,
                title,
            } => {
                if accs.len() < 3 {
                    Err(ProgramFault::NotEnoughAccountKeys)
                } else {
                    match register_project_spec(
                        program_id,
                        env,
                        accs[0],
                        accs[1],
                        accs[2],
                        candy_machine_id,
                        affiliate_fee_percentage,
                        affiliate_target_in_sol,
                        max_affiliate_count,
                        title,
                    ) {
                        Err(e) => Err(e),
                        Ok(outs) => Ok(accs.update(0, outs.0).update(1, outs.1)),
                    }
                }
            },
            CandyMachineAffiliatesInstructionV::UpdateProject {
                project_owner_pubkey,
                candy_machine_id,
                affiliate_fee_percentage,
                affiliate_target_in_sol,
                max_affiliate_count,
                title,
            } => {
                if accs.len() < 2 {
                    Err(ProgramFault::NotEnoughAccountKeys)
                } else {
                    match update_project_spec(
                        program_id,
                        cfg,
                        env,
                        accs[0],
                        accs[1],
                        project_owner_pubkey,
                        candy_machine_id,
                        affiliate_fee_percentage,
                        affiliate_target_in_sol,
                        max_affiliate_count,
                        title,
                    ) {
                        Err(e) => Err(e),
                        Ok(out) => Ok(accs.update(1, out)),
                    }
                }
            },
            CandyMachineAffiliatesInstructionV::CloseProject {
                project_owner_pubkey,
                candy_machine_id,
            } => {
                if accs.len() < 3 {
                    Err(ProgramFault::NotEnoughAccountKeys)
                } else {
                    match close_project_spec(
                        program_id,
                        cfg,
                        accs[0],
                        accs[1],
                        accs[2],
                        project_owner_pubkey,
                        candy_machine_id,
                    ) {
                        Err(e) => Err(e),
                        Ok(outs) => Ok(accs.update(1, outs.0).update(2, outs.1)),
                    }
                }
            },
            CandyMachineAffiliatesInstructionV::RegisterAffiliate {
                project_owner_pubkey,
                candy_machine_id,
            } => {
                if accs.len() < 5 {
                    Err(ProgramFault::NotEnoughAccountKeys)
                } else {
                    match register_affiliate_spec(
                        program_id,
                        cfg,
                        env,
                        accs[0],
                        accs[1],
                        accs[2],
                        accs[3],
                        accs[4],
                        project_owner_pubkey,
                        candy_machine_id,
                    ) {
                        Err(e) => Err(e),
                        Ok(outs) => Ok(
                            accs.update(0, outs.0).update(1, outs.1).update(2, outs.2).update(
                                3,
                                outs.3,
                            ),
                        ),
                    }
                }
            },
            CandyMachineAffiliatesInstructionV::RedeemReward {
                project_owner_pubkey,
                candy_machine_id,
            } => {
                if accs.len() < 3 {
                    Err(ProgramFault::NotEnoughAccountKeys)
                } else {
                    match redeem_reward_spec(
                        program_id,
                        cfg,
                        accs[0],
                        accs[1],
                        accs[2],
                        project_owner_pubkey,
                        candy_machine_id,
                    ) {
                        Err(e) => Err(e),
                        Ok(outs) => Ok(accs.update(0, outs.0).update(1, outs.1)),
                    }
                }
            },
            CandyMachineAffiliatesInstructionV::CloseAffiliateAccount {
                affiliate_pubkey,
                project_owner_pubkey,
                candy_machine_id,
            } => {
                if accs.len() < 4 {
                    Err(ProgramFault::NotEnoughAccountKeys)
                } else {
                    match close_affiliate_spec(
                        program_id,
                        cfg,
                        accs[0],
                        accs[1],
                        accs[2],
                        accs[3],
                        affiliate_pubkey,
                        project_owner_pubkey,
                        candy_machine_id,
                    ) {
                        Err(e) => Err(e),
                        Ok(outs) => Ok(
                            accs.update(1, outs.0).update(2, outs.1).update(3, outs.2),
                        ),
                    }
                }
            },
        },
    }
}


fn run_register_project(
    program_id: &Key,
    env: LedgerEnv,
    accounts: &mut Vec<Account>,
    candy_machine_id: Key,
    affiliate_fee_percentage: u64,
    affiliate_target_in_sol: u8,
    max_affiliate_count: u8,
    title: Vec<u8>,
) -> (r: Result<(), ProgramFault>)
    requires
        old(accounts)@.len() >= 3,
    ensures
        (match register_project_spec(
            *program_id,
            env,
            old(accounts).deep_view()[0],
            old(accounts).deep_view()[1],
            old(accounts).deep_view()[2],
            candy_machine_id,
            affiliate_fee_percentage,
            affiliate_target_in_sol,
            max_affiliate_count,
            title@,
        ) {
            Ok(outs) => r is Ok && final(accounts).deep_view() == old(accounts).deep_view().update(
                0,
                outs.0,
            ).update(1, outs.1),
            Err(e) => r == Err::<(), ProgramFault>(e) && final(accounts).deep_view() == old(
                accounts,
            ).deep_view(),
        }),
{
    let mut initializer = accounts.remove(0);
    let mut pda_account = accounts.remove(0);
    let system_program = accounts.remove(0);
    let r = register_project_account(
        program_id,
        &env,
        &mut initializer,
        &mut pda_account,
        &system_program,
        candy_machine_id,
        affiliate_fee_percentage,
        affiliate_target_in_sol,
        max_affiliate_count,
        title,
    );
    accounts.insert(0, system_program);
    accounts.insert(0, pda_account);
    accounts.insert(0, initializer);
    proof {
        assert(accounts@ =~= old(accounts)@.update(0, accounts@[0]).update(1, accounts@[1]));
        assert(accounts.deep_view() =~= old(accounts).deep_view().update(0, accounts@[0]@).update(
            1,
            accounts@[1]@,
        ));
        if r is Err {
            assert(accounts.deep_view() =~= old(accounts).deep_view());
        }
    }
    r
}

fn run_update_project(
    program_id: &Key,
    cfg: &ProgramConfig,
    env: LedgerEnv,
    accounts: &mut Vec<Account>,
    project_owner_pubkey: Key,
    candy_machine_id: Key,
    affiliate_fee_percentage: u64,
    affiliate_target_in_sol: u8,
    max_affiliate_count: u8,
    title: Vec<u8>,
) -> (r: Result<(), ProgramFault>)
    requires
        old(accounts)@.len() >= 2,
    ensures
        (match update_project_spec(
            *program_id,
            *cfg,
            env,
            old(accounts).deep_view()[0],
            old(accounts).deep_view()[1],
            project_owner_pubkey,
            candy_machine_id,
            affiliate_fee_percentage,
            affiliate_target_in_sol,
            max_affiliate_count,
            title@,
        ) {
            Ok(out) => r is Ok && final(accounts).deep_view() == old(accounts).deep_view().update(
                1,
                out,
            ),
            Err(e) => r == Err::<(), ProgramFault>(e) && final(accounts).deep_view() == old(
                accounts,
            ).deep_view(),
        }),
{
    let mut initializer = accounts.remove(0);
    let mut pda_account = accounts.remove(0);
    let r = update_project_account(
        program_id,
        cfg,
        &env,
        &mut initializer,
        &mut pda_account,
        project_owner_pubkey,
        candy_machine_id,
        affiliate_fee_percentage,
        affiliate_target_in_sol,
        max_affiliate_count,
        title,
    );
    accounts.insert(0, pda_account);
    accounts.insert(0, initializer);
    proof {
        assert(accounts@ =~= old(accounts)@.update(0, accounts@[0]).update(1, accounts@[1]));
        assert(accounts@[0]@ == old(accounts).deep_view()[0]);
        assert(accounts.deep_view() =~= old(accounts).deep_view().update(1, accounts@[1]@));
        if r is Err {
            assert(accounts.deep_view() =~= old(accounts).deep_view());
        }
    }
    r
}

fn run_close_project(
    program_id: &Key,
    cfg: &ProgramConfig,
    accounts: &mut Vec<Account>,
    project_owner_pubkey: Key,
    candy_machine_id: Key,
) -> (r: Result<(), ProgramFault>)
    requires
        old(accounts)@.len() >= 3,
    ensures
        (match close_project_spec(
            *program_id,
            *cfg,
            old(accounts).deep_view()[0],
            old(accounts).deep_view()[1],
            old(accounts).deep_view()[2],
            project_owner_pubkey,
            candy_machine_id,
        ) {
            Ok(outs) => r is Ok && final(accounts).deep_view() == old(accounts).deep_view().update(
                1,
                outs.0,
            ).update(2, outs.1),
            Err(e) => r == Err::<(), ProgramFault>(e) && final(accounts).deep_view() == old(
                accounts,
            ).deep_view(),
        }),
{
    let mut initializer = accounts.remove(0);
    let mut pda_account = accounts.remove(0);
    let mut owner_account = accounts.remove(0);
    let r = close_project_account(
        program_id,
        cfg,
        &mut initializer,
        &mut pda_account,
        &mut owner_account,
        project_owner_pubkey,
        candy_machine_id,
    );
    accounts.insert(0, owner_account);
    accounts.insert(0, pda_account);
    accounts.insert(0, initializer);
    proof {
        assert(accounts@ =~= old(accounts)@.update(0, accounts@[0]).update(1, accounts@[1]).update(
            2,
            accounts@[2],
        ));
        assert(accounts@[0]@ == old(accounts).deep_view()[0]);
        assert(accounts.deep_view() =~= old(accounts).deep_view().update(1, accounts@[1]@).update(
            2,
            accounts@[2]@,
        ));
        if r is Err {
            assert(accounts.deep_view() =~= old(accounts).deep_view());
        }
    }
    r
}

fn run_register_affiliate(
    program_id: &Key,
    cfg: &ProgramConfig,
    env: LedgerEnv,
    accounts: &mut Vec<Account>,
    project_owner_pubkey: Key,
    candy_machine_id: Key,
) -> (r: Result<(), ProgramFault>)
    requires
        old(accounts)@.len() >= 5,
    ensures
        (match register_affiliate_spec(
            *program_id,
            *cfg,
            env,
            old(accounts).deep_view()[0],
            old(accounts).deep_view()[1],
            old(accounts).deep_view()[2],
            old(accounts).deep_view()[3],
            old(accounts).deep_view()[4],
            project_owner_pubkey,
            candy_machine_id,
        ) {
            Ok(outs) => r is Ok && final(accounts).deep_view() == old(accounts).deep_view().update(
                0,
                outs.0,
            ).update(1, outs.1).update(2, outs.2).update(3, outs.3),
            Err(e) => r == Err::<(), ProgramFault>(e) && final(accounts).deep_view() == old(
                accounts,
            ).deep_view(),
        }),
{
    let mut initializer = accounts.remove(0);
    let mut pda_account = accounts.remove(0);
    let mut project_pda_account = accounts.remove(0);
    let mut solpay_treasury = accounts.remove(0);
    let system_program = accounts.remove(0);
    let r = register_affiliate_account(
        program_id,
        cfg,
        &env,
        &mut initializer,
        &mut pda_account,
        &mut project_pda_account,
        &mut solpay_treasury,
        &system_program,
        project_owner_pubkey,
        candy_machine_id,
    );
    accounts.insert(0, system_program);
    accounts.insert(0, solpay_treasury);
    accounts.insert(0, project_pda_account);
    accounts.insert(0, pda_account);
    accounts.insert(0, initializer);
    proof {
        assert(accounts@ =~= old(accounts)@.update(0, accounts@[0]).update(1, accounts@[1]).update(
            2,
            accounts@[2],
        ).update(3, accounts@[3]));
        assert(accounts.deep_view() =~= old(accounts).deep_view().update(0, accounts@[0]@).update(
            1,
            accounts@[1]@,
        ).update(2, accounts@[2]@).update(3, accounts@[3]@));
        if r is Err {
            assert(accounts.deep_view() =~= old(accounts).deep_view());
        }
    }
    r
}

fn run_redeem_reward(
    program_id: &Key,
    cfg: &ProgramConfig,
    accounts: &mut Vec<Account>,
    project_owner_pubkey: Key,
    candy_machine_id: Key,
) -> (r: Result<(), ProgramFault>)
    requires
        old(accounts)@.len() >= 3,
    ensures
        (match redeem_reward_spec(
            *program_id,
            *cfg,
            old(accounts).deep_view()[0],
            old(accounts).deep_view()[1],
            old(accounts).deep_view()[2],
            project_owner_pubkey,
            candy_machine_id,
        ) {
            Ok(outs) => r is Ok && final(accounts).deep_view() == old(accounts).deep_view().update(
                0,
                outs.0,
            ).update(1, outs.1),
            Err(e) => r == Err::<(), ProgramFault>(e) && final(accounts).deep_view() == old(
                accounts,
            ).deep_view(),
        }),
{
    let mut initializer = accounts.remove(0);
    let mut affiliate_pda_account = accounts.remove(0);
    let project_pda_account = accounts.remove(0);
    let r = redeem_reward(
        program_id,
        cfg,
        &mut initializer,
        &mut affiliate_pda_account,
        &project_pda_account,
        project_owner_pubkey,
        candy_machine_id,
    );
    accounts.insert(0, project_pda_account);
    accounts.insert(0, affiliate_pda_account);
    accounts.insert(0, initializer);
    proof {
        assert(accounts@ =~= old(accounts)@.update(0, accounts@[0]).update(1, accounts@[1]));
        assert(accounts.deep_view() =~= old(accounts).deep_view().update(0, accounts@[0]@).update(
            1,
            accounts@[1]@,
        ));
        if r is Err {
            assert(accounts.deep_view() =~= old(accounts).deep_view());
        }
    }
    r
}

fn run_close_affiliate(
    program_id: &Key,
    cfg: &ProgramConfig,
    accounts: &mut Vec<Account>,
    affiliate_pubkey: Key,
    project_owner_pubkey: Key,
    candy_machine_id: Key,
) -> (r: Result<(), ProgramFault>)
    requires
        old(accounts)@.len() >= 4,
    ensures
        (match close_affiliate_spec(
            *program_id,
            *cfg,
            old(accounts).deep_view()[0],
            old(accounts).deep_view()[1],
            old(accounts).deep_view()[2],
            old(accounts).deep_view()[3],
            affiliate_pubkey,
            project_owner_pubkey,
            candy_machine_id,
        ) {
            Ok(outs) => r is Ok && final(accounts).deep_view() == old(accounts).deep_view().update(
                1,
                outs.0,
            ).update(2, outs.1).update(3, outs.2),
            Err(e) => r == Err::<(), ProgramFault>(e) && final(accounts).deep_view() == old(
                accounts,
            ).deep_view(),
        }),
{
    let mut initializer = accounts.remove(0);
    let mut pda_account = accounts.remove(0);
    let mut project_pda_account = accounts.remove(0);
    let mut solpay_treasury = accounts.remove(0);
    let r = close_affiliate_account(
        program_id,
        cfg,
        &mut initializer,
        &mut pda_account,
        &mut project_pda_account,
        &mut solpay_treasury,
        affiliate_pubkey,
        project_owner_pubkey,
        candy_machine_id,
    );
    accounts.insert(0, solpay_treasury);
    accounts.insert(0, project_pda_account);
    accounts.insert(0, pda_account);
    accounts.insert(0, initializer);
    proof {
        assert(accounts@ =~= old(accounts)@.update(0, accounts@[0]).update(1, accounts@[1]).update(
            2,
            accounts@[2],
        ).update(3, accounts@[3]));
        assert(accounts@[0]@ == old(accounts).deep_view()[0]);
        assert(accounts.deep_view() =~= old(accounts).deep_view().update(1, accounts@[1]@).update(
            2,
            accounts@[2]@,
        ).update(3, accounts@[3]@));
        if r is Err {
            assert(accounts.deep_view() =~= old(accounts).deep_view());
        }
    }
    r
}

/// Decodes the command buffer and runs the selected operation on the leading
/// accounts.
#[verifier::rlimit(100)]
#[verifier::spinoff_prover]
pub fn process_instruction(
    program_id: &Key,
    cfg: &ProgramConfig,
    env: LedgerEnv,
    accounts: &mut Vec<Account>,
    instruction_data: &Vec<u8>,
) -> (r: Result<(), ProgramFault>)
    ensures
        (match process_spec(*program_id, *cfg, env, old(accounts).deep_view(), instruction_data@) {
            Ok(vs) => r is Ok && final(accounts).deep_view() == vs,
            Err(e) => r == Err::<(), ProgramFault>(e) && final(accounts).deep_view() == old(
                accounts,
            ).deep_view(),
        }),
{
    let instruction = match CandyMachineAffiliatesInstruction::unpack(instruction_data) {
        Err(e) => { return Err(e) },
        Ok(i) => i,
    };
    match instruction {
        CandyMachineAffiliatesInstruction::RegisterProject {
            candy_machine_id,
            affiliate_fee_percentage,
            affiliate_target_in_sol,
            max_affiliate_count,
            title,
        } => {
            if accounts.len() < 3 {
                return Err(ProgramFault::NotEnoughAccountKeys);
            }
            run_register_project(
                program_id,
                env,
                accounts,
                candy_machine_id,
                affiliate_fee_percentage,
                affiliate_target_in_sol,
                max_affiliate_count,
                title,
            )
        },
        CandyMachineAffiliatesInstruction::UpdateProject {
            project_owner_pubkey,
            candy_machine_id,
            affiliate_fee_percentage,
            affiliate_target_in_sol,
            max_affiliate_count,
            title,
        } => {
            if accounts.len() < 2 {
                return Err(ProgramFault::NotEnoughAccountKeys);
            }
            run_update_project(
                program_id,
                cfg,
                env,
                accounts,
                project_owner_pubkey,
                candy_machine_id,
                affiliate_fee_percentage,
                affiliate_target_in_sol,
                max_affiliate_count,
                title,
            )
        },
        CandyMachineAffiliatesInstruction::CloseProject {
            project_owner_pubkey,
            candy_machine_id,
        } => {
            if accounts.len() < 3 {
                return Err(ProgramFault::NotEnoughAccountKeys);
            }
            run_close_project(program_id, cfg, accounts, project_owner_pubkey, candy_machine_id)
        },
        CandyMachineAffiliatesInstruction::RegisterAffiliate {
            project_owner_pubkey,
            candy_machine_id,
        } => {
            if accounts.len() < 5 {
                return Err(ProgramFault::NotEnoughAccountKeys);
            }
            run_register_affiliate(
                program_id,
                cfg,
                env,
                accounts,
                project_owner_pubkey,
                candy_machine_id,
            )
        },
        CandyMachineAffiliatesInstruction::RedeemReward {
            project_owner_pubkey,
            candy_machine_id,
        } => {
            if accounts.len() < 3 {
                return Err(ProgramFault::NotEnoughAccountKeys);
            }
            run_redeem_reward(program_id, cfg, accounts, project_owner_pubkey, candy_machine_id)
        },
        CandyMachineAffiliatesInstruction::CloseAffiliateAccount {
            affiliate_pubkey,
            project_owner_pubkey,
            candy_machine_id,
        } => {
            if accounts.len() < 4 {
                return Err(ProgramFault::NotEnoughAccountKeys);
            }
            run_close_affiliate(
                program_id,
                cfg,
                accounts,
                affiliate_pubkey,
                project_owner_pubkey,
                candy_machine_id,
            )
        },
    }
}

} // verus!
