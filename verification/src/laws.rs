//! The library's cross-cutting guarantees, stated and proved over the
//! operations' transition functions: address binding, the enrollment cap
//! invariant, redemption bounded by balance, conservation of value on close,
//! and rejection of re-initialization.
//!
//! That two distinct seed tuples derive distinct addresses is a
//! collision-resistance property of the host ledger's derivation function;
//! it is an assumption about that function, not a theorem of this library,
//! and is not stated here.

use vstd::prelude::*;
use crate::keys::Key;
use crate::accounts::{AccountV, LedgerEnv, ProgramConfig};
use crate::utils::{pda_of, spec_validate_client_pda};
use crate::projects::state::{ProjectAccountStateV, parse_project, lemma_parse_project_encoding,
    lemma_parse_project_fits};
use crate::affiliates::state::{parse_affiliate, lemma_parse_affiliate_encoding,
    lemma_parse_affiliate_fits};
use crate::projects::register_project_account::register_project_spec;
use crate::projects::close_project_account::close_project_spec;
use crate::affiliates::register_affiliate_account::register_affiliate_spec;
use crate::affiliates::redeem_reward::{redeem_reward_spec, spec_redeem_amount};
use crate::affiliates::close_affiliate_account::close_affiliate_spec;

verus! {

/// Address binding: validation reports success exactly when the candidate is
/// the address the derivation assigns to this very seed tuple, and the
/// disambiguator it reports is the derivation's.
pub proof fn lemma_validate_binds_address(candidate: Key, seeds: Seq<Seq<u8>>, program_id: Key)
    ensures
        spec_validate_client_pda(candidate, seeds, program_id).0 <==> (pda_of(
            seeds,
            program_id.bytes(),
        ) matches Some(p) && p.0 == candidate.bytes()),
        pda_of(seeds, program_id.bytes()) matches Some(p) ==> spec_validate_client_pda(
            candidate,
            seeds,
            program_id,
        ).1 == p.1,
{
}

/// One step of the enrollment count's life: an enrollment below the cap
/// raises the count by one, a close of an enrollment lowers it by one;
/// neither touches the maximum. The count is unsigned, so it can never be
/// negative; the close step demands it positive, so it never wraps.
pub open spec fn enrollment_step(pre: ProjectAccountStateV, post: ProjectAccountStateV) -> bool {
    (pre.data.affiliate_count != pre.data.max_affiliate_count && post.data.affiliate_count
        == pre.data.affiliate_count + 1 && post.data.max_affiliate_count
        == pre.data.max_affiliate_count) || (pre.data.affiliate_count > 0
        && post.data.affiliate_count == pre.data.affiliate_count - 1
        && post.data.max_affiliate_count == pre.data.max_affiliate_count)
}

/// One enrollment step preserves the cap invariant.
pub proof fn lemma_enrollment_step_preserves_cap(
    pre: ProjectAccountStateV,
    post: ProjectAccountStateV,
)
    requires
        pre.cap_invariant(),
        enrollment_step(pre, post),
    ensures
        post.cap_invariant(),
{
}

/// A successful RegisterProject establishes the cap invariant: the created
/// record has no enrollments and a positive maximum.
pub proof fn lemma_register_project_establishes_cap(
    program_id: Key,
    env: LedgerEnv,
    initializer: AccountV,
    pda_account: AccountV,
    system_program: AccountV,
    candy_machine_id: Key,
    affiliate_fee_percentage: u64,
    affiliate_target_in_sol: u8,
    max_affiliate_count: u8,
    title: Seq<u8>,
)
    requires
        register_project_spec(
            program_id,
            env,
            initializer,
            pda_account,
            system_program,
            candy_machine_id,
            affiliate_fee_percentage,
            affiliate_target_in_sol,
            max_affiliate_count,
            title,
        ) is Ok,
    ensures
        ({
            let outs = register_project_spec(
                program_id,
                env,
                initializer,
                pda_account,
                system_program,
                candy_machine_id,
                affiliate_fee_percentage,
                affiliate_target_in_sol,
                max_affiliate_count,
                title,
            ).unwrap();
            &&& parse_project(outs.1.data) is Some
            &&& parse_project(outs.1.data).unwrap().data.affiliate_count == 0
            &&& parse_project(outs.1.data).unwrap().data.max_affiliate_count
                == max_affiliate_count
            &&& max_affiliate_count > 0
            &&& parse_project(outs.1.data).unwrap().cap_invariant()
        }),
{
    let rec = ProjectAccountStateV {
        discriminator: crate::projects::state::project_discriminator_bytes(),
        is_initialized: true,
        data_version: crate::projects::state::PROJECT_ACCOUNT_DATA_VERSION,
        data: crate::projects::state::ProjectAccountStateDataV {
            project_owner_pubkey: initializer.key,
            candy_machine_id: candy_machine_id,
            affiliate_fee_percentage: affiliate_fee_percentage,
            affiliate_target_in_sol: affiliate_target_in_sol,
            max_affiliate_count: max_affiliate_count,
            affiliate_count: 0,
            title: title,
            created_at: env.now,
            updated_at: env.now,
        },
    };
    lemma_parse_project_encoding(
        rec,
        crate::accounts::zero_bytes(
            crate::projects::state::PROJECT_ACCOUNT_LENGTH as int,
        ).skip(rec.encoded_len()),
    );
}

/// A successful RegisterAffiliate performs exactly one upward enrollment
/// step on the stored project record.
pub proof fn lemma_register_affiliate_is_enrollment_step(
    program_id: Key,
    cfg: ProgramConfig,
    env: LedgerEnv,
    initializer: AccountV,
    pda_account: AccountV,
    project_pda_account: AccountV,
    solpay_treasury: AccountV,
    system_program: AccountV,
    project_owner_pubkey: Key,
    candy_machine_id: Key,
)
    requires
        register_affiliate_spec(
            program_id,
            cfg,
            env,
            initializer,
            pda_account,
            project_pda_account,
            solpay_treasury,
            system_program,
            project_owner_pubkey,
            candy_machine_id,
        ) is Ok,
    ensures
        ({
            let outs = register_affiliate_spec(
                program_id,
                cfg,
                env,
                initializer,
                pda_account,
                project_pda_account,
                solpay_treasury,
                system_program,
                project_owner_pubkey,
                candy_machine_id,
            ).unwrap();
            &&& parse_project(project_pda_account.data) is Some
            &&& parse_project(outs.2.data) is Some
            &&& enrollment_step(
                parse_project(project_pda_account.data).unwrap(),
                parse_project(outs.2.data).unwrap(),
            )
        }),
{
    let pre = parse_project(project_pda_account.data).unwrap();
    let proj2 = ProjectAccountStateV {
        data: crate::projects::state::ProjectAccountStateDataV {
            affiliate_count: (pre.data.affiliate_count + 1) as u8,
            ..pre.data
        },
        ..pre
    };
    lemma_parse_project_fits(project_pda_account.data);
    lemma_parse_project_encoding(proj2, project_pda_account.data.skip(proj2.encoded_len()));
}

/// A successful CloseAffiliateAccount performs exactly one downward
/// enrollment step on the stored project record.
pub proof fn lemma_close_affiliate_is_enrollment_step(
    program_id: Key,
    cfg: ProgramConfig,
    initializer: AccountV,
    pda_account: AccountV,
    project_pda_account: AccountV,
    solpay_treasury: AccountV,
    affiliate_pubkey: Key,
    project_owner_pubkey: Key,
    candy_machine_id: Key,
)
    requires
        close_affiliate_spec(
            program_id,
            cfg,
            initializer,
            pda_account,
            project_pda_account,
            solpay_treasury,
            affiliate_pubkey,
            project_owner_pubkey,
            candy_machine_id,
        ) is Ok,
    ensures
        ({
            let outs = close_affiliate_spec(
                program_id,
                cfg,
                initializer,
                pda_account,
                project_pda_account,
                solpay_treasury,
                affiliate_pubkey,
                project_owner_pubkey,
                candy_machine_id,
            ).unwrap();
            &&& parse_project(project_pda_account.data) is Some
            &&& parse_project(outs.1.data) is Some
            &&& enrollment_step(
                parse_project(project_pda_account.data).unwrap(),
                parse_project(outs.1.data).unwrap(),
            )
        }),
{
    let pre = parse_project(project_pda_account.data).unwrap();
    let proj2 = ProjectAccountStateV {
        data: crate::projects::state::ProjectAccountStateDataV {
            affiliate_count: (pre.data.affiliate_count - 1) as u8,
            ..pre.data
        },
        ..pre
    };
    lemma_parse_project_fits(project_pda_account.data);
    lemma_parse_project_encoding(proj2, project_pda_account.data.skip(proj2.encoded_len()));
}

/// The cap invariant holds along every sequence of enrollment steps that
/// starts from a record satisfying it: however RegisterAffiliate and
/// CloseAffiliateAccount interleave, the count never exceeds the maximum.
pub proof fn lemma_cap_invariant_sequence(s: Seq<ProjectAccountStateV>)
    requires
        s.len() > 0,
        s[0].cap_invariant(),
        forall|i: int| 0 <= i < s.len() - 1 ==> enrollment_step(#[trigger] s[i], s[i + 1]),
    ensures
        forall|i: int| 0 <= i < s.len() ==> (#[trigger] s[i]).cap_invariant(),
    decreases s.len(),
{
    if s.len() > 1 {
        let t = s.drop_last();
        assert forall|i: int| 0 <= i < t.len() - 1 implies enrollment_step(
            #[trigger] t[i],
            t[i + 1],
        ) by {
            assert(t[i] == s[i]);
            assert(t[i + 1] == s[i + 1]);
        }
        lemma_cap_invariant_sequence(t);
        let n = s.len() - 1;
        assert(t[n - 1].cap_invariant());
        assert(enrollment_step(s[n - 1], s[n]));
        lemma_enrollment_step_preserves_cap(s[n - 1], s[n]);
        assert forall|i: int| 0 <= i < s.len() implies (#[trigger] s[i]).cap_invariant() by {
            if i < n {
                assert(s[i] == t[i]);
            }
        }
    }
}

/// Redemption is bounded by the balance present: a successful RedeemReward
/// moves exactly the target amount, which the affiliate slot's balance
/// covered, to the signer; and the cumulative redemption counter rises by
/// the target, so it never decreases.
pub proof fn lemma_redeem_bounded_by_balance(
    program_id: Key,
    cfg: ProgramConfig,
    initializer: AccountV,
    affiliate_pda_account: AccountV,
    project_pda_account: AccountV,
    project_owner_pubkey: Key,
    candy_machine_id: Key,
)
    requires
        redeem_reward_spec(
            program_id,
            cfg,
            initializer,
            affiliate_pda_account,
            project_pda_account,
            project_owner_pubkey,
            candy_machine_id,
        ) is Ok,
    ensures
        ({
            let outs = redeem_reward_spec(
                program_id,
                cfg,
                initializer,
                affiliate_pda_account,
                project_pda_account,
                project_owner_pubkey,
                candy_machine_id,
            ).unwrap();
            let amount = spec_redeem_amount(
                parse_project(project_pda_account.data).unwrap().data.affiliate_target_in_sol,
            );
            let target = parse_project(
                project_pda_account.data,
            ).unwrap().data.affiliate_target_in_sol;
            &&& amount <= affiliate_pda_account.lamports
            &&& outs.1.lamports == affiliate_pda_account.lamports - amount
            &&& outs.0.lamports == initializer.lamports + amount
            &&& parse_affiliate(outs.1.data) is Some
            &&& parse_affiliate(outs.1.data).unwrap().data.total_redeemed_amount_in_sol
                == parse_affiliate(
                affiliate_pda_account.data,
            ).unwrap().data.total_redeemed_amount_in_sol + target
        }),
{
    let arec = parse_affiliate(affiliate_pda_account.data).unwrap();
    let proj = parse_project(project_pda_account.data).unwrap();
    let arec2 = crate::affiliates::state::AffiliateAccountStateV {
        data: crate::affiliates::state::AffiliateAccountStateDataV {
            total_redeemed_amount_in_sol: (arec.data.total_redeemed_amount_in_sol
                + proj.data.affiliate_target_in_sol) as u32,
            ..arec.data
        },
        ..arec
    };
    lemma_parse_affiliate_fits(affiliate_pda_account.data);
    lemma_parse_affiliate_encoding(
        arec2,
        affiliate_pda_account.data.skip(arec2.encoded_len()),
    );
}

/// Conservation on CloseProject: the slot ends empty and its whole balance
/// reappears, exactly once, at the destination; nothing is created or
/// destroyed.
pub proof fn lemma_close_project_conserves(
    program_id: Key,
    cfg: ProgramConfig,
    initializer: AccountV,
    pda_account: AccountV,
    owner_account: AccountV,
    project_owner_pubkey: Key,
    candy_machine_id: Key,
)
    requires
        close_project_spec(
            program_id,
            cfg,
            initializer,
            pda_account,
            owner_account,
            project_owner_pubkey,
            candy_machine_id,
        ) is Ok,
    ensures
        ({
            let outs = close_project_spec(
                program_id,
                cfg,
                initializer,
                pda_account,
                owner_account,
                project_owner_pubkey,
                candy_machine_id,
            ).unwrap();
            &&& outs.0.lamports == 0
            &&& outs.0.data.len() == 0
            &&& outs.1.lamports == owner_account.lamports + pda_account.lamports
            &&& outs.0.lamports + outs.1.lamports == pda_account.lamports
                + owner_account.lamports
        }),
{
}

/// Conservation on CloseAffiliateAccount: the slot ends empty and its whole
/// balance reappears, exactly once, at the treasury.
pub proof fn lemma_close_affiliate_conserves(
    program_id: Key,
    cfg: ProgramConfig,
    initializer: AccountV,
    pda_account: AccountV,
    project_pda_account: AccountV,
    solpay_treasury: AccountV,
    affiliate_pubkey: Key,
    project_owner_pubkey: Key,
    candy_machine_id: Key,
)
    requires
        close_affiliate_spec(
            program_id,
            cfg,
            initializer,
            pda_account,
            project_pda_account,
            solpay_treasury,
            affiliate_pubkey,
            project_owner_pubkey,
            candy_machine_id,
        ) is Ok,
    ensures
        ({
            let outs = close_affiliate_spec(
                program_id,
                cfg,
                initializer,
                pda_account,
                project_pda_account,
                solpay_treasury,
                affiliate_pubkey,
                project_owner_pubkey,
                candy_machine_id,
            ).unwrap();
            &&& outs.0.lamports == 0
            &&& outs.0.data.len() == 0
            &&& outs.2.lamports == solpay_treasury.lamports + pda_account.lamports
            &&& outs.0.lamports + outs.2.lamports == pda_account.lamports
                + solpay_treasury.lamports
        }),
{
}

/// Re-initialization is rejected: once RegisterProject has succeeded, the
/// slot holds a record image, and any further RegisterProject against that
/// slot — whatever signer, environment or arguments — fails; by the
/// operations' contracts a failure leaves the slot untouched.
pub proof fn lemma_register_project_rejects_reinit(
    program_id: Key,
    env: LedgerEnv,
    initializer: AccountV,
    pda_account: AccountV,
    system_program: AccountV,
    candy_machine_id: Key,
    affiliate_fee_percentage: u64,
    affiliate_target_in_sol: u8,
    max_affiliate_count: u8,
    title: Seq<u8>,
    program_id2: Key,
    env2: LedgerEnv,
    initializer2: AccountV,
    system_program2: AccountV,
    candy_machine_id2: Key,
    affiliate_fee_percentage2: u64,
    affiliate_target_in_sol2: u8,
    max_affiliate_count2: u8,
    title2: Seq<u8>,
)
    requires
        register_project_spec(
            program_id,
            env,
            initializer,
            pda_account,
            system_program,
            candy_machine_id,
            affiliate_fee_percentage,
            affiliate_target_in_sol,
            max_affiliate_count,
            title,
        ) is Ok,
    ensures
        ({
            let outs = register_project_spec(
                program_id,
                env,
                initializer,
                pda_account,
                system_program,
                candy_machine_id,
                affiliate_fee_percentage,
                affiliate_target_in_sol,
                max_affiliate_count,
                title,
            ).unwrap();
            register_project_spec(
                program_id2,
                env2,
                initializer2,
                outs.1,
                system_program2,
                candy_machine_id2,
                affiliate_fee_percentage2,
                affiliate_target_in_sol2,
                max_affiliate_count2,
                title2,
            ) is Err
        }),
{
    let outs = register_project_spec(
        program_id,
        env,
        initializer,
        pda_account,
        system_program,
        candy_machine_id,
        affiliate_fee_percentage,
        affiliate_target_in_sol,
        max_affiliate_count,
        title,
    ).unwrap();
    assert(outs.1.data.len() > 0);
}

/// Re-initialization is rejected for affiliate records too: once
/// RegisterAffiliate has succeeded, any further RegisterAffiliate against
/// the created slot fails.
pub proof fn lemma_register_affiliate_rejects_reinit(
    program_id: Key,
    cfg: ProgramConfig,
    env: LedgerEnv,
    initializer: AccountV,
    pda_account: AccountV,
    project_pda_account: AccountV,
    solpay_treasury: AccountV,
    system_program: AccountV,
    project_owner_pubkey: Key,
    candy_machine_id: Key,
    program_id2: Key,
    cfg2: ProgramConfig,
    env2: LedgerEnv,
    initializer2: AccountV,
    project_pda_account2: AccountV,
    solpay_treasury2: AccountV,
    system_program2: AccountV,
    project_owner_pubkey2: Key,
    candy_machine_id2: Key,
)
    requires
        register_affiliate_spec(
            program_id,
            cfg,
            env,
            initializer,
            pda_account,
            project_pda_account,
            solpay_treasury,
            system_program,
            project_owner_pubkey,
            candy_machine_id,
        ) is Ok,
    ensures
        ({
            let outs = register_affiliate_spec(
                program_id,
                cfg,
                env,
                initializer,
                pda_account,
                project_pda_account,
                solpay_treasury,
                system_program,
                project_owner_pubkey,
                candy_machine_id,
            ).unwrap();
            register_affiliate_spec(
                program_id2,
                cfg2,
                env2,
                initializer2,
                outs.1,
                project_pda_account2,
                solpay_treasury2,
                system_program2,
                project_owner_pubkey2,
                candy_machine_id2,
            ) is Err
        }),
{
    let outs = register_affiliate_spec(
        program_id,
        cfg,
        env,
        initializer,
        pda_account,
        project_pda_account,
        solpay_treasury,
        system_program,
        project_owner_pubkey,
        candy_machine_id,
    ).unwrap();
    assert(outs.1.data.len() > 0);
}

} // verus!
