//! The model of a ledger account, the static configuration handed to the
//! dispatcher, and the shared semantics of the ledger's account-creation
//! primitive.

use vstd::prelude::*;
use crate::keys::Key;
use crate::error::ProgramFault;

verus! {

/// One native unit of a whole reward unit.
pub const LAMPORTS_PER_SOL: u64 = 1_000_000_000;

/// The fixed fee an affiliate pays to the treasury on enrollment, in native
/// units: a tenth of one reward unit.
pub const AFFILIATE_REGISTRATION_FEE: u64 = 100_000_000;

/// One ledger account as an operation sees it: its address, whether its
/// holder signed this invocation, the program that owns its storage, its
/// native-unit balance, and its raw record bytes.
pub struct Account {
    pub key: Key,
    pub is_signer: bool,
    pub owner: Key,
    pub lamports: u64,
    pub data: Vec<u8>,
}

/// The mathematical value of an [`Account`]: the same fields with the record
/// bytes as a sequence.
#[verifier::ext_equal]
pub struct AccountV {
    pub key: Key,
    pub is_signer: bool,
    pub owner: Key,
    pub lamports: u64,
    pub data: Seq<u8>,
}

impl View for Account {
    type V = AccountV;

    open spec fn view(&self) -> AccountV {
        AccountV {
            key: self.key,
            is_signer: self.is_signer,
            owner: self.owner,
            lamports: self.lamports,
            data: self.data@,
        }
    }
}

impl DeepView for Account {
    type V = AccountV;

    open spec fn deep_view(&self) -> AccountV {
        self.view()
    }
}

/// The account-creation primitive rejects a slot that already holds balance
/// or data or is owned by another program; the ledger's own program (the
/// all-zero identity) must still own it.
pub open spec fn system_owner() -> Key {
    Key::spec_zero()
}

/// `n` zero bytes: the content of a freshly allocated slot.
pub open spec fn zero_bytes(n: int) -> Seq<u8> {
    Seq::new(n as nat, |i: int| 0u8)
}

/// What the ledger's `create_account` primitive does: move `lamports` from
/// the payer into a fresh slot of `size` zeroed bytes owned by `owner`.
/// It refuses a slot that is already in use (non-zero balance, non-empty
/// data, or an owner other than the ledger's own program) and a payer that
/// cannot fund the reserve.
pub open spec fn spec_create_account(
    payer: AccountV,
    fresh: AccountV,
    lamports: u64,
    size: int,
    owner: Key,
) -> Result<(AccountV, AccountV), ProgramFault> {
    if fresh.lamports != 0 || fresh.data.len() != 0 || fresh.owner != system_owner() {
        Err(ProgramFault::AccountAlreadyInUse)
    } else if payer.lamports < lamports {
        Err(ProgramFault::InsufficientFunds)
    } else {
        Ok(
            (
                AccountV { lamports: (payer.lamports - lamports) as u64, ..payer },
                AccountV { lamports: lamports, owner: owner, data: zero_bytes(size), ..fresh },
            ),
        )
    }
}

/// A vector of `n` zero bytes.
pub fn make_zero_bytes(n: usize) -> (r: Vec<u8>)
    ensures
        r@ == zero_bytes(n as int),
{
    let r: Vec<u8> = vec![0u8; n];
    assert(r@ =~= zero_bytes(n as int));
    r
}

/// How the reward-redemption linkage between an affiliate record and its
/// project record is judged: `MatchEither` accepts the pair as soon as one of
/// the two identity fields (owner, campaign) agrees; `MatchBoth` demands that
/// both agree.
#[derive(Clone, Copy, PartialEq, Eq, Structural, Debug)]
pub enum LinkagePolicy {
    MatchEither,
    MatchBoth,
}

/// The static configuration handed to the dispatcher at process start: the
/// single administrator identity, the treasury identity, and the redemption
/// linkage policy.
#[derive(Clone, Copy, PartialEq, Eq, Structural, Debug)]
pub struct ProgramConfig {
    pub admin: Key,
    pub treasury: Key,
    pub linkage: LinkagePolicy,
}

/// The environment values an invocation reads from the ledger: the current
/// timestamp and the minimum reserve balance for each record size.
#[derive(Clone, Copy, PartialEq, Eq, Structural, Debug)]
pub struct LedgerEnv {
    pub now: i64,
    pub project_rent_lamports: u64,
    pub affiliate_rent_lamports: u64,
}

} // verus!
