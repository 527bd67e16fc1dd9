//! The vault state machine: the persistent vault record, its registry, and
//! the three operations `initialize_vault`, `deposit` and `withdraw`.
//!
//! Each operation validates every step before touching any account, so a
//! failure never leaves a half-applied movement: either all three effects of
//! a deposit or withdrawal (asset movement, claim issuance or redemption,
//! counter update) are applied, or none is.

use vstd::prelude::*;

use crate::authority::Bumps;
use crate::authority::bumps_for;
use crate::authority::derive_authority;
use crate::authority::spec_authority_id;
use crate::authority::spec_bumps_for;
use crate::authority::spec_vault_id;
use crate::authority::vault_id_of;
use crate::errors::ErrorCode;
use crate::ledger::AssetAccount;
use crate::ledger::ClaimAccount;
use crate::ledger::ClaimMint;
use crate::ledger::asset_move_allowed;
use crate::ledger::issue_claim;
use crate::ledger::move_asset;
use crate::ledger::redeem_claim;

verus! {

/// The persistent accounting record of one vault: one per owner and asset
/// type. `net_deposit` is the outstanding principal in custody; it moves
/// only under checked arithmetic. `reserved_yield` is a placeholder for an
/// accrual feature that does not exist yet: it is never populated and never
/// read.
#[derive(Clone, Debug, PartialEq, Eq)]
pub struct Vault {
    pub owner: u64,
    pub asset_type: u64,
    pub net_deposit: u64,
    pub initialized: bool,
    pub reserved_yield: Option<u64>,
    pub bumps: Bumps,
}

/// The external-ledger accounts tied to one vault: its custody account, the
/// mint of its claim token, and the owner's claim account.
#[derive(Clone, Copy, Debug, PartialEq, Eq, Structural)]
pub struct VaultAccounts {
    pub custody: AssetAccount,
    pub claim_mint: ClaimMint,
    pub owner_claim: ClaimAccount,
}

/// A vault record is well formed when it has gone through initialization:
/// the flag is set, the yield field is still absent, and the stored proof
/// material matches the derivation from its owner and asset type.
pub open spec fn vault_wf(v: Vault) -> bool {
    &&& v.initialized
    &&& v.reserved_yield is None
    &&& v.bumps == spec_bumps_for(v.owner, v.asset_type)
}

/// The ledger accounts are wired to the vault: custody and mint answer to
/// the vault's derived authority, and the claim account belongs to the
/// vault's owner.
pub open spec fn accounts_wf(v: Vault, a: VaultAccounts) -> bool {
    &&& a.custody.controller == spec_authority_id(spec_vault_id(v.owner, v.asset_type))
    &&& a.claim_mint.authority == spec_authority_id(spec_vault_id(v.owner, v.asset_type))
    &&& a.owner_claim.holder == v.owner
}

/// The three ledgers agree: the custody balance, the outstanding claim
/// supply and the owner's claim balance all equal the net deposit.
pub open spec fn balanced(v: Vault, a: VaultAccounts) -> bool {
    &&& a.custody.balance == v.net_deposit
    &&& a.claim_mint.supply == v.net_deposit
    &&& a.owner_claim.balance == v.net_deposit
}

/// The standing invariant of an initialized vault and its accounts.
pub open spec fn consistent(v: Vault, a: VaultAccounts) -> bool {
    &&& vault_wf(v)
    &&& accounts_wf(v, a)
    &&& balanced(v, a)
}

/// The vault record as `initialize_vault` creates it.
pub open spec fn spec_new_vault(owner: u64, asset_type: u64) -> Vault {
    Vault {
        owner,
        asset_type,
        net_deposit: 0,
        initialized: true,
        reserved_yield: None,
        bumps: spec_bumps_for(owner, asset_type),
    }
}

/// The ledger accounts as `initialize_vault` creates them: empty, with
/// custody and mint controlled by the vault's derived authority.
pub open spec fn spec_new_accounts(owner: u64, asset_type: u64) -> VaultAccounts {
    VaultAccounts {
        custody: AssetAccount {
            controller: spec_authority_id(spec_vault_id(owner, asset_type)),
            balance: 0,
        },
        claim_mint: ClaimMint {
            authority: spec_authority_id(spec_vault_id(owner, asset_type)),
            supply: 0,
        },
        owner_claim: ClaimAccount { holder: owner, balance: 0 },
    }
}

/// A freshly initialized vault satisfies the standing invariant and starts
/// with nothing deposited.
pub proof fn lemma_new_vault_consistent(owner: u64, asset_type: u64)
    ensures
        consistent(spec_new_vault(owner, asset_type), spec_new_accounts(owner, asset_type)),
        spec_new_vault(owner, asset_type).net_deposit == 0,
{
}

/// The key under which a vault is registered: one vault per owner and asset
/// type.
#[derive(Clone, Copy, Debug, PartialEq, Eq, Structural)]
pub struct VaultKey {
    pub owner: u64,
    pub asset_type: u64,
}

/// The record of which `(owner, asset_type)` pairs already have a vault,
/// consulted by `initialize_vault` to make initialization one-time.
#[derive(Clone, Debug)]
pub struct VaultRegistry {
    pub keys: Vec<VaultKey>,
}

impl VaultRegistry {
    /// Whether a vault for `(owner, asset_type)` has been registered.
    pub open spec fn contains_spec(self, owner: u64, asset_type: u64) -> bool {
        exists|i: int|
            0 <= i < self.keys@.len() && #[trigger] self.keys@[i] == (VaultKey {
                owner,
                asset_type,
            })
    }

    /// No pair is registered twice.
    pub open spec fn wf(self) -> bool {
        forall|i: int, j: int|
            0 <= i < j < self.keys@.len() ==> #[trigger] self.keys@[i] != #[trigger] self.keys@[j]
    }

    /// An empty registry: no vault exists yet.
    pub fn new() -> (r: VaultRegistry)
        ensures
            r.keys@.len() == 0,
            r.wf(),
    {
        VaultRegistry { keys: Vec::new() }
    }

    /// Looks up whether a vault for `(owner, asset_type)` is registered.
    pub fn contains_vault(&self, owner: u64, asset_type: u64) -> (r: bool)
        ensures
            r == self.contains_spec(owner, asset_type),
    {
        let mut i: usize = 0;
        while i < self.keys.len()
            invariant
                0 <= i <= self.keys@.len(),
                forall|k: int|
                    0 <= k < i ==> #[trigger] self.keys@[k] != (VaultKey { owner, asset_type }),
            decreases self.keys@.len() - i,
        {
            let entry = self.keys[i];
            if entry.owner == owner && entry.asset_type == asset_type {
                proof {
                    assert(self.keys@[i as int] == (VaultKey { owner, asset_type }));
                }
                return true;
            }
            i = i + 1;
        }
        false
    }
}

/// Creates the vault for `(owner, asset_type)`: derives its identity and
/// authority, opens its custody account and claim mint under that authority,
/// and registers the pair.
///
/// Initialization is one-time: a second call for the same pair fails with
/// `AlreadyInitialized` and changes nothing.
pub fn initialize_vault(
    registry: &mut VaultRegistry,
    owner: u64,
    asset_type: u64,
) -> (r: Result<(Vault, VaultAccounts), ErrorCode>)
    requires
        old(registry).wf(),
    ensures
        final(registry).wf(),
        old(registry).contains_spec(owner, asset_type) ==> {
            &&& r == Err::<(Vault, VaultAccounts), ErrorCode>(ErrorCode::AlreadyInitialized)
            &&& *final(registry) == *old(registry)
        },
        !old(registry).contains_spec(owner, asset_type) ==> {
            &&& r == Ok::<(Vault, VaultAccounts), ErrorCode>(
                (spec_new_vault(owner, asset_type), spec_new_accounts(owner, asset_type)),
            )
            &&& final(registry).keys@ == old(registry).keys@.push(
                (VaultKey { owner, asset_type }),
            )
            &&& final(registry).contains_spec(owner, asset_type)
        },
{
    if registry.contains_vault(owner, asset_type) {
        return Err(ErrorCode::AlreadyInitialized);
    }
    let vault_id: u64 = vault_id_of(owner, asset_type);
    let authority = derive_authority(vault_id);
    let vault = Vault {
        owner,
        asset_type,
        net_deposit: 0,
        initialized: true,
        reserved_yield: None,
        bumps: bumps_for(owner, asset_type),
    };
    let accounts = VaultAccounts {
        custody: AssetAccount { controller: authority.identity, balance: 0 },
        claim_mint: ClaimMint { authority: authority.identity, supply: 0 },
        owner_claim: ClaimAccount { holder: owner, balance: 0 },
    };
    registry.keys.push(VaultKey { owner, asset_type });
    proof {
        assert(registry.keys@[registry.keys@.len() - 1] == (VaultKey { owner, asset_type }));
        assert forall|i: int, j: int| 0 <= i < j < registry.keys@.len() implies #[trigger] registry
            .keys@[i] != #[trigger] registry.keys@[j] by {
            if j == registry.keys@.len() - 1 {
                assert(old(registry).keys@[i] != (VaultKey { owner, asset_type }));
                assert(registry.keys@[i] == old(registry).keys@[i]);
            } else {
                assert(old(registry).keys@[i] != old(registry).keys@[j]);
            }
        }
    }
    Ok((vault, accounts))
}

/// The outcome a deposit decides on, in the order the checks are made:
/// the amount, the lifecycle flag and the caller first, then the staged
/// preconditions of the counter update and of the claim issuance, and only
/// then the asset movement — so a request that would fail later never
/// triggers a transfer.
pub open spec fn spec_deposit_result(
    v: Vault,
    a: VaultAccounts,
    owner_asset: AssetAccount,
    caller: u64,
    amount: u64,
) -> Result<u64, ErrorCode> {
    if amount == 0 {
        Err(ErrorCode::InvalidAmount)
    } else if !v.initialized {
        Err(ErrorCode::NotInitialized)
    } else if caller != v.owner {
        Err(ErrorCode::Unauthorized)
    } else if v.net_deposit + amount > u64::MAX {
        Err(ErrorCode::ArithmeticOverflow)
    } else if a.claim_mint.authority != spec_authority_id(spec_vault_id(v.owner, v.asset_type)) {
        Err(ErrorCode::Unauthorized)
    } else if a.claim_mint.supply + amount > u64::MAX || a.owner_claim.balance + amount
        > u64::MAX {
        Err(ErrorCode::ArithmeticOverflow)
    } else if !asset_move_allowed(owner_asset, a.custody, caller, amount) {
        Err(ErrorCode::TransferRejected)
    } else {
        Ok((v.net_deposit + amount) as u64)
    }
}

/// Deposits `amount` of the underlying asset into the vault's custody:
/// moves the asset from the owner's account into custody on the owner's
/// signature, issues `amount` new claims to the owner under the vault's
/// derived authority, and extends the net deposit under checked arithmetic.
///
/// The three effects are applied as one unit: every step is validated
/// before the first account is touched, so on any failure nothing changes —
/// in particular, when the claim issuance would fail, the asset movement is
/// never applied.
pub fn deposit(
    vault: &mut Vault,
    accounts: &mut VaultAccounts,
    owner_asset: &mut AssetAccount,
    caller: u64,
    amount: u64,
) -> (r: Result<u64, ErrorCode>)
    ensures
        r == spec_deposit_result(*old(vault), *old(accounts), *old(owner_asset), caller, amount),
        r is Err ==> {
            &&& *final(vault) == *old(vault)
            &&& *final(accounts) == *old(accounts)
            &&& *final(owner_asset) == *old(owner_asset)
        },
        r is Ok ==> {
            &&& final(vault).net_deposit == old(vault).net_deposit + amount
            &&& r == Ok::<u64, ErrorCode>(final(vault).net_deposit)
            &&& *final(vault) == (Vault { net_deposit: final(vault).net_deposit, ..*old(vault) })
            &&& final(accounts).custody == (AssetAccount {
                controller: old(accounts).custody.controller,
                balance: (old(accounts).custody.balance + amount) as u64,
            })
            &&& final(accounts).claim_mint == (ClaimMint {
                authority: old(accounts).claim_mint.authority,
                supply: (old(accounts).claim_mint.supply + amount) as u64,
            })
            &&& final(accounts).owner_claim == (ClaimAccount {
                holder: old(accounts).owner_claim.holder,
                balance: (old(accounts).owner_claim.balance + amount) as u64,
            })
            &&& *final(owner_asset) == (AssetAccount {
                controller: old(owner_asset).controller,
                balance: (old(owner_asset).balance - amount) as u64,
            })
        },
        amount == 0 ==> r == Err::<u64, ErrorCode>(ErrorCode::InvalidAmount),
        (amount > 0 && old(vault).initialized && caller == old(vault).owner && old(
            vault,
        ).net_deposit + amount > u64::MAX) ==> r == Err::<u64, ErrorCode>(
            ErrorCode::ArithmeticOverflow,
        ),
        (consistent(*old(vault), *old(accounts)) && r is Ok) ==> consistent(
            *final(vault),
            *final(accounts),
        ),
{
    if amount == 0 {
        return Err(ErrorCode::InvalidAmount);
    }
    if !vault.initialized {
        return Err(ErrorCode::NotInitialized);
    }
    if caller != vault.owner {
        return Err(ErrorCode::Unauthorized);
    }
    if vault.net_deposit > u64::MAX - amount {
        return Err(ErrorCode::ArithmeticOverflow);
    }
    let vault_id: u64 = vault_id_of(vault.owner, vault.asset_type);
    let authority = derive_authority(vault_id);
    if accounts.claim_mint.authority != authority.identity {
        return Err(ErrorCode::Unauthorized);
    }
    if accounts.claim_mint.supply > u64::MAX - amount || accounts.owner_claim.balance > u64::MAX
        - amount {
        return Err(ErrorCode::ArithmeticOverflow);
    }
    match move_asset(owner_asset, &mut accounts.custody, caller, amount) {
        Ok(()) => {},
        Err(e) => {
            return Err(e);
        },
    }
    match issue_claim(&mut accounts.owner_claim, &mut accounts.claim_mint, authority.identity,
        amount,
    ) {
        Ok(()) => {},
        Err(e) => {
            // staged above: issuance cannot fail once the movement went through
            return Err(e);
        },
    }
    vault.net_deposit = vault.net_deposit + amount;
    Ok(vault.net_deposit)
}

/// The outcome a withdrawal decides on. The requested amount is held
/// against the custody balance before anything else — an invalid request
/// never triggers a ledger call — then the lifecycle flag and the caller,
/// then the staged preconditions of the counter update and of the claim
/// redemption, and only then the asset movement.
pub open spec fn spec_withdraw_result(
    v: Vault,
    a: VaultAccounts,
    owner_asset: AssetAccount,
    caller: u64,
    amount: u64,
) -> Result<u64, ErrorCode> {
    if amount == 0 || amount > a.custody.balance {
        Err(ErrorCode::InvalidAmount)
    } else if !v.initialized {
        Err(ErrorCode::NotInitialized)
    } else if caller != v.owner {
        Err(ErrorCode::Unauthorized)
    } else if amount > v.net_deposit {
        Err(ErrorCode::ArithmeticUnderflow)
    } else if a.owner_claim.holder != caller {
        Err(ErrorCode::Unauthorized)
    } else if amount > a.owner_claim.balance || amount > a.claim_mint.supply {
        Err(ErrorCode::InsufficientClaim)
    } else if !asset_move_allowed(
        a.custody,
        owner_asset,
        spec_authority_id(spec_vault_id(v.owner, v.asset_type)),
        amount,
    ) {
        Err(ErrorCode::TransferRejected)
    } else {
        Ok((v.net_deposit - amount) as u64)
    }
}

/// Withdraws `amount` of the underlying asset from the vault's custody:
/// moves the asset from custody to the owner's account under the vault's
/// derived authority, redeems `amount` claims out of the owner's claim
/// account on the owner's own signature, and shrinks the net deposit under
/// checked arithmetic.
///
/// As with `deposit`, every step is validated before the first account is
/// touched: on any failure nothing changes. A request for more than the
/// custody balance is rejected before any ledger call is issued.
pub fn withdraw(
    vault: &mut Vault,
    accounts: &mut VaultAccounts,
    owner_asset: &mut AssetAccount,
    caller: u64,
    amount: u64,
) -> (r: Result<u64, ErrorCode>)
    ensures
        r == spec_withdraw_result(*old(vault), *old(accounts), *old(owner_asset), caller, amount),
        r is Err ==> {
            &&& *final(vault) == *old(vault)
            &&& *final(accounts) == *old(accounts)
            &&& *final(owner_asset) == *old(owner_asset)
        },
        r is Ok ==> {
            &&& final(vault).net_deposit == old(vault).net_deposit - amount
            &&& r == Ok::<u64, ErrorCode>(final(vault).net_deposit)
            &&& *final(vault) == (Vault { net_deposit: final(vault).net_deposit, ..*old(vault) })
            &&& final(accounts).custody == (AssetAccount {
                controller: old(accounts).custody.controller,
                balance: (old(accounts).custody.balance - amount) as u64,
            })
            &&& final(accounts).claim_mint == (ClaimMint {
                authority: old(accounts).claim_mint.authority,
                supply: (old(accounts).claim_mint.supply - amount) as u64,
            })
            &&& final(accounts).owner_claim == (ClaimAccount {
                holder: old(accounts).owner_claim.holder,
                balance: (old(accounts).owner_claim.balance - amount) as u64,
            })
            &&& *final(owner_asset) == (AssetAccount {
                controller: old(owner_asset).controller,
                balance: (old(owner_asset).balance + amount) as u64,
            })
        },
        (amount == 0 || amount > old(accounts).custody.balance) ==> r == Err::<u64, ErrorCode>(
            ErrorCode::InvalidAmount,
        ),
        (consistent(*old(vault), *old(accounts)) && r is Ok) ==> consistent(
            *final(vault),
            *final(accounts),
        ),
{
    if amount == 0 || amount > accounts.custody.balance {
        return Err(ErrorCode::InvalidAmount);
    }
    if !vault.initialized {
        return Err(ErrorCode::NotInitialized);
    }
    if caller != vault.owner {
        return Err(ErrorCode::Unauthorized);
    }
    if amount > vault.net_deposit {
        return Err(ErrorCode::ArithmeticUnderflow);
    }
    if accounts.owner_claim.holder != caller {
        return Err(ErrorCode::Unauthorized);
    }
    if amount > accounts.owner_claim.balance || amount > accounts.claim_mint.supply {
        return Err(ErrorCode::InsufficientClaim);
    }
    let vault_id: u64 = vault_id_of(vault.owner, vault.asset_type);
    let authority = derive_authority(vault_id);
    match move_asset(&mut accounts.custody, owner_asset, authority.identity, amount) {
        Ok(()) => {},
        Err(e) => {
            return Err(e);
        },
    }
    match redeem_claim(&mut accounts.owner_claim, &mut accounts.claim_mint, caller, amount) {
        Ok(()) => {},
        Err(e) => {
            // staged above: redemption cannot fail once the movement went through
            return Err(e);
        },
    }
    vault.net_deposit = vault.net_deposit - amount;
    Ok(vault.net_deposit)
}

/// The accounting core of a deposit, for a caller whose accounts live on an
/// external ledger: validates the amount and extends the net deposit under
/// checked arithmetic, failing closed on overflow.
pub fn apply_deposit_amount(net_deposit: u64, amount: u64) -> (r: Result<u64, ErrorCode>)
    ensures
        amount == 0 ==> r == Err::<u64, ErrorCode>(ErrorCode::InvalidAmount),
        (amount > 0 && net_deposit + amount <= u64::MAX) ==> r == Ok::<u64, ErrorCode>(
            (net_deposit + amount) as u64,
        ),
        (amount > 0 && net_deposit + amount > u64::MAX) ==> r == Err::<u64, ErrorCode>(
            ErrorCode::ArithmeticOverflow,
        ),
{
    if amount == 0 {
        return Err(ErrorCode::InvalidAmount);
    }
    match net_deposit.checked_add(amount) {
        Some(updated) => Ok(updated),
        None => Err(ErrorCode::ArithmeticOverflow),
    }
}

/// The accounting core of a withdrawal, for a caller whose accounts live on
/// an external ledger: holds the amount against the custody balance before
/// anything else, then shrinks the net deposit under checked arithmetic,
/// failing closed on underflow.
pub fn apply_withdraw_amount(net_deposit: u64, custody_balance: u64, amount: u64) -> (r: Result<
    u64,
    ErrorCode,
>)
    ensures
        (amount == 0 || amount > custody_balance) ==> r == Err::<u64, ErrorCode>(
            ErrorCode::InvalidAmount,
        ),
        (0 < amount <= custody_balance && amount <= net_deposit) ==> r == Ok::<u64, ErrorCode>(
            (net_deposit - amount) as u64,
        ),
        (0 < amount <= custody_balance && amount > net_deposit) ==> r == Err::<u64, ErrorCode>(
            ErrorCode::ArithmeticUnderflow,
        ),
{
    if amount == 0 || amount > custody_balance {
        return Err(ErrorCode::InvalidAmount);
    }
    match net_deposit.checked_sub(amount) {
        Some(updated) => Ok(updated),
        None => Err(ErrorCode::ArithmeticUnderflow),
    }
}

/// One successful vault operation, as the net-deposit counter sees it.
#[derive(Clone, Copy, Debug, PartialEq, Eq, Structural)]
pub enum VaultOp {
    Deposit(u64),
    Withdraw(u64),
}

/// How one successful operation moves the net-deposit counter: exactly the
/// change `deposit` and `withdraw` guarantee on success.
pub open spec fn op_step(net: int, op: VaultOp) -> int {
    match op {
        VaultOp::Deposit(amount) => net + amount,
        VaultOp::Withdraw(amount) => net - amount,
    }
}

/// The net-deposit counter after a sequence of successful operations.
pub open spec fn net_after(net: int, ops: Seq<VaultOp>) -> int
    decreases ops.len(),
{
    if ops.len() == 0 {
        net
    } else {
        net_after(op_step(net, ops.first()), ops.drop_first())
    }
}

/// The sum of all deposited amounts in a sequence of operations.
pub open spec fn deposits_total(ops: Seq<VaultOp>) -> int
    decreases ops.len(),
{
    if ops.len() == 0 {
        0
    } else {
        (match ops.first() {
            VaultOp::Deposit(amount) => amount as int,
            VaultOp::Withdraw(_) => 0,
        }) + deposits_total(ops.drop_first())
    }
}

/// The sum of all withdrawn amounts in a sequence of operations.
pub open spec fn withdrawals_total(ops: Seq<VaultOp>) -> int
    decreases ops.len(),
{
    if ops.len() == 0 {
        0
    } else {
        (match ops.first() {
            VaultOp::Deposit(_) => 0,
            VaultOp::Withdraw(amount) => amount as int,
        }) + withdrawals_total(ops.drop_first())
    }
}

/// Conservation: across any sequence of successful deposits and withdrawals
/// the net-deposit counter ends at its starting value plus the sum of the
/// deposited amounts minus the sum of the withdrawn amounts. A vault starts
/// at zero, and on success `deposit` and `withdraw` move the counter by
/// exactly `op_step` of the operation — and, when the standing invariant
/// holds, keep the custody balance and the outstanding claim supply equal to
/// it — so the counter, the custody balance and the claim supply all equal
/// that signed sum at every point.
pub proof fn lemma_conservation(start: int, ops: Seq<VaultOp>)
    ensures
        net_after(start, ops) == start + deposits_total(ops) - withdrawals_total(ops),
    decreases ops.len(),
{
    if ops.len() > 0 {
        lemma_conservation(op_step(start, ops.first()), ops.drop_first());
    }
}

} // verus!
