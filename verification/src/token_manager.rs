use vstd::prelude::*;
use crate::errors::{LedgerError, TokenManagerError};
use crate::ledger::{moves_funds, transfer_allowed, transfer_error, Identity, Ledger};

verus! {

/// The fixed amount the sweep operation moves to its designated recipient:
/// five hundred whole tokens at nine decimal places. A configuration-time
/// constant, not a caller-supplied value.
pub const SWEEP_AMOUNT: u64 = 500_000_000_000;

/// The registry that owns the right to mint: who may mint, how much has been
/// minted through it, and whether it is still active. It is the single source
/// of truth for mint authorization; no caller-supplied flag substitutes for
/// its stored fields.
#[derive(Clone, Copy, Debug, PartialEq, Eq, Structural)]
pub struct TokenManager {
    /// The one identity permitted to mint and to deactivate.
    pub mint_authority: Identity,
    /// Sum of all successfully minted amounts; monotonically non-decreasing.
    pub total_minted: u64,
    /// Emergency stop: once cleared, no operation of this core sets it back.
    pub is_active: bool,
}

/// Holds when `caller` may mint through manager `m`: it must be the mint
/// authority, and the manager must not have been emergency-stopped.
pub open spec fn mint_permitted(m: TokenManager, caller: Identity) -> bool {
    caller == m.mint_authority && m.is_active
}

/// Relates the managers before and after a successful mint of `amount`:
/// the counter grows by exactly `amount` and nothing else changes.
pub open spec fn mint_applied(pre: TokenManager, post: TokenManager, amount: u64) -> bool {
    &&& post.total_minted == pre.total_minted + amount
    &&& post.mint_authority == pre.mint_authority
    &&& post.is_active == pre.is_active
}

/// Law: successful mints accumulate. Over any two consecutive successful
/// mints the counter grows by exactly the sum of the amounts, whichever
/// order they come in, and the authority is untouched.
pub proof fn lemma_mint_accumulation(
    m0: TokenManager,
    m1: TokenManager,
    m2: TokenManager,
    a1: u64,
    a2: u64,
)
    requires
        mint_applied(m0, m1, a1),
        mint_applied(m1, m2, a2),
    ensures
        m2.total_minted == m0.total_minted + a1 + a2,
        m2.total_minted == m0.total_minted + a2 + a1,
        m2.mint_authority == m0.mint_authority,
        m2.is_active == m0.is_active,
{
}

/// The sum of a sequence of mint amounts.
pub open spec fn minted_sum(amounts: Seq<u64>) -> int
    decreases amounts.len(),
{
    if amounts.len() == 0 {
        0
    } else {
        minted_sum(amounts.drop_last()) + amounts.last()
    }
}

/// Law: over any sequence of successful mints, `total_minted` grows by
/// exactly the sum of the minted amounts, and the authority and the active
/// flag never change. `states` are the manager states seen along the way,
/// each step a successful mint of the matching amount.
pub proof fn lemma_mint_sequence_accumulation(states: Seq<TokenManager>, amounts: Seq<u64>)
    requires
        states.len() == amounts.len() + 1,
        forall|i: int|
            0 <= i < amounts.len() ==> mint_applied(states[i], states[i + 1], amounts[i]),
    ensures
        states.last().total_minted == states[0].total_minted + minted_sum(amounts),
        states.last().mint_authority == states[0].mint_authority,
        states.last().is_active == states[0].is_active,
    decreases amounts.len(),
{
    if amounts.len() > 0 {
        assert forall|i: int| 0 <= i < amounts.len() - 1 implies mint_applied(
            states.drop_last()[i],
            states.drop_last()[i + 1],
            amounts.drop_last()[i],
        ) by {
            assert(mint_applied(states[i], states[i + 1], amounts[i]));
        }
        lemma_mint_sequence_accumulation(states.drop_last(), amounts.drop_last());
        assert(mint_applied(states[states.len() - 2], states[states.len() - 1], amounts.last()));
    }
}

/// Law: once a manager is deactivated, no identity at all is permitted to
/// mint through it.
pub proof fn lemma_deactivated_blocks_mint(m: TokenManager, caller: Identity)
    requires
        !m.is_active,
    ensures
        !mint_permitted(m, caller),
{
}

impl TokenManager {
    /// Creates the registry: nothing minted yet, active, owned by
    /// `mint_authority`.
    pub fn initialize(mint_authority: Identity) -> (m: TokenManager)
        ensures
            m.mint_authority == mint_authority,
            m.total_minted == 0,
            m.is_active,
    {
        TokenManager { mint_authority, total_minted: 0, is_active: true }
    }

    /// Mints `amount` new units into `to`'s ledger account.
    ///
    /// Fails with `UnauthorizedMintAuthority` unless `caller` is the mint
    /// authority, and with `TokenManagerInactive` if the manager was
    /// deactivated. The bookkeeping addition to `total_minted` is checked
    /// *before* the ledger is credited, so a `MathOverflow` never leaves
    /// funds minted that the counter does not account for. On any failure
    /// neither the manager nor the ledger changes.
    pub fn mint_tokens(
        &mut self,
        ledger: &mut Ledger,
        caller: Identity,
        to: Identity,
        amount: u64,
    ) -> (r: Result<(), TokenManagerError>)
        ensures
            caller != old(self).mint_authority ==> r == Err::<(), TokenManagerError>(
                TokenManagerError::UnauthorizedMintAuthority,
            ),
            caller == old(self).mint_authority && !old(self).is_active ==> r == Err::<
                (),
                TokenManagerError,
            >(TokenManagerError::TokenManagerInactive),
            mint_permitted(*old(self), caller) && (old(self).total_minted + amount > u64::MAX
                || old(ledger).balance_of(to) + amount > u64::MAX) ==> r == Err::<
                (),
                TokenManagerError,
            >(TokenManagerError::MathOverflow),
            r is Ok <==> r == Ok::<(), TokenManagerError>(()),
            r == Ok::<(), TokenManagerError>(()) <==> mint_permitted(*old(self), caller) && old(self).total_minted + amount
                <= u64::MAX && old(ledger).balance_of(to) + amount <= u64::MAX,
            r is Ok ==> mint_applied(*old(self), *final(self), amount),
            r is Ok ==> final(ledger).balance_of(to) == old(ledger).balance_of(to) + amount,
            r is Ok ==> forall|a: Identity|
                a != to ==> #[trigger] final(ledger).balance_of(a) == old(ledger).balance_of(a),
            r is Err ==> *final(self) == *old(self) && *final(ledger) == *old(ledger),
    {
        if caller != self.mint_authority {
            return Err(TokenManagerError::UnauthorizedMintAuthority);
        }
        if !self.is_active {
            return Err(TokenManagerError::TokenManagerInactive);
        }
        let credited_total = match self.total_minted.checked_add(amount) {
            Some(t) => t,
            None => {
                return Err(TokenManagerError::MathOverflow);
            },
        };
        match ledger.mint(to, amount) {
            Ok(()) => {
                self.total_minted = credited_total;
                Ok(())
            },
            Err(_) => Err(TokenManagerError::MathOverflow),
        }
    }

    /// Emergency stop: clears `is_active`, never to be set again by any
    /// operation of this core. Only the mint authority may call it, and it is
    /// idempotent — deactivating an already-inactive manager is not an error.
    pub fn deactivate(&mut self, caller: Identity) -> (r: Result<(), TokenManagerError>)
        ensures
            r is Ok <==> r == Ok::<(), TokenManagerError>(()),
            r == Ok::<(), TokenManagerError>(()) <==> caller == old(self).mint_authority,
            r is Err ==> r == Err::<(), TokenManagerError>(
                TokenManagerError::UnauthorizedMintAuthority,
            ) && *final(self) == *old(self),
            r is Ok ==> !final(self).is_active,
            final(self).mint_authority == old(self).mint_authority,
            final(self).total_minted == old(self).total_minted,
            final(self).is_active ==> old(self).is_active,
    {
        if caller != self.mint_authority {
            return Err(TokenManagerError::UnauthorizedMintAuthority);
        }
        self.is_active = false;
        Ok(())
    }
}

/// Moves `amount` from `from` to `to` with `caller` as the authorizing
/// party: a pure pass-through to the ledger, no registry state is read or
/// written.
pub fn transfer_tokens(
    ledger: &mut Ledger,
    caller: Identity,
    from: Identity,
    to: Identity,
    amount: u64,
) -> (r: Result<(), LedgerError>)
    ensures
        r is Ok <==> r == Ok::<(), LedgerError>(()),
        r == Ok::<(), LedgerError>(()) <==> transfer_allowed(*old(ledger), from, to, amount, caller),
        r is Ok ==> moves_funds(*old(ledger), *final(ledger), from, to, amount),
        r is Err ==> r == Err::<(), LedgerError>(
            transfer_error(*old(ledger), from, to, amount, caller),
        ) && *final(ledger) == *old(ledger),
{
    ledger.transfer(from, to, amount, caller)
}

/// Sweeps the fixed `SWEEP_AMOUNT` from `from` to the designated recipient
/// `to`, authorized by `caller`: the same pass-through as `transfer_tokens`
/// with the amount hard-coded.
pub fn transfer_to_phantom_wallet(
    ledger: &mut Ledger,
    caller: Identity,
    from: Identity,
    to: Identity,
) -> (r: Result<(), LedgerError>)
    ensures
        r is Ok <==> r == Ok::<(), LedgerError>(()),
        r == Ok::<(), LedgerError>(()) <==> transfer_allowed(*old(ledger), from, to, SWEEP_AMOUNT, caller),
        r is Ok ==> moves_funds(*old(ledger), *final(ledger), from, to, SWEEP_AMOUNT),
        r is Err ==> r == Err::<(), LedgerError>(
            transfer_error(*old(ledger), from, to, SWEEP_AMOUNT, caller),
        ) && *final(ledger) == *old(ledger),
{
    ledger.transfer(from, to, SWEEP_AMOUNT, caller)
}

} // verus!
