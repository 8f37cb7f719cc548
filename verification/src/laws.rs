//! The ledger's laws: what holds of every exchange and every deposit, stated
//! over the outcome functions that the executable methods are proved to
//! agree with.

use crate::ledger::ExchangeError;
use crate::ledger::LedgerModel;
use crate::ledger::PayoutModel;
use crate::ledger::bundle_has;
use crate::ledger::bundle_ok;
use crate::ledger::exchange_accepted;
use crate::ledger::exchange_outcome;
use crate::ledger::store_outcome;
use vstd::prelude::*;

verus! {

/// An accepted exchange pays out exactly one unit of the upgraded collection,
/// at the ordinal given by the remaining-supply counter as it stood, plus the
/// fixed amount, to the caller; the counter decreases by exactly one; the
/// configuration and the owner are unchanged. The two input assets are
/// retained: no part of the outcome returns them.
pub proof fn lemma_exchange_success(m: LedgerModel, caller: Seq<u8>, b: Seq<Seq<u8>>, held: u64)
    requires
        exchange_accepted(m, b, held),
    ensures
        exchange_outcome(m, caller, b, held) matches Ok((m2, p)) && {
            &&& p.token == m.upgraded
            &&& p.ordinal == m.remaining
            &&& p.amount == m.amount
            &&& p.recipient == caller
            &&& m2.remaining == m.remaining - 1
            &&& m2.owner == m.owner
            &&& m2.amount == m.amount
            &&& m2.first == m.first
            &&& m2.second == m.second
            &&& m2.upgraded == m.upgraded
        },
{
}

/// An exchange whose bundle does not hold exactly two transfers fails with a
/// validation error, whatever identifiers the bundle carries and whatever the
/// inventory holds.
pub proof fn lemma_exchange_wrong_size(m: LedgerModel, caller: Seq<u8>, b: Seq<Seq<u8>>, held: u64)
    requires
        b.len() != 2,
    ensures
        exchange_outcome(m, caller, b, held) == Err::<(LedgerModel, PayoutModel), ExchangeError>(
            ExchangeError::ValidationError,
        ),
{
}

/// An exchange whose bundle holds two transfers but misses either expected
/// input collection fails with a validation error.
pub proof fn lemma_exchange_missing_identifier(
    m: LedgerModel,
    caller: Seq<u8>,
    b: Seq<Seq<u8>>,
    held: u64,
)
    requires
        b.len() == 2,
        !bundle_has(b, m.first) || !bundle_has(b, m.second),
    ensures
        exchange_outcome(m, caller, b, held) == Err::<(LedgerModel, PayoutModel), ExchangeError>(
            ExchangeError::ValidationError,
        ),
{
}

/// An exchange with a well-formed bundle fails with an inventory error when
/// the contract does not hold exactly one unit of the upgraded collection at
/// the current ordinal. (The executable method changes no state on any
/// error: its contract ties every `Err` to an unchanged ledger.)
pub proof fn lemma_exchange_wrong_inventory(
    m: LedgerModel,
    caller: Seq<u8>,
    b: Seq<Seq<u8>>,
    held: u64,
)
    requires
        bundle_ok(b, m.first, m.second),
        held != 1,
    ensures
        exchange_outcome(m, caller, b, held) == Err::<(LedgerModel, PayoutModel), ExchangeError>(
            ExchangeError::InventoryError,
        ),
{
}

/// Once the supply is exhausted, every exchange fails with an inventory
/// error, however well formed the bundle and whatever the host reports held.
pub proof fn lemma_exchange_supply_exhausted(
    m: LedgerModel,
    caller: Seq<u8>,
    b: Seq<Seq<u8>>,
    held: u64,
)
    requires
        bundle_ok(b, m.first, m.second),
        m.remaining <= 0,
    ensures
        exchange_outcome(m, caller, b, held) == Err::<(LedgerModel, PayoutModel), ExchangeError>(
            ExchangeError::InventoryError,
        ),
{
}

/// The configuration and the owner are immutable, and only a successful
/// exchange touches the counter: whatever caller, bundle and reported
/// inventory, the ledger an exchange leaves behind differs from the old one
/// at most in the remaining-supply counter, and then exactly by one.
pub proof fn lemma_exchange_configuration_immutable(
    m: LedgerModel,
    caller: Seq<u8>,
    b: Seq<Seq<u8>>,
    held: u64,
)
    ensures
        exchange_outcome(m, caller, b, held) matches Ok((m2, _)) ==> m2 == (LedgerModel {
            remaining: m.remaining - 1,
            ..m
        }),
{
}

/// The remaining-supply counter never becomes negative: starting from a
/// non-negative counter, every accepted exchange leaves it non-negative (an
/// exchange that would make it negative is rejected).
pub proof fn lemma_remaining_supply_non_negative(
    m: LedgerModel,
    caller: Seq<u8>,
    b: Seq<Seq<u8>>,
    held: u64,
)
    requires
        m.remaining >= 0,
    ensures
        exchange_outcome(m, caller, b, held) matches Ok((m2, _)) ==> m2.remaining >= 0,
{
}

/// A deposit by anyone but the owner fails, regardless of the bundle's
/// content.
pub proof fn lemma_store_not_owner(m: LedgerModel, caller: Seq<u8>, b: Seq<Seq<u8>>)
    requires
        caller != m.owner,
    ensures
        store_outcome(m, caller, b) == Err::<(), ExchangeError>(ExchangeError::NotOwner),
{
}

/// A deposit by the owner whose bundle carries any asset outside the
/// upgraded collection fails with a validation error.
pub proof fn lemma_store_wrong_collection(m: LedgerModel, caller: Seq<u8>, b: Seq<Seq<u8>>)
    requires
        caller == m.owner,
        exists|i: int| 0 <= i < b.len() && b[i] != m.upgraded,
    ensures
        store_outcome(m, caller, b) == Err::<(), ExchangeError>(ExchangeError::ValidationError),
{
}

} // verus!
