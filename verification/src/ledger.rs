//! The exchange ledger: configuration set once at initialization, a
//! remaining-supply counter, and the guarded transitions `evolve_nft` and
//! `store_nfts`.
//!
//! Each transition is decided from the ledger state and from plain values the
//! execution host supplies: the caller's identity, the attached transfer
//! bundle, and the quantity of the upgraded collection the contract holds at
//! the current ordinal. The decision is specified once, as a mathematical
//! outcome function over the ledger's model, and each executable method is
//! proved to agree with it exactly.

use crate::ids::AccountId;
use crate::ids::TokenId;
use vstd::prelude::*;

verus! {

/// Why an invocation was rejected. Every failure is a rejected invocation:
/// the host discards all state writes of a failed invocation, and the
/// methods here change nothing on an `Err`.
#[derive(Clone, Copy, Debug, PartialEq, Eq, Structural)]
pub enum ExchangeError {
    /// The attached bundle is malformed or mismatched: wrong number of
    /// transfers, or the expected collection identifiers are not present.
    ValidationError,
    /// The upgraded-collection asset at the current ordinal is not held in
    /// exactly the expected quantity, or the supply is exhausted.
    InventoryError,
    /// The caller is not the contract owner. The host enforces this gate for
    /// the deployed contract; the model makes it explicit.
    NotOwner,
}

/// The mathematical state of the ledger: the four configuration values, the
/// owner, and the remaining-supply counter.
pub ghost struct LedgerModel {
    /// The deployer's account, the only one allowed to deposit.
    pub owner: Seq<u8>,
    /// Fixed payment accompanying every successful exchange payout.
    pub amount: int,
    /// Identifier of the first input collection.
    pub first: Seq<u8>,
    /// Identifier of the second input collection.
    pub second: Seq<u8>,
    /// Identifier of the upgraded (payout) collection.
    pub upgraded: Seq<u8>,
    /// How many upgraded assets are still available. Never negative; only
    /// successful exchanges change it, by one.
    pub remaining: int,
}

/// What a successful exchange instructs the host to transfer to the caller:
/// one unit of the upgraded collection at the given ordinal, plus the fixed
/// payment amount.
#[derive(Debug)]
pub struct Payout {
    /// The upgraded collection's identifier.
    pub token: TokenId,
    /// The ordinal of the unit to transfer: the remaining-supply count as it
    /// stood when the exchange was accepted.
    pub ordinal: u64,
    /// The fixed payment that accompanies the unit.
    pub amount: u64,
    /// The caller, who receives the payout.
    pub recipient: AccountId,
}

/// The mathematical content of a `Payout`.
pub ghost struct PayoutModel {
    pub token: Seq<u8>,
    pub ordinal: int,
    pub amount: int,
    pub recipient: Seq<u8>,
}

impl View for Payout {
    type V = PayoutModel;

    open spec fn view(&self) -> PayoutModel {
        PayoutModel {
            token: self.token@,
            ordinal: self.ordinal as int,
            amount: self.amount as int,
            recipient: self.recipient@,
        }
    }
}

/// The identifiers of a transfer bundle, as the contract reads it: one
/// collection identifier per attached transfer.
pub open spec fn bundle_view(bundle: Seq<TokenId>) -> Seq<Seq<u8>> {
    bundle.map(|i: int, t: TokenId| t@)
}

/// Whether some transfer in the bundle is tagged with the identifier `id`.
/// Presence-based: order and multiplicity do not matter.
pub open spec fn bundle_has(b: Seq<Seq<u8>>, id: Seq<u8>) -> bool {
    exists|i: int| 0 <= i < b.len() && b[i] == id
}

/// A well-formed exchange bundle: exactly two transfers, among them one
/// tagged with each of the two expected input collections.
pub open spec fn bundle_ok(b: Seq<Seq<u8>>, first: Seq<u8>, second: Seq<u8>) -> bool {
    &&& b.len() == 2
    &&& bundle_has(b, first)
    &&& bundle_has(b, second)
}

/// Whether an exchange is accepted: the bundle is well formed, the contract
/// holds exactly one unit of the upgraded collection at the current ordinal,
/// and the supply is not exhausted.
pub open spec fn exchange_accepted(m: LedgerModel, b: Seq<Seq<u8>>, held: u64) -> bool {
    &&& bundle_ok(b, m.first, m.second)
    &&& held == 1
    &&& m.remaining > 0
}

/// The outcome of an exchange attempt against ledger state `m`, by `caller`,
/// with bundle `b` attached, where the host reports `held` units of the
/// upgraded collection at the current ordinal. On success: the new ledger
/// state (counter down by one) and the payout owed to the caller; the two
/// input assets are retained by the contract (no part of the outcome returns
/// them). On failure: the error, and the state is unchanged.
pub open spec fn exchange_outcome(m: LedgerModel, caller: Seq<u8>, b: Seq<Seq<u8>>, held: u64) -> Result<
    (LedgerModel, PayoutModel),
    ExchangeError,
> {
    if !bundle_ok(b, m.first, m.second) {
        Err(ExchangeError::ValidationError)
    } else if held != 1 || m.remaining <= 0 {
        Err(ExchangeError::InventoryError)
    } else {
        Ok(
            (
                LedgerModel { remaining: m.remaining - 1, ..m },
                PayoutModel {
                    token: m.upgraded,
                    ordinal: m.remaining,
                    amount: m.amount,
                    recipient: caller,
                },
            ),
        )
    }
}

/// The outcome of a deposit attempt against ledger state `m` by `caller`:
/// accepted exactly when the caller is the owner and every transfer in the
/// bundle is tagged with the upgraded collection. A deposit changes no
/// ledger state; the host tracks the deposited inventory as account balance.
pub open spec fn store_outcome(m: LedgerModel, caller: Seq<u8>, b: Seq<Seq<u8>>) -> Result<
    (),
    ExchangeError,
> {
    if caller != m.owner {
        Err(ExchangeError::NotOwner)
    } else if exists|i: int| 0 <= i < b.len() && b[i] != m.upgraded {
        Err(ExchangeError::ValidationError)
    } else {
        Ok(())
    }
}

/// The contract's interface: deployment, the exchange, the owner-only
/// deposit gate, and the read accessors. Every method's behaviour is pinned
/// to the outcome functions above, over the implementor's ledger model.
pub trait NftEvolution: Sized {
    /// The implementor's ledger state, as a mathematical value.
    spec fn model(&self) -> LedgerModel;

    /// Deployment: stores all five configuration values verbatim, together
    /// with the deployer's account, which becomes the owner.
    fn init(
        owner: AccountId,
        amount: u64,
        first_collection_identifier: TokenId,
        second_collection_identifier: TokenId,
        upgraded_collection_identifier: TokenId,
        number_of_remaining_upgraded_nfts: u64,
    ) -> (r: Self)
        ensures
            r.model() == (LedgerModel {
                owner: owner@,
                amount: amount as int,
                first: first_collection_identifier@,
                second: second_collection_identifier@,
                upgraded: upgraded_collection_identifier@,
                remaining: number_of_remaining_upgraded_nfts as int,
            }),
    ;

    /// The exchange. `caller` and `received_tokens` are what the host
    /// attached to the invocation; `held_at_ordinal` is the quantity of the
    /// upgraded collection the contract holds at the ordinal given by the
    /// current remaining-supply counter. Agrees exactly with
    /// `exchange_outcome`: on `Ok` the counter is one lower and the returned
    /// payout names the asset and payment the host must transfer to the
    /// caller; on `Err` nothing changes.
    fn evolve_nft(
        &mut self,
        caller: &AccountId,
        received_tokens: &Vec<TokenId>,
        held_at_ordinal: u64,
    ) -> (r: Result<Payout, ExchangeError>)
        ensures
            match exchange_outcome(
                old(self).model(),
                caller@,
                bundle_view(received_tokens@),
                held_at_ordinal,
            ) {
                Ok((m2, p)) => r matches Ok(pay) && pay@ == p && final(self).model() == m2,
                Err(e) => r == Err::<Payout, ExchangeError>(e) && final(self).model() == old(
                    self,
                ).model(),
            },
    ;

    /// The owner-only deposit gate. `caller` and `received_tokens` are what
    /// the host attached to the invocation. Agrees exactly with
    /// `store_outcome`: accepted when the owner deposits only
    /// upgraded-collection assets, rejected otherwise. No ledger state
    /// changes either way.
    fn store_nfts(&self, caller: &AccountId, received_tokens: &Vec<TokenId>) -> (r: Result<
        (),
        ExchangeError,
    >)
        ensures
            r == store_outcome(self.model(), caller@, bundle_view(received_tokens@)),
    ;

    /// The identifier of the first input collection.
    fn get_nft_first_collection_identifier(&self) -> (r: &TokenId)
        ensures
            r@ == self.model().first,
    ;

    /// The identifier of the second input collection.
    fn get_nft_second_collection_identifier(&self) -> (r: &TokenId)
        ensures
            r@ == self.model().second,
    ;

    /// The identifier of the upgraded (payout) collection.
    fn get_nft_upgraded_collection_identifier(&self) -> (r: &TokenId)
        ensures
            r@ == self.model().upgraded,
    ;

    /// The current remaining-supply counter.
    fn get_number_of_remaining_upgraded_nfts(&self) -> (r: u64)
        ensures
            r as int == self.model().remaining,
    ;

    /// The fixed payment accompanying every exchange payout.
    fn amount(&self) -> (r: u64)
        ensures
            r as int == self.model().amount,
    ;
}

/// The exchange ledger. Configuration is set once by `init` and immutable
/// thereafter; only `evolve_nft` mutates the state, by decrementing the
/// remaining-supply counter on a successful exchange.
pub struct ExchangeLedger {
    owner: AccountId,
    amount: u64,
    first: TokenId,
    second: TokenId,
    upgraded: TokenId,
    remaining: u64,
}

impl View for ExchangeLedger {
    type V = LedgerModel;

    closed spec fn view(&self) -> LedgerModel {
        LedgerModel {
            owner: self.owner@,
            amount: self.amount as int,
            first: self.first@,
            second: self.second@,
            upgraded: self.upgraded@,
            remaining: self.remaining as int,
        }
    }
}

impl NftEvolution for ExchangeLedger {
    open spec fn model(&self) -> LedgerModel {
        self@
    }

    fn init(
        owner: AccountId,
        amount: u64,
        first_collection_identifier: TokenId,
        second_collection_identifier: TokenId,
        upgraded_collection_identifier: TokenId,
        number_of_remaining_upgraded_nfts: u64,
    ) -> Self {
        ExchangeLedger {
            owner,
            amount,
            first: first_collection_identifier,
            second: second_collection_identifier,
            upgraded: upgraded_collection_identifier,
            remaining: number_of_remaining_upgraded_nfts,
        }
    }

    fn evolve_nft(
        &mut self,
        caller: &AccountId,
        received_tokens: &Vec<TokenId>,
        held_at_ordinal: u64,
    ) -> Result<Payout, ExchangeError> {
        let ghost b = bundle_view(received_tokens@);
        if received_tokens.len() != 2 {
            return Err(ExchangeError::ValidationError);
        }
        let mut has_first_collection = false;
        let mut has_second_collection = false;
        let mut i: usize = 0;
        while i < received_tokens.len()
            invariant
                i <= received_tokens.len(),
                b == bundle_view(received_tokens@),
                self == old(self),
                has_first_collection == (exists|k: int| 0 <= k < i && b[k] == self.first@),
                has_second_collection == (exists|k: int| 0 <= k < i && b[k] == self.second@),
            decreases received_tokens.len() - i,
        {
            proof {
                assert(b[i as int] == received_tokens@[i as int]@);
            }
            if received_tokens[i].same_as(&self.first) {
                has_first_collection = true;
            }
            if received_tokens[i].same_as(&self.second) {
                has_second_collection = true;
            }
            i += 1;
        }
        if !(has_first_collection && has_second_collection) {
            return Err(ExchangeError::ValidationError);
        }
        if held_at_ordinal != 1 || self.remaining == 0 {
            return Err(ExchangeError::InventoryError);
        }
        let ordinal = self.remaining;
        self.remaining = self.remaining - 1;
        Ok(
            Payout {
                token: self.upgraded.duplicate(),
                ordinal,
                amount: self.amount,
                recipient: caller.duplicate(),
            },
        )
    }

    fn store_nfts(&self, caller: &AccountId, received_tokens: &Vec<TokenId>) -> Result<
        (),
        ExchangeError,
    > {
        let ghost b = bundle_view(received_tokens@);
        if !caller.same_as(&self.owner) {
            return Err(ExchangeError::NotOwner);
        }
        let mut i: usize = 0;
        while i < received_tokens.len()
            invariant
                i <= received_tokens.len(),
                b == bundle_view(received_tokens@),
                caller@ == self@.owner,
                forall|k: int| 0 <= k < i ==> b[k] == self.upgraded@,
            decreases received_tokens.len() - i,
        {
            proof {
                assert(b[i as int] == received_tokens@[i as int]@);
            }
            if !received_tokens[i].same_as(&self.upgraded) {
                proof {
                    assert(b[i as int] != self@.upgraded);
                    assert(exists|k: int| 0 <= k < b.len() && b[k] != self@.upgraded);
                }
                return Err(ExchangeError::ValidationError);
            }
            i += 1;
        }
        Ok(())
    }

    fn get_nft_first_collection_identifier(&self) -> &TokenId {
        &self.first
    }

    fn get_nft_second_collection_identifier(&self) -> &TokenId {
        &self.second
    }

    fn get_nft_upgraded_collection_identifier(&self) -> &TokenId {
        &self.upgraded
    }

    fn get_number_of_remaining_upgraded_nfts(&self) -> u64 {
        self.remaining
    }

    fn amount(&self) -> u64 {
        self.amount
    }
}

} // verus!
