//! A registry-and-policy library for a token factory: it tracks tokens in an
//! ordered registry, enforces an admin-controlled fee schedule, and mediates
//! authorized token burns. The host-facing concerns (persistent storage,
//! authorization proofs, the call-out to the external token contract, event
//! publication) live in the surrounding application; this library holds the
//! state, the validation rules and the bookkeeping, each operation specified
//! as a pure transition over a mathematical model of the store.

use vstd::prelude::*;

mod laws;
mod model;
mod storage;
mod types;

pub use crate::laws::{
    lemma_burn_rejection_repeats, lemma_commit_burn_registers_token,
    lemma_commit_burn_updates_record, lemma_initialize_rejects_negative_fee,
    lemma_initialize_then_get_state, lemma_partial_update, lemma_token_lookup_range,
    lemma_update_fees_rejects_negative_fee, lemma_update_fees_unauthorized,
};
pub use crate::model::{
    addrs_unique, clamp_to_i128, empty_model, fee_or, has_addr, index_of_addr, is_negative_fee,
    lemma_update_supply_preserves_wf, spec_burn, spec_commit_burn, spec_get_state,
    spec_get_token_info, spec_initialize, spec_update_fees, spec_update_supply, StoreModel,
};
pub use crate::storage::StateStore;
pub use crate::types::{Address, BurnEvent, BurnRequest, Error, FactoryState, TokenInfo};

verus! {

/// The factory: the public operations over one instance's persistent state.
pub struct TokenFactory {
    store: StateStore,
}

impl View for TokenFactory {
    type V = StoreModel;

    closed spec fn view(&self) -> StoreModel {
        self.store@
    }
}

impl TokenFactory {
    /// A freshly deployed, never-initialized factory.
    pub fn new() -> (f: TokenFactory)
        ensures
            f@ == crate::model::empty_model(),
            f@.wf(),
    {
        TokenFactory { store: StateStore::new() }
    }

    /// A factory over an existing store, e.g. one rebuilt from the host's
    /// persisted fields.
    pub fn from_store(store: StateStore) -> (f: TokenFactory)
        requires
            store@.wf(),
        ensures
            f@ == store@,
            f@.wf(),
    {
        TokenFactory { store }
    }

    /// Initialize the factory with admin, treasury, and the fee schedule.
    /// Fails with `AlreadyInitialized` once an admin is recorded, whatever the
    /// arguments, and with `InvalidParameters` on a negative fee; on either
    /// error nothing is written. No authorization proof guards this call: the
    /// first caller against a fresh instance becomes admin, which makes the
    /// deployment and the initialization call one trust boundary.
    pub fn initialize(
        &mut self,
        admin: Address,
        treasury: Address,
        base_fee: i128,
        metadata_fee: i128,
    ) -> (r: Result<(), Error>)
        requires
            old(self)@.wf(),
        ensures
            final(self)@.wf(),
            final(self)@ == spec_initialize(old(self)@, admin, treasury, base_fee, metadata_fee).0,
            r == spec_initialize(old(self)@, admin, treasury, base_fee, metadata_fee).1,
    {
        if self.store.has_admin() {
            return Err(Error::AlreadyInitialized);
        }
        if base_fee < 0 || metadata_fee < 0 {
            return Err(Error::InvalidParameters);
        }
        self.store.set_admin(admin);
        self.store.set_treasury(treasury);
        self.store.set_base_fee(base_fee);
        self.store.set_metadata_fee(metadata_fee);
        Ok(())
    }

    /// The aggregate snapshot of the factory's scalar state. Never fails;
    /// before initialization the identities read back as `None` and the fees
    /// as zero.
    pub fn get_state(&self) -> (r: FactoryState)
        requires
            self@.wf(),
        ensures
            r == spec_get_state(self@),
    {
        self.store.get_factory_state()
    }

    /// Update the fee schedule. The caller must have required the host's
    /// authorization proof from `admin` before this call; the identity is
    /// still checked against the stored admin and rejected with
    /// `Unauthorized` on a mismatch, proof or no proof. Each supplied fee is
    /// validated (`InvalidParameters` if negative) before either is written,
    /// so a failed call changes nothing; each supplied fee is then written
    /// independently, and supplying neither is a successful no-op.
    pub fn update_fees(
        &mut self,
        admin: Address,
        base_fee: Option<i128>,
        metadata_fee: Option<i128>,
    ) -> (r: Result<(), Error>)
        requires
            old(self)@.wf(),
        ensures
            final(self)@.wf(),
            final(self)@ == spec_update_fees(old(self)@, admin, base_fee, metadata_fee).0,
            r == spec_update_fees(old(self)@, admin, base_fee, metadata_fee).1,
    {
        let authorized = match self.store.get_admin() {
            Some(current) => current == admin,
            None => false,
        };
        if !authorized {
            return Err(Error::Unauthorized);
        }
        if let Some(fee) = base_fee {
            if fee < 0 {
                return Err(Error::InvalidParameters);
            }
        }
        if let Some(fee) = metadata_fee {
            if fee < 0 {
                return Err(Error::InvalidParameters);
            }
        }
        if let Some(fee) = base_fee {
            self.store.set_base_fee(fee);
        }
        if let Some(fee) = metadata_fee {
            self.store.set_metadata_fee(fee);
        }
        Ok(())
    }

    /// How many tokens the registry holds.
    pub fn get_token_count(&self) -> (r: u32)
        requires
            self@.wf(),
        ensures
            r == self@.tokens.len() as u32,
    {
        self.store.get_token_count()
    }

    /// The registry record at `index`, or `TokenNotFound` exactly when
    /// `index` is at or beyond the token count.
    pub fn get_token_info(&self, index: u32) -> (r: Result<TokenInfo, Error>)
        ensures
            r == spec_get_token_info(self@, index),
    {
        match self.store.get_token_info(index) {
            Some(info) => Ok(info),
            None => Err(Error::TokenNotFound),
        }
    }

    /// Validate a burn request against the holder's live balance, read by the
    /// caller from the external token contract. A successful validation asks
    /// the caller to delegate the destructive operation to that contract (the
    /// returned request) before committing the registry update; a rejection
    /// touches nothing, as the receiver is immutable. The caller must have
    /// required the host's authorization proof from `from` beforehand.
    pub fn burn(
        &self,
        token_address: Address,
        from: Address,
        amount: i128,
        balance: i128,
    ) -> (r: Result<BurnRequest, Error>)
        ensures
            r == spec_burn(token_address, from, amount, balance),
    {
        if amount <= 0 {
            Err(Error::InvalidBurnAmount)
        } else if balance < amount {
            Err(Error::BurnAmountExceedsBalance)
        } else {
            Ok(BurnRequest { token_address, from, amount })
        }
    }

    /// Commit a burn the external token contract has performed: apply the
    /// negative delta to the registry's supply bookkeeping and produce the
    /// audit event to publish. Only called after the delegated burn
    /// succeeded, so the bookkeeping never records a burn that did not
    /// happen on the token side.
    pub fn commit_burn(
        &mut self,
        token_address: Address,
        from: Address,
        amount: i128,
        timestamp: u64,
    ) -> (ev: BurnEvent)
        requires
            old(self)@.wf(),
            amount > 0,
        ensures
            final(self)@.wf(),
            final(self)@ == spec_commit_burn(old(self)@, token_address, from, amount, timestamp).0,
            ev == spec_commit_burn(old(self)@, token_address, from, amount, timestamp).1,
    {
        self.store.update_token_supply(token_address, -amount);
        BurnEvent { token_address, from, amount, timestamp }
    }
}

} // verus!
