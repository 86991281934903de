use vstd::prelude::*;

use crate::model::{
    clamp_to_i128, has_addr, index_of_addr, is_negative_fee, spec_burn, spec_commit_burn,
    spec_get_state, spec_get_token_info, spec_initialize, spec_update_fees, StoreModel,
};
use crate::types::{Address, BurnEvent, BurnRequest, Error, FactoryState, TokenInfo};

verus! {

/// Initializing a never-initialized factory with non-negative fees succeeds;
/// reading the state afterwards returns exactly the recorded identities and
/// fees; and a second initialization, with any arguments whatsoever, fails
/// with `AlreadyInitialized` and leaves the state alone.
pub proof fn lemma_initialize_then_get_state(
    m: StoreModel,
    admin: Address,
    treasury: Address,
    base_fee: i128,
    metadata_fee: i128,
    admin2: Address,
    treasury2: Address,
    base_fee2: i128,
    metadata_fee2: i128,
)
    requires
        !m.initialized(),
        base_fee >= 0,
        metadata_fee >= 0,
    ensures
        spec_initialize(m, admin, treasury, base_fee, metadata_fee).1 == Ok::<(), Error>(()),
        spec_get_state(spec_initialize(m, admin, treasury, base_fee, metadata_fee).0)
            == (FactoryState {
            admin: Some(admin),
            treasury: Some(treasury),
            base_fee: base_fee,
            metadata_fee: metadata_fee,
            token_count: m.tokens.len() as u32,
        }),
        spec_initialize(
            spec_initialize(m, admin, treasury, base_fee, metadata_fee).0,
            admin2,
            treasury2,
            base_fee2,
            metadata_fee2,
        ) == (
            spec_initialize(m, admin, treasury, base_fee, metadata_fee).0,
            Err::<(), Error>(Error::AlreadyInitialized),
        ),
{
}

/// A negative fee handed to `initialize` on a never-initialized factory is
/// rejected with `InvalidParameters`, and the state is unchanged. (On an
/// already-initialized factory the earlier guard answers `AlreadyInitialized`
/// instead, whatever the fees.)
pub proof fn lemma_initialize_rejects_negative_fee(
    m: StoreModel,
    admin: Address,
    treasury: Address,
    base_fee: i128,
    metadata_fee: i128,
)
    requires
        !m.initialized(),
        base_fee < 0 || metadata_fee < 0,
    ensures
        spec_initialize(m, admin, treasury, base_fee, metadata_fee) == (
            m,
            Err::<(), Error>(Error::InvalidParameters),
        ),
{
}

/// A negative fee handed to `update_fees` by the stored admin is rejected
/// with `InvalidParameters`, and the state is unchanged — neither fee is
/// written, even when the other one is valid. (A caller other than the
/// stored admin is answered `Unauthorized` instead, whatever the fees.)
pub proof fn lemma_update_fees_rejects_negative_fee(
    m: StoreModel,
    admin: Address,
    base_fee: Option<i128>,
    metadata_fee: Option<i128>,
)
    requires
        m.admin == Some(admin),
        is_negative_fee(base_fee) || is_negative_fee(metadata_fee),
    ensures
        spec_update_fees(m, admin, base_fee, metadata_fee) == (
            m,
            Err::<(), Error>(Error::InvalidParameters),
        ),
{
}

/// `update_fees` called with any identity other than the stored admin fails
/// with `Unauthorized` and the state is unchanged. The host's authorization
/// proof only vouches that the call was sanctioned by `caller` itself; this
/// equality check rejects a wrong identity even when that proof is valid.
pub proof fn lemma_update_fees_unauthorized(
    m: StoreModel,
    caller: Address,
    base_fee: Option<i128>,
    metadata_fee: Option<i128>,
)
    requires
        m.admin != Some(caller),
    ensures
        spec_update_fees(m, caller, base_fee, metadata_fee) == (
            m,
            Err::<(), Error>(Error::Unauthorized),
        ),
{
}

/// The partial-update law: updating only the base fee changes only the base
/// fee, updating only the metadata fee changes only the metadata fee, and
/// supplying neither is a no-op that still succeeds.
pub proof fn lemma_partial_update(m: StoreModel, admin: Address, x: i128, y: i128)
    requires
        m.admin == Some(admin),
        x >= 0,
        y >= 0,
    ensures
        spec_update_fees(m, admin, Some(x), None) == (
            (StoreModel { base_fee: x, ..m }),
            Ok::<(), Error>(()),
        ),
        spec_update_fees(m, admin, None, Some(y)) == (
            (StoreModel { metadata_fee: y, ..m }),
            Ok::<(), Error>(()),
        ),
        spec_update_fees(m, admin, None, None) == (m, Ok::<(), Error>(())),
{
}

/// A token lookup fails with `TokenNotFound` exactly on the indexes at or
/// beyond the token count, and returns the stored record on every index
/// below it.
pub proof fn lemma_token_lookup_range(m: StoreModel, index: u32)
    ensures
        index >= m.tokens.len() ==> spec_get_token_info(m, index) == Err::<TokenInfo, Error>(
            Error::TokenNotFound,
        ),
        index < m.tokens.len() ==> spec_get_token_info(m, index) == Ok::<TokenInfo, Error>(
            m.tokens[index as int],
        ),
{
}

/// Committing a burn of a token the registry already tracks decreases that
/// record's supply by the amount (saturating only at the type's lower bound),
/// touches no other record, grows nothing, changes no scalar field, and
/// produces exactly the audit event for the request and the timestamp.
pub proof fn lemma_commit_burn_updates_record(
    m: StoreModel,
    token_address: Address,
    from: Address,
    amount: i128,
    timestamp: u64,
)
    requires
        m.wf(),
        amount > 0,
        has_addr(m.tokens, token_address),
    ensures
        ({
            let i = index_of_addr(m.tokens, token_address);
            let after = spec_commit_burn(m, token_address, from, amount, timestamp).0;
            &&& 0 <= i < m.tokens.len()
            &&& after.tokens.len() == m.tokens.len()
            &&& after.tokens[i].token_address == token_address
            &&& after.tokens[i].supply == clamp_to_i128(m.tokens[i].supply - amount)
            &&& m.tokens[i].supply - amount >= i128::MIN ==> after.tokens[i].supply as int
                == m.tokens[i].supply - amount
            &&& forall|j: int|
                0 <= j < m.tokens.len() && j != i ==> after.tokens[j] == m.tokens[j]
            &&& after.admin == m.admin
            &&& after.treasury == m.treasury
            &&& after.base_fee == m.base_fee
            &&& after.metadata_fee == m.metadata_fee
        }),
        spec_commit_burn(m, token_address, from, amount, timestamp).1 == (BurnEvent {
            token_address,
            from,
            amount,
            timestamp,
        }),
{
    let i = index_of_addr(m.tokens, token_address);
    assert(0 <= i < m.tokens.len() && m.tokens[i].token_address == token_address);
}

/// Committing a burn of a token the registry does not yet track registers it:
/// one record is appended, carrying the token's address and exactly the
/// negative amount as its supply, and every existing record and scalar field
/// keeps its value. (This is the only way a record enters the registry, so
/// the token count never decreases.)
pub proof fn lemma_commit_burn_registers_token(
    m: StoreModel,
    token_address: Address,
    from: Address,
    amount: i128,
    timestamp: u64,
)
    requires
        m.wf(),
        amount > 0,
        !has_addr(m.tokens, token_address),
        m.tokens.len() < u32::MAX,
    ensures
        ({
            let after = spec_commit_burn(m, token_address, from, amount, timestamp).0;
            &&& after.tokens.len() == m.tokens.len() + 1
            &&& after.tokens.last().token_address == token_address
            &&& after.tokens.last().supply as int == -(amount as int)
            &&& forall|j: int| 0 <= j < m.tokens.len() ==> after.tokens[j] == m.tokens[j]
            &&& after.admin == m.admin
            &&& after.treasury == m.treasury
            &&& after.base_fee == m.base_fee
            &&& after.metadata_fee == m.metadata_fee
        }),
{
}

/// Rejection of an over-balance burn repeats: the validation is a pure
/// function of the request and the balance, and a rejected burn never reaches
/// the registry (the validating operation takes the factory immutably), so a
/// second identical attempt fails the same way with the registry untouched.
pub proof fn lemma_burn_rejection_repeats(
    token_address: Address,
    from: Address,
    amount: i128,
    balance: i128,
)
    requires
        amount > 0,
        balance < amount,
    ensures
        spec_burn(token_address, from, amount, balance) == Err::<BurnRequest, Error>(
            Error::BurnAmountExceedsBalance,
        ),
{
}

} // verus!
