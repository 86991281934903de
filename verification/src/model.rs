use vstd::prelude::*;

use crate::types::{Address, BurnEvent, BurnRequest, Error, FactoryState, TokenInfo};

verus! {

/// Mathematical model of the factory's persistent state: the identities and
/// fees the store holds, plus the ordered token registry. Every executable
/// operation is specified as a pure transition over this model.
#[verifier::ext_equal]
pub struct StoreModel {
    pub admin: Option<Address>,
    pub treasury: Option<Address>,
    pub base_fee: i128,
    pub metadata_fee: i128,
    pub tokens: Seq<TokenInfo>,
}

/// The state of a freshly deployed, never-initialized instance.
pub open spec fn empty_model() -> StoreModel {
    StoreModel {
        admin: None,
        treasury: None,
        base_fee: 0,
        metadata_fee: 0,
        tokens: Seq::empty(),
    }
}

/// No two registry records describe the same token contract.
pub open spec fn addrs_unique(tokens: Seq<TokenInfo>) -> bool {
    forall|i: int, j: int|
        0 <= i < tokens.len() && 0 <= j < tokens.len() && i != j
            ==> tokens[i].token_address != tokens[j].token_address
}

/// Some registry record describes `addr`.
pub open spec fn has_addr(tokens: Seq<TokenInfo>, addr: Address) -> bool {
    exists|i: int| 0 <= i < tokens.len() && #[trigger] tokens[i].token_address == addr
}

/// The position of the record describing `addr`; unique under `addrs_unique`.
pub open spec fn index_of_addr(tokens: Seq<TokenInfo>, addr: Address) -> int {
    choose|i: int| 0 <= i < tokens.len() && #[trigger] tokens[i].token_address == addr
}

/// `v` clamped to the range a signed 128-bit supply field can hold.
pub open spec fn clamp_to_i128(v: int) -> i128 {
    if v > i128::MAX {
        i128::MAX
    } else if v < i128::MIN {
        i128::MIN
    } else {
        v as i128
    }
}

/// Applying a signed supply delta to the registry: an existing record for
/// `addr` has the delta added to its supply (saturating at the type bounds);
/// an absent one is registered with the delta as its initial supply, as long
/// as the count still fits the index type; otherwise nothing changes.
pub open spec fn spec_update_supply(tokens: Seq<TokenInfo>, addr: Address, delta: int) -> Seq<
    TokenInfo,
> {
    if has_addr(tokens, addr) {
        let i = index_of_addr(tokens, addr);
        tokens.update(
            i,
            TokenInfo { token_address: addr, supply: clamp_to_i128(tokens[i].supply + delta) },
        )
    } else if tokens.len() < u32::MAX {
        tokens.push(TokenInfo { token_address: addr, supply: clamp_to_i128(delta) })
    } else {
        tokens
    }
}

impl StoreModel {
    /// The invariants the store maintains: non-negative fees, a registry
    /// whose count fits the index type, and one record per token address.
    pub open spec fn wf(self) -> bool {
        &&& self.base_fee >= 0
        &&& self.metadata_fee >= 0
        &&& self.tokens.len() <= u32::MAX
        &&& addrs_unique(self.tokens)
    }

    /// An admin has been recorded, i.e. `initialize` has succeeded once.
    pub open spec fn initialized(self) -> bool {
        self.admin is Some
    }
}

/// The fee a partial update leaves in place: the supplied value if present,
/// the current one otherwise.
pub open spec fn fee_or(opt: Option<i128>, current: i128) -> i128 {
    match opt {
        Some(f) => f,
        None => current,
    }
}

/// A fee argument that is present and negative.
pub open spec fn is_negative_fee(opt: Option<i128>) -> bool {
    match opt {
        Some(f) => f < 0,
        None => false,
    }
}

/// What `initialize` does: reject a second initialization, then reject
/// negative fees, otherwise record all four fields.
pub open spec fn spec_initialize(
    m: StoreModel,
    admin: Address,
    treasury: Address,
    base_fee: i128,
    metadata_fee: i128,
) -> (StoreModel, Result<(), Error>) {
    if m.initialized() {
        (m, Err(Error::AlreadyInitialized))
    } else if base_fee < 0 || metadata_fee < 0 {
        (m, Err(Error::InvalidParameters))
    } else {
        (
            StoreModel {
                admin: Some(admin),
                treasury: Some(treasury),
                base_fee: base_fee,
                metadata_fee: metadata_fee,
                ..m
            },
            Ok(()),
        )
    }
}

/// What `update_fees` does: reject an identity other than the stored admin,
/// then reject any negative fee before writing anything, otherwise write
/// exactly the fees that were supplied.
pub open spec fn spec_update_fees(
    m: StoreModel,
    admin: Address,
    base_fee: Option<i128>,
    metadata_fee: Option<i128>,
) -> (StoreModel, Result<(), Error>) {
    if m.admin != Some(admin) {
        (m, Err(Error::Unauthorized))
    } else if is_negative_fee(base_fee) || is_negative_fee(metadata_fee) {
        (m, Err(Error::InvalidParameters))
    } else {
        (
            StoreModel {
                base_fee: fee_or(base_fee, m.base_fee),
                metadata_fee: fee_or(metadata_fee, m.metadata_fee),
                ..m
            },
            Ok(()),
        )
    }
}

/// What `get_state` returns: the aggregate snapshot of the scalar fields.
pub open spec fn spec_get_state(m: StoreModel) -> FactoryState {
    FactoryState {
        admin: m.admin,
        treasury: m.treasury,
        base_fee: m.base_fee,
        metadata_fee: m.metadata_fee,
        token_count: m.tokens.len() as u32,
    }
}

/// What `get_token_info` returns: the record at `index`, defined exactly on
/// `0 <= index < token_count`.
pub open spec fn spec_get_token_info(m: StoreModel, index: u32) -> Result<TokenInfo, Error> {
    if index < m.tokens.len() {
        Ok(m.tokens[index as int])
    } else {
        Err(Error::TokenNotFound)
    }
}

/// What the burn validation decides from the request and the holder's live
/// balance: a non-positive amount is rejected, then an amount above the
/// balance, and only then is the delegation to the external token requested.
pub open spec fn spec_burn(
    token_address: Address,
    from: Address,
    amount: i128,
    balance: i128,
) -> Result<BurnRequest, Error> {
    if amount <= 0 {
        Err(Error::InvalidBurnAmount)
    } else if balance < amount {
        Err(Error::BurnAmountExceedsBalance)
    } else {
        Ok(BurnRequest { token_address, from, amount })
    }
}

/// What committing a delegated burn does: apply the negative delta to the
/// registry record and produce the audit event.
pub open spec fn spec_commit_burn(
    m: StoreModel,
    token_address: Address,
    from: Address,
    amount: i128,
    timestamp: u64,
) -> (StoreModel, BurnEvent) {
    (
        StoreModel { tokens: spec_update_supply(m.tokens, token_address, -(amount as int)), ..m },
        BurnEvent { token_address, from, amount, timestamp },
    )
}

/// A supply update keeps the registry invariants: it never grows the count
/// past the index type and never duplicates a token address.
pub proof fn lemma_update_supply_preserves_wf(tokens: Seq<TokenInfo>, addr: Address, delta: int)
    requires
        addrs_unique(tokens),
        tokens.len() <= u32::MAX,
    ensures
        addrs_unique(spec_update_supply(tokens, addr, delta)),
        spec_update_supply(tokens, addr, delta).len() <= u32::MAX,
{
    let news = spec_update_supply(tokens, addr, delta);
    if has_addr(tokens, addr) {
        let k = index_of_addr(tokens, addr);
        assert(0 <= k < tokens.len() && tokens[k].token_address == addr);
        assert forall|i: int, j: int|
            0 <= i < news.len() && 0 <= j < news.len() && i != j implies news[i].token_address
            != news[j].token_address by {
            assert(news[i].token_address == tokens[i].token_address);
            assert(news[j].token_address == tokens[j].token_address);
        }
    } else if tokens.len() < u32::MAX {
        assert forall|i: int, j: int|
            0 <= i < news.len() && 0 <= j < news.len() && i != j implies news[i].token_address
            != news[j].token_address by {
            if i < tokens.len() && j < tokens.len() {
                assert(news[i] == tokens[i] && news[j] == tokens[j]);
            } else if i < tokens.len() {
                assert(news[j].token_address == addr);
                assert(tokens[i].token_address != addr);
            } else {
                assert(news[i].token_address == addr);
                assert(tokens[j].token_address != addr);
            }
        }
    }
}

} // verus!
