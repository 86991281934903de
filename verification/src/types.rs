use vstd::prelude::*;

verus! {

/// An identity on the host ledger (an account or a contract), reduced to the
/// one thing the factory's rules ever do with it: compare it for equality.
/// The surrounding application maps the host's opaque address values to these
/// plain identifiers and back.
#[derive(Clone, Copy, PartialEq, Eq, Structural, Debug)]
pub struct Address {
    pub id: u64,
}

/// One record of the token registry, keyed by its position in the registry.
#[derive(Clone, Copy, PartialEq, Eq, Debug)]
pub struct TokenInfo {
    /// The external token contract this record describes.
    pub token_address: Address,
    /// Supply bookkeeping for that token; burns apply a negative delta.
    pub supply: i128,
}

/// Aggregate snapshot of the factory's scalar state, as `get_state` returns it.
/// `admin` and `treasury` are `None` until `initialize` has succeeded.
#[derive(Clone, Copy, PartialEq, Eq, Debug)]
pub struct FactoryState {
    pub admin: Option<Address>,
    pub treasury: Option<Address>,
    pub base_fee: i128,
    pub metadata_fee: i128,
    pub token_count: u32,
}

/// Everything a factory operation can fail with.
#[derive(Clone, Copy, PartialEq, Eq, Debug)]
pub enum Error {
    /// `initialize` was called on an instance that already has an admin.
    AlreadyInitialized,
    /// A supplied fee amount was negative.
    InvalidParameters,
    /// The identity supplied to `update_fees` is not the stored admin.
    Unauthorized,
    /// A registry index at or beyond `token_count`.
    TokenNotFound,
    /// A burn amount that is zero or negative.
    InvalidBurnAmount,
    /// A burn amount larger than the holder's live balance.
    BurnAmountExceedsBalance,
}

/// The action a validated burn asks of the external token contract: reduce
/// `from`'s balance and the total supply by `amount`. The caller performs
/// this call-out and only then commits the registry update.
#[derive(Clone, Copy, PartialEq, Eq, Debug)]
pub struct BurnRequest {
    pub token_address: Address,
    pub from: Address,
    pub amount: i128,
}

/// The audit record a committed burn emits, keyed by the burn tag and the
/// token address and carrying the holder, the amount and the ledger timestamp.
#[derive(Clone, Copy, PartialEq, Eq, Debug)]
pub struct BurnEvent {
    pub token_address: Address,
    pub from: Address,
    pub amount: i128,
    pub timestamp: u64,
}

} // verus!
