use vstd::prelude::*;

use crate::model::{
    clamp_to_i128, has_addr, index_of_addr, lemma_update_supply_preserves_wf, spec_get_state,
    spec_update_supply, StoreModel,
};
use crate::types::{Address, FactoryState, TokenInfo};

verus! {

/// The state store: key-addressed persistent fields (admin, treasury, the two
/// fees) and the ordered token registry, with pure get/set operations and
/// presence checks. It holds no policy; validation lives in the factory's
/// operations.
pub struct StateStore {
    admin: Option<Address>,
    treasury: Option<Address>,
    base_fee: i128,
    metadata_fee: i128,
    tokens: Vec<TokenInfo>,
}

impl View for StateStore {
    type V = StoreModel;

    closed spec fn view(&self) -> StoreModel {
        StoreModel {
            admin: self.admin,
            treasury: self.treasury,
            base_fee: self.base_fee,
            metadata_fee: self.metadata_fee,
            tokens: self.tokens@,
        }
    }
}

/// `a + delta`, saturating at the bounds of the supply field's type.
fn saturating_add(a: i128, delta: i128) -> (r: i128)
    ensures
        r == clamp_to_i128(a + delta),
{
    if delta >= 0 {
        if a > i128::MAX - delta {
            i128::MAX
        } else {
            a + delta
        }
    } else {
        if a < i128::MIN - delta {
            i128::MIN
        } else {
            a + delta
        }
    }
}

impl StateStore {
    /// An empty store: no identities recorded, zero fees, empty registry.
    pub fn new() -> (s: StateStore)
        ensures
            s@ == crate::model::empty_model(),
            s@.wf(),
    {
        let s = StateStore {
            admin: None,
            treasury: None,
            base_fee: 0,
            metadata_fee: 0,
            tokens: Vec::new(),
        };
        proof {
            assert(s@ =~= crate::model::empty_model());
        }
        s
    }

    /// Whether an admin has been recorded.
    pub fn has_admin(&self) -> (r: bool)
        ensures
            r == (self@.admin is Some),
    {
        self.admin.is_some()
    }

    /// The recorded admin, if any.
    pub fn get_admin(&self) -> (r: Option<Address>)
        ensures
            r == self@.admin,
    {
        self.admin
    }

    /// Record `admin`; every other field keeps its value.
    pub fn set_admin(&mut self, admin: Address)
        ensures
            final(self)@ == (StoreModel { admin: Some(admin), ..old(self)@ }),
    {
        self.admin = Some(admin);
    }

    /// The recorded treasury, if any.
    pub fn get_treasury(&self) -> (r: Option<Address>)
        ensures
            r == self@.treasury,
    {
        self.treasury
    }

    /// Record `treasury`; every other field keeps its value.
    pub fn set_treasury(&mut self, treasury: Address)
        ensures
            final(self)@ == (StoreModel { treasury: Some(treasury), ..old(self)@ }),
    {
        self.treasury = Some(treasury);
    }

    /// The stored base fee.
    pub fn get_base_fee(&self) -> (r: i128)
        ensures
            r == self@.base_fee,
    {
        self.base_fee
    }

    /// Store `fee` as the base fee; every other field keeps its value.
    pub fn set_base_fee(&mut self, fee: i128)
        ensures
            final(self)@ == (StoreModel { base_fee: fee, ..old(self)@ }),
    {
        self.base_fee = fee;
    }

    /// The stored metadata fee.
    pub fn get_metadata_fee(&self) -> (r: i128)
        ensures
            r == self@.metadata_fee,
    {
        self.metadata_fee
    }

    /// Store `fee` as the metadata fee; every other field keeps its value.
    pub fn set_metadata_fee(&mut self, fee: i128)
        ensures
            final(self)@ == (StoreModel { metadata_fee: fee, ..old(self)@ }),
    {
        self.metadata_fee = fee;
    }

    /// How many tokens the registry holds.
    pub fn get_token_count(&self) -> (r: u32)
        requires
            self@.tokens.len() <= u32::MAX,
        ensures
            r == self@.tokens.len() as u32,
    {
        self.tokens.len() as u32
    }

    /// The registry record at `index`: present exactly when the index is
    /// below the token count.
    pub fn get_token_info(&self, index: u32) -> (r: Option<TokenInfo>)
        ensures
            r == (if index < self@.tokens.len() {
                Some(self@.tokens[index as int])
            } else {
                None::<TokenInfo>
            }),
    {
        if (index as usize) < self.tokens.len() {
            Some(self.tokens[index as usize])
        } else {
            None
        }
    }

    /// Aggregate read of all scalar fields.
    pub fn get_factory_state(&self) -> (r: FactoryState)
        requires
            self@.tokens.len() <= u32::MAX,
        ensures
            r == spec_get_state(self@),
    {
        FactoryState {
            admin: self.get_admin(),
            treasury: self.get_treasury(),
            base_fee: self.get_base_fee(),
            metadata_fee: self.get_metadata_fee(),
            token_count: self.get_token_count(),
        }
    }

    /// Apply a signed supply delta to the record for `token_address`,
    /// registering the token if no record describes it yet; the scalar
    /// fields keep their values.
    pub fn update_token_supply(&mut self, token_address: Address, delta: i128)
        requires
            old(self)@.wf(),
        ensures
            final(self)@ == (StoreModel {
                tokens: spec_update_supply(old(self)@.tokens, token_address, delta as int),
                ..old(self)@
            }),
            final(self)@.wf(),
    {
        proof {
            lemma_update_supply_preserves_wf(self@.tokens, token_address, delta as int);
        }
        let n = self.tokens.len();
        let mut i: usize = 0;
        while i < n
            invariant
                i <= n,
                n == self.tokens.len(),
                self == old(self),
                old(self)@.wf(),
                forall|k: int|
                    0 <= k < i ==> #[trigger] self.tokens@[k].token_address != token_address,
            decreases n - i,
        {
            if self.tokens[i].token_address == token_address {
                let updated = TokenInfo {
                    token_address,
                    supply: saturating_add(self.tokens[i].supply, delta),
                };
                proof {
                    assert(has_addr(self.tokens@, token_address));
                    let k = index_of_addr(self.tokens@, token_address);
                    assert(self.tokens@[k].token_address == token_address);
                    assert(k == i);
                }
                self.tokens.set(i, updated);
                return;
            }
            i += 1;
        }
        assert(!has_addr(self.tokens@, token_address));
        if self.tokens.len() < (u32::MAX as usize) {
            self.tokens.push(TokenInfo { token_address, supply: delta });
            proof {
                assert(clamp_to_i128(delta as int) == delta);
            }
        } else {
            proof {
                assert(self@.tokens =~= spec_update_supply(
                    old(self)@.tokens,
                    token_address,
                    delta as int,
                ));
            }
        }
    }
}

} // verus!
