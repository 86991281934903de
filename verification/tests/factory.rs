use token_factory::{Address, Error, FactoryState, StateStore, TokenFactory};

fn addr(id: u64) -> Address {
    Address { id }
}

#[test]
fn initialize_then_get_state_returns_values() {
    let mut f = TokenFactory::new();
    assert_eq!(f.initialize(addr(1), addr(2), 100, 50), Ok(()));
    let st = f.get_state();
    assert_eq!(
        st,
        FactoryState {
            admin: Some(addr(1)),
            treasury: Some(addr(2)),
            base_fee: 100,
            metadata_fee: 50,
            token_count: 0,
        }
    );
}

#[test]
fn second_initialize_always_fails() {
    let mut f = TokenFactory::new();
    assert_eq!(f.initialize(addr(1), addr(2), 100, 50), Ok(()));
    let before = f.get_state();
    assert_eq!(
        f.initialize(addr(3), addr(4), 1, 2),
        Err(Error::AlreadyInitialized)
    );
    // Even invalid fee arguments are answered with AlreadyInitialized.
    assert_eq!(
        f.initialize(addr(1), addr(2), -1, -1),
        Err(Error::AlreadyInitialized)
    );
    assert_eq!(f.get_state(), before);
}

#[test]
fn initialize_rejects_negative_base_fee() {
    let mut f = TokenFactory::new();
    let before = f.get_state();
    assert_eq!(
        f.initialize(addr(1), addr(2), -1, 50),
        Err(Error::InvalidParameters)
    );
    assert_eq!(f.get_state(), before);
}

#[test]
fn initialize_rejects_negative_metadata_fee() {
    let mut f = TokenFactory::new();
    let before = f.get_state();
    assert_eq!(
        f.initialize(addr(1), addr(2), 100, -50),
        Err(Error::InvalidParameters)
    );
    assert_eq!(f.get_state(), before);
}

#[test]
fn update_fees_rejects_negative_fee_and_writes_nothing() {
    let mut f = TokenFactory::new();
    assert_eq!(f.initialize(addr(1), addr(2), 100, 50), Ok(()));
    let before = f.get_state();
    // A valid base fee next to a negative metadata fee: neither is written.
    assert_eq!(
        f.update_fees(addr(1), Some(7), Some(-1)),
        Err(Error::InvalidParameters)
    );
    assert_eq!(f.get_state(), before);
    assert_eq!(
        f.update_fees(addr(1), Some(-7), None),
        Err(Error::InvalidParameters)
    );
    assert_eq!(f.get_state(), before);
}

#[test]
fn update_fees_rejects_wrong_identity() {
    let mut f = TokenFactory::new();
    assert_eq!(f.initialize(addr(1), addr(2), 100, 50), Ok(()));
    let before = f.get_state();
    // The host would have proved the call was sanctioned by identity 9; the
    // stored-admin comparison still rejects it.
    assert_eq!(
        f.update_fees(addr(9), Some(7), Some(8)),
        Err(Error::Unauthorized)
    );
    assert_eq!(f.get_state(), before);
}

#[test]
fn update_fees_on_uninitialized_factory_is_unauthorized() {
    let mut f = TokenFactory::new();
    assert_eq!(f.update_fees(addr(1), Some(7), None), Err(Error::Unauthorized));
}

#[test]
fn update_fees_base_only_leaves_metadata() {
    let mut f = TokenFactory::new();
    assert_eq!(f.initialize(addr(1), addr(2), 100, 50), Ok(()));
    assert_eq!(f.update_fees(addr(1), Some(7), None), Ok(()));
    let st = f.get_state();
    assert_eq!(st.base_fee, 7);
    assert_eq!(st.metadata_fee, 50);
}

#[test]
fn update_fees_metadata_only_leaves_base() {
    let mut f = TokenFactory::new();
    assert_eq!(f.initialize(addr(1), addr(2), 100, 50), Ok(()));
    assert_eq!(f.update_fees(addr(1), None, Some(8)), Ok(()));
    let st = f.get_state();
    assert_eq!(st.base_fee, 100);
    assert_eq!(st.metadata_fee, 8);
}

#[test]
fn update_fees_with_neither_is_a_successful_noop() {
    let mut f = TokenFactory::new();
    assert_eq!(f.initialize(addr(1), addr(2), 100, 50), Ok(()));
    let before = f.get_state();
    assert_eq!(f.update_fees(addr(1), None, None), Ok(()));
    assert_eq!(f.get_state(), before);
}

#[test]
fn update_fees_both_at_once() {
    let mut f = TokenFactory::new();
    assert_eq!(f.initialize(addr(1), addr(2), 100, 50), Ok(()));
    assert_eq!(f.update_fees(addr(1), Some(0), Some(0)), Ok(()));
    let st = f.get_state();
    assert_eq!(st.base_fee, 0);
    assert_eq!(st.metadata_fee, 0);
}

#[test]
fn state_store_get_set_roundtrip() {
    let mut s = StateStore::new();
    assert!(!s.has_admin());
    assert_eq!(s.get_admin(), None);
    assert_eq!(s.get_treasury(), None);
    s.set_admin(addr(1));
    s.set_treasury(addr(2));
    s.set_base_fee(100);
    s.set_metadata_fee(50);
    assert!(s.has_admin());
    assert_eq!(s.get_admin(), Some(addr(1)));
    assert_eq!(s.get_treasury(), Some(addr(2)));
    assert_eq!(s.get_base_fee(), 100);
    assert_eq!(s.get_metadata_fee(), 50);
    assert_eq!(s.get_token_count(), 0);
    assert_eq!(
        s.get_factory_state(),
        FactoryState {
            admin: Some(addr(1)),
            treasury: Some(addr(2)),
            base_fee: 100,
            metadata_fee: 50,
            token_count: 0,
        }
    );
    let f = TokenFactory::from_store(s);
    assert_eq!(f.get_state().base_fee, 100);
}
