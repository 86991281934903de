use token_factory::{Address, BurnEvent, BurnRequest, Error, TokenFactory, TokenInfo};

fn addr(id: u64) -> Address {
    Address { id }
}

/// A stand-in for the external token contract: one holder's balance, reduced
/// by the delegated burn exactly as the collaborator guarantees.
struct FakeToken {
    balance: i128,
}

impl FakeToken {
    fn burn(&mut self, amount: i128) {
        assert!(amount <= self.balance, "collaborator would abort the call");
        self.balance -= amount;
    }
}

#[test]
fn end_to_end_burn_succeeds() {
    let mut f = TokenFactory::new();
    assert_eq!(f.initialize(addr(1), addr(2), 100, 50), Ok(()));
    let st = f.get_state();
    assert_eq!(st.admin, Some(addr(1)));
    assert_eq!(st.treasury, Some(addr(2)));
    assert_eq!(st.base_fee, 100);
    assert_eq!(st.metadata_fee, 50);
    assert_eq!(st.token_count, 0);

    let token = addr(10);
    let holder = addr(20);
    let mut external = FakeToken { balance: 50 };

    let request = f.burn(token, holder, 30, external.balance).unwrap();
    assert_eq!(
        request,
        BurnRequest { token_address: token, from: holder, amount: 30 }
    );
    external.burn(request.amount);
    assert_eq!(external.balance, 20);

    let event = f.commit_burn(token, holder, 30, 1234);
    assert_eq!(
        event,
        BurnEvent { token_address: token, from: holder, amount: 30, timestamp: 1234 }
    );
    assert_eq!(f.get_token_count(), 1);
    assert_eq!(
        f.get_token_info(0),
        Ok(TokenInfo { token_address: token, supply: -30 })
    );
}

#[test]
fn burn_of_zero_amount_is_rejected() {
    let f = TokenFactory::new();
    assert_eq!(
        f.burn(addr(10), addr(20), 0, 50),
        Err(Error::InvalidBurnAmount)
    );
    // No registry record was touched and no event value was produced.
    assert_eq!(f.get_token_count(), 0);
}

#[test]
fn burn_of_negative_amount_is_rejected() {
    let f = TokenFactory::new();
    assert_eq!(
        f.burn(addr(10), addr(20), -5, 50),
        Err(Error::InvalidBurnAmount)
    );
}

#[test]
fn over_balance_burn_is_rejected_both_times() {
    let f = TokenFactory::new();
    let first = f.burn(addr(10), addr(20), 100, 50);
    assert_eq!(first, Err(Error::BurnAmountExceedsBalance));
    let second = f.burn(addr(10), addr(20), 100, 50);
    assert_eq!(second, Err(Error::BurnAmountExceedsBalance));
    assert_eq!(f.get_token_count(), 0);
    assert_eq!(f.get_token_info(0), Err(Error::TokenNotFound));
}

#[test]
fn token_lookup_fails_exactly_out_of_range() {
    let mut f = TokenFactory::new();
    assert_eq!(f.get_token_info(0), Err(Error::TokenNotFound));
    f.commit_burn(addr(10), addr(20), 1, 0);
    assert_eq!(f.get_token_count(), 1);
    assert!(f.get_token_info(0).is_ok());
    assert_eq!(f.get_token_info(1), Err(Error::TokenNotFound));
    assert_eq!(f.get_token_info(u32::MAX), Err(Error::TokenNotFound));
}

#[test]
fn burns_on_one_token_share_one_record() {
    let mut f = TokenFactory::new();
    f.commit_burn(addr(10), addr(20), 30, 1);
    f.commit_burn(addr(10), addr(21), 12, 2);
    assert_eq!(f.get_token_count(), 1);
    assert_eq!(
        f.get_token_info(0),
        Ok(TokenInfo { token_address: addr(10), supply: -42 })
    );
}

#[test]
fn burns_on_distinct_tokens_register_in_order() {
    let mut f = TokenFactory::new();
    f.commit_burn(addr(10), addr(20), 30, 1);
    f.commit_burn(addr(11), addr(20), 5, 2);
    assert_eq!(f.get_token_count(), 2);
    assert_eq!(
        f.get_token_info(0),
        Ok(TokenInfo { token_address: addr(10), supply: -30 })
    );
    assert_eq!(
        f.get_token_info(1),
        Ok(TokenInfo { token_address: addr(11), supply: -5 })
    );
}

#[test]
fn supply_bookkeeping_saturates_at_the_type_bound() {
    let mut f = TokenFactory::new();
    f.commit_burn(addr(10), addr(20), i128::MAX, 1);
    assert_eq!(
        f.get_token_info(0),
        Ok(TokenInfo { token_address: addr(10), supply: -i128::MAX })
    );
    f.commit_burn(addr(10), addr(20), i128::MAX, 2);
    assert_eq!(
        f.get_token_info(0),
        Ok(TokenInfo { token_address: addr(10), supply: i128::MIN })
    );
}
