use top_signals::address::Address;
use top_signals::contract::TopSignalsBrowserContract;
use top_signals::errors::ContractError;

fn fresh() -> TopSignalsBrowserContract {
    TopSignalsBrowserContract::new()
}

fn addr(n: u128) -> Address {
    Address::new(0, n)
}

#[test]
fn initialize_sets_required_views() {
    let mut c = fresh();
    assert_eq!(c.get_required_views().unwrap(), 0);
    c.initialize().unwrap();
    assert_eq!(c.get_required_views().unwrap(), 50);
    assert_eq!(c.get_counter().unwrap(), 0);
    assert_eq!(c.get_user_views(addr(1)).unwrap(), 0);
}

#[test]
fn reset_then_increment_by_reaches_exactly_n() {
    let mut c = fresh();
    for n in [0u128, 1, 7, 50, 12345, u128::MAX] {
        c.set_counter(99).unwrap();
        c.reset_counter().unwrap();
        assert_eq!(c.get_counter().unwrap(), 0);
        c.increment_counter_by(n).unwrap();
        assert_eq!(c.get_counter().unwrap(), n);
    }
}

#[test]
fn increment_counter_steps_by_one() {
    let mut c = fresh();
    c.increment_counter().unwrap();
    c.increment_counter().unwrap();
    c.increment_counter().unwrap();
    assert_eq!(c.get_counter().unwrap(), 3);
}

#[test]
fn increment_counter_overflow_is_refused() {
    let mut c = fresh();
    c.set_counter(u128::MAX).unwrap();
    assert_eq!(c.increment_counter(), Err(ContractError::ArithmeticOverflow));
    assert_eq!(c.get_counter().unwrap(), u128::MAX);
    c.set_counter(u128::MAX - 1).unwrap();
    assert_eq!(
        c.increment_counter_by(2),
        Err(ContractError::ArithmeticOverflow)
    );
    assert_eq!(c.get_counter().unwrap(), u128::MAX - 1);
    c.increment_counter_by(1).unwrap();
    assert_eq!(c.get_counter().unwrap(), u128::MAX);
}

#[test]
fn multiple_of_ten_is_false_at_zero_true_at_tens() {
    let mut c = fresh();
    assert!(!c.is_counter_multiple_of_ten().unwrap());
    for v in [10u128, 20, 30, 100, 1000] {
        c.set_counter(v).unwrap();
        assert!(c.is_counter_multiple_of_ten().unwrap());
    }
    for v in [1u128, 9, 11, 15, 19, 21, 29, 101] {
        c.set_counter(v).unwrap();
        assert!(!c.is_counter_multiple_of_ten().unwrap());
    }
}

#[test]
fn next_milestone_rounds_up_to_ten() {
    let mut c = fresh();
    c.set_counter(23).unwrap();
    assert_eq!(c.get_next_counter_milestone().unwrap(), 30);
    c.set_counter(20).unwrap();
    assert_eq!(c.get_next_counter_milestone().unwrap(), 20);
    c.reset_counter().unwrap();
    assert_eq!(c.get_next_counter_milestone().unwrap(), 0);
    c.set_counter(1).unwrap();
    assert_eq!(c.get_next_counter_milestone().unwrap(), 10);
    c.set_counter(u128::MAX).unwrap();
    assert_eq!(
        c.get_next_counter_milestone(),
        Err(ContractError::ArithmeticOverflow)
    );
}

#[test]
fn tracking_views_raises_both_counters() {
    let mut c = fresh();
    c.initialize().unwrap();
    c.track_token_view(addr(7)).unwrap();
    c.track_token_view(addr(8)).unwrap();
    assert_eq!(c.get_user_views(addr(7)).unwrap(), 2);
    assert_eq!(c.get_user_views(addr(9)).unwrap(), 2);
    assert_eq!(c.get_counter().unwrap(), 2);
}

#[test]
fn eligibility_flips_at_exactly_fifty_views() {
    let mut c = fresh();
    c.initialize().unwrap();
    for _ in 0..49 {
        c.track_token_view(addr(1)).unwrap();
    }
    assert!(!c.is_researcher_eligible(addr(1)).unwrap());
    c.track_token_view(addr(2)).unwrap();
    assert!(c.is_researcher_eligible(addr(1)).unwrap());
    assert!(c.is_researcher_eligible(addr(2)).unwrap());
    assert_eq!(c.get_user_views(addr(1)).unwrap(), 50);
}

#[test]
fn tracking_at_view_limit_writes_nothing() {
    let mut c = fresh();
    c.initialize().unwrap();
    c.user_token_views = u128::MAX;
    assert_eq!(
        c.track_token_view(addr(1)),
        Err(ContractError::ArithmeticOverflow)
    );
    assert_eq!(c.get_user_views(addr(1)).unwrap(), u128::MAX);
    assert_eq!(c.get_counter().unwrap(), 0);
    assert!(!c.is_researcher_eligible(addr(1)).unwrap());
}

#[test]
fn name_and_symbol_are_fixed() {
    let c = fresh();
    assert_eq!(c.name().unwrap(), "Top Signals Browser Researcher");
    assert_eq!(c.symbol().unwrap(), "TSBR");
}

#[test]
fn token_uri_embeds_the_token_id() {
    let c = fresh();
    let expected = "{\"name\":\"Top Signals Researcher #1\",\"description\":\"NFT awarded to users who have analyzed 50+ tokens in the Top Signals Browser.\",\"image\":\"/researcher-nft.svg\",\"attributes\":[{\"trait_type\":\"Role\",\"value\":\"Researcher\"},{\"trait_type\":\"Analytics Level\",\"value\":\"Expert\"}]}";
    assert_eq!(c.token_uri(1).unwrap(), expected);
    let uri = c.token_uri(907).unwrap();
    assert!(uri.contains("Top Signals Researcher #907"));
    let uri_zero = c.token_uri(0).unwrap();
    assert!(uri_zero.contains("Top Signals Researcher #0\""));
    let uri_big = c.token_uri(340282366920938463463374607431768211455).unwrap();
    assert!(uri_big.contains("#340282366920938463463374607431768211455\""));
}
