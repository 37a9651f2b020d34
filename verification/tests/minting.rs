use top_signals::address::Address;
use top_signals::contract::TopSignalsBrowserContract;
use top_signals::counter::Counter;
use top_signals::errors::{ContractError, LedgerError};

fn eligible_contract() -> TopSignalsBrowserContract {
    let mut c = TopSignalsBrowserContract::new();
    c.initialize().unwrap();
    for _ in 0..50 {
        c.track_token_view(Address::new(0, 1)).unwrap();
    }
    c
}

#[test]
fn test_researcher_nft_minting() {
    let mut contract = TopSignalsBrowserContract::new();
    let test_address = Address::new(0x12345678, 0x91234567891234567891234567891234);
    let token_id = 1u128;

    contract.erc721.mint(test_address, token_id).unwrap();
    let owner = contract.erc721.owner_of(token_id).unwrap();
    assert_eq!(owner, test_address);
}

#[test]
fn researcher_mint_requires_eligibility() {
    let mut c = TopSignalsBrowserContract::new();
    assert_eq!(
        c.mint_researcher_nft(Address::new(0, 1)),
        Err(ContractError::NotEligible)
    );
    assert_eq!(c.researcher_supply, 0);
}

#[test]
fn researcher_mint_succeeds_exactly_once() {
    let mut c = eligible_contract();
    let caller = Address::new(0, 42);
    assert_eq!(c.erc721.balance_of(caller), 0);
    c.mint_researcher_nft(caller).unwrap();
    assert_eq!(c.erc721.balance_of(caller), 1);
    assert_eq!(c.researcher_supply, 1);
    assert!(!c.is_researcher_eligible(caller).unwrap());

    // Even with the flag somehow set again, the held token blocks a second mint.
    c.researcher_eligibility = true;
    assert_eq!(c.mint_researcher_nft(caller), Err(ContractError::AlreadyHolds));
    assert_eq!(c.erc721.balance_of(caller), 1);
    assert_eq!(c.researcher_supply, 1);
}

#[test]
fn milestone_mint_succeeds_only_on_a_milestone() {
    let mut c = TopSignalsBrowserContract::new();
    let caller = Address::new(0, 7);
    c.set_counter(11).unwrap();
    assert_eq!(
        c.mint_nft_at_milestone(caller),
        Err(ContractError::NotAtMilestone)
    );
    c.set_counter(10).unwrap();
    c.mint_nft_at_milestone(caller).unwrap();
    assert_eq!(c.erc721.balance_of(caller), 1);
    assert_eq!(c.researcher_supply, 1);
}

#[test]
fn milestone_mint_refuses_zero_counter() {
    let mut c = TopSignalsBrowserContract::new();
    assert_eq!(
        c.mint_nft_at_milestone(Address::new(0, 7)),
        Err(ContractError::NotAtMilestone)
    );
}

#[test]
fn milestone_mint_blocks_a_holder() {
    let mut c = TopSignalsBrowserContract::new();
    let caller = Address::new(0, 7);
    c.set_counter(10).unwrap();
    c.mint_nft_at_milestone(caller).unwrap();
    assert_eq!(c.mint_nft_at_milestone(caller), Err(ContractError::AlreadyHolds));
    assert_eq!(c.researcher_supply, 1);
}

#[test]
fn two_mint_paths_share_one_supply() {
    let mut c = eligible_contract();
    let researcher = Address::new(0, 1);
    let milestone_user = Address::new(0, 2);

    c.mint_researcher_nft(researcher).unwrap();
    c.set_counter(10).unwrap();
    c.mint_nft_at_milestone(milestone_user).unwrap();

    assert_eq!(c.researcher_supply, 2);
    let first = c.erc721.owner_of(1).unwrap();
    let second = c.erc721.owner_of(2).unwrap();
    assert_eq!(first, researcher);
    assert_eq!(second, milestone_user);
    assert_ne!(1u128, 2u128);
    assert!(c.erc721.owner_of(3).is_err());
}

#[test]
fn mint_propagates_a_ledger_collision() {
    let mut c = eligible_contract();
    let squatter = Address::new(0, 9);
    // Token id 1 is taken directly on the ledger, so the next researcher
    // mint (which would use id 1) is refused and writes nothing.
    c.erc721.mint(squatter, 1).unwrap();
    let caller = Address::new(0, 42);
    assert_eq!(
        c.mint_researcher_nft(caller),
        Err(ContractError::Ledger(LedgerError::AlreadyMinted))
    );
    assert_eq!(c.researcher_supply, 0);
    assert!(c.is_researcher_eligible(caller).unwrap());
    assert_eq!(c.erc721.balance_of(caller), 0);
}

#[test]
fn mint_at_supply_limit_is_refused() {
    let mut c = eligible_contract();
    c.researcher_supply = u128::MAX;
    assert_eq!(
        c.mint_researcher_nft(Address::new(0, 42)),
        Err(ContractError::ArithmeticOverflow)
    );
    assert_eq!(c.researcher_supply, u128::MAX);
}

#[test]
fn ledger_refuses_duplicate_and_unknown_tokens() {
    let mut c = TopSignalsBrowserContract::new();
    let a = Address::new(0, 1);
    let b = Address::new(0, 2);
    c.erc721.mint(a, 5).unwrap();
    assert_eq!(c.erc721.mint(b, 5), Err(LedgerError::AlreadyMinted));
    assert_eq!(c.erc721.owner_of(5).unwrap(), a);
    assert_eq!(c.erc721.owner_of(6), Err(LedgerError::Unminted));
    assert_eq!(c.erc721.balance_of(a), 1);
    assert_eq!(c.erc721.balance_of(b), 0);
    c.erc721.mint(a, 6).unwrap();
    assert_eq!(c.erc721.balance_of(a), 2);
}

#[test]
fn standalone_counter_arithmetic() {
    let mut c = Counter::new();
    assert_eq!(c.number(), 0);
    c.set_number(4);
    assert_eq!(c.number(), 4);
    c.add_number(6);
    assert_eq!(c.number(), 10);
    c.mul_number(3);
    assert_eq!(c.number(), 30);
    c.increment();
    assert_eq!(c.number(), 31);
    c.increment_by(9);
    assert_eq!(c.number(), 40);
    c.reset();
    assert_eq!(c.number(), 0);
}

#[test]
fn standalone_counter_milestones() {
    let mut c = Counter::new();
    assert!(!c.is_multiple_of_ten());
    assert_eq!(c.next_milestone(), 0);
    c.set_number(23);
    assert!(!c.is_multiple_of_ten());
    assert_eq!(c.next_milestone(), 30);
    c.set_number(20);
    assert!(c.is_multiple_of_ten());
    assert_eq!(c.next_milestone(), 20);
}
