use shimeji_marketplace::{
    Address, Currency, DataKey, Host, ListingInfo, MarketError, Record, ShimejiMarketplace,
    SwapOffer,
};

fn account(n: u128) -> Address {
    Address { contract: false, hi: 0, lo: n }
}

fn contract(n: u128) -> Address {
    Address { contract: true, hi: 0, lo: n }
}

const MARKETPLACE: u128 = 100;

fn marketplace_addr() -> Address {
    contract(MARKETPLACE)
}

fn setup() -> Host {
    let mut host = Host::new(marketplace_addr());
    host.mock_all_auths();
    let admin = account(1);
    assert_eq!(
        ShimejiMarketplace::initialize(&mut host, admin, contract(101), contract(102), contract(103)),
        Ok(())
    );
    host
}

fn mint_nft(host: &mut Host, owner: Address) -> u64 {
    host.nft.mint(owner)
}

#[test]
fn test_list_and_buy_xlm() {
    let mut t = setup();
    let seller = account(10);
    let buyer = account(11);

    let token_id = mint_nft(&mut t, seller);

    let listing_id = ShimejiMarketplace::list_for_sale(
        &mut t,
        seller,
        token_id,
        1000_0000000i128,
        100_0000000i128,
        1000000i128,
    )
    .unwrap();
    assert_eq!(listing_id, 0);
    assert_eq!(ShimejiMarketplace::total_listings(&t), 1);

    assert_eq!(t.nft.owner_of(token_id), Some(marketplace_addr()));

    assert_eq!(t.xlm.mint(buyer, 1000_0000000i128), Ok(()));

    assert_eq!(ShimejiMarketplace::buy_xlm(&mut t, buyer, listing_id), Ok(()));

    assert_eq!(t.nft.owner_of(token_id), Some(buyer));
    assert_eq!(t.xlm.balance(seller), 1000_0000000i128);
    assert_eq!(t.xlm.balance(buyer), 0i128);

    let listing = ShimejiMarketplace::get_listing(&t, listing_id).unwrap();
    assert!(!listing.active);
}

#[test]
fn test_list_and_buy_usdc() {
    let mut t = setup();
    let seller = account(10);
    let buyer = account(11);

    let token_id = mint_nft(&mut t, seller);
    let listing_id = ShimejiMarketplace::list_for_sale(
        &mut t,
        seller,
        token_id,
        1000_0000000i128,
        100_0000000i128,
        1000000i128,
    )
    .unwrap();

    assert_eq!(t.usdc.mint(buyer, 100_0000000i128), Ok(()));
    assert_eq!(ShimejiMarketplace::buy_usdc(&mut t, buyer, listing_id), Ok(()));

    assert_eq!(t.nft.owner_of(token_id), Some(buyer));
    assert_eq!(t.usdc.balance(seller), 100_0000000i128);
}

#[test]
fn test_cancel_listing() {
    let mut t = setup();
    let seller = account(10);

    let token_id = mint_nft(&mut t, seller);
    let listing_id = ShimejiMarketplace::list_for_sale(
        &mut t,
        seller,
        token_id,
        1000_0000000i128,
        100_0000000i128,
        1000000i128,
    )
    .unwrap();

    assert_eq!(ShimejiMarketplace::cancel_listing(&mut t, seller, listing_id), Ok(()));

    assert_eq!(t.nft.owner_of(token_id), Some(seller));

    let listing = ShimejiMarketplace::get_listing(&t, listing_id).unwrap();
    assert!(!listing.active);
}

#[test]
fn test_swap_happy_path() {
    let mut t = setup();
    let alice = account(20);
    let bob = account(21);

    let alice_token = mint_nft(&mut t, alice);
    let bob_token = mint_nft(&mut t, bob);

    let swap_id =
        ShimejiMarketplace::create_swap_offer(&mut t, alice, alice_token, bob_token).unwrap();
    assert_eq!(swap_id, 0);
    assert_eq!(ShimejiMarketplace::total_swaps(&t), 1);

    assert_eq!(t.nft.owner_of(alice_token), Some(marketplace_addr()));

    assert_eq!(ShimejiMarketplace::accept_swap(&mut t, bob, swap_id), Ok(()));

    assert_eq!(t.nft.owner_of(alice_token), Some(bob));
    assert_eq!(t.nft.owner_of(bob_token), Some(alice));
}

#[test]
fn test_cancel_swap() {
    let mut t = setup();
    let alice = account(20);
    let bob = account(21);

    let alice_token = mint_nft(&mut t, alice);
    let bob_token = mint_nft(&mut t, bob);

    let swap_id =
        ShimejiMarketplace::create_swap_offer(&mut t, alice, alice_token, bob_token).unwrap();

    assert_eq!(ShimejiMarketplace::cancel_swap(&mut t, alice, swap_id), Ok(()));

    assert_eq!(t.nft.owner_of(alice_token), Some(alice));

    let offer = ShimejiMarketplace::get_swap_offer(&t, swap_id).unwrap();
    assert!(!offer.active);
}

#[test]
fn test_buy_inactive_listing() {
    let mut t = setup();
    let seller = account(10);
    let buyer = account(11);

    let token_id = mint_nft(&mut t, seller);
    let listing_id = ShimejiMarketplace::list_for_sale(
        &mut t,
        seller,
        token_id,
        1000_0000000i128,
        100_0000000i128,
        1000000i128,
    )
    .unwrap();
    assert_eq!(ShimejiMarketplace::cancel_listing(&mut t, seller, listing_id), Ok(()));

    assert_eq!(t.xlm.mint(buyer, 1000_0000000i128), Ok(()));
    assert_eq!(
        ShimejiMarketplace::buy_xlm(&mut t, buyer, listing_id),
        Err(MarketError::ListingInactive)
    );
    assert_eq!(t.xlm.balance(buyer), 1000_0000000i128);
    assert_eq!(t.nft.owner_of(token_id), Some(seller));
}

#[test]
fn test_accept_cancelled_swap() {
    let mut t = setup();
    let alice = account(20);
    let bob = account(21);

    let alice_token = mint_nft(&mut t, alice);
    let bob_token = mint_nft(&mut t, bob);

    let swap_id =
        ShimejiMarketplace::create_swap_offer(&mut t, alice, alice_token, bob_token).unwrap();
    assert_eq!(ShimejiMarketplace::cancel_swap(&mut t, alice, swap_id), Ok(()));
    assert_eq!(
        ShimejiMarketplace::accept_swap(&mut t, bob, swap_id),
        Err(MarketError::SwapInactive)
    );
    assert_eq!(t.nft.owner_of(bob_token), Some(bob));
}

#[test]
fn test_swap_same_token() {
    let mut t = setup();
    let alice = account(20);
    let token_id = mint_nft(&mut t, alice);
    assert_eq!(
        ShimejiMarketplace::create_swap_offer(&mut t, alice, token_id, token_id),
        Err(MarketError::InvalidSwap)
    );
    assert_eq!(t.nft.owner_of(token_id), Some(alice));
    assert_eq!(ShimejiMarketplace::total_swaps(&t), 0);
}

#[test]
fn test_double_initialize() {
    let mut t = setup();
    let admin = account(2);
    assert_eq!(
        ShimejiMarketplace::initialize(&mut t, admin, contract(201), contract(202), contract(203)),
        Err(MarketError::AlreadyInitialized)
    );
    assert_eq!(t.store.get(DataKey::Admin), Some(Record::Address(account(1))));
    assert_eq!(ShimejiMarketplace::nft_contract(&t), Some(contract(101)));
    assert_eq!(t.store.get(DataKey::UsdcToken), Some(Record::Address(contract(102))));
    assert_eq!(t.store.get(DataKey::XlmToken), Some(Record::Address(contract(103))));
}

#[test]
fn ids_run_from_zero_for_each_kind() {
    let mut t = setup();
    let seller = account(10);
    for expected in 0u64..4 {
        let token = mint_nft(&mut t, seller);
        assert_eq!(ShimejiMarketplace::list_for_sale(&mut t, seller, token, 5, 7, 1), Ok(expected));
    }
    // a refused creation uses up no id
    let stray = mint_nft(&mut t, account(30));
    assert_eq!(
        ShimejiMarketplace::list_for_sale(&mut t, seller, stray, 5, 7, 1),
        Err(MarketError::NotOwner)
    );
    assert_eq!(
        ShimejiMarketplace::list_for_sale(&mut t, seller, stray, 0, 7, 1),
        Err(MarketError::InvalidPrice(Currency::Xlm))
    );
    assert_eq!(ShimejiMarketplace::total_listings(&t), 4);
    let a = mint_nft(&mut t, seller);
    let b = mint_nft(&mut t, seller);
    assert_eq!(ShimejiMarketplace::create_swap_offer(&mut t, seller, a, 0), Ok(0));
    assert_eq!(ShimejiMarketplace::create_swap_offer(&mut t, seller, b, 0), Ok(1));
    assert_eq!(ShimejiMarketplace::total_swaps(&t), 2);
    let token = mint_nft(&mut t, seller);
    assert_eq!(ShimejiMarketplace::list_for_sale(&mut t, seller, token, 5, 7, 1), Ok(4));
}

#[test]
fn listing_record_holds_what_was_listed() {
    let mut t = setup();
    let seller = account(10);
    let token = mint_nft(&mut t, seller);
    let id = ShimejiMarketplace::list_for_sale(&mut t, seller, token, 1000, 100, 10).unwrap();
    assert_eq!(
        ShimejiMarketplace::get_listing(&t, id),
        Ok(ListingInfo {
            seller,
            token_id: token,
            price_xlm: 1000,
            price_usdc: 100,
            xlm_usdc_rate: 10,
            active: true
        })
    );
    assert_eq!(
        t.store.get(DataKey::Listing(id)),
        Some(Record::Listing(ListingInfo {
            seller,
            token_id: token,
            price_xlm: 1000,
            price_usdc: 100,
            xlm_usdc_rate: 10,
            active: true
        }))
    );
    assert_eq!(t.store.get(DataKey::NextListingId), Some(Record::Counter(1)));
}

#[test]
fn scenario_token_seven_sold_for_native() {
    let mut t = setup();
    let seller = account(10);
    let buyer = account(11);
    for _ in 0..7 {
        mint_nft(&mut t, account(99));
    }
    let token = mint_nft(&mut t, seller);
    assert_eq!(token, 7);
    let id = ShimejiMarketplace::list_for_sale(&mut t, seller, 7, 1000, 100, 10).unwrap();
    assert_eq!(t.xlm.mint(buyer, 1000), Ok(()));
    assert_eq!(ShimejiMarketplace::buy_xlm(&mut t, buyer, id), Ok(()));
    assert_eq!(t.xlm.balance(seller), 1000);
    assert_eq!(t.xlm.balance(buyer), 0);
    assert_eq!(t.usdc.balance(seller), 0);
    assert_eq!(t.nft.owner_of(7), Some(buyer));
    assert!(!ShimejiMarketplace::get_listing(&t, id).unwrap().active);
}

#[test]
fn scenario_alice_and_bob_swap_three_for_nine() {
    let mut t = setup();
    let alice = account(20);
    let bob = account(21);
    for i in 0..10u64 {
        let owner = if i == 3 {
            alice
        } else if i == 9 {
            bob
        } else {
            account(99)
        };
        assert_eq!(mint_nft(&mut t, owner), i);
    }
    let id = ShimejiMarketplace::create_swap_offer(&mut t, alice, 3, 9).unwrap();
    assert_eq!(ShimejiMarketplace::accept_swap(&mut t, bob, id), Ok(()));
    assert_eq!(t.nft.owner_of(9), Some(alice));
    assert_eq!(t.nft.owner_of(3), Some(bob));
    assert_eq!(
        ShimejiMarketplace::get_swap_offer(&t, id),
        Ok(SwapOffer { offerer: alice, offered_token_id: 3, desired_token_id: 9, active: false })
    );
    assert_eq!(ShimejiMarketplace::accept_swap(&mut t, bob, id), Err(MarketError::SwapInactive));
    assert_eq!(t.nft.owner_of(9), Some(alice));
    assert_eq!(t.nft.owner_of(3), Some(bob));
}

#[test]
fn a_listing_is_settled_once_in_either_order() {
    let mut t = setup();
    let seller = account(10);
    let buyer = account(11);
    assert_eq!(t.xlm.mint(buyer, 50), Ok(()));
    assert_eq!(t.usdc.mint(buyer, 50), Ok(()));

    // purchase first, then cancel and purchase again
    let first = mint_nft(&mut t, seller);
    let sold = ShimejiMarketplace::list_for_sale(&mut t, seller, first, 10, 20, 1).unwrap();
    assert_eq!(ShimejiMarketplace::buy_usdc(&mut t, buyer, sold), Ok(()));
    assert_eq!(
        ShimejiMarketplace::cancel_listing(&mut t, seller, sold),
        Err(MarketError::ListingInactive)
    );
    assert_eq!(ShimejiMarketplace::buy_xlm(&mut t, buyer, sold), Err(MarketError::ListingInactive));
    assert_eq!(
        ShimejiMarketplace::buy_usdc(&mut t, buyer, sold),
        Err(MarketError::ListingInactive)
    );
    assert_eq!(t.usdc.balance(buyer), 30);
    assert_eq!(t.usdc.balance(seller), 20);
    assert_eq!(t.xlm.balance(buyer), 50);
    assert_eq!(t.nft.owner_of(first), Some(buyer));

    // cancel first, then purchase and cancel again
    let second = mint_nft(&mut t, seller);
    let cancelled = ShimejiMarketplace::list_for_sale(&mut t, seller, second, 10, 20, 1).unwrap();
    assert_eq!(ShimejiMarketplace::cancel_listing(&mut t, seller, cancelled), Ok(()));
    assert_eq!(
        ShimejiMarketplace::buy_xlm(&mut t, buyer, cancelled),
        Err(MarketError::ListingInactive)
    );
    assert_eq!(
        ShimejiMarketplace::cancel_listing(&mut t, seller, cancelled),
        Err(MarketError::ListingInactive)
    );
    assert_eq!(t.nft.owner_of(second), Some(seller));
    assert_eq!(t.xlm.balance(buyer), 50);
}

#[test]
fn a_swap_is_settled_once_in_either_order() {
    let mut t = setup();
    let alice = account(20);
    let bob = account(21);
    let a = mint_nft(&mut t, alice);
    let b = mint_nft(&mut t, bob);
    let id = ShimejiMarketplace::create_swap_offer(&mut t, alice, a, b).unwrap();
    assert_eq!(ShimejiMarketplace::accept_swap(&mut t, bob, id), Ok(()));
    assert_eq!(ShimejiMarketplace::cancel_swap(&mut t, alice, id), Err(MarketError::SwapInactive));
    assert_eq!(ShimejiMarketplace::accept_swap(&mut t, bob, id), Err(MarketError::SwapInactive));
    assert_eq!(t.nft.owner_of(a), Some(bob));
    assert_eq!(t.nft.owner_of(b), Some(alice));
}

#[test]
fn only_the_seller_cancels_a_listing() {
    let mut t = setup();
    let seller = account(10);
    let stranger = account(12);
    let token = mint_nft(&mut t, seller);
    let id = ShimejiMarketplace::list_for_sale(&mut t, seller, token, 10, 20, 1).unwrap();
    assert_eq!(
        ShimejiMarketplace::cancel_listing(&mut t, stranger, id),
        Err(MarketError::Unauthorized)
    );
    assert!(ShimejiMarketplace::get_listing(&t, id).unwrap().active);
    assert_eq!(t.nft.owner_of(token), Some(marketplace_addr()));
}

#[test]
fn only_the_offerer_cancels_a_swap() {
    let mut t = setup();
    let alice = account(20);
    let bob = account(21);
    let a = mint_nft(&mut t, alice);
    let b = mint_nft(&mut t, bob);
    let id = ShimejiMarketplace::create_swap_offer(&mut t, alice, a, b).unwrap();
    assert_eq!(ShimejiMarketplace::cancel_swap(&mut t, bob, id), Err(MarketError::Unauthorized));
    assert!(ShimejiMarketplace::get_swap_offer(&t, id).unwrap().active);
    assert_eq!(t.nft.owner_of(a), Some(marketplace_addr()));
}

#[test]
fn calls_without_consent_are_refused_and_change_nothing() {
    let mut t = setup();
    let seller = account(10);
    let buyer = account(11);
    let token = mint_nft(&mut t, seller);
    let other = mint_nft(&mut t, buyer);
    assert_eq!(t.xlm.mint(buyer, 100), Ok(()));

    t.set_signer(buyer);
    assert_eq!(
        ShimejiMarketplace::list_for_sale(&mut t, seller, token, 10, 20, 1),
        Err(MarketError::Unauthorized)
    );
    assert_eq!(
        ShimejiMarketplace::create_swap_offer(&mut t, seller, token, other),
        Err(MarketError::Unauthorized)
    );
    assert_eq!(ShimejiMarketplace::total_listings(&t), 0);
    assert_eq!(t.nft.owner_of(token), Some(seller));

    t.set_signer(seller);
    let listing = ShimejiMarketplace::list_for_sale(&mut t, seller, token, 10, 20, 1).unwrap();
    assert_eq!(ShimejiMarketplace::buy_xlm(&mut t, buyer, listing), Err(MarketError::Unauthorized));
    assert_eq!(
        ShimejiMarketplace::buy_usdc(&mut t, buyer, listing),
        Err(MarketError::Unauthorized)
    );
    assert_eq!(t.xlm.balance(buyer), 100);

    t.set_signer(buyer);
    assert_eq!(
        ShimejiMarketplace::cancel_listing(&mut t, seller, listing),
        Err(MarketError::Unauthorized)
    );
    assert!(ShimejiMarketplace::get_listing(&t, listing).unwrap().active);
    assert_eq!(ShimejiMarketplace::buy_xlm(&mut t, buyer, listing), Ok(()));

    let swap = ShimejiMarketplace::create_swap_offer(&mut t, buyer, other, token);
    assert_eq!(swap, Ok(0));
    assert_eq!(
        ShimejiMarketplace::accept_swap(&mut t, seller, 0),
        Err(MarketError::Unauthorized)
    );
    assert_eq!(ShimejiMarketplace::cancel_swap(&mut t, seller, 0), Err(MarketError::Unauthorized));
    assert!(ShimejiMarketplace::get_swap_offer(&t, 0).unwrap().active);
}

#[test]
fn prices_must_be_positive() {
    let mut t = setup();
    let seller = account(10);
    let token = mint_nft(&mut t, seller);
    assert_eq!(
        ShimejiMarketplace::list_for_sale(&mut t, seller, token, 0, 5, 1),
        Err(MarketError::InvalidPrice(Currency::Xlm))
    );
    assert_eq!(
        ShimejiMarketplace::list_for_sale(&mut t, seller, token, -1, -1, 1),
        Err(MarketError::InvalidPrice(Currency::Xlm))
    );
    assert_eq!(
        ShimejiMarketplace::list_for_sale(&mut t, seller, token, 5, 0, 1),
        Err(MarketError::InvalidPrice(Currency::Usdc))
    );
    assert_eq!(t.nft.owner_of(token), Some(seller));
    assert_eq!(ShimejiMarketplace::total_listings(&t), 0);
    assert_eq!(ShimejiMarketplace::list_for_sale(&mut t, seller, token, 1, 1, 0), Ok(0));
}

#[test]
fn unknown_ids_are_not_found() {
    let mut t = setup();
    let who = account(10);
    assert_eq!(ShimejiMarketplace::get_listing(&t, 0), Err(MarketError::NotFound));
    assert_eq!(ShimejiMarketplace::get_swap_offer(&t, 0), Err(MarketError::NotFound));
    assert_eq!(ShimejiMarketplace::buy_xlm(&mut t, who, 3), Err(MarketError::NotFound));
    assert_eq!(ShimejiMarketplace::buy_usdc(&mut t, who, 3), Err(MarketError::NotFound));
    assert_eq!(ShimejiMarketplace::cancel_listing(&mut t, who, 3), Err(MarketError::NotFound));
    assert_eq!(ShimejiMarketplace::accept_swap(&mut t, who, 3), Err(MarketError::NotFound));
    assert_eq!(ShimejiMarketplace::cancel_swap(&mut t, who, 3), Err(MarketError::NotFound));
}

#[test]
fn an_unconfigured_marketplace_creates_nothing() {
    let mut host = Host::new(marketplace_addr());
    host.mock_all_auths();
    let seller = account(10);
    let a = host.nft.mint(seller);
    let b = host.nft.mint(seller);
    assert_eq!(ShimejiMarketplace::total_listings(&host), 0);
    assert_eq!(ShimejiMarketplace::total_swaps(&host), 0);
    assert_eq!(ShimejiMarketplace::nft_contract(&host), None);
    assert_eq!(
        ShimejiMarketplace::list_for_sale(&mut host, seller, a, 1, 1, 1),
        Err(MarketError::NotInitialized)
    );
    assert_eq!(
        ShimejiMarketplace::create_swap_offer(&mut host, seller, a, b),
        Err(MarketError::NotInitialized)
    );
    assert_eq!(host.nft.owner_of(a), Some(seller));
}

#[test]
fn a_purchase_that_cannot_be_paid_changes_nothing() {
    let mut t = setup();
    let seller = account(10);
    let buyer = account(11);
    let token = mint_nft(&mut t, seller);
    let id = ShimejiMarketplace::list_for_sale(&mut t, seller, token, 1000, 100, 1).unwrap();
    assert_eq!(t.xlm.mint(buyer, 999), Ok(()));
    assert_eq!(ShimejiMarketplace::buy_xlm(&mut t, buyer, id), Err(MarketError::InsufficientBalance));
    assert_eq!(
        ShimejiMarketplace::buy_usdc(&mut t, buyer, id),
        Err(MarketError::InsufficientBalance)
    );
    assert_eq!(t.xlm.balance(buyer), 999);
    assert_eq!(t.xlm.balance(seller), 0);
    assert_eq!(t.nft.owner_of(token), Some(marketplace_addr()));
    assert!(ShimejiMarketplace::get_listing(&t, id).unwrap().active);
    assert_eq!(t.xlm.mint(buyer, 1), Ok(()));
    assert_eq!(ShimejiMarketplace::buy_xlm(&mut t, buyer, id), Ok(()));
    assert_eq!(t.xlm.balance(seller), 1000);
}

#[test]
fn a_purchase_that_would_overflow_the_seller_changes_nothing() {
    let mut t = setup();
    let seller = account(10);
    let buyer = account(11);
    let token = mint_nft(&mut t, seller);
    let id = ShimejiMarketplace::list_for_sale(&mut t, seller, token, 2, 1, 1).unwrap();
    assert_eq!(t.xlm.mint(seller, i128::MAX - 1), Ok(()));
    assert_eq!(t.xlm.mint(buyer, 2), Ok(()));
    assert_eq!(ShimejiMarketplace::buy_xlm(&mut t, buyer, id), Err(MarketError::BalanceOverflow));
    assert_eq!(t.xlm.balance(buyer), 2);
    assert_eq!(t.xlm.balance(seller), i128::MAX - 1);
    assert_eq!(t.nft.owner_of(token), Some(marketplace_addr()));
}

#[test]
fn a_seller_may_buy_the_own_listing() {
    let mut t = setup();
    let seller = account(10);
    let token = mint_nft(&mut t, seller);
    let id = ShimejiMarketplace::list_for_sale(&mut t, seller, token, 10, 1, 1).unwrap();
    assert_eq!(t.xlm.mint(seller, 10), Ok(()));
    assert_eq!(ShimejiMarketplace::buy_xlm(&mut t, seller, id), Ok(()));
    assert_eq!(t.xlm.balance(seller), 10);
    assert_eq!(t.nft.owner_of(token), Some(seller));
}

#[test]
fn a_token_that_left_custody_cannot_be_released_and_nothing_is_paid() {
    let mut t = setup();
    let buyer = account(11);
    // the marketplace lists a token that it holds itself, twice
    let token = mint_nft(&mut t, marketplace_addr());
    let first = ShimejiMarketplace::list_for_sale(&mut t, marketplace_addr(), token, 10, 1, 1)
        .unwrap();
    let second = ShimejiMarketplace::list_for_sale(&mut t, marketplace_addr(), token, 10, 1, 1)
        .unwrap();
    assert_eq!(t.xlm.mint(buyer, 100), Ok(()));
    assert_eq!(ShimejiMarketplace::buy_xlm(&mut t, buyer, first), Ok(()));
    assert_eq!(ShimejiMarketplace::buy_xlm(&mut t, buyer, second), Err(MarketError::NotOwner));
    assert_eq!(t.xlm.balance(buyer), 90);
    assert_eq!(t.xlm.balance(marketplace_addr()), 10);
    assert!(ShimejiMarketplace::get_listing(&t, second).unwrap().active);
    assert_eq!(
        ShimejiMarketplace::cancel_listing(&mut t, marketplace_addr(), second),
        Err(MarketError::NotOwner)
    );
}

#[test]
fn listing_a_token_of_somebody_else_is_refused() {
    let mut t = setup();
    let seller = account(10);
    let token = mint_nft(&mut t, account(30));
    assert_eq!(
        ShimejiMarketplace::list_for_sale(&mut t, seller, token, 1, 1, 1),
        Err(MarketError::NotOwner)
    );
    assert_eq!(
        ShimejiMarketplace::list_for_sale(&mut t, seller, 77, 1, 1, 1),
        Err(MarketError::NotOwner)
    );
    assert_eq!(
        ShimejiMarketplace::create_swap_offer(&mut t, seller, token, 77),
        Err(MarketError::NotOwner)
    );
    assert_eq!(ShimejiMarketplace::total_listings(&t), 0);
    assert_eq!(ShimejiMarketplace::total_swaps(&t), 0);
}

#[test]
fn accepting_without_the_desired_token_changes_nothing() {
    let mut t = setup();
    let alice = account(20);
    let bob = account(21);
    let carol = account(22);
    let a = mint_nft(&mut t, alice);
    let c = mint_nft(&mut t, carol);
    let id = ShimejiMarketplace::create_swap_offer(&mut t, alice, a, c).unwrap();
    assert_eq!(ShimejiMarketplace::accept_swap(&mut t, bob, id), Err(MarketError::NotOwner));
    assert_eq!(t.nft.owner_of(a), Some(marketplace_addr()));
    assert_eq!(t.nft.owner_of(c), Some(carol));
    assert!(ShimejiMarketplace::get_swap_offer(&t, id).unwrap().active);
    assert_eq!(ShimejiMarketplace::accept_swap(&mut t, carol, id), Ok(()));
    assert_eq!(t.nft.owner_of(a), Some(carol));
    assert_eq!(t.nft.owner_of(c), Some(alice));
}

#[test]
fn accepting_when_the_offered_token_left_custody_changes_nothing() {
    let mut t = setup();
    let bob = account(21);
    let m = marketplace_addr();
    let a = mint_nft(&mut t, m);
    let b = mint_nft(&mut t, bob);
    let id = ShimejiMarketplace::create_swap_offer(&mut t, m, a, b).unwrap();
    // the marketplace's own token leaves custody through the registry
    assert_eq!(ShimejiMarketplace::nft_transfer(&mut t, m, account(40), a), Ok(()));
    assert_eq!(ShimejiMarketplace::accept_swap(&mut t, bob, id), Err(MarketError::NotOwner));
    assert_eq!(t.nft.owner_of(b), Some(bob));
    assert_eq!(t.nft.owner_of(a), Some(account(40)));
    assert!(ShimejiMarketplace::get_swap_offer(&t, id).unwrap().active);
}

#[test]
fn nft_transfer_needs_the_owner() {
    let mut t = setup();
    let alice = account(20);
    let bob = account(21);
    let token = mint_nft(&mut t, alice);
    assert_eq!(
        ShimejiMarketplace::nft_transfer(&mut t, bob, alice, token),
        Err(MarketError::NotOwner)
    );
    assert_eq!(
        ShimejiMarketplace::nft_transfer(&mut t, alice, bob, token + 1),
        Err(MarketError::NotOwner)
    );
    assert_eq!(t.nft.owner_of(token), Some(alice));
    assert_eq!(ShimejiMarketplace::nft_transfer(&mut t, alice, bob, token), Ok(()));
    assert_eq!(t.nft.owner_of(token), Some(bob));
}

#[test]
fn the_id_sequence_ends_at_the_last_u64() {
    let mut t = setup();
    let seller = account(10);
    let token = mint_nft(&mut t, seller);
    assert!(t.store.set(DataKey::NextListingId, Record::Counter(u64::MAX - 1)));
    assert!(t.store.set(DataKey::NextSwapId, Record::Counter(u64::MAX)));
    assert_eq!(
        ShimejiMarketplace::create_swap_offer(&mut t, seller, token, 5),
        Err(MarketError::IdOverflow)
    );
    assert_eq!(t.nft.owner_of(token), Some(seller));
    assert_eq!(ShimejiMarketplace::list_for_sale(&mut t, seller, token, 1, 1, 1), Ok(u64::MAX - 1));
    assert_eq!(ShimejiMarketplace::total_listings(&t), u64::MAX);
    assert_eq!(
        ShimejiMarketplace::list_for_sale(&mut t, seller, token, 1, 1, 1),
        Err(MarketError::IdOverflow)
    );
}

#[test]
fn initialization_needs_the_consent_of_the_admin() {
    let mut host = Host::new(marketplace_addr());
    let admin = account(1);
    assert_eq!(
        ShimejiMarketplace::initialize(&mut host, admin, contract(101), contract(102), contract(103)),
        Err(MarketError::Unauthorized)
    );
    host.set_signer(account(2));
    assert_eq!(
        ShimejiMarketplace::initialize(&mut host, admin, contract(101), contract(102), contract(103)),
        Err(MarketError::Unauthorized)
    );
    assert_eq!(host.store.get(DataKey::Admin), None);
    assert_eq!(host.store.get(DataKey::NextListingId), None);
    assert_eq!(ShimejiMarketplace::nft_contract(&host), None);
    host.set_signer(admin);
    assert_eq!(
        ShimejiMarketplace::initialize(&mut host, admin, contract(101), contract(102), contract(103)),
        Ok(())
    );
    assert_eq!(host.store.get(DataKey::Admin), Some(Record::Address(admin)));
    assert_eq!(host.store.get(DataKey::NextListingId), Some(Record::Counter(0)));
    assert_eq!(host.store.get(DataKey::NextSwapId), Some(Record::Counter(0)));
    // a second attempt without consent is refused for that, with consent for the repetition
    host.set_signer(account(2));
    assert_eq!(
        ShimejiMarketplace::initialize(&mut host, admin, contract(201), contract(202), contract(203)),
        Err(MarketError::Unauthorized)
    );
    assert_eq!(
        ShimejiMarketplace::initialize(&mut host, account(2), contract(201), contract(202), contract(203)),
        Err(MarketError::AlreadyInitialized)
    );
    assert_eq!(ShimejiMarketplace::nft_contract(&host), Some(contract(101)));
}

#[test]
fn nft_transfer_needs_the_consent_of_the_sender() {
    let mut t = setup();
    let alice = account(20);
    let bob = account(21);
    let token = mint_nft(&mut t, alice);
    let held = mint_nft(&mut t, marketplace_addr());
    t.set_signer(bob);
    assert_eq!(
        ShimejiMarketplace::nft_transfer(&mut t, alice, bob, token),
        Err(MarketError::Unauthorized)
    );
    assert_eq!(t.nft.owner_of(token), Some(alice));
    // the marketplace moves what it holds in its own name
    assert_eq!(ShimejiMarketplace::nft_transfer(&mut t, marketplace_addr(), bob, held), Ok(()));
    assert_eq!(t.nft.owner_of(held), Some(bob));
    t.set_signer(alice);
    assert_eq!(ShimejiMarketplace::nft_transfer(&mut t, alice, bob, token), Ok(()));
    assert_eq!(t.nft.owner_of(token), Some(bob));
}
