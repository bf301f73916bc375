use kitties::errors::Error;
use kitties::kitty::crossover;
use kitties::pallet::Event;
use kitties::pallet::Pallet;

const PRICE: u64 = 10;

fn funded_pallet() -> Pallet {
    let mut p = Pallet::new(PRICE);
    assert!(p.endow(1, 100));
    assert!(p.endow(2, 100));
    assert!(p.endow(3, 100));
    p
}

#[test]
fn t_create() {
    let mut p = funded_pallet();
    let kitty_id = 0;
    let account_id = 1;

    assert_eq!(p.next_kitty_id(), kitty_id);
    assert!(p.create(account_id, [7u8; 16]).is_ok());

    assert_eq!(p.next_kitty_id(), kitty_id + 1);
    assert!(p.kitties(kitty_id).is_some());
    assert!(p.kitty_parents(kitty_id).is_none());

    p.next_id = u32::MAX;

    assert_eq!(p.create(account_id, [7u8; 16]), Err(Error::IdSpaceExhausted));
    assert_eq!(p.next_kitty_id(), u32::MAX);

    let event = p
        .last_event()
        .expect("Expected at least one EventRecord to be found");

    println!("~~~ Event: {:?}", event);

    match event {
        Event::KittyCreated { who, kitty_id: event_kitty_id, kitty: _ } => {
            assert_eq!(who, account_id);
            assert_eq!(event_kitty_id, kitty_id);
        },
        _ => panic!("not exepected event"),
    }
}

#[test]
fn t_breed() {
    let mut p = funded_pallet();
    let kitty_id = 0;
    let account_id = 1;

    assert_eq!(
        p.breed(account_id, kitty_id, kitty_id, [0u8; 16]),
        Err(Error::IdenticalParents)
    );

    assert_eq!(
        p.breed(account_id, kitty_id, kitty_id + 1, [0u8; 16]),
        Err(Error::InvalidId)
    );

    assert!(p.create(account_id, [1u8; 16]).is_ok());
    assert!(p.create(account_id, [2u8; 16]).is_ok());

    assert_eq!(p.next_kitty_id(), kitty_id + 2);

    assert!(p.breed(account_id, kitty_id, kitty_id + 1, [0u8; 16]).is_ok());

    let breed_kitty_id = 2;
    assert_eq!(p.next_kitty_id(), breed_kitty_id + 1);
    assert!(p.kitties(breed_kitty_id).is_some());
    assert_eq!(p.kitty_parents(breed_kitty_id), Some((kitty_id, kitty_id + 1)));

    let event = p
        .last_event()
        .expect("Expected at least one EventRecord to be found");

    println!("~~~ Event: {:?}", event);

    match event {
        Event::KittyBreed { who, kitty_id: event_kitty_id, kitty: _ } => {
            assert_eq!(who, account_id);
            assert_eq!(event_kitty_id, kitty_id + 2);
        },
        _ => panic!("not exepected event"),
    }
}

#[test]
fn t_transfer() {
    let mut p = funded_pallet();
    let kitty_id = 0;
    let account_id = 1;
    let recipient = 2;

    assert!(p.create(account_id, [7u8; 16]).is_ok());
    assert_eq!(p.kitty_owner(kitty_id), Some(account_id));

    assert_eq!(
        p.transfer(recipient, kitty_id, recipient),
        Err(Error::NotOwner)
    );

    assert!(p.transfer(account_id, kitty_id, recipient).is_ok());
    assert_eq!(
        p.last_event(),
        Some(Event::KittyTransfer { who: account_id, recipient, kitty_id })
    );
    assert_eq!(p.kitty_owner(kitty_id), Some(recipient));

    assert!(p.transfer(recipient, kitty_id, account_id).is_ok());
    assert_eq!(
        p.last_event(),
        Some(Event::KittyTransfer { who: recipient, recipient: account_id, kitty_id })
    );
    assert_eq!(p.kitty_owner(kitty_id), Some(account_id));
}

#[test]
fn crossover_exact_bytes() {
    let a = [0xAAu8; 16];
    let b = [0x55u8; 16];
    assert_eq!(crossover(&a, &b, &[0xF0u8; 16]), [0xA5u8; 16]);
    assert_eq!(crossover(&a, &b, &[0xFFu8; 16]), a);
    assert_eq!(crossover(&a, &b, &[0x00u8; 16]), b);
}

#[test]
fn breeding_applies_crossover() {
    let mut p = funded_pallet();
    assert!(p.create(1, [0b1100_1100u8; 16]).is_ok());
    assert!(p.create(1, [0b1010_1010u8; 16]).is_ok());
    let child = p.breed(1, 0, 1, [0b1111_0000u8; 16]).unwrap();
    // High nibble from parent 0, low nibble from parent 1.
    assert_eq!(p.kitties(child).unwrap().0, [0b1100_1010u8; 16]);
}

#[test]
fn allocator_hands_out_consecutive_ids() {
    let mut p = Pallet::new(PRICE);
    for expected in 0u32..5 {
        assert_eq!(p.get_next_id(), Ok(expected));
    }
    assert_eq!(p.next_kitty_id(), 5);

    p.next_id = u32::MAX - 1;
    assert_eq!(p.get_next_id(), Ok(u32::MAX - 1));
    assert_eq!(p.get_next_id(), Err(Error::IdSpaceExhausted));
    assert_eq!(p.next_kitty_id(), u32::MAX);
}

#[test]
fn create_without_funds_leaves_only_an_id_gap() {
    let mut p = Pallet::new(PRICE);
    assert_eq!(p.create(1, [7u8; 16]), Err(Error::InsufficientBalance));
    // The counter advanced, but no record was written for the failed create.
    assert_eq!(p.next_kitty_id(), 1);
    assert!(p.kitties(0).is_none());
    assert_eq!(p.kitty_owner(0), None);
    assert!(p.last_event().is_none());
}

#[test]
fn create_reserves_the_stake() {
    let mut p = funded_pallet();
    assert!(p.create(1, [7u8; 16]).is_ok());
    assert_eq!(p.free_balance(1), 90);
    assert_eq!(p.reserved_balance(1), 10);
}

#[test]
fn listing_polarity() {
    let mut p = funded_pallet();
    assert!(p.create(1, [7u8; 16]).is_ok());

    // Buying an unlisted entity is refused; listing an unlisted one succeeds.
    assert_eq!(p.buy(2, 0), Err(Error::NotListed));
    assert_eq!(p.sale(1, 0), Ok(()));
    assert!(p.kitty_on_sale(0));
    assert_eq!(p.last_event(), Some(Event::KittyOnSale { who: 1, kitty_id: 0 }));

    // Listing an already listed entity is refused.
    assert_eq!(p.sale(1, 0), Err(Error::AlreadyListed));
}

#[test]
fn sale_rejections() {
    let mut p = funded_pallet();
    assert!(p.create(1, [7u8; 16]).is_ok());
    assert_eq!(p.sale(1, 9), Err(Error::InvalidId));
    assert_eq!(p.sale(2, 0), Err(Error::NotOwner));
}

#[test]
fn transfer_rejections() {
    let mut p = funded_pallet();
    assert_eq!(p.transfer(1, 0, 2), Err(Error::InvalidId));
}

#[test]
fn buy_moves_stake_and_clears_listing() {
    let mut p = funded_pallet();
    assert!(p.create(1, [7u8; 16]).is_ok());
    assert_eq!(p.sale(1, 0), Ok(()));
    assert_eq!(p.reserved_balance(1), 10);
    assert_eq!(p.free_balance(1), 90);

    assert_eq!(p.buy(3, 0), Ok(()));
    assert_eq!(p.kitty_owner(0), Some(3));
    assert!(!p.kitty_on_sale(0));
    assert_eq!(p.last_event(), Some(Event::KittyBought { who: 3, kitty_id: 0 }));

    // The stake moved between the two accounts' reservations.
    assert_eq!(p.free_balance(3), 90);
    assert_eq!(p.reserved_balance(3), 10);
    assert_eq!(p.reserved_balance(1), 0);
    assert_eq!(p.free_balance(1), 100);
}

#[test]
fn buy_rejections() {
    let mut p = funded_pallet();
    assert!(p.create(1, [7u8; 16]).is_ok());
    assert_eq!(p.buy(2, 9), Err(Error::InvalidId));
    assert_eq!(p.buy(1, 0), Err(Error::AlreadyOwned));
    assert_eq!(p.buy(2, 0), Err(Error::NotListed));
    assert_eq!(p.sale(1, 0), Ok(()));
    let poor = 4;
    assert_eq!(p.buy(poor, 0), Err(Error::InsufficientBalance));
}

#[test]
fn breeding_needs_no_ownership_of_parents() {
    let mut p = funded_pallet();
    assert_eq!(p.create(1, [1u8; 16]), Ok(0));
    assert_eq!(p.create(1, [2u8; 16]), Ok(1));
    // The child always goes to the caller, whoever owns the parents.
    assert_eq!(p.breed(3, 0, 1, [0u8; 16]), Ok(2));
    assert_eq!(p.kitty_owner(2), Some(3));
}

#[test]
fn endow_refuses_overflow() {
    let mut p = Pallet::new(PRICE);
    assert!(p.endow(1, u64::MAX));
    assert!(!p.endow(1, 1));
    assert_eq!(p.free_balance(1), u64::MAX);
}

#[test]
fn end_to_end_lifecycle() {
    let mut p = funded_pallet();
    // Account 1 creates entities 0 and 1, then breeds them.
    assert_eq!(p.create(1, [1u8; 16]), Ok(0));
    assert_eq!(p.create(1, [2u8; 16]), Ok(1));
    assert_eq!(p.breed(1, 0, 1, [0xF0u8; 16]), Ok(2));
    assert_eq!(p.kitty_parents(2), Some((0, 1)));

    // Account 1 hands the child to account 2, which lists it for sale.
    assert_eq!(p.transfer(1, 2, 2), Ok(()));
    assert_eq!(p.sale(2, 2), Ok(()));

    // Account 3 buys it.
    assert_eq!(p.buy(3, 2), Ok(()));
    assert_eq!(p.kitty_owner(2), Some(3));
    assert!(!p.kitty_on_sale(2));
}
