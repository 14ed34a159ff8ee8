use dattas::{
    AccountData, AccountLookup, Balances, Config, DispatchError, Error, Event, Origin, Pallet,
    ReservableCurrency,
};

const ALICE: u64 = 1;
const BOB: u64 = 2;
const ADMIN: u64 = 9;
const FEE: u128 = 2;

fn config() -> Config {
    Config { min_length: 3, max_length: 10, reservation_fee: FEE, force_origin: Some(ADMIN) }
}

fn registry() -> Pallet<Balances> {
    let mut balances = Balances::new();
    balances.make_free_balance_be(ALICE, 10).unwrap();
    balances.make_free_balance_be(BOB, 10).unwrap();
    Pallet::new(config(), vec![BOB, ALICE], balances)
}

fn account(p: &Pallet<Balances>, who: u64) -> AccountData {
    AccountData {
        free: p.currency().free_balance(who),
        reserved: p.currency().reserved_balance(who),
    }
}

fn record(p: &Pallet<Balances>, who: u64) -> Option<(Vec<u8>, u128)> {
    p.name_of(who).map(|r| (r.name.clone(), r.deposit))
}

#[test]
fn unnamed_account_cannot_be_cleared_or_killed() {
    let mut p = registry();
    assert_eq!(p.clear_name(Origin::Signed(ALICE)), Err(DispatchError::Module(Error::Unnamed)));
    assert_eq!(
        p.kill_name(Origin::Root, AccountLookup::Id(ALICE)),
        Err(DispatchError::Module(Error::Unnamed))
    );
    assert_eq!(record(&p, ALICE), None);
    assert_eq!(account(&p, ALICE), AccountData { free: 10, reserved: 0 });
    assert!(p.deposited_events().is_empty());
}

#[test]
fn set_name_reserves_the_fee() {
    let mut p = registry();
    assert_eq!(p.set_name(Origin::Signed(ALICE), b"abc".to_vec()), Ok(()));
    assert_eq!(record(&p, ALICE), Some((b"abc".to_vec(), FEE)));
    assert_eq!(account(&p, ALICE), AccountData { free: 8, reserved: 2 });
    assert_eq!(p.deposited_events(), &vec![Event::NameSet { who: ALICE }]);
}

#[test]
fn renaming_keeps_the_deposit() {
    let mut p = registry();
    assert_eq!(p.set_name(Origin::Signed(ALICE), b"abc".to_vec()), Ok(()));
    assert_eq!(p.set_name(Origin::Signed(ALICE), b"xyz".to_vec()), Ok(()));
    assert_eq!(record(&p, ALICE), Some((b"xyz".to_vec(), FEE)));
    assert_eq!(account(&p, ALICE), AccountData { free: 8, reserved: 2 });
    assert_eq!(
        p.deposited_events(),
        &vec![Event::NameSet { who: ALICE }, Event::NameChanged { who: ALICE }]
    );
}

#[test]
fn short_name_is_refused() {
    let mut p = registry();
    assert_eq!(
        p.set_name(Origin::Signed(ALICE), b"ab".to_vec()),
        Err(DispatchError::Module(Error::TooShort))
    );
    assert_eq!(record(&p, ALICE), None);
    assert_eq!(account(&p, ALICE), AccountData { free: 10, reserved: 0 });
    assert!(p.deposited_events().is_empty());
}

#[test]
fn long_name_is_refused() {
    let mut p = registry();
    assert_eq!(
        p.set_name(Origin::Signed(ALICE), b"abcdefghijk".to_vec()),
        Err(DispatchError::Module(Error::TooLong))
    );
    assert_eq!(record(&p, ALICE), None);
    assert_eq!(account(&p, ALICE), AccountData { free: 10, reserved: 0 });
}

#[test]
fn names_of_both_bounds_are_taken() {
    let mut p = registry();
    assert_eq!(p.set_name(Origin::Signed(ALICE), b"abcdefghij".to_vec()), Ok(()));
    assert_eq!(p.set_name(Origin::Signed(BOB), b"abc".to_vec()), Ok(()));
    assert_eq!(record(&p, ALICE), Some((b"abcdefghij".to_vec(), FEE)));
    assert_eq!(record(&p, BOB), Some((b"abc".to_vec(), FEE)));
}

#[test]
fn set_name_needs_a_signer() {
    let mut p = registry();
    assert_eq!(p.set_name(Origin::Root, b"abc".to_vec()), Err(DispatchError::NotSigned));
    assert_eq!(p.set_name(Origin::Unsigned, b"abc".to_vec()), Err(DispatchError::NotSigned));
    assert_eq!(p.clear_name(Origin::Unsigned), Err(DispatchError::NotSigned));
}

#[test]
fn set_name_without_funds_fails() {
    let mut p = registry();
    assert_eq!(
        p.set_name(Origin::Signed(7), b"abc".to_vec()),
        Err(DispatchError::InsufficientBalance)
    );
    assert_eq!(record(&p, 7), None);
    assert_eq!(account(&p, 7), AccountData { free: 0, reserved: 0 });
    assert!(p.deposited_events().is_empty());
}

#[test]
fn clear_name_refunds_the_deposit() {
    let mut p = registry();
    assert_eq!(p.set_name(Origin::Signed(ALICE), b"abc".to_vec()), Ok(()));
    assert_eq!(p.clear_name(Origin::Signed(ALICE)), Ok(()));
    assert_eq!(record(&p, ALICE), None);
    assert_eq!(account(&p, ALICE), AccountData { free: 10, reserved: 0 });
    assert_eq!(
        p.deposited_events().last(),
        Some(&Event::NameCleared { who: ALICE, deposit: FEE })
    );
}

#[test]
fn kill_name_slashes_the_deposit() {
    let mut p = registry();
    assert_eq!(p.set_name(Origin::Signed(ALICE), b"abc".to_vec()), Ok(()));
    assert_eq!(p.kill_name(Origin::Signed(ADMIN), AccountLookup::Index(1)), Ok(()));
    assert_eq!(record(&p, ALICE), None);
    assert_eq!(account(&p, ALICE), AccountData { free: 8, reserved: 0 });
    assert_eq!(p.balanceOf(ALICE), 8);
    assert_eq!(p.forfeited_amounts(), &vec![FEE]);
    assert_eq!(
        p.deposited_events().last(),
        Some(&Event::NameKilled { target: ALICE, deposit: FEE })
    );
}

#[test]
fn kill_name_needs_privilege() {
    let mut p = registry();
    assert_eq!(p.set_name(Origin::Signed(ALICE), b"abc".to_vec()), Ok(()));
    assert_eq!(
        p.kill_name(Origin::Signed(BOB), AccountLookup::Id(ALICE)),
        Err(DispatchError::NotAuthorized)
    );
    assert_eq!(
        p.kill_name(Origin::Unsigned, AccountLookup::Id(BOB)),
        Err(DispatchError::NotAuthorized)
    );
    assert_eq!(record(&p, ALICE), Some((b"abc".to_vec(), FEE)));
    assert_eq!(account(&p, ALICE), AccountData { free: 8, reserved: 2 });
    assert!(p.forfeited_amounts().is_empty());
}

#[test]
fn unknown_target_is_refused() {
    let mut p = registry();
    assert_eq!(
        p.kill_name(Origin::Root, AccountLookup::Index(2)),
        Err(DispatchError::BadTarget)
    );
    assert_eq!(
        p.force_name(Origin::Root, AccountLookup::Index(5), b"abc".to_vec()),
        Err(DispatchError::BadTarget)
    );
    assert_eq!(record(&p, ALICE), None);
}

#[test]
fn force_name_on_unnamed_reserves_nothing() {
    let mut p = registry();
    assert_eq!(p.force_name(Origin::Root, AccountLookup::Id(BOB), b"a".to_vec()), Ok(()));
    assert_eq!(record(&p, BOB), Some((b"a".to_vec(), 0)));
    assert_eq!(account(&p, BOB), AccountData { free: 10, reserved: 0 });
    assert_eq!(p.deposited_events(), &vec![Event::NameForced { target: BOB }]);
}

#[test]
fn force_name_keeps_the_deposit() {
    let mut p = registry();
    assert_eq!(p.set_name(Origin::Signed(ALICE), b"abc".to_vec()), Ok(()));
    assert_eq!(
        p.force_name(Origin::Signed(ADMIN), AccountLookup::Id(ALICE), b"zz".to_vec()),
        Ok(())
    );
    assert_eq!(record(&p, ALICE), Some((b"zz".to_vec(), FEE)));
    assert_eq!(account(&p, ALICE), AccountData { free: 8, reserved: 2 });
    assert_eq!(p.deposited_events().last(), Some(&Event::NameForced { target: ALICE }));
}

#[test]
fn force_name_checks_origin_then_length() {
    let mut p = registry();
    assert_eq!(
        p.force_name(Origin::Signed(ALICE), AccountLookup::Id(ALICE), b"abc".to_vec()),
        Err(DispatchError::NotAuthorized)
    );
    assert_eq!(
        p.force_name(Origin::Root, AccountLookup::Index(9), b"abcdefghijk".to_vec()),
        Err(DispatchError::Module(Error::TooLong))
    );
    assert!(p.deposited_events().is_empty());
}

#[test]
fn set_then_clear_restores_free_balance() {
    let mut p = registry();
    let before = account(&p, BOB);
    assert_eq!(p.set_name(Origin::Signed(BOB), b"bob".to_vec()), Ok(()));
    assert_eq!(p.clear_name(Origin::Signed(BOB)), Ok(()));
    assert_eq!(account(&p, BOB), before);
}

#[test]
fn clearing_twice_refunds_once() {
    let mut p = registry();
    assert_eq!(p.set_name(Origin::Signed(ALICE), b"abc".to_vec()), Ok(()));
    assert_eq!(p.clear_name(Origin::Signed(ALICE)), Ok(()));
    assert_eq!(p.clear_name(Origin::Signed(ALICE)), Err(DispatchError::Module(Error::Unnamed)));
    assert_eq!(account(&p, ALICE), AccountData { free: 10, reserved: 0 });
    assert_eq!(p.deposited_events().len(), 2);
}

#[test]
fn ledger_reserve_and_release() {
    let mut b = Balances::new();
    assert_eq!(b.make_free_balance_be(ALICE, 5), Ok(()));
    assert_eq!(b.reserve(ALICE, 6), Err(DispatchError::InsufficientBalance));
    assert_eq!(b.reserve(ALICE, 4), Ok(()));
    assert_eq!(b.unreserve(ALICE, 6), 2);
    assert_eq!((b.free_balance(ALICE), b.reserved_balance(ALICE)), (5, 0));
    assert_eq!(b.reserve(ALICE, 3), Ok(()));
    assert_eq!(b.slash_reserved(ALICE, 5), (3, 2));
    assert_eq!((b.free_balance(ALICE), b.reserved_balance(ALICE)), (2, 0));
}

#[test]
fn ledger_refuses_overflowing_balance() {
    let mut b = Balances::new();
    assert_eq!(b.make_free_balance_be(ALICE, u128::MAX), Ok(()));
    assert_eq!(b.reserve(ALICE, 1), Ok(()));
    assert_eq!(b.make_free_balance_be(ALICE, u128::MAX), Err(DispatchError::Overflow));
    assert_eq!(b.free_balance(ALICE), u128::MAX - 1);
}
