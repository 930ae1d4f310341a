//! Construction, opt-in and opt-out behaviour.

use subsa::{AccountId, Creation, Error, OptIn, OptOut, Subsa};

fn acct(byte: u8) -> AccountId {
    AccountId::from([byte; 32])
}

fn new_asset(caller: AccountId) -> (Subsa, Creation) {
    Subsa::new(
        caller,
        acct(0x7),
        "Test subsa".to_string(),
        "TSSA".to_string(),
        1000,
        10,
        true,
        "www.test.com".to_string(),
        [0x0; 4],
        None,
        None,
        None,
        None,
    )
}

#[test]
fn constructor_works() {
    let (asset, _note) = Subsa::new(
        acct(0x1),
        acct(0x7),
        "Test subsa".to_string(),
        "TSSA".to_string(),
        1000,
        10,
        true,
        "www.test.com".to_string(),
        [0x0; 4],
        Some(AccountId::from([0x0; 32])),
        Some(AccountId::from([0x0; 32])),
        Some(AccountId::from([0x0; 32])),
        Some(AccountId::from([0x0; 32])),
    );

    assert_eq!(asset.asset_name(), "Test subsa");
    assert_eq!(asset.unit_name(), "TSSA");
    assert_eq!(asset.total(), 1000);
    assert_eq!(asset.decimals(), 10);
    assert_eq!(asset.default_frozen(), true);
    assert_eq!(asset.url(), "www.test.com");
    assert_eq!(asset.manager_id(), AccountId::from([0x0; 32]));
    assert_eq!(asset.reserve_id(), AccountId::from([0x0; 32]));
    assert_eq!(asset.freeze_id(), AccountId::from([0x0; 32]));
    assert_eq!(asset.clawback_id(), AccountId::from([0x0; 32]));
}

#[test]
fn constructor_works_with_default_values() {
    let (asset, _note) = new_asset(acct(0x1));

    assert_eq!(asset.asset_name(), "Test subsa");
    assert_eq!(asset.unit_name(), "TSSA");
    assert_eq!(asset.total(), 1000);
    assert_eq!(asset.decimals(), 10);
    assert_eq!(asset.default_frozen(), true);
    assert_eq!(asset.url(), "www.test.com");
    assert_eq!(asset.manager_id(), AccountId::from([0x0; 32]));
    assert_eq!(asset.reserve_id(), AccountId::from([0x1; 32]));
    assert_eq!(asset.freeze_id(), AccountId::from([0x0; 32]));
    assert_eq!(asset.clawback_id(), AccountId::from([0x0; 32]));
    assert_eq!(asset.balance_of(asset.reserve_id()), Ok(1000));
}

#[test]
fn constructor_sets_asset_id() {
    let (asset, _note) = new_asset(acct(0x1));
    assert_eq!(asset.asset_id(), acct(0x7));
}

#[test]
fn constructor_emits_create_event() {
    let (asset, note) = new_asset(acct(0x1));
    assert_eq!(note.asset_id, asset.asset_id());
    assert_eq!(
        note,
        Creation {
            asset_id: acct(0x7),
            asset_name: "Test subsa".to_string(),
            creator: acct(0x1),
            total: 1000,
        }
    );
}

#[test]
fn opt_in_works() {
    let (mut asset, _note) = new_asset(acct(0x0));
    asset.opt_in(acct(0x1)).unwrap();
    assert_eq!(asset.is_opted_in(acct(0x1)), Ok(true));
}

#[test]
fn opt_in_emits_opt_in_event() {
    let (mut asset, _note) = new_asset(acct(0x0));
    let note = asset.opt_in(acct(0x1)).unwrap();
    assert_eq!(note.asset_id, asset.asset_id());
    assert_eq!(note, OptIn { asset_id: acct(0x7), account: acct(0x1) });
}

#[test]
fn opt_in_throws_already_opt_in_if_already_opt_in() {
    let (mut asset, _note) = new_asset(acct(0x0));
    asset.opt_in(acct(0x1)).unwrap();
    assert_eq!(asset.is_opted_in(acct(0x1)), Ok(true));
    assert_eq!(asset.opt_in(acct(0x1)), Err(Error::AlreadyOptedIn));
}

#[test]
fn opt_out_works() {
    let (mut asset, _note) = new_asset(acct(0x0));
    asset.opt_in(acct(0x1)).unwrap();
    asset.opt_out(acct(0x1)).unwrap();
    assert_eq!(asset.is_opted_in(acct(0x1)), Ok(false));
}

#[test]
fn opt_out_emits_opt_out_event() {
    let (mut asset, _note) = new_asset(acct(0x0));
    asset.opt_in(acct(0x1)).unwrap();
    let note = asset.opt_out(acct(0x1)).unwrap();
    assert_eq!(note.asset_id, asset.asset_id());
    assert_eq!(note, OptOut { asset_id: acct(0x7), account: acct(0x1) });
}

#[test]
fn opt_out_throws_not_opt_in_when_opt_out_without_opt_in() {
    let (mut asset, _note) = new_asset(acct(0x0));
    assert_eq!(asset.opt_out(acct(0x1)), Err(Error::NotOptedIn));
}
