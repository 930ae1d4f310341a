//! Behavioural tests: conservation, gating, authorization, the freeze
//! policy, the destruction guard and the end-to-end scenario.

use subsa::{AccountId, Error, Subsa, Transfer};

fn ident(byte: u8) -> AccountId {
    AccountId::from([byte; 32])
}

/// Builds an asset with every role assigned a distinct identity:
/// manager 0x2, reserve = creator 0x1, freeze 0x3, clawback 0x4.
fn asset_with_roles(default_frozen: bool) -> Subsa {
    let (asset, _note) = Subsa::new(
        ident(0x1),
        ident(0x9),
        "Test subsa".to_string(),
        "TSSA".to_string(),
        1000,
        10,
        default_frozen,
        "www.test.com".to_string(),
        [0x0; 4],
        Some(ident(0x2)),
        None,
        Some(ident(0x3)),
        Some(ident(0x4)),
    );
    asset
}

#[test]
fn conservation_across_transfers_and_revocations() {
    let mut asset = asset_with_roles(true);
    let holders = [ident(0x1), ident(0x5), ident(0x6)];
    asset.opt_in(ident(0x5)).unwrap();
    asset.opt_in(ident(0x6)).unwrap();

    asset.transfer(ident(0x1), ident(0x5), 300).unwrap();
    asset.transfer(ident(0x5), ident(0x6), 120).unwrap();
    asset.revoke_asset(ident(0x4), ident(0x6), ident(0x1), 20).unwrap();
    asset.transfer(ident(0x6), ident(0x6), 50).unwrap();

    let mut sum: u128 = 0;
    for h in holders {
        sum += asset.balance_of(h).unwrap();
    }
    assert_eq!(sum, 1000);
    assert_eq!(asset.balance_of(ident(0x1)), Ok(720));
    assert_eq!(asset.balance_of(ident(0x5)), Ok(180));
    assert_eq!(asset.balance_of(ident(0x6)), Ok(100));
}

#[test]
fn opt_in_gating_rejects_unregistered_accounts() {
    let mut asset = asset_with_roles(true);
    assert_eq!(asset.balance_of(ident(0x5)), Err(Error::NotOptedIn));
    assert_eq!(asset.transfer(ident(0x1), ident(0x5), 10), Err(Error::NotOptedIn));
    assert_eq!(
        asset.revoke_asset(ident(0x4), ident(0x5), ident(0x1), 10),
        Err(Error::NotOptedIn)
    );
}

#[test]
fn double_opt_in_leaves_state_unchanged() {
    let mut asset = asset_with_roles(true);
    asset.opt_in(ident(0x5)).unwrap();
    asset.transfer(ident(0x1), ident(0x5), 40).unwrap();
    assert_eq!(asset.opt_in(ident(0x5)), Err(Error::AlreadyOptedIn));
    assert_eq!(asset.is_opted_in(ident(0x5)), Ok(true));
    assert_eq!(asset.balance_of(ident(0x5)), Ok(40));
}

#[test]
fn freeze_disabled_asset_is_never_freezable() {
    let mut asset = asset_with_roles(false);
    asset.opt_in(ident(0x5)).unwrap();
    // Even the freeze role is refused, whatever the account's state.
    assert_eq!(asset.freeze(ident(0x3), ident(0x5), true), Err(Error::NotFreezable));
    assert_eq!(asset.freeze(ident(0x5), ident(0x5), true), Err(Error::NotFreezable));
    assert_eq!(asset.freeze(ident(0x3), ident(0x1), false), Err(Error::NotFreezable));
}

#[test]
fn freeze_is_a_strict_toggle() {
    let mut asset = asset_with_roles(true);
    // Clearing a flag that is already clear is refused.
    assert_eq!(asset.freeze(ident(0x3), ident(0x5), false), Err(Error::AlreadyFrozen));
    asset.freeze(ident(0x3), ident(0x5), true).unwrap();
    assert_eq!(asset.is_frozen(ident(0x5)), Ok(true));
    assert_eq!(asset.freeze(ident(0x3), ident(0x5), true), Err(Error::AlreadyFrozen));
    asset.freeze(ident(0x3), ident(0x5), false).unwrap();
    assert_eq!(asset.is_frozen(ident(0x5)), Ok(false));
}

#[test]
fn privileged_operations_reject_other_callers() {
    let mut asset = asset_with_roles(true);
    let intruder = ident(0x8);

    assert_eq!(
        asset.modify_asset(intruder, Some(intruder), Some(intruder), Some(intruder), Some(intruder)),
        Err(Error::NotManagerId)
    );
    assert_eq!(asset.freeze(intruder, ident(0x1), true), Err(Error::NotFreezeId));
    assert_eq!(
        asset.revoke_asset(intruder, ident(0x1), intruder, 1),
        Err(Error::NotClawbackId)
    );
    assert_eq!(asset.destroy_asset(intruder), Err(Error::NotManagerId));

    // The role table is unchanged after every failure.
    assert_eq!(asset.manager_id(), ident(0x2));
    assert_eq!(asset.reserve_id(), ident(0x1));
    assert_eq!(asset.freeze_id(), ident(0x3));
    assert_eq!(asset.clawback_id(), ident(0x4));
}

#[test]
fn modify_asset_overwrites_all_roles() {
    let mut asset = asset_with_roles(true);
    let note = asset
        .modify_asset(ident(0x2), Some(ident(0xA)), None, None, Some(ident(0xB)))
        .unwrap();
    // Omitted roles are reset to the zero identity, not preserved.
    assert_eq!(asset.manager_id(), ident(0xA));
    assert_eq!(asset.reserve_id(), ident(0x0));
    assert_eq!(asset.freeze_id(), ident(0x0));
    assert_eq!(asset.clawback_id(), ident(0xB));
    assert_eq!(note.manager_id, ident(0xA));
    assert_eq!(note.reserve_id, ident(0x0));
    assert_eq!(note.freeze_id, ident(0x0));
    assert_eq!(note.clawback_id, ident(0xB));
}

#[test]
fn transfer_requires_sufficient_balance() {
    let mut asset = asset_with_roles(true);
    asset.opt_in(ident(0x5)).unwrap();
    assert_eq!(asset.transfer(ident(0x1), ident(0x5), 1001), Err(Error::NotEnoughBalance));
    assert_eq!(asset.transfer(ident(0x5), ident(0x1), 1), Err(Error::NotEnoughBalance));
    assert_eq!(asset.balance_of(ident(0x1)), Ok(1000));
    assert_eq!(asset.balance_of(ident(0x5)), Ok(0));
}

#[test]
fn transfer_to_self_changes_nothing() {
    let mut asset = asset_with_roles(true);
    asset.transfer(ident(0x1), ident(0x1), 250).unwrap();
    assert_eq!(asset.balance_of(ident(0x1)), Ok(1000));
}

#[test]
fn revoke_debits_receiver_and_credits_target() {
    let mut asset = asset_with_roles(true);
    asset.opt_in(ident(0x5)).unwrap();
    asset.transfer(ident(0x1), ident(0x5), 500).unwrap();

    let note = asset.revoke_asset(ident(0x4), ident(0x5), ident(0x1), 200).unwrap();
    assert_eq!(asset.balance_of(ident(0x5)), Ok(300));
    assert_eq!(asset.balance_of(ident(0x1)), Ok(700));
    assert_eq!(note.from, ident(0x5));
    assert_eq!(note.clawback_id, ident(0x4));
    assert_eq!(note.amount, Some(200));

    assert_eq!(
        asset.revoke_asset(ident(0x4), ident(0x5), ident(0x1), 301),
        Err(Error::NotEnoughBalance)
    );
}

#[test]
fn destruction_requires_consolidated_supply() {
    let mut asset = asset_with_roles(true);
    asset.opt_in(ident(0x2)).unwrap();
    assert_eq!(asset.destroy_asset(ident(0x2)), Err(Error::NotAllAssetsOwnedByManager));

    asset.transfer(ident(0x1), ident(0x2), 1000).unwrap();
    let note = asset.destroy_asset(ident(0x2)).unwrap();
    assert_eq!(note.asset_id, asset.asset_id());
    assert_eq!(note.destroyer, ident(0x2));
}

#[test]
fn is_destroyable_tracks_creator_balance() {
    let mut asset = asset_with_roles(true);
    assert!(asset.is_destroyable());
    asset.opt_in(ident(0x5)).unwrap();
    asset.transfer(ident(0x1), ident(0x5), 1).unwrap();
    assert!(!asset.is_destroyable());
}

#[test]
fn metadata_accessors_return_construction_values() {
    let (asset, _note) = Subsa::new(
        ident(0x1),
        ident(0x9),
        "Test subsa".to_string(),
        "TSSA".to_string(),
        1000,
        10,
        true,
        "www.test.com".to_string(),
        [0xA, 0xB, 0xC, 0xD],
        None,
        None,
        None,
        None,
    );
    assert_eq!(asset.metadata_hash(), [0xA, 0xB, 0xC, 0xD]);
    assert_eq!(asset.creator_id(), ident(0x1));
}

#[test]
fn scenario_transfer_then_freeze() {
    // total = 1000, default_frozen = true, no explicit reserve: the
    // constructing caller holds the whole supply and is opted in.
    let caller = ident(0x1);
    let b = ident(0x5);
    let (mut asset, _note) = Subsa::new(
        caller,
        ident(0x9),
        "Test subsa".to_string(),
        "TSSA".to_string(),
        1000,
        10,
        true,
        "www.test.com".to_string(),
        [0x0; 4],
        Some(ident(0x2)),
        None,
        Some(ident(0x3)),
        Some(ident(0x4)),
    );
    assert_eq!(asset.balance_of(caller), Ok(1000));
    assert_eq!(asset.is_opted_in(caller), Ok(true));

    asset.opt_in(b).unwrap();
    let note = asset.transfer(caller, b, 400).unwrap();
    assert_eq!(asset.balance_of(caller), Ok(600));
    assert_eq!(asset.balance_of(b), Ok(400));
    assert_eq!(
        note,
        Transfer { sender: caller, receiver: b, asset_id: ident(0x9), amount: Some(400) }
    );

    assert_eq!(asset.freeze(b, b, true), Err(Error::NotFreezeId));
    asset.freeze(ident(0x3), b, true).unwrap();
    assert_eq!(asset.is_frozen(b), Ok(true));
    assert_eq!(asset.freeze(ident(0x3), b, true), Err(Error::AlreadyFrozen));
}
