//! The asset ledger: a single fungible asset with a fixed total supply,
//! opt-in gated balances, selective freezing, four privileged roles and a
//! guarded terminal destruction.
//!
//! Every operation takes the caller's identity, which the hosting
//! environment supplies for the invocation, validates all of its
//! preconditions before writing anything, and on success returns the one
//! notification record the environment is asked to deliver. On failure the
//! ledger is unchanged and no notification is produced.

use crate::account::{zero_account, AccountId};
use crate::table::{
    amount_of, distinct_keys, find, flag_of, lemma_sum_bounds, lookup, store_amount, store_flag,
    sum_amounts,
};
use vstd::prelude::*;

verus! {

/// Why an operation was refused.
///
/// `NotReserveId`, `NotFrozen`, `FrozenAccount` and `ZeroAmount` are part of
/// the taxonomy but reserved: no operation currently raises them.
#[derive(Clone, Copy, Debug, PartialEq, Eq)]
pub enum Error {
    NotManagerId,
    NotReserveId,
    NotFreezeId,
    NotClawbackId,
    NotOptedIn,
    AlreadyOptedIn,
    NotFrozen,
    NotFreezable,
    AlreadyFrozen,
    FrozenAccount,
    NotEnoughBalance,
    NotAllAssetsOwnedByManager,
    ZeroAmount,
}

/// Notification of a completed transfer.
#[derive(Clone, Copy, Debug, PartialEq)]
pub struct Transfer {
    pub sender: AccountId,
    pub receiver: AccountId,
    pub asset_id: AccountId,
    pub amount: Option<u128>,
}

/// Notification of the asset's creation.
#[derive(Clone, Debug, PartialEq)]
pub struct Creation {
    pub asset_id: AccountId,
    pub asset_name: String,
    pub creator: AccountId,
    pub total: u128,
}

/// Notification that an account's frozen status changed.
#[derive(Clone, Copy, Debug, PartialEq)]
pub struct Freeze {
    pub asset_id: AccountId,
    pub account: AccountId,
    pub freeze_id: AccountId,
    pub freeze: bool,
}

/// Notification that the four mutable roles were reassigned.
#[derive(Clone, Copy, Debug, PartialEq)]
pub struct Modify {
    pub manager_id: AccountId,
    pub reserve_id: AccountId,
    pub freeze_id: AccountId,
    pub clawback_id: AccountId,
}

/// Notification that an account opted in to hold the asset.
#[derive(Clone, Copy, Debug, PartialEq)]
pub struct OptIn {
    pub asset_id: AccountId,
    pub account: AccountId,
}

/// Notification that an account opted out.
#[derive(Clone, Copy, Debug, PartialEq)]
pub struct OptOut {
    pub asset_id: AccountId,
    pub account: AccountId,
}

/// Notification of a forced reallocation by the clawback role.
#[derive(Clone, Copy, Debug, PartialEq)]
pub struct Revoke {
    pub asset_id: AccountId,
    pub from: AccountId,
    pub clawback_id: AccountId,
    pub amount: Option<u128>,
}

/// Notification that the asset was destroyed.
#[derive(Clone, Copy, Debug, PartialEq)]
pub struct Destruction {
    pub asset_id: AccountId,
    pub destroyer: AccountId,
}

/// The role an optional argument assigns, with the zero identity for an
/// omitted role.
pub open spec fn role_or_zero(role: Option<AccountId>) -> AccountId {
    match role {
        Some(a) => a,
        None => zero_account(),
    }
}

/// The asset ledger.
pub struct Subsa {
    creator: AccountId,
    asset_id: AccountId,
    asset_name: String,
    unit_name: String,
    total: u128,
    decimals: u32,
    default_frozen: bool,
    url: String,
    metadata_hash: [u8; 4],
    manager_id: AccountId,
    reserve_id: AccountId,
    freeze_id: AccountId,
    clawback_id: AccountId,
    balances: Vec<(AccountId, u128)>,
    accounts_opted_in: Vec<(AccountId, bool)>,
    frozen_holders: Vec<(AccountId, bool)>,
}

impl Subsa {
    /// The identity that issued the construction call.
    pub closed spec fn spec_creator(self) -> AccountId {
        self.creator
    }

    /// The asset's identity: the address the hosting environment gave the
    /// ledger at construction.
    pub closed spec fn spec_asset_id(self) -> AccountId {
        self.asset_id
    }

    /// The asset's descriptive name.
    pub closed spec fn spec_asset_name(self) -> Seq<char> {
        self.asset_name@
    }

    /// The asset's unit name.
    pub closed spec fn spec_unit_name(self) -> Seq<char> {
        self.unit_name@
    }

    /// The fixed total supply.
    pub closed spec fn spec_total(self) -> u128 {
        self.total
    }

    /// The display-precision parameter.
    pub closed spec fn spec_decimals(self) -> u32 {
        self.decimals
    }

    /// Whether freezing was enabled at construction.
    pub closed spec fn spec_default_frozen(self) -> bool {
        self.default_frozen
    }

    /// The asset's reference URL.
    pub closed spec fn spec_url(self) -> Seq<char> {
        self.url@
    }

    /// The asset's metadata fingerprint.
    pub closed spec fn spec_metadata_hash(self) -> Seq<u8> {
        self.metadata_hash@
    }

    /// The current manager role.
    pub closed spec fn spec_manager(self) -> AccountId {
        self.manager_id
    }

    /// The current reserve role.
    pub closed spec fn spec_reserve(self) -> AccountId {
        self.reserve_id
    }

    /// The current freeze role.
    pub closed spec fn spec_freeze(self) -> AccountId {
        self.freeze_id
    }

    /// The current clawback role.
    pub closed spec fn spec_clawback(self) -> AccountId {
        self.clawback_id
    }

    /// The balance stored for `account`; zero where none was ever stored.
    pub closed spec fn balance(self, account: AccountId) -> u128 {
        amount_of(self.balances@, account)
    }

    /// Whether `account` is currently opted in.
    pub closed spec fn opted_in(self, account: AccountId) -> bool {
        flag_of(self.accounts_opted_in@, account)
    }

    /// Whether `account` is currently frozen.
    pub closed spec fn frozen(self, account: AccountId) -> bool {
        flag_of(self.frozen_holders@, account)
    }

    /// The ledger's invariant: the supply is positive, each per-account
    /// table binds an account at most once, and the balances sum exactly to
    /// the total supply (conservation).
    pub closed spec fn inv(self) -> bool {
        &&& self.total >= 1
        &&& distinct_keys(self.balances@)
        &&& distinct_keys(self.accounts_opted_in@)
        &&& distinct_keys(self.frozen_holders@)
        &&& sum_amounts(self.balances@) == self.total
    }

    /// Conservation, seen from outside: under the invariant — which
    /// construction establishes and every operation preserves — no single
    /// account ever holds more than the total supply.
    pub proof fn lemma_balance_le_total(self, account: AccountId)
        requires
            self.inv(),
        ensures
            self.balance(account) <= self.spec_total(),
    {
        lemma_sum_bounds(self.balances@, account);
    }

    /// Conservation across accounts: under the invariant two distinct
    /// accounts never jointly hold more than the total supply.
    pub proof fn lemma_balances_pair_le_total(self, a: AccountId, b: AccountId)
        requires
            self.inv(),
            a != b,
        ensures
            self.balance(a) + self.balance(b) <= self.spec_total(),
    {
        crate::table::lemma_sum_bounds_pair(self.balances@, a, b);
    }
}

/// The immutable construction parameters of `a` and `b` agree.
pub open spec fn same_params(a: Subsa, b: Subsa) -> bool {
    &&& a.spec_creator() == b.spec_creator()
    &&& a.spec_asset_id() == b.spec_asset_id()
    &&& a.spec_asset_name() == b.spec_asset_name()
    &&& a.spec_unit_name() == b.spec_unit_name()
    &&& a.spec_total() == b.spec_total()
    &&& a.spec_decimals() == b.spec_decimals()
    &&& a.spec_default_frozen() == b.spec_default_frozen()
    &&& a.spec_url() == b.spec_url()
    &&& a.spec_metadata_hash() == b.spec_metadata_hash()
}

/// The four mutable roles of `a` and `b` agree.
pub open spec fn same_roles(a: Subsa, b: Subsa) -> bool {
    &&& a.spec_manager() == b.spec_manager()
    &&& a.spec_reserve() == b.spec_reserve()
    &&& a.spec_freeze() == b.spec_freeze()
    &&& a.spec_clawback() == b.spec_clawback()
}

/// Every account holds the same balance in `a` and in `b`.
pub open spec fn same_balances(a: Subsa, b: Subsa) -> bool {
    forall|x: AccountId| a.balance(x) == b.balance(x)
}

/// Every account has the same opt-in status in `a` and in `b`.
pub open spec fn same_opted(a: Subsa, b: Subsa) -> bool {
    forall|x: AccountId| a.opted_in(x) == b.opted_in(x)
}

/// Every account has the same frozen status in `a` and in `b`.
pub open spec fn same_frozen(a: Subsa, b: Subsa) -> bool {
    forall|x: AccountId| a.frozen(x) == b.frozen(x)
}

impl Subsa {
    /// Creates the asset. The hosting environment supplies `caller` (the
    /// creator) and `asset_id` (the ledger's own address). The reserve role
    /// defaults to the caller and is credited the whole supply and opted in;
    /// the other roles default to the zero identity. Returns the ledger and
    /// the creation notification.
    pub fn new(
        caller: AccountId,
        asset_id: AccountId,
        asset_name: String,
        unit_name: String,
        total: u128,
        decimals: u32,
        default_frozen: bool,
        url: String,
        metadata_hash: [u8; 4],
        manager: Option<AccountId>,
        reserve: Option<AccountId>,
        freeze: Option<AccountId>,
        clawback: Option<AccountId>,
    ) -> (r: (Subsa, Creation))
        requires
            total >= 1,
        ensures
            ({
                let (asset, note) = r;
                &&& asset.inv()
                &&& asset.spec_creator() == caller
                &&& asset.spec_asset_id() == asset_id
                &&& asset.spec_asset_name() == asset_name@
                &&& asset.spec_unit_name() == unit_name@
                &&& asset.spec_total() == total
                &&& asset.spec_decimals() == decimals
                &&& asset.spec_default_frozen() == default_frozen
                &&& asset.spec_url() == url@
                &&& asset.spec_metadata_hash() == metadata_hash@
                &&& asset.spec_manager() == role_or_zero(manager)
                &&& reserve is None ==> asset.spec_reserve() == caller
                &&& reserve matches Some(res) ==> asset.spec_reserve() == res
                &&& asset.spec_freeze() == role_or_zero(freeze)
                &&& asset.spec_clawback() == role_or_zero(clawback)
                &&& forall|a: AccountId|
                    asset.balance(a) == (if a == asset.spec_reserve() {
                        total
                    } else {
                        0u128
                    })
                &&& forall|a: AccountId| asset.opted_in(a) == (a == asset.spec_reserve())
                &&& forall|a: AccountId| !asset.frozen(a)
                &&& note.asset_id == asset_id
                &&& note.asset_name@ == asset_name@
                &&& note.creator == caller
                &&& note.total == total
            }),
    {
        let note = Creation { asset_id, asset_name: asset_name.clone(), creator: caller, total };

        let reserve_id = match reserve {
            Some(a) => a,
            None => caller,
        };

        let mut accounts_opted_in: Vec<(AccountId, bool)> = Vec::new();
        accounts_opted_in.push((reserve_id, true));

        let mut balances: Vec<(AccountId, u128)> = Vec::new();
        balances.push((reserve_id, total));

        let asset = Subsa {
            creator: caller,
            asset_id,
            asset_name,
            unit_name,
            total,
            decimals,
            default_frozen,
            url,
            metadata_hash,
            manager_id: match manager {
                Some(a) => a,
                None => AccountId::zero(),
            },
            reserve_id,
            freeze_id: match freeze {
                Some(a) => a,
                None => AccountId::zero(),
            },
            clawback_id: match clawback {
                Some(a) => a,
                None => AccountId::zero(),
            },
            balances,
            accounts_opted_in,
            frozen_holders: Vec::new(),
        };

        proof {
            let b = asset.balances@;
            let o = asset.accounts_opted_in@;
            let f = asset.frozen_holders@;
            assert(b.len() == 1 && b[0] == (reserve_id, total));
            assert(o.len() == 1 && o[0] == (reserve_id, true));
            assert(f.len() == 0);
            assert(b.drop_first() =~= Seq::<(AccountId, u128)>::empty());
            assert(o.drop_first() =~= Seq::<(AccountId, bool)>::empty());
            assert(sum_amounts(Seq::<(AccountId, u128)>::empty()) == 0);
            assert(sum_amounts(b) == total);
            assert forall|a: AccountId|
                asset.balance(a) == (if a == reserve_id {
                    total
                } else {
                    0u128
                }) by {
                if a != reserve_id {
                    assert(find(b, a) == find(b.drop_first(), a));
                }
            }
            assert forall|a: AccountId| asset.opted_in(a) == (a == reserve_id) by {
                if a != reserve_id {
                    assert(find(o, a) == find(o.drop_first(), a));
                }
            }
            assert forall|a: AccountId| !asset.frozen(a) by {
                assert(find(f, a) is None);
            }
        }

        (asset, note)
    }

    /// The asset name.
    pub fn asset_name(&self) -> (r: String)
        ensures
            r@ == self.spec_asset_name(),
    {
        self.asset_name.clone()
    }

    /// The asset unit name.
    pub fn unit_name(&self) -> (r: String)
        ensures
            r@ == self.spec_unit_name(),
    {
        self.unit_name.clone()
    }

    /// The fixed total supply.
    pub fn total(&self) -> (r: u128)
        ensures
            r == self.spec_total(),
    {
        self.total
    }

    /// The display-precision parameter.
    pub fn decimals(&self) -> (r: u32)
        ensures
            r == self.spec_decimals(),
    {
        self.decimals
    }

    /// Whether freezing was enabled at construction.
    pub fn default_frozen(&self) -> (r: bool)
        ensures
            r == self.spec_default_frozen(),
    {
        self.default_frozen
    }

    /// The asset's reference URL.
    pub fn url(&self) -> (r: String)
        ensures
            r@ == self.spec_url(),
    {
        self.url.clone()
    }

    /// The asset's metadata fingerprint.
    pub fn metadata_hash(&self) -> (r: [u8; 4])
        ensures
            r@ == self.spec_metadata_hash(),
    {
        self.metadata_hash
    }

    /// The asset's identity.
    pub fn asset_id(&self) -> (r: AccountId)
        ensures
            r == self.spec_asset_id(),
    {
        self.asset_id
    }

    /// The creator's identity.
    pub fn creator_id(&self) -> (r: AccountId)
        ensures
            r == self.spec_creator(),
    {
        self.creator
    }

    /// The manager role.
    pub fn manager_id(&self) -> (r: AccountId)
        ensures
            r == self.spec_manager(),
    {
        self.manager_id
    }

    /// The reserve role.
    pub fn reserve_id(&self) -> (r: AccountId)
        ensures
            r == self.spec_reserve(),
    {
        self.reserve_id
    }

    /// The freeze role.
    pub fn freeze_id(&self) -> (r: AccountId)
        ensures
            r == self.spec_freeze(),
    {
        self.freeze_id
    }

    /// The clawback role.
    pub fn clawback_id(&self) -> (r: AccountId)
        ensures
            r == self.spec_clawback(),
    {
        self.clawback_id
    }

    /// The balance of `account`, refused where `account` has not opted in.
    pub fn balance_of(&self, account: AccountId) -> (r: Result<u128, Error>)
        ensures
            r == (if self.opted_in(account) {
                Ok::<u128, Error>(self.balance(account))
            } else {
                Err::<u128, Error>(Error::NotOptedIn)
            }),
    {
        let opted_in = match lookup(&self.accounts_opted_in, &account) {
            Some(b) => b,
            None => false,
        };
        if !opted_in {
            return Err(Error::NotOptedIn);
        }
        match lookup(&self.balances, &account) {
            Some(v) => Ok(v),
            None => Ok(0),
        }
    }

    /// Whether `account` is frozen.
    pub fn is_frozen(&self, account: AccountId) -> (r: Result<bool, Error>)
        ensures
            r == Ok::<bool, Error>(self.frozen(account)),
    {
        match lookup(&self.frozen_holders, &account) {
            Some(b) => Ok(b),
            None => Ok(false),
        }
    }

    /// Whether `account` has opted in.
    pub fn is_opted_in(&self, account: AccountId) -> (r: Result<bool, Error>)
        ensures
            r == Ok::<bool, Error>(self.opted_in(account)),
    {
        match lookup(&self.accounts_opted_in, &account) {
            Some(b) => Ok(b),
            None => Ok(false),
        }
    }

    /// Whether the creator's balance equals the total supply.
    pub fn is_destroyable(&self) -> (r: bool)
        ensures
            r == (self.balance(self.spec_creator()) == self.spec_total()),
    {
        let creator_balance = match lookup(&self.balances, &self.creator) {
            Some(v) => v,
            None => 0,
        };
        creator_balance == self.total
    }

    /// Moves `amount` from the caller to `receiver`. The caller must hold at
    /// least `amount` and `receiver` must have opted in; a transfer to
    /// oneself leaves every balance as it was. A zero amount is accepted
    /// and moves nothing: `ZeroAmount` stays reserved.
    pub fn transfer(&mut self, caller: AccountId, receiver: AccountId, amount: u128) -> (r: Result<
        Transfer,
        Error,
    >)
        requires
            old(self).inv(),
        ensures
            final(self).inv(),
            same_params(*old(self), *final(self)),
            same_roles(*old(self), *final(self)),
            same_opted(*old(self), *final(self)),
            same_frozen(*old(self), *final(self)),
            r == Err::<Transfer, Error>(Error::NotEnoughBalance) <==> old(self).balance(caller)
                < amount,
            r == Err::<Transfer, Error>(Error::NotOptedIn) <==> old(self).balance(caller) >= amount
                && !old(self).opted_in(receiver),
            r is Ok <==> old(self).balance(caller) >= amount && old(self).opted_in(receiver),
            r is Err ==> *final(self) == *old(self),
            r is Ok && caller != receiver ==> final(self).balance(caller) == old(self).balance(
                caller,
            ) - amount,
            r is Ok && caller != receiver ==> final(self).balance(receiver) == old(self).balance(
                receiver,
            ) + amount,
            r is Ok && caller == receiver ==> final(self).balance(caller) == old(self).balance(
                caller,
            ),
            forall|x: AccountId|
                x != caller && x != receiver ==> final(self).balance(x) == old(self).balance(x),
            r matches Ok(note) ==> note.sender == caller && note.receiver == receiver
                && note.asset_id == old(self).spec_asset_id() && note.amount == Some(amount),
    {
        let sender_balance = match lookup(&self.balances, &caller) {
            Some(v) => v,
            None => 0,
        };
        if sender_balance < amount {
            return Err(Error::NotEnoughBalance);
        }
        let receiver_opted_in = match lookup(&self.accounts_opted_in, &receiver) {
            Some(b) => b,
            None => false,
        };
        if !receiver_opted_in {
            return Err(Error::NotOptedIn);
        }

        let ghost bal0 = self.balances@;
        proof {
            lemma_sum_bounds(bal0, caller);
        }
        store_amount(&mut self.balances, caller, sender_balance - amount);
        let ghost bal1 = self.balances@;
        let receiver_balance = match lookup(&self.balances, &receiver) {
            Some(v) => v,
            None => 0,
        };
        proof {
            assert(sum_amounts(bal1) == old(self).spec_total() - amount);
            lemma_sum_bounds(bal1, receiver);
            assert(receiver_balance + amount <= old(self).spec_total());
        }
        store_amount(&mut self.balances, receiver, receiver_balance + amount);

        Ok(Transfer { sender: caller, receiver, asset_id: self.asset_id, amount: Some(amount) })
    }

    /// Registers the caller as a holder of the asset, with no balance
    /// change.
    pub fn opt_in(&mut self, caller: AccountId) -> (r: Result<OptIn, Error>)
        requires
            old(self).inv(),
        ensures
            final(self).inv(),
            same_params(*old(self), *final(self)),
            same_roles(*old(self), *final(self)),
            same_balances(*old(self), *final(self)),
            same_frozen(*old(self), *final(self)),
            r == Err::<OptIn, Error>(Error::AlreadyOptedIn) <==> old(self).opted_in(caller),
            r is Ok <==> !old(self).opted_in(caller),
            r is Err ==> *final(self) == *old(self),
            r is Ok ==> final(self).opted_in(caller),
            forall|x: AccountId| x != caller ==> final(self).opted_in(x) == old(self).opted_in(x),
            r matches Ok(note) ==> note.asset_id == old(self).spec_asset_id() && note.account
                == caller,
    {
        let caller_opted_in = match lookup(&self.accounts_opted_in, &caller) {
            Some(b) => b,
            None => false,
        };
        if caller_opted_in {
            return Err(Error::AlreadyOptedIn);
        }
        store_flag(&mut self.accounts_opted_in, caller, true);
        Ok(OptIn { asset_id: self.asset_id, account: caller })
    }

    /// Withdraws the caller's opt-in. The stored balance is left in place:
    /// opting back in restores visibility of the same amount.
    pub fn opt_out(&mut self, caller: AccountId) -> (r: Result<OptOut, Error>)
        requires
            old(self).inv(),
        ensures
            final(self).inv(),
            same_params(*old(self), *final(self)),
            same_roles(*old(self), *final(self)),
            same_balances(*old(self), *final(self)),
            same_frozen(*old(self), *final(self)),
            r == Err::<OptOut, Error>(Error::NotOptedIn) <==> !old(self).opted_in(caller),
            r is Ok <==> old(self).opted_in(caller),
            r is Err ==> *final(self) == *old(self),
            r is Ok ==> !final(self).opted_in(caller),
            forall|x: AccountId| x != caller ==> final(self).opted_in(x) == old(self).opted_in(x),
            r matches Ok(note) ==> note.asset_id == old(self).spec_asset_id() && note.account
                == caller,
    {
        let caller_opted_in = match lookup(&self.accounts_opted_in, &caller) {
            Some(b) => b,
            None => false,
        };
        if !caller_opted_in {
            return Err(Error::NotOptedIn);
        }
        store_flag(&mut self.accounts_opted_in, caller, false);
        Ok(OptOut { asset_id: self.asset_id, account: caller })
    }

    /// Sets or clears the frozen status of `account`. Freezing must have
    /// been enabled at construction and only the freeze role may call; the
    /// operation is a strict toggle, refused where the flag already equals
    /// the requested value.
    pub fn freeze(&mut self, caller: AccountId, account: AccountId, freeze_flag: bool) -> (r:
        Result<Freeze, Error>)
        requires
            old(self).inv(),
        ensures
            final(self).inv(),
            same_params(*old(self), *final(self)),
            same_roles(*old(self), *final(self)),
            same_balances(*old(self), *final(self)),
            same_opted(*old(self), *final(self)),
            r == Err::<Freeze, Error>(Error::NotFreezable) <==> !old(self).spec_default_frozen(),
            r == Err::<Freeze, Error>(Error::NotFreezeId) <==> old(self).spec_default_frozen()
                && caller != old(self).spec_freeze(),
            r == Err::<Freeze, Error>(Error::AlreadyFrozen) <==> old(self).spec_default_frozen()
                && caller == old(self).spec_freeze() && old(self).frozen(account) == freeze_flag,
            r is Ok <==> old(self).spec_default_frozen() && caller == old(self).spec_freeze()
                && old(self).frozen(account) != freeze_flag,
            r is Err ==> *final(self) == *old(self),
            r is Ok ==> final(self).frozen(account) == freeze_flag,
            forall|x: AccountId| x != account ==> final(self).frozen(x) == old(self).frozen(x),
            r matches Ok(note) ==> note.asset_id == old(self).spec_asset_id() && note.account
                == account && note.freeze_id == old(self).spec_freeze() && note.freeze
                == freeze_flag,
    {
        if !self.default_frozen {
            return Err(Error::NotFreezable);
        }
        if caller != self.freeze_id {
            return Err(Error::NotFreezeId);
        }
        let account_frozen = match lookup(&self.frozen_holders, &account) {
            Some(b) => b,
            None => false,
        };
        if account_frozen == freeze_flag {
            return Err(Error::AlreadyFrozen);
        }
        store_flag(&mut self.frozen_holders, account, freeze_flag);
        Ok(
            Freeze {
                asset_id: self.asset_id,
                account,
                freeze_id: self.freeze_id,
                freeze: freeze_flag,
            },
        )
    }

    /// Reassigns the four mutable roles. Only the manager may call, and all
    /// four roles are overwritten: an omitted role is reset to the zero
    /// identity, not preserved.
    pub fn modify_asset(
        &mut self,
        caller: AccountId,
        manager: Option<AccountId>,
        reserve: Option<AccountId>,
        freeze: Option<AccountId>,
        clawback: Option<AccountId>,
    ) -> (r: Result<Modify, Error>)
        requires
            old(self).inv(),
        ensures
            final(self).inv(),
            same_params(*old(self), *final(self)),
            same_balances(*old(self), *final(self)),
            same_opted(*old(self), *final(self)),
            same_frozen(*old(self), *final(self)),
            r == Err::<Modify, Error>(Error::NotManagerId) <==> caller != old(self).spec_manager(),
            r is Ok <==> caller == old(self).spec_manager(),
            r is Err ==> *final(self) == *old(self),
            r is Ok ==> final(self).spec_manager() == role_or_zero(manager),
            r is Ok ==> final(self).spec_reserve() == role_or_zero(reserve),
            r is Ok ==> final(self).spec_freeze() == role_or_zero(freeze),
            r is Ok ==> final(self).spec_clawback() == role_or_zero(clawback),
            r matches Ok(note) ==> note.manager_id == role_or_zero(manager) && note.reserve_id
                == role_or_zero(reserve) && note.freeze_id == role_or_zero(freeze)
                && note.clawback_id == role_or_zero(clawback),
    {
        if caller != self.manager_id {
            return Err(Error::NotManagerId);
        }
        self.manager_id = match manager {
            Some(a) => a,
            None => AccountId::zero(),
        };
        self.reserve_id = match reserve {
            Some(a) => a,
            None => AccountId::zero(),
        };
        self.freeze_id = match freeze {
            Some(a) => a,
            None => AccountId::zero(),
        };
        self.clawback_id = match clawback {
            Some(a) => a,
            None => AccountId::zero(),
        };
        Ok(
            Modify {
                manager_id: self.manager_id,
                reserve_id: self.reserve_id,
                freeze_id: self.freeze_id,
                clawback_id: self.clawback_id,
            },
        )
    }

    /// Forced reallocation by the clawback role: debits `amount` from
    /// `receiver` (which must have opted in and hold at least `amount`) and
    /// credits it to `revocation_target`. Note the asymmetry of the names:
    /// `receiver` is the account being debited.
    pub fn revoke_asset(
        &mut self,
        caller: AccountId,
        receiver: AccountId,
        revocation_target: AccountId,
        amount: u128,
    ) -> (r: Result<Revoke, Error>)
        requires
            old(self).inv(),
        ensures
            final(self).inv(),
            same_params(*old(self), *final(self)),
            same_roles(*old(self), *final(self)),
            same_opted(*old(self), *final(self)),
            same_frozen(*old(self), *final(self)),
            r == Err::<Revoke, Error>(Error::NotClawbackId) <==> caller != old(
                self,
            ).spec_clawback(),
            r == Err::<Revoke, Error>(Error::NotOptedIn) <==> caller == old(self).spec_clawback()
                && !old(self).opted_in(receiver),
            r == Err::<Revoke, Error>(Error::NotEnoughBalance) <==> caller == old(
                self,
            ).spec_clawback() && old(self).opted_in(receiver) && old(self).balance(receiver)
                < amount,
            r is Ok <==> caller == old(self).spec_clawback() && old(self).opted_in(receiver)
                && old(self).balance(receiver) >= amount,
            r is Err ==> *final(self) == *old(self),
            r is Ok && receiver != revocation_target ==> final(self).balance(receiver) == old(
                self,
            ).balance(receiver) - amount,
            r is Ok && receiver != revocation_target ==> final(self).balance(revocation_target)
                == old(self).balance(revocation_target) + amount,
            r is Ok && receiver == revocation_target ==> final(self).balance(receiver) == old(
                self,
            ).balance(receiver),
            forall|x: AccountId|
                x != receiver && x != revocation_target ==> final(self).balance(x) == old(
                    self,
                ).balance(x),
            r matches Ok(note) ==> note.asset_id == old(self).spec_asset_id() && note.from
                == receiver && note.clawback_id == old(self).spec_clawback() && note.amount == Some(
                amount,
            ),
    {
        if caller != self.clawback_id {
            return Err(Error::NotClawbackId);
        }
        let receiver_opted_in = match lookup(&self.accounts_opted_in, &receiver) {
            Some(b) => b,
            None => false,
        };
        if !receiver_opted_in {
            return Err(Error::NotOptedIn);
        }
        let receiver_balance = match lookup(&self.balances, &receiver) {
            Some(v) => v,
            None => 0,
        };
        if receiver_balance < amount {
            return Err(Error::NotEnoughBalance);
        }

        let ghost bal0 = self.balances@;
        proof {
            lemma_sum_bounds(bal0, receiver);
        }
        store_amount(&mut self.balances, receiver, receiver_balance - amount);
        let ghost bal1 = self.balances@;
        let target_balance = match lookup(&self.balances, &revocation_target) {
            Some(v) => v,
            None => 0,
        };
        proof {
            assert(sum_amounts(bal1) == old(self).spec_total() - amount);
            lemma_sum_bounds(bal1, revocation_target);
            assert(target_balance + amount <= old(self).spec_total());
        }
        store_amount(&mut self.balances, revocation_target, target_balance + amount);

        Ok(
            Revoke {
                asset_id: self.asset_id,
                from: receiver,
                clawback_id: self.clawback_id,
                amount: Some(amount),
            },
        )
    }

    /// Requests the asset's destruction. Only the manager may call, and
    /// only once the whole supply has been consolidated in the manager's
    /// account. The ledger itself is not altered: on success the hosting
    /// environment must retire it and admit no further operation against
    /// it.
    pub fn destroy_asset(&self, caller: AccountId) -> (r: Result<Destruction, Error>)
        ensures
            r == Err::<Destruction, Error>(Error::NotManagerId) <==> caller
                != self.spec_manager(),
            r == Err::<Destruction, Error>(Error::NotAllAssetsOwnedByManager) <==> caller
                == self.spec_manager() && self.balance(self.spec_manager()) != self.spec_total(),
            r is Ok <==> caller == self.spec_manager() && self.balance(self.spec_manager())
                == self.spec_total(),
            r matches Ok(note) ==> note.asset_id == self.spec_asset_id() && note.destroyer
                == self.spec_manager(),
    {
        if caller != self.manager_id {
            return Err(Error::NotManagerId);
        }
        let manager_balance = match lookup(&self.balances, &self.manager_id) {
            Some(v) => v,
            None => 0,
        };
        if manager_balance != self.total {
            return Err(Error::NotAllAssetsOwnedByManager);
        }
        Ok(Destruction { asset_id: self.asset_id, destroyer: self.manager_id })
    }
}

} // verus!
