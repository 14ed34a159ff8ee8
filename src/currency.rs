//! The reservable ledger interface and an in-memory ledger.

use vstd::prelude::*;
use std::collections::BTreeMap;
use crate::types::{AccountData, AccountId, Balance, DispatchError};

verus! {

broadcast use vstd::std_specs::btree::group_btree_axioms, vstd::laws_cmp::group_laws_cmp;

/// The smaller of two amounts.
pub open spec fn min_balance(a: Balance, b: Balance) -> Balance {
    if a <= b {
        a
    } else {
        b
    }
}

/// `after` holds the same funds as `before` for every account but `who`.
pub open spec fn same_except<C: ReservableCurrency>(before: C, after: C, who: AccountId) -> bool {
    forall|a: AccountId| a != who ==> #[trigger] after.account(a) == before.account(a)
}

/// A ledger that keeps, for each account, free funds and funds held in reserve.
pub trait ReservableCurrency: Sized {
    /// The ledger's internal consistency.
    spec fn inv(&self) -> bool;

    /// The funds that `who` holds.
    spec fn account(&self, who: AccountId) -> AccountData;

    /// What `reserve(who, value)` returns on this ledger.
    spec fn reserve_outcome(&self, who: AccountId, value: Balance) -> Result<(), DispatchError>;

    /// Free funds of `who`.
    fn free_balance(&self, who: AccountId) -> (r: Balance)
        requires
            self.inv(),
        ensures
            r == self.account(who).free,
    ;

    /// Reserved funds of `who`.
    fn reserved_balance(&self, who: AccountId) -> (r: Balance)
        requires
            self.inv(),
        ensures
            r == self.account(who).reserved,
    ;

    /// Moves `value` from the free funds of `who` into reserve. On failure
    /// nothing changes.
    fn reserve(&mut self, who: AccountId, value: Balance) -> (r: Result<(), DispatchError>)
        requires
            old(self).inv(),
        ensures
            final(self).inv(),
            r == old(self).reserve_outcome(who, value),
            r is Ok ==> {
                &&& value <= old(self).account(who).free
                &&& old(self).account(who).reserved + value <= Balance::MAX
                &&& final(self).account(who) == (AccountData {
                    free: (old(self).account(who).free - value) as Balance,
                    reserved: (old(self).account(who).reserved + value) as Balance,
                })
                &&& forall|a: AccountId| a != who ==> #[trigger] final(self).account(a) == old(self).account(a)
            },
            r is Err ==> *final(self) == *old(self),
    ;

    /// Moves up to `value` from the reserve of `who` back to its free funds,
    /// and returns the part of `value` that was not there to move.
    fn unreserve(&mut self, who: AccountId, value: Balance) -> (remainder: Balance)
        requires
            old(self).inv(),
        ensures
            final(self).inv(),
            ({
                let before = old(self).account(who);
                let actual = min_balance(value, before.reserved);
                &&& before.free + actual <= Balance::MAX
                &&& final(self).account(who) == (AccountData {
                    free: (before.free + actual) as Balance,
                    reserved: (before.reserved - actual) as Balance,
                })
                &&& remainder == value - actual
            }),
            forall|a: AccountId| a != who ==> #[trigger] final(self).account(a) == old(self).account(a),
    ;

    /// Takes up to `value` out of the reserve of `who` for good. Returns the
    /// amount taken and the part of `value` that was not there to take.
    fn slash_reserved(&mut self, who: AccountId, value: Balance) -> (r: (Balance, Balance))
        requires
            old(self).inv(),
        ensures
            final(self).inv(),
            ({
                let before = old(self).account(who);
                let actual = min_balance(value, before.reserved);
                &&& final(self).account(who) == (AccountData {
                    free: before.free,
                    reserved: (before.reserved - actual) as Balance,
                })
                &&& r == (actual, (value - actual) as Balance)
            }),
            forall|a: AccountId| a != who ==> #[trigger] final(self).account(a) == old(self).account(a),
    ;
}

/// An in-memory ledger. An account it has no entry for holds nothing.
pub struct Balances {
    accounts: BTreeMap<AccountId, AccountData>,
}

impl Balances {
    /// The stored entries.
    pub closed spec fn entries(&self) -> Map<AccountId, AccountData> {
        self.accounts@
    }

    /// A ledger in which no account holds anything.
    pub fn new() -> (r: Balances)
        ensures
            r.inv(),
            forall|a: AccountId| #[trigger] r.account(a) == (AccountData { free: 0, reserved: 0 }),
    {
        Balances { accounts: BTreeMap::new() }
    }

    /// The entry of `who`.
    fn get(&self, who: AccountId) -> (r: AccountData)
        ensures
            r == self.account(who),
    {
        match self.accounts.get(&who) {
            Some(d) => *d,
            None => AccountData { free: 0, reserved: 0 },
        }
    }

    /// Sets the free funds of `who` to `value`. Fails with `Overflow`, and
    /// changes nothing, where the account's total would not be representable.
    pub fn make_free_balance_be(&mut self, who: AccountId, value: Balance) -> (r: Result<
        (),
        DispatchError,
    >)
        requires
            old(self).inv(),
        ensures
            final(self).inv(),
            r is Ok <==> value + old(self).account(who).reserved <= Balance::MAX,
            r is Ok ==> final(self).account(who) == (AccountData {
                free: value,
                reserved: old(self).account(who).reserved,
            }) && same_except(*old(self), *final(self), who),
            r is Err ==> r == Err::<(), DispatchError>(DispatchError::Overflow) && *final(self)
                == *old(self),
    {
        let d = self.get(who);
        if value > Balance::MAX - d.reserved {
            return Err(DispatchError::Overflow);
        }
        self.accounts.insert(who, AccountData { free: value, reserved: d.reserved });
        Ok(())
    }
}

impl ReservableCurrency for Balances {
    /// No account holds more in total than a `Balance` can represent.
    open spec fn inv(&self) -> bool {
        forall|a: AccountId| #[trigger]
            self.entries().contains_key(a) ==> self.entries()[a].free + self.entries()[a].reserved
                <= Balance::MAX
    }

    /// Fails with `InsufficientBalance` exactly where `who` has less than
    /// `value` free.
    open spec fn reserve_outcome(&self, who: AccountId, value: Balance) -> Result<
        (),
        DispatchError,
    > {
        if value <= self.account(who).free {
            Ok(())
        } else {
            Err(DispatchError::InsufficientBalance)
        }
    }

    open spec fn account(&self, who: AccountId) -> AccountData {
        if self.entries().contains_key(who) {
            self.entries()[who]
        } else {
            AccountData { free: 0, reserved: 0 }
        }
    }

    fn free_balance(&self, who: AccountId) -> (r: Balance) {
        self.get(who).free
    }

    fn reserved_balance(&self, who: AccountId) -> (r: Balance) {
        self.get(who).reserved
    }

    fn reserve(&mut self, who: AccountId, value: Balance) -> (r: Result<(), DispatchError>) {
        let d = self.get(who);
        if d.free < value {
            return Err(DispatchError::InsufficientBalance);
        }
        self.accounts.insert(who, AccountData { free: d.free - value, reserved: d.reserved + value });
        Ok(())
    }

    fn unreserve(&mut self, who: AccountId, value: Balance) -> (remainder: Balance) {
        let d = self.get(who);
        let actual = if value <= d.reserved {
            value
        } else {
            d.reserved
        };
        if actual == 0 {
            return value;
        }
        self.accounts.insert(who, AccountData { free: d.free + actual, reserved: d.reserved - actual });
        value - actual
    }

    fn slash_reserved(&mut self, who: AccountId, value: Balance) -> (r: (Balance, Balance)) {
        let d = self.get(who);
        let actual = if value <= d.reserved {
            value
        } else {
            d.reserved
        };
        if actual == 0 {
            return (0, value);
        }
        self.accounts.insert(who, AccountData { free: d.free, reserved: d.reserved - actual });
        (actual, value - actual)
    }
}

} // verus!
