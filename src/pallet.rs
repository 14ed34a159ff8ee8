//! The name registry and its transitions.

use vstd::prelude::*;
use std::collections::BTreeMap;
use crate::currency::{same_except, ReservableCurrency};
use crate::types::{
    ensure_privileged, ensure_signed, is_privileged, lookup, lookup_of, signer_of, AccountData,
    AccountId, AccountLookup, Balance, Config, DispatchError, DispatchResult, Error, Event, Origin,
};

verus! {

broadcast use vstd::std_specs::btree::group_btree_axioms, vstd::laws_cmp::group_laws_cmp;

/// The name an account holds, and the deposit bonded for it.
pub struct NameRecord {
    pub name: Vec<u8>,
    pub deposit: Balance,
}

/// A record as a pair of the name's bytes and the deposit.
pub open spec fn record_view(r: NameRecord) -> (Seq<u8>, Balance) {
    (r.name@, r.deposit)
}

/// The name registry: which account holds which name, over a ledger `C`
/// that keeps the deposits in reserve.
pub struct Pallet<C: ReservableCurrency> {
    config: Config,
    indices: Vec<AccountId>,
    names: BTreeMap<AccountId, NameRecord>,
    currency: C,
    events: Vec<Event>,
    slashed: Vec<Balance>,
}

impl<C: ReservableCurrency> Pallet<C> {
    /// The deployment parameters.
    pub closed spec fn config(&self) -> Config {
        self.config
    }

    /// The index table through which targets are looked up.
    pub closed spec fn indices(&self) -> Seq<AccountId> {
        self.indices@
    }

    /// Each named account's name and deposit.
    pub closed spec fn records(&self) -> Map<AccountId, (Seq<u8>, Balance)> {
        self.names@.map_values(|r: NameRecord| record_view(r))
    }

    /// The ledger.
    pub closed spec fn ledger(&self) -> C {
        self.currency
    }

    /// Events emitted so far, oldest first.
    pub closed spec fn events(&self) -> Seq<Event> {
        self.events@
    }

    /// Amounts handed to the forfeiture sink so far, oldest first.
    pub closed spec fn forfeited(&self) -> Seq<Balance> {
        self.slashed@
    }

    /// Every name fits the maximum length, and every deposit is held in
    /// reserve on its account.
    pub open spec fn wf(&self) -> bool {
        &&& self.ledger().inv()
        &&& forall|who: AccountId| #[trigger]
            self.records().contains_key(who) ==> {
                &&& self.records()[who].0.len() <= self.config().max_length
                &&& self.records()[who].1 <= self.ledger().account(who).reserved
            }
    }

    /// `post` has the parameters and index table of `pre`.
    pub open spec fn same_setup(pre: Self, post: Self) -> bool {
        post.config() == pre.config() && post.indices() == pre.indices()
    }

    /// What `set_name` does from `pre`.
    pub open spec fn set_name_post(
        pre: Self,
        origin: Origin,
        name: Seq<u8>,
        post: Self,
        r: DispatchResult,
    ) -> bool {
        match signer_of(origin) {
            None => r == Err::<(), DispatchError>(DispatchError::NotSigned) && post == pre,
            Some(who) => if name.len() > pre.config().max_length {
                r == Err::<(), DispatchError>(DispatchError::Module(Error::TooLong)) && post == pre
            } else if name.len() < pre.config().min_length {
                r == Err::<(), DispatchError>(DispatchError::Module(Error::TooShort)) && post
                    == pre
            } else if pre.records().contains_key(who) {
                &&& r is Ok
                &&& post.records() == pre.records().insert(who, (name, pre.records()[who].1))
                &&& post.ledger() == pre.ledger()
                &&& post.events() == pre.events().push(Event::NameChanged { who })
                &&& post.forfeited() == pre.forfeited()
                &&& Self::same_setup(pre, post)
            } else {
                let fee = pre.config().reservation_fee;
                let before = pre.ledger().account(who);
                &&& r is Ok <==> pre.ledger().reserve_outcome(who, fee) is Ok
                &&& r is Err ==> r == pre.ledger().reserve_outcome(who, fee)
                &&& match r {
                    Ok(()) => {
                        &&& fee <= before.free
                        &&& before.reserved + fee <= Balance::MAX
                        &&& post.records() == pre.records().insert(who, (name, fee))
                        &&& post.ledger().account(who) == (AccountData {
                            free: (before.free - fee) as Balance,
                            reserved: (before.reserved + fee) as Balance,
                        })
                        &&& same_except(pre.ledger(), post.ledger(), who)
                        &&& post.events() == pre.events().push(Event::NameSet { who })
                        &&& post.forfeited() == pre.forfeited()
                        &&& Self::same_setup(pre, post)
                    },
                    Err(_) => post == pre,
                }
            },
        }
    }

    /// What `clear_name` does from `pre`.
    pub open spec fn clear_name_post(pre: Self, origin: Origin, post: Self, r: DispatchResult) -> bool {
        match signer_of(origin) {
            None => r == Err::<(), DispatchError>(DispatchError::NotSigned) && post == pre,
            Some(who) => if !pre.records().contains_key(who) {
                r == Err::<(), DispatchError>(DispatchError::Module(Error::Unnamed)) && post == pre
            } else {
                let deposit = pre.records()[who].1;
                let before = pre.ledger().account(who);
                &&& r is Ok
                &&& post.records() == pre.records().remove(who)
                &&& before.free + deposit <= Balance::MAX
                &&& post.ledger().account(who) == (AccountData {
                    free: (before.free + deposit) as Balance,
                    reserved: (before.reserved - deposit) as Balance,
                })
                &&& same_except(pre.ledger(), post.ledger(), who)
                &&& post.events() == pre.events().push(Event::NameCleared { who, deposit })
                &&& post.forfeited() == pre.forfeited()
                &&& Self::same_setup(pre, post)
            },
        }
    }

    /// What `kill_name` does from `pre`.
    pub open spec fn kill_name_post(
        pre: Self,
        origin: Origin,
        target: AccountLookup,
        post: Self,
        r: DispatchResult,
    ) -> bool {
        if !is_privileged(pre.config(), origin) {
            r == Err::<(), DispatchError>(DispatchError::NotAuthorized) && post == pre
        } else {
            match lookup_of(pre.indices(), target) {
                None => r == Err::<(), DispatchError>(DispatchError::BadTarget) && post == pre,
                Some(t) => if !pre.records().contains_key(t) {
                    r == Err::<(), DispatchError>(DispatchError::Module(Error::Unnamed)) && post
                        == pre
                } else {
                    let deposit = pre.records()[t].1;
                    let before = pre.ledger().account(t);
                    &&& r is Ok
                    &&& post.records() == pre.records().remove(t)
                    &&& post.ledger().account(t) == (AccountData {
                        free: before.free,
                        reserved: (before.reserved - deposit) as Balance,
                    })
                    &&& same_except(pre.ledger(), post.ledger(), t)
                    &&& post.forfeited() == pre.forfeited().push(deposit)
                    &&& post.events() == pre.events().push(
                        Event::NameKilled { target: t, deposit },
                    )
                    &&& Self::same_setup(pre, post)
                },
            }
        }
    }

    /// What `force_name` does from `pre`.
    pub open spec fn force_name_post(
        pre: Self,
        origin: Origin,
        target: AccountLookup,
        name: Seq<u8>,
        post: Self,
        r: DispatchResult,
    ) -> bool {
        if !is_privileged(pre.config(), origin) {
            r == Err::<(), DispatchError>(DispatchError::NotAuthorized) && post == pre
        } else if name.len() > pre.config().max_length {
            r == Err::<(), DispatchError>(DispatchError::Module(Error::TooLong)) && post == pre
        } else {
            match lookup_of(pre.indices(), target) {
                None => r == Err::<(), DispatchError>(DispatchError::BadTarget) && post == pre,
                Some(t) => {
                    let deposit: Balance = if pre.records().contains_key(t) {
                        pre.records()[t].1
                    } else {
                        0
                    };
                    &&& r is Ok
                    &&& post.records() == pre.records().insert(t, (name, deposit))
                    &&& post.ledger() == pre.ledger()
                    &&& post.events() == pre.events().push(Event::NameForced { target: t })
                    &&& post.forfeited() == pre.forfeited()
                    &&& Self::same_setup(pre, post)
                },
            }
        }
    }

    /// A registry with no names, over `currency`, that looks targets up
    /// through `indices`.
    pub fn new(config: Config, indices: Vec<AccountId>, currency: C) -> (r: Self)
        requires
            currency.inv(),
        ensures
            r.wf(),
            r.config() == config,
            r.indices() == indices@,
            r.records() == Map::<AccountId, (Seq<u8>, Balance)>::empty(),
            r.ledger() == currency,
            r.events() == Seq::<Event>::empty(),
            r.forfeited() == Seq::<Balance>::empty(),
    {
        let r = Pallet {
            config,
            indices,
            names: BTreeMap::new(),
            currency,
            events: Vec::new(),
            slashed: Vec::new(),
        };
        assert(r.records() =~= Map::<AccountId, (Seq<u8>, Balance)>::empty());
        r
    }

    /// Sets the name of the signing account. The name must have between
    /// `min_length` and `max_length` bytes. An account without a name has
    /// `reservation_fee` moved into reserve; one that already has a name keeps
    /// its deposit.
    pub fn set_name(&mut self, origin: Origin, name: Vec<u8>) -> (r: DispatchResult)
        requires
            old(self).wf(),
        ensures
            final(self).wf(),
            Self::set_name_post(*old(self), origin, name@, *final(self), r),
    {
        let sender = match ensure_signed(origin) {
            Ok(who) => who,
            Err(e) => return Err(e),
        };
        if name.len() > self.config.max_length as usize {
            return Err(DispatchError::Module(Error::TooLong));
        }
        if name.len() < self.config.min_length as usize {
            return Err(DispatchError::Module(Error::TooShort));
        }
        let deposit = match self.names.get(&sender) {
            Some(rec) => {
                let deposit = rec.deposit;
                self.events.push(Event::NameChanged { who: sender });
                deposit
            },
            None => {
                let fee = self.config.reservation_fee;
                let reserved = self.currency.reserve(sender, fee);
                if reserved.is_err() {
                    return reserved;
                }
                self.events.push(Event::NameSet { who: sender });
                fee
            },
        };
        let ghost view = name@;
        self.names.insert(sender, NameRecord { name, deposit });
        assert(self.records() =~= old(self).records().insert(sender, (view, deposit)));
        assert forall|who: AccountId| #[trigger] self.records().contains_key(who) implies {
            &&& self.records()[who].0.len() <= self.config().max_length
            &&& self.records()[who].1 <= self.ledger().account(who).reserved
        } by {
            if who != sender {
                assert(old(self).records().contains_key(who));
            } else if old(self).records().contains_key(sender) {
                assert(old(self).records()[sender].1 == deposit);
            }
        }
        Ok(())
    }

    /// Removes the name of the signing account and returns its deposit to
    /// its free funds. Fails with `Unnamed` where it has no name.
    pub fn clear_name(&mut self, origin: Origin) -> (r: DispatchResult)
        requires
            old(self).wf(),
        ensures
            final(self).wf(),
            Self::clear_name_post(*old(self), origin, *final(self), r),
    {
        let sender = match ensure_signed(origin) {
            Ok(who) => who,
            Err(e) => return Err(e),
        };
        if !self.names.contains_key(&sender) {
            return Err(DispatchError::Module(Error::Unnamed));
        }
        let deposit = match self.names.remove(&sender) {
            Some(rec) => rec.deposit,
            None => 0,
        };
        assert(old(self).records()[sender].1 == deposit);
        assert(self.records() =~= old(self).records().remove(sender));
        assert(old(self).records().contains_key(sender));
        let remainder = self.currency.unreserve(sender, deposit);
        assert(remainder == 0);
        self.events.push(Event::NameCleared { who: sender, deposit });
        Ok(())
    }

    /// Removes the name of `target` and slashes its deposit to the
    /// forfeiture sink. Only the privileged origin may call it.
    pub fn kill_name(&mut self, origin: Origin, target: AccountLookup) -> (r: DispatchResult)
        requires
            old(self).wf(),
        ensures
            final(self).wf(),
            Self::kill_name_post(*old(self), origin, target, *final(self), r),
    {
        match ensure_privileged(&self.config, origin) {
            Ok(()) => {},
            Err(e) => return Err(e),
        }
        let target = match lookup(&self.indices, target) {
            Ok(who) => who,
            Err(e) => return Err(e),
        };
        if !self.names.contains_key(&target) {
            return Err(DispatchError::Module(Error::Unnamed));
        }
        let deposit = match self.names.remove(&target) {
            Some(rec) => rec.deposit,
            None => 0,
        };
        assert(old(self).records()[target].1 == deposit);
        assert(self.records() =~= old(self).records().remove(target));
        let (imbalance, _remainder) = self.currency.slash_reserved(target, deposit);
        self.slashed.push(imbalance);
        self.events.push(Event::NameKilled { target, deposit });
        Ok(())
    }

    /// Sets the name of `target` without touching its funds: a new record
    /// has a deposit of zero, and an existing one keeps its deposit. The name
    /// must have at most `max_length` bytes. Only the privileged origin may
    /// call it.
    pub fn force_name(&mut self, origin: Origin, target: AccountLookup, name: Vec<u8>) -> (r:
        DispatchResult)
        requires
            old(self).wf(),
        ensures
            final(self).wf(),
            Self::force_name_post(*old(self), origin, target, name@, *final(self), r),
    {
        match ensure_privileged(&self.config, origin) {
            Ok(()) => {},
            Err(e) => return Err(e),
        }
        if name.len() > self.config.max_length as usize {
            return Err(DispatchError::Module(Error::TooLong));
        }
        let target = match lookup(&self.indices, target) {
            Ok(who) => who,
            Err(e) => return Err(e),
        };
        let deposit: Balance = match self.names.get(&target) {
            Some(rec) => rec.deposit,
            None => 0,
        };
        let ghost view = name@;
        self.names.insert(target, NameRecord { name, deposit });
        assert(self.records() =~= old(self).records().insert(target, (view, deposit)));
        self.events.push(Event::NameForced { target });
        Ok(())
    }
    /// The name and deposit of `who`, if it has a name.
    pub fn name_of(&self, who: AccountId) -> (r: Option<&NameRecord>)
        ensures
            match r {
                Some(rec) => self.records().contains_key(who) && self.records()[who] == record_view(
                    *rec,
                ),
                None => !self.records().contains_key(who),
            },
    {
        self.names.get(&who)
    }

    /// Free funds of `who` on the ledger.
    #[allow(non_snake_case)]
    pub fn balanceOf(&self, who: AccountId) -> (r: Balance)
        requires
            self.wf(),
        ensures
            r == self.ledger().account(who).free,
    {
        self.currency.free_balance(who)
    }

    /// The ledger.
    pub fn currency(&self) -> (r: &C)
        ensures
            *r == self.ledger(),
    {
        &self.currency
    }

    /// Events emitted so far, oldest first.
    pub fn deposited_events(&self) -> (r: &Vec<Event>)
        ensures
            r@ == self.events(),
    {
        &self.events
    }

    /// Amounts handed to the forfeiture sink so far, oldest first.
    pub fn forfeited_amounts(&self) -> (r: &Vec<Balance>)
        ensures
            r@ == self.forfeited(),
    {
        &self.slashed
    }
}

} // verus!
