//! Properties that span more than one call.

use vstd::prelude::*;
use crate::currency::ReservableCurrency;
use crate::pallet::Pallet;
use crate::types::{
    is_privileged, lookup_of, AccountId, AccountLookup, DispatchError, DispatchResult, Error,
    Origin,
};

verus! {

/// An account without a name has nothing to clear or kill: `clear_name`
/// from it, and `kill_name` of it by the privileged origin, both fail with
/// `Unnamed` and change nothing.
pub proof fn lemma_unnamed_has_nothing_to_remove<C: ReservableCurrency>(
    pre: Pallet<C>,
    who: AccountId,
    admin: Origin,
    target: AccountLookup,
    cleared: Pallet<C>,
    r_clear: DispatchResult,
    killed: Pallet<C>,
    r_kill: DispatchResult,
)
    requires
        !pre.records().contains_key(who),
        is_privileged(pre.config(), admin),
        lookup_of(pre.indices(), target) == Some(who),
        Pallet::clear_name_post(pre, Origin::Signed(who), cleared, r_clear),
        Pallet::kill_name_post(pre, admin, target, killed, r_kill),
    ensures
        r_clear == Err::<(), DispatchError>(DispatchError::Module(Error::Unnamed)),
        cleared == pre,
        r_kill == Err::<(), DispatchError>(DispatchError::Module(Error::Unnamed)),
        killed == pre,
{
}

/// `kill_name` from an origin that is not privileged fails with
/// `NotAuthorized` and changes nothing, whatever the target and its state.
pub proof fn lemma_kill_needs_privilege<C: ReservableCurrency>(
    pre: Pallet<C>,
    origin: Origin,
    target: AccountLookup,
    post: Pallet<C>,
    r: DispatchResult,
)
    requires
        !is_privileged(pre.config(), origin),
        Pallet::kill_name_post(pre, origin, target, post, r),
    ensures
        r == Err::<(), DispatchError>(DispatchError::NotAuthorized),
        post == pre,
{
}

/// Setting a name on an account without one and then clearing it gives the
/// account back exactly the free and reserved funds it had before, and
/// leaves it without a name.
pub proof fn lemma_set_then_clear_restores_funds<C: ReservableCurrency>(
    pre: Pallet<C>,
    who: AccountId,
    name: Seq<u8>,
    named: Pallet<C>,
    r_set: DispatchResult,
    cleared: Pallet<C>,
    r_clear: DispatchResult,
)
    requires
        pre.wf(),
        !pre.records().contains_key(who),
        Pallet::set_name_post(pre, Origin::Signed(who), name, named, r_set),
        r_set is Ok,
        Pallet::clear_name_post(named, Origin::Signed(who), cleared, r_clear),
    ensures
        r_clear is Ok,
        cleared.ledger().account(who) == pre.ledger().account(who),
        cleared.records() == pre.records(),
{
    let fee = pre.config().reservation_fee;
    assert(named.records()[who] == (name, fee));
    assert(cleared.records() =~= pre.records());
}

/// Clearing twice in a row: the first call succeeds, the second fails with
/// `Unnamed` and changes nothing, so the deposit is refunded only once.
pub proof fn lemma_clear_twice_refunds_once<C: ReservableCurrency>(
    pre: Pallet<C>,
    who: AccountId,
    once: Pallet<C>,
    r_once: DispatchResult,
    twice: Pallet<C>,
    r_twice: DispatchResult,
)
    requires
        pre.records().contains_key(who),
        Pallet::clear_name_post(pre, Origin::Signed(who), once, r_once),
        Pallet::clear_name_post(once, Origin::Signed(who), twice, r_twice),
    ensures
        r_once is Ok,
        r_twice == Err::<(), DispatchError>(DispatchError::Module(Error::Unnamed)),
        twice == once,
        twice.ledger().account(who).free == pre.ledger().account(who).free
            + pre.records()[who].1,
{
}

} // verus!
