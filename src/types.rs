//! Identities, amounts, origins, errors and events.

use vstd::prelude::*;

verus! {

/// Identity of an account.
pub type AccountId = u64;

/// An amount of funds.
pub type Balance = u128;

/// Funds of one account: what it may spend, and what is held in reserve.
#[derive(Clone, Copy, Debug, PartialEq, Eq, Structural)]
pub struct AccountData {
    pub free: Balance,
    pub reserved: Balance,
}

/// Who a call comes from.
#[derive(Clone, Copy, Debug, PartialEq, Eq, Structural)]
pub enum Origin {
    /// The administrative origin, always privileged.
    Root,
    /// An ordinary account that signed the call.
    Signed(AccountId),
    /// An unsigned call.
    Unsigned,
}

/// How a call names a third-party account.
#[derive(Clone, Copy, Debug, PartialEq, Eq, Structural)]
pub enum AccountLookup {
    /// The account itself.
    Id(AccountId),
    /// A position in the index table that the registry was set up with.
    Index(u32),
}

/// Errors raised by the name registry itself.
#[derive(Clone, Copy, Debug, PartialEq, Eq, Structural)]
pub enum Error {
    /// The name is shorter than the minimum length.
    TooShort,
    /// The name is longer than the maximum length.
    TooLong,
    /// The account has no name.
    Unnamed,
}

/// Why a call was refused.
#[derive(Clone, Copy, Debug, PartialEq, Eq, Structural)]
pub enum DispatchError {
    /// The call needs a signed origin and had none.
    NotSigned,
    /// The call needs the privileged origin and had another.
    NotAuthorized,
    /// The target descriptor names no known account.
    BadTarget,
    /// The ledger could not reserve the funds.
    InsufficientBalance,
    /// A balance would exceed the largest representable amount.
    Overflow,
    /// The registry refused the call.
    Module(Error),
}

/// Outcome of a call.
pub type DispatchResult = Result<(), DispatchError>;

/// What a successful call reports, one per call, in commit order.
#[derive(Clone, Copy, Debug, PartialEq, Eq, Structural)]
pub enum Event {
    /// A name was set for the first time, and the fee reserved.
    NameSet { who: AccountId },
    /// A name was set by the privileged origin.
    NameForced { target: AccountId },
    /// An existing name was replaced by its owner.
    NameChanged { who: AccountId },
    /// A name was cleared, and the deposit returned.
    NameCleared { who: AccountId, deposit: Balance },
    /// A name was removed, and the deposit slashed.
    NameKilled { target: AccountId, deposit: Balance },
}

/// Parameters fixed when the registry is deployed.
#[derive(Clone, Copy, Debug, PartialEq, Eq, Structural)]
pub struct Config {
    /// Fewest bytes a name set by its owner may have.
    pub min_length: u32,
    /// Most bytes any name may have.
    pub max_length: u32,
    /// Deposit reserved when an account takes a name.
    pub reservation_fee: Balance,
    /// An account that may act as the privileged origin besides root.
    pub force_origin: Option<AccountId>,
}

/// The account that signed a call, if any.
pub open spec fn signer_of(origin: Origin) -> Option<AccountId> {
    match origin {
        Origin::Signed(who) => Some(who),
        _ => None,
    }
}

/// Whether `origin` may make privileged calls under `config`.
pub open spec fn is_privileged(config: Config, origin: Origin) -> bool {
    match origin {
        Origin::Root => true,
        Origin::Signed(who) => config.force_origin == Some(who),
        Origin::Unsigned => false,
    }
}

/// The account that `target` names, given the index table `indices`.
pub open spec fn lookup_of(indices: Seq<AccountId>, target: AccountLookup) -> Option<AccountId> {
    match target {
        AccountLookup::Id(who) => Some(who),
        AccountLookup::Index(i) => if (i as int) < indices.len() {
            Some(indices[i as int])
        } else {
            None
        },
    }
}

/// Resolves a signed origin to its account.
pub fn ensure_signed(origin: Origin) -> (r: Result<AccountId, DispatchError>)
    ensures
        r == (match signer_of(origin) {
            Some(who) => Ok(who),
            None => Err::<AccountId, DispatchError>(DispatchError::NotSigned),
        }),
{
    match origin {
        Origin::Signed(who) => Ok(who),
        _ => Err(DispatchError::NotSigned),
    }
}

/// Checks that `origin` is the privileged origin of `config`.
pub fn ensure_privileged(config: &Config, origin: Origin) -> (r: DispatchResult)
    ensures
        r == (if is_privileged(*config, origin) {
            Ok::<(), DispatchError>(())
        } else {
            Err(DispatchError::NotAuthorized)
        }),
{
    match origin {
        Origin::Root => Ok(()),
        Origin::Signed(who) => match config.force_origin {
            Some(admin) => if admin == who {
                Ok(())
            } else {
                Err(DispatchError::NotAuthorized)
            },
            None => Err(DispatchError::NotAuthorized),
        },
        Origin::Unsigned => Err(DispatchError::NotAuthorized),
    }
}

/// Resolves `target` to an account through the index table `indices`.
pub fn lookup(indices: &Vec<AccountId>, target: AccountLookup) -> (r: Result<AccountId, DispatchError>)
    ensures
        r == (match lookup_of(indices@, target) {
            Some(who) => Ok(who),
            None => Err::<AccountId, DispatchError>(DispatchError::BadTarget),
        }),
{
    match target {
        AccountLookup::Id(who) => Ok(who),
        AccountLookup::Index(i) => if (i as usize) < indices.len() {
            Ok(indices[i as usize])
        } else {
            Err(DispatchError::BadTarget)
        },
    }
}

} // verus!
