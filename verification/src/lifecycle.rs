//! The staked-resource lifecycle state machine.
//!
//! A stake position is an externally custodied value-holding resource. Its
//! state is not stored by this program: the custody service reports it, and
//! the rules here say which lifecycle operations each state admits. A
//! position progresses from uninitialized through initialized, activating,
//! active, deactivating and finally deactivated, when its value becomes
//! withdrawable; activation and deactivation complete only when an epoch
//! clock outside this program advances.

use vstd::prelude::*;

use crate::error::PoolError;

verus! {

/// Lifecycle state of a stake position, as the custody service reports it.
#[derive(Clone, Copy, Debug, PartialEq, Eq, Structural)]
pub enum StakeLifecycle {
    /// No backing data.
    Uninitialized,
    /// Backing data exists; no delegation yet.
    Initialized,
    /// Delegated, awaiting the end of its first epoch.
    Activating,
    /// Fully active.
    Active,
    /// Deactivation requested, awaiting the end of the epoch.
    Deactivating,
    /// Fully deactivated: the value is withdrawable.
    Deactivated,
}

/// A stake position as this program models it: a reported lifecycle state
/// and the value it holds.
#[derive(Clone, Copy, Debug, PartialEq, Eq, Structural)]
pub struct StakePosition {
    /// Reported lifecycle state.
    pub state: StakeLifecycle,
    /// Value the position holds.
    pub lamports: u64,
}

/// Whether two positions may merge: both fully active, or both still
/// activating in the same epoch. The custody service enforces this; the
/// rule is stated here so that callers' contracts can speak of it.
pub open spec fn spec_can_merge(dst: StakeLifecycle, src: StakeLifecycle) -> bool {
    ||| (dst == StakeLifecycle::Active && src == StakeLifecycle::Active)
    ||| (dst == StakeLifecycle::Activating && src == StakeLifecycle::Activating)
}

/// Whether two positions may merge.
pub fn can_merge(dst: &StakeLifecycle, src: &StakeLifecycle) -> (r: bool)
    ensures
        r == spec_can_merge(*dst, *src),
{
    (*dst == StakeLifecycle::Active && *src == StakeLifecycle::Active) || (*dst
        == StakeLifecycle::Activating && *src == StakeLifecycle::Activating)
}

/// Whether a withdrawal ticket may be completed: the position must have
/// fully deactivated and still hold value.
pub open spec fn spec_can_complete(p: StakePosition) -> bool {
    p.state == StakeLifecycle::Deactivated && p.lamports > 0
}

impl StakePosition {
    /// Initializes a freshly created position.
    ///
    /// Succeeds exactly on a position with no prior contents; anything else
    /// is already initialized. Value held is unaffected.
    pub fn initialize(&mut self) -> (r: Result<(), PoolError>)
        ensures
            match r {
                Ok(()) => {
                    &&& old(self).state == StakeLifecycle::Uninitialized
                    &&& *final(self) == (StakePosition {
                        state: StakeLifecycle::Initialized,
                        ..*old(self)
                    })
                },
                Err(e) => {
                    &&& e == PoolError::AccountAlreadyInitialized
                    &&& old(self).state != StakeLifecycle::Uninitialized
                    &&& *final(self) == *old(self)
                },
            },
    {
        match self.state {
            StakeLifecycle::Uninitialized => {
                self.state = StakeLifecycle::Initialized;
                Ok(())
            },
            _ => Err(PoolError::AccountAlreadyInitialized),
        }
    }

    /// Delegates an initialized position to a validator: it begins
    /// activating. Any other starting state is refused.
    pub fn delegate(&mut self) -> (r: Result<(), PoolError>)
        ensures
            match r {
                Ok(()) => {
                    &&& old(self).state == StakeLifecycle::Initialized
                    &&& *final(self) == (StakePosition {
                        state: StakeLifecycle::Activating,
                        ..*old(self)
                    })
                },
                Err(e) => {
                    &&& e == PoolError::InvalidAccountData
                    &&& old(self).state != StakeLifecycle::Initialized
                    &&& *final(self) == *old(self)
                },
            },
    {
        match self.state {
            StakeLifecycle::Initialized => {
                self.state = StakeLifecycle::Activating;
                Ok(())
            },
            _ => Err(PoolError::InvalidAccountData),
        }
    }

    /// Requests deactivation of a delegated position.
    pub fn deactivate(&mut self) -> (r: Result<(), PoolError>)
        ensures
            match r {
                Ok(()) => {
                    &&& (old(self).state == StakeLifecycle::Active || old(self).state
                        == StakeLifecycle::Activating)
                    &&& *final(self) == (StakePosition {
                        state: StakeLifecycle::Deactivating,
                        ..*old(self)
                    })
                },
                Err(e) => {
                    &&& e == PoolError::InvalidAccountData
                    &&& old(self).state != StakeLifecycle::Active && old(self).state
                        != StakeLifecycle::Activating
                    &&& *final(self) == *old(self)
                },
            },
    {
        match self.state {
            StakeLifecycle::Active | StakeLifecycle::Activating => {
                self.state = StakeLifecycle::Deactivating;
                Ok(())
            },
            _ => Err(PoolError::InvalidAccountData),
        }
    }

    /// The external epoch clock advances one epoch: an activating position
    /// becomes active and a deactivating one becomes deactivated; every
    /// other state is unaffected. Value held never changes.
    pub fn advance_epoch(&mut self)
        ensures
            final(self).lamports == old(self).lamports,
            final(self).state == (match old(self).state {
                StakeLifecycle::Activating => StakeLifecycle::Active,
                StakeLifecycle::Deactivating => StakeLifecycle::Deactivated,
                s => s,
            }),
    {
        match self.state {
            StakeLifecycle::Activating => {
                self.state = StakeLifecycle::Active;
            },
            StakeLifecycle::Deactivating => {
                self.state = StakeLifecycle::Deactivated;
            },
            _ => {},
        }
    }
}

/// Merges a source position into a destination position.
///
/// Requires a compatible pair of lifecycle states; an incompatible pair is
/// refused with both positions unchanged. On success the destination has
/// absorbed the source's value and the source is consumed: zero value, no
/// backing data. A sum beyond the value range is refused unchanged.
pub fn merge_positions(dst: &mut StakePosition, src: &mut StakePosition) -> (r: Result<
    (),
    PoolError,
>)
    ensures
        match r {
            Ok(()) => {
                &&& spec_can_merge(old(dst).state, old(src).state)
                &&& old(dst).lamports + old(src).lamports <= u64::MAX
                &&& *final(dst) == (StakePosition {
                    lamports: (old(dst).lamports + old(src).lamports) as u64,
                    ..*old(dst)
                })
                &&& *final(src) == (StakePosition {
                    state: StakeLifecycle::Uninitialized,
                    lamports: 0u64,
                })
            },
            Err(e) => {
                &&& *final(dst) == *old(dst)
                &&& *final(src) == *old(src)
                &&& if !spec_can_merge(old(dst).state, old(src).state) {
                    e == PoolError::InvalidAccountData
                } else {
                    e == PoolError::ArithmeticOverflow && old(dst).lamports + old(src).lamports
                        > u64::MAX
                }
            },
        },
{
    if !can_merge(&dst.state, &src.state) {
        return Err(PoolError::InvalidAccountData);
    }
    match dst.lamports.checked_add(src.lamports) {
        Some(sum) => {
            dst.lamports = sum;
            src.lamports = 0;
            src.state = StakeLifecycle::Uninitialized;
            Ok(())
        },
        None => Err(PoolError::ArithmeticOverflow),
    }
}

/// Splits value out of a source position into a fresh position.
///
/// The new position inherits the source's lifecycle state. The source must
/// retain its value range: a split of more than the source holds is
/// refused unchanged.
pub fn split_position(src: &mut StakePosition, amount: u64) -> (r: Result<
    StakePosition,
    PoolError,
>)
    ensures
        match r {
            Ok(p) => {
                &&& amount <= old(src).lamports
                &&& *final(src) == (StakePosition {
                    lamports: (old(src).lamports - amount) as u64,
                    ..*old(src)
                })
                &&& p == (StakePosition { state: old(src).state, lamports: amount })
            },
            Err(e) => {
                &&& e == PoolError::InsufficientFunds
                &&& amount > old(src).lamports
                &&& *final(src) == *old(src)
            },
        },
{
    match src.lamports.checked_sub(amount) {
        Some(rest) => {
            src.lamports = rest;
            Ok(StakePosition { state: src.state, lamports: amount })
        },
        None => Err(PoolError::InsufficientFunds),
    }
}

/// Pays out a fully deactivated withdrawal ticket.
///
/// Succeeds exactly when the position has fully deactivated and still holds
/// value; the whole value is paid out and the position is consumed: zero
/// value, no backing data. A position that has not finished deactivating,
/// or that was already paid out, is refused unchanged with
/// `UninitializedAccount` when it holds nothing and `InvalidAccountData`
/// when it has not deactivated.
pub fn complete_withdrawal(ticket: &mut StakePosition) -> (r: Result<u64, PoolError>)
    ensures
        match r {
            Ok(payout) => {
                &&& spec_can_complete(*old(ticket))
                &&& payout == old(ticket).lamports
                &&& *final(ticket) == (StakePosition {
                    state: StakeLifecycle::Uninitialized,
                    lamports: 0u64,
                })
            },
            Err(e) => {
                &&& !spec_can_complete(*old(ticket))
                &&& *final(ticket) == *old(ticket)
                &&& if old(ticket).lamports == 0 || old(ticket).state
                    == StakeLifecycle::Uninitialized {
                    e == PoolError::UninitializedAccount
                } else {
                    e == PoolError::InvalidAccountData
                }
            },
        },
{
    if ticket.lamports == 0 {
        return Err(PoolError::UninitializedAccount);
    }
    match ticket.state {
        StakeLifecycle::Uninitialized => Err(PoolError::UninitializedAccount),
        StakeLifecycle::Deactivated => {
            let payout = ticket.lamports;
            ticket.lamports = 0;
            ticket.state = StakeLifecycle::Uninitialized;
            Ok(payout)
        },
        _ => Err(PoolError::InvalidAccountData),
    }
}

/// A withdrawal ticket pays out at most once: after a successful payout the
/// position holds nothing, so a second completion is refused with the
/// empty-ticket error and the position stays consumed.
pub proof fn lemma_complete_at_most_once(t0: StakePosition, t1: StakePosition)
    requires
        spec_can_complete(t0),
        t1 == (StakePosition { state: StakeLifecycle::Uninitialized, lamports: 0u64 }),
    ensures
        !spec_can_complete(t1),
{
}

/// Completion is gated on full deactivation: a ticket that is still
/// activating, active or deactivating cannot be completed.
pub proof fn lemma_no_completion_before_deactivated(t: StakePosition)
    requires
        t.state != StakeLifecycle::Deactivated,
    ensures
        !spec_can_complete(t),
{
}

} // verus!
