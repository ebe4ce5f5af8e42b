//! The matching notification channel.
//!
//! A one-shot registration bound to one publisher, with the states
//! unregistered, registered, torn down, and no reverse transition.
//! Registering moves the caller's callback into the channel (the caller's
//! variable is left an inert placeholder, so it cannot be registered twice)
//! and leaves the listener slot registered; from then on each transition of
//! the "at least one subscriber matches" status is delivered to the moved
//! callback exactly once, in order.  The channel's lifetime is strictly
//! subordinate to its publisher's: retiring the owning handle tears it down,
//! and no delivery occurs afterwards.

use vstd::prelude::*;

use crate::errors::{z_error_t, Z_OK};
use crate::model::{notify_handle_transition, register_transition};
use crate::publisher::{z_loaned_publisher_t, z_owned_publisher_t};
use vstd::pervasive::unreached;

verus! {

/// An owned callback for matching-status notifications: either live, or the
/// inert placeholder left behind once its ownership was transferred into a
/// registration.
pub struct zcu_owned_closure_matching_status_t {
    /// Whether the callback is still owned here.  Registration moves the
    /// callback out and leaves `false` behind.
    pub active: bool,
}

impl zcu_owned_closure_matching_status_t {
    /// Constructs a live callback, ready to be registered once.
    pub fn new() -> (r: zcu_owned_closure_matching_status_t)
        ensures
            r.active,
    {
        zcu_owned_closure_matching_status_t { active: true }
    }

    /// Constructs the inert placeholder: a callback in the gravestone state.
    pub fn empty() -> (r: zcu_owned_closure_matching_status_t)
        ensures
            !r.active,
    {
        zcu_owned_closure_matching_status_t { active: false }
    }

    /// Returns `true` iff the callback is still owned here.
    pub fn is_valid(&self) -> (r: bool)
        ensures
            r == self.active,
    {
        self.active
    }
}

/// An owned matching-listener slot: a gravestone, or the registered listener
/// owning the moved callback.  A successful registration leaves the slot
/// registered; the registration is bound to its publisher, and it is torn
/// down — no further delivery occurs — when the publisher's owning handle is
/// retired.
pub struct zcu_owned_matching_listener_t {
    /// Whether the slot holds the registered listener.  `false` is the
    /// gravestone state.
    pub active: bool,
}

impl zcu_owned_matching_listener_t {
    /// Constructs a listener slot in the gravestone state.
    pub fn null() -> (r: zcu_owned_matching_listener_t)
        ensures
            !r.active,
    {
        zcu_owned_matching_listener_t { active: false }
    }

    /// Returns `true` iff the slot holds the registered listener.
    pub fn is_valid(&self) -> (r: bool)
        ensures
            r == self.active,
    {
        self.active
    }
}

/// Returns `true` iff a matching listener is registered on the publisher.
/// Registration requires that none is: callers check here first.
pub fn zcu_publisher_matching_listener_registered(publisher: &z_loaned_publisher_t) -> (r: bool)
    ensures
        r == (publisher@.channel is Some),
{
    publisher.channel.is_some()
}

/// Returns the statuses delivered to the registered callback, in order.
pub fn zcu_publisher_matching_listener_deliveries(publisher: &z_loaned_publisher_t) -> (r: &Vec<
    bool,
>)
    requires
        publisher@.channel is Some,
    ensures
        publisher@.channel == Some(r.deep_view()),
{
    match &publisher.channel {
        Some(log) => log,
        None => unreached(),
    }
}

/// Registers a matching listener on the publisher, transferring ownership of
/// the callback into the channel.
///
/// The caller's callback variable is left inert, so it cannot be registered
/// twice; the listener slot becomes registered and owns the moved callback.
/// The registration is bound to the publisher: its channel delivers until the
/// owning handle is retired, which tears it down.  Registering on a publisher
/// that already has a channel would leak the prior registration, so the
/// channel must be empty beforehand.
pub fn zcu_publisher_matching_listener_callback(
    this: &mut zcu_owned_matching_listener_t,
    publisher: &mut z_owned_publisher_t,
    callback: &mut zcu_owned_closure_matching_status_t,
) -> (r: z_error_t)
    requires
        old(publisher)@ is Some,
        old(publisher)@->0.channel is None,
        old(callback).active,
    ensures
        ({
            let (p2, code) = register_transition(old(publisher)@->0);
            final(publisher)@ == Some(p2) && r == code
        }),
        !final(callback).active,
        final(this).active,
        r == Z_OK,
{
    callback.active = false;
    this.active = true;
    match &mut publisher.slot {
        Some(p) => {
            p.channel = Some(Vec::new());
            proof {
                assert(p@ =~~= register_transition(old(publisher)@->0).0);
            }
        },
        None => {
            proof {
                assert(false);
            }
        },
    }
    Z_OK
}

/// Delivers a subscriber-presence event to the publisher behind the handle: a
/// subscriber arrived (`arrived == true`) or departed, and `matching` is the
/// delivery mechanism's verdict on whether that subscriber matches the
/// publisher's key expression — the matching semantics themselves belong to
/// the routing outside this component.
///
/// An event whose subscriber does not match changes nothing.  A matching
/// event adjusts the count of matching subscribers, and exactly when that
/// count crosses between zero and nonzero the registered callback — if one is
/// registered — receives the new matching status, exactly once.  A gravestone
/// handle has no publisher and no channel: nothing happens and nothing is
/// delivered, whatever presence changes occur after retirement.
pub fn notify_subscriber_transition(
    this: &mut z_owned_publisher_t,
    matching: bool,
    arrived: bool,
)
    requires
        old(this)@ matches Some(p) ==> {
            &&& arrived && matching ==> p.matching_subs < u64::MAX
            &&& !arrived && matching ==> p.matching_subs > 0
        },
    ensures
        final(this)@ == notify_handle_transition(old(this)@, matching, arrived).0,
{
    match &mut this.slot {
        None => {},
        Some(p) => {
            if matching {
                if arrived {
                    let was_zero: bool = p.matching_subs == 0;
                    p.matching_subs = p.matching_subs + 1;
                    if was_zero {
                        if let Some(log) = &mut p.channel {
                            log.push(true);
                        }
                    }
                } else {
                    p.matching_subs = p.matching_subs - 1;
                    if p.matching_subs == 0 {
                        if let Some(log) = &mut p.channel {
                            log.push(false);
                        }
                    }
                }
                proof {
                    assert(p@ =~~= notify_handle_transition(old(this)@, matching, arrived).0->0);
                }
            }
        },
    }
}

} // verus!
