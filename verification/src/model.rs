//! The mathematical model of the publisher lifecycle.
//!
//! Every executable type has a view into the ghost structures here, and every
//! operation's contract says that the new view equals a transition function
//! applied to the old one.  The laws of the protocol — idempotent retirement,
//! default-option equivalence, exactly-one delivery per matching transition,
//! silence after retirement — are proved over these transitions in
//! [`crate::laws`].

use vstd::prelude::*;

use crate::errors::{z_error_t, Z_EGENERIC, Z_EINVAL, Z_OK};
use crate::options::{spec_default_publisher_options, z_publisher_options_t};

verus! {

/// The kind of a sample a publisher sends: a put carrying a payload, or a
/// delete tombstone carrying none.
#[derive(Clone, Copy, Debug, PartialEq, Eq, Structural)]
pub enum SampleKind {
    Put,
    Delete,
}

/// What one sample handed to the transport holds.
#[verifier::ext_equal]
pub ghost struct SampleView {
    pub kind: SampleKind,
    pub payload: Seq<u8>,
    pub encoding: Option<Seq<char>>,
    pub attachment: Option<Seq<u8>>,
}

/// A live publisher, abstractly: its declared binding, the samples it has
/// handed to the transport, the number of subscribers currently matching its
/// key expression as known to the delivery mechanism, and its matching
/// channel — `None` while no listener is registered, `Some(log)` once one is,
/// where `log` lists the statuses delivered to the moved callback, in order.
#[verifier::ext_equal]
pub ghost struct PublisherView {
    pub key_expr: Seq<char>,
    pub congestion_control: crate::options::z_congestion_control_t,
    pub priority: crate::options::z_priority_t,
    pub matching_subs: nat,
    pub channel: Option<Seq<bool>>,
    pub sent: Seq<SampleView>,
}

/// An owning handle, abstractly: a gravestone or a live publisher.
pub type HandleView = Option<PublisherView>;

/// The options a declaration is finalized with: the caller's, or the defaults
/// when the caller supplied none.
pub open spec fn options_or_default(options: Option<z_publisher_options_t>) -> z_publisher_options_t {
    match options {
        Some(o) => o,
        None => spec_default_publisher_options(),
    }
}

/// Declaring a publisher: on a valid session it yields a live publisher bound
/// to the key expression and the finalized options, with nothing sent, no
/// matching subscriber known and no listener registered; on an invalid
/// session it yields a gravestone and the generic failure code.
pub open spec fn declare_transition(
    session_valid: bool,
    key_expr: Seq<char>,
    options: Option<z_publisher_options_t>,
) -> (HandleView, z_error_t) {
    if session_valid {
        let opts = options_or_default(options);
        (
            Some(
                PublisherView {
                    key_expr,
                    congestion_control: opts.congestion_control,
                    priority: opts.priority,
                    matching_subs: 0,
                    channel: None,
                    sent: Seq::empty(),
                },
            ),
            Z_OK,
        )
    } else {
        (None, Z_EGENERIC)
    }
}

/// Retiring a handle: whatever it held, the slot is a gravestone afterwards
/// and the code is success — teardown always succeeds structurally, and
/// retiring a gravestone is accepted silently.
pub open spec fn retire_transition(handle: HandleView) -> (HandleView, z_error_t) {
    (None, Z_OK)
}

/// A put through a live publisher: an already-consumed payload is rejected
/// with `Z_EINVAL` and nothing — publisher, payload slot, option slots — is
/// touched; a present payload is consumed together with both option slots,
/// and the sample made of them is appended to the sent log.
pub open spec fn put_transition(
    p: PublisherView,
    payload: Option<Seq<u8>>,
    encoding: Option<Seq<char>>,
    attachment: Option<Seq<u8>>,
) -> (PublisherView, Option<Seq<u8>>, Option<Seq<char>>, Option<Seq<u8>>, z_error_t) {
    match payload {
        None => (p, payload, encoding, attachment, Z_EINVAL),
        Some(data) => (
            PublisherView {
                sent: p.sent.push(
                    SampleView { kind: SampleKind::Put, payload: data, encoding, attachment },
                ),
                ..p
            },
            None,
            None,
            None,
            Z_OK,
        ),
    }
}

/// A delete through a live publisher: a tombstone sample with an empty
/// payload and no options is appended to the sent log.
pub open spec fn delete_transition(p: PublisherView) -> (PublisherView, z_error_t) {
    (
        PublisherView {
            sent: p.sent.push(
                SampleView {
                    kind: SampleKind::Delete,
                    payload: Seq::empty(),
                    encoding: None,
                    attachment: None,
                },
            ),
            ..p
        },
        Z_OK,
    )
}

/// Registering a matching listener on a live publisher with no listener yet:
/// the moved callback becomes the publisher's channel, with nothing delivered
/// to it so far.
pub open spec fn register_transition(p: PublisherView) -> (PublisherView, z_error_t)
    recommends
        p.channel is None,
{
    (PublisherView { channel: Some(Seq::empty()), ..p }, Z_OK)
}

/// A subscriber-presence event reaching a live publisher.  `matching` is the
/// delivery mechanism's verdict on whether the subscriber matches the
/// publisher's key expression — the matching semantics themselves are outside
/// this component.  An event whose subscriber does not match changes nothing;
/// a matching arrival or departure adjusts the count, and exactly when the
/// count crosses between zero and nonzero — the matching status transitions —
/// a registered channel's callback is invoked exactly once with the new
/// status.  The second result is that invocation, or `None` where none
/// occurred.
pub open spec fn notify_transition(p: PublisherView, matching: bool, arrived: bool) -> (
    PublisherView,
    Option<bool>,
)
    recommends
        !arrived && matching ==> p.matching_subs > 0,
{
    if !matching {
        (p, None)
    } else if arrived {
        let moved = PublisherView { matching_subs: p.matching_subs + 1, ..p };
        if p.matching_subs == 0 && p.channel is Some {
            (
                PublisherView { channel: Some(p.channel->0.push(true)), ..moved },
                Some(true),
            )
        } else {
            (moved, None)
        }
    } else {
        let moved = PublisherView { matching_subs: (p.matching_subs - 1) as nat, ..p };
        if p.matching_subs == 1 && p.channel is Some {
            (
                PublisherView { channel: Some(p.channel->0.push(false)), ..moved },
                Some(false),
            )
        } else {
            (moved, None)
        }
    }
}

/// A subscriber-presence event reaching an owning handle: a gravestone handle
/// has no publisher, no channel and no callback, so nothing happens and
/// nothing is invoked.
pub open spec fn notify_handle_transition(handle: HandleView, matching: bool, arrived: bool) -> (
    HandleView,
    Option<bool>,
) {
    match handle {
        None => (None, None),
        Some(p) => {
            let r = notify_transition(p, matching, arrived);
            (Some(r.0), r.1)
        },
    }
}

} // verus!
