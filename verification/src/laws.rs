//! The laws of the handle protocol, proved over the transition functions in
//! [`crate::model`].  Each executable operation's contract equates its effect
//! with one of those transitions, so what is proved here holds of the
//! operations themselves.

use vstd::prelude::*;

use crate::errors::{Z_EINVAL, Z_OK};
use crate::model::{
    declare_transition, notify_handle_transition, notify_transition, put_transition,
    register_transition, retire_transition, HandleView, PublisherView,
};
use crate::options::{spec_default_publisher_options, z_publisher_options_t};

verus! {

/// Declaring over a valid session always succeeds: the handle holds a live
/// publisher bound to the given key expression, and the code is `Z_OK` —
/// whatever options were supplied.
pub proof fn lemma_declare_valid_session_succeeds(
    key_expr: Seq<char>,
    options: Option<z_publisher_options_t>,
)
    ensures
        ({
            let (h, code) = declare_transition(true, key_expr, options);
            &&& h is Some
            &&& h->0.key_expr == key_expr
            &&& code == Z_OK
        }),
{
}

/// Retirement is idempotent: one retirement leaves the gravestone, and a
/// second retirement of the now-gravestone handle changes nothing and still
/// reports `Z_OK` — "already retired" is never an error.
pub proof fn lemma_retire_idempotent(handle: HandleView)
    ensures
        retire_transition(handle).0 is None,
        retire_transition(retire_transition(handle).0) == retire_transition(handle),
        retire_transition(retire_transition(handle).0).1 == Z_OK,
{
}

/// A put with an already-consumed payload is rejected with `Z_EINVAL` and
/// consumes nothing: the publisher — its validity, key expression, sent log
/// and channel — and both option slots are exactly what they were.
pub proof fn lemma_put_consumed_payload_rejected(
    p: PublisherView,
    encoding: Option<Seq<char>>,
    attachment: Option<Seq<u8>>,
)
    ensures
        ({
            let (p2, pay2, enc2, att2, code) = put_transition(p, None, encoding, attachment);
            &&& code == Z_EINVAL
            &&& p2 == p
            &&& pay2 is None
            &&& enc2 == encoding
            &&& att2 == attachment
        }),
{
}

/// Declaring with the default-constructed options yields exactly the same
/// outcome — same handle state, same code — as declaring with no options
/// supplied, over any session state and key expression.
pub proof fn lemma_declare_default_options_equivalent(session_valid: bool, key_expr: Seq<char>)
    ensures
        declare_transition(session_valid, key_expr, Some(spec_default_publisher_options()))
            == declare_transition(session_valid, key_expr, None),
{
}

/// A subscriber event whose subscriber does not match the publisher's key
/// expression — the delivery mechanism's verdict — never triggers an
/// invocation and leaves the publisher exactly as it was.
pub proof fn lemma_non_matching_subscriber_never_invokes(p: PublisherView, arrived: bool)
    ensures
        notify_transition(p, false, arrived) == (p, None::<bool>),
{
}

/// The callback is invoked exactly when the matching status transitions: a
/// registered channel receives exactly the new status when the count of
/// matching subscribers crosses between zero and nonzero, and nothing is
/// delivered on any other event.
pub proof fn lemma_invocation_iff_status_transition(
    p: PublisherView,
    matching: bool,
    arrived: bool,
)
    requires
        !arrived && matching ==> p.matching_subs > 0,
    ensures
        ({
            let (q, invoked) = notify_transition(p, matching, arrived);
            let matching_before = p.matching_subs > 0;
            let matching_after = q.matching_subs > 0;
            &&& (invoked is Some) <==> (p.channel is Some && matching && matching_before
                != matching_after)
            &&& invoked matches Some(s) ==> s == matching_after && q.channel == Some(
                p.channel->0.push(s),
            )
            &&& invoked is None ==> q.channel == p.channel
        }),
{
}

/// The one-shot round a registered listener observes: after registration,
/// the first matching subscriber's arrival delivers exactly one `true`; that
/// subscriber's departure then delivers exactly one `false`; and an event for
/// a subscriber that does not match, in between, delivers nothing and changes
/// nothing.
pub proof fn lemma_matching_round(p: PublisherView)
    requires
        p.channel is None,
        p.matching_subs == 0,
    ensures
        ({
            let (q, code) = register_transition(p);
            let (q1, invoked1) = notify_transition(q, true, true);
            let (q2, invoked2) = notify_transition(q1, true, false);
            &&& code == Z_OK
            &&& invoked1 == Some(true) && q1.channel == Some(seq![true])
            &&& notify_transition(q1, false, true) == (q1, None::<bool>)
            &&& notify_transition(q1, false, false) == (q1, None::<bool>)
            &&& invoked2 == Some(false) && q2.channel == Some(seq![true, false])
            &&& q2.matching_subs == 0
        }),
{
    let (q, code) = register_transition(p);
    let (q1, invoked1) = notify_transition(q, true, true);
    let (q2, invoked2) = notify_transition(q1, true, false);
    assert(Seq::<bool>::empty().push(true) =~= seq![true]);
    assert(seq![true].push(false) =~= seq![true, false]);
    assert(q1.channel == Some(seq![true]));
}

/// After retirement of the owning handle, no further invocation occurs: the
/// retired handle is the gravestone, and no subscriber-presence event on a
/// gravestone handle delivers anything or resurrects it.
pub proof fn lemma_no_invocation_after_retire(
    handle: HandleView,
    matching: bool,
    arrived: bool,
)
    ensures
        ({
            let retired = retire_transition(handle).0;
            let (after, invoked) = notify_handle_transition(retired, matching, arrived);
            invoked is None && after is None
        }),
{
}

} // verus!
