//! The owning publisher handle and the operations that go through it.
//!
//! An owning handle is a slot: a gravestone, or a live publisher.  A
//! gravestone handle may be inspected and re-retired safely, but never
//! borrowed.  Borrowing yields a shared reference to the publisher inside;
//! operations that change the publisher's state — sending, registering a
//! listener, retiring — go through the owning handle under a validity
//! precondition, which is the caller contract the protocol documents.

use vstd::prelude::*;

use crate::bytes::z_owned_bytes_t;
use crate::errors::{z_error_t, Z_EGENERIC, Z_EINVAL, Z_OK};
use crate::model::{
    declare_transition, delete_transition, put_transition, retire_transition, HandleView,
    PublisherView, SampleKind, SampleView,
};
use crate::options::{
    z_congestion_control_t, z_priority_t, z_publisher_delete_options_t, z_publisher_options_t,
    z_publisher_put_options_t,
};
use crate::session::Session;
use vstd::pervasive::unreached;

verus! {

/// One sample handed to the transport: a put carrying the consumed payload
/// and whatever options were present, or a delete tombstone.
pub struct SentSample {
    /// Whether the sample is a put or a delete tombstone.
    pub kind: SampleKind,
    /// The payload; empty for a tombstone.
    pub payload: Vec<u8>,
    /// The encoding consumed from the put options, where one was present.
    pub encoding: Option<String>,
    /// The attachment consumed from the put options, where one was present.
    pub attachment: Option<Vec<u8>>,
}

impl View for SentSample {
    type V = SampleView;

    open spec fn view(&self) -> SampleView {
        SampleView {
            kind: self.kind,
            payload: self.payload@,
            encoding: self.encoding.deep_view(),
            attachment: self.attachment.deep_view(),
        }
    }
}

/// A live publisher: the target of borrowed-handle operations.  It is bound
/// to one key expression and the policy it was declared with; it records the
/// samples handed to the transport, and carries the matching channel — the
/// statuses delivered to the moved callback, once a listener is registered.
pub struct z_loaned_publisher_t {
    /// The key expression the publisher is bound to, a fully-owned copy.
    pub key_expr: String,
    /// The congestion-control policy fixed at declaration.
    pub congestion_control: z_congestion_control_t,
    /// The priority fixed at declaration.
    pub priority: z_priority_t,
    /// How many subscribers currently match the key expression, as known to
    /// the delivery mechanism.
    pub matching_subs: u64,
    /// The matching channel: `None` while no listener is registered; the
    /// statuses delivered to the moved callback, in order, once one is.
    pub channel: Option<Vec<bool>>,
    /// The samples handed to the transport, in order.
    pub sent: Vec<SentSample>,
}

impl View for z_loaned_publisher_t {
    type V = PublisherView;

    open spec fn view(&self) -> PublisherView {
        PublisherView {
            key_expr: self.key_expr@,
            congestion_control: self.congestion_control,
            priority: self.priority,
            matching_subs: self.matching_subs as nat,
            channel: self.channel.deep_view(),
            sent: self.sent@.map_values(|s: SentSample| s@),
        }
    }
}

/// An owning publisher handle: a gravestone, or a live publisher.
pub struct z_owned_publisher_t {
    /// The slot: `None` is the gravestone state.
    pub slot: Option<z_loaned_publisher_t>,
}

impl View for z_owned_publisher_t {
    type V = HandleView;

    open spec fn view(&self) -> HandleView {
        match self.slot {
            Some(p) => Some(p@),
            None => None,
        }
    }
}

/// The caller's options, copied, where any were supplied.
pub open spec fn copied_options(options: Option<&z_publisher_options_t>) -> Option<
    z_publisher_options_t,
> {
    match options {
        Some(o) => Some(*o),
        None => None,
    }
}

/// Constructs and declares a publisher for the given key expression.
///
/// On a valid session the slot receives the live publisher, bound to an owned
/// copy of `key_expr` and to the supplied options (or the defaults where none
/// were supplied), and the result is `Z_OK`.  On an invalid session the slot
/// is set to the gravestone and the result is `Z_EGENERIC`.
pub fn z_declare_publisher(
    this: &mut z_owned_publisher_t,
    session: &Session,
    key_expr: String,
    options: Option<&z_publisher_options_t>,
) -> (r: z_error_t)
    ensures
        ({
            let (h, code) = declare_transition(session.valid, key_expr@, copied_options(options));
            final(this)@ == h && r == code
        }),
        session.valid ==> r == Z_OK && final(this)@ is Some,
        !session.valid ==> r == Z_EGENERIC && final(this)@ is None,
{
    let opts: z_publisher_options_t = match options {
        Some(o) => *o,
        None => z_publisher_options_t {
            congestion_control: z_congestion_control_t::Drop,
            priority: z_priority_t::Data,
        },
    };
    if session.is_valid() {
        this.slot = Some(
            z_loaned_publisher_t {
                key_expr,
                congestion_control: opts.congestion_control,
                priority: opts.priority,
                matching_subs: 0,
                channel: None,
                sent: Vec::new(),
            },
        );
        proof {
            assert(final(this)@->0 =~= declare_transition(
                session.valid,
                key_expr@,
                copied_options(options),
            ).0->0);
        }
        Z_OK
    } else {
        this.slot = None;
        Z_EGENERIC
    }
}

/// Constructs a publisher handle in the gravestone state: safely inspectable
/// before any declare attempt.
pub fn z_publisher_null(this: &mut z_owned_publisher_t)
    ensures
        final(this)@ is None,
{
    this.slot = None;
}

/// Returns `true` iff the handle holds a live publisher.
pub fn z_publisher_check(this: &z_owned_publisher_t) -> (r: bool)
    ensures
        r == (this@ is Some),
{
    this.slot.is_some()
}

/// Borrows the publisher inside a valid handle.
///
/// Borrowing from a gravestone handle is a caller contract violation, not a
/// recoverable error: the caller must check validity first, and the
/// precondition here enforces that.
pub fn z_publisher_loan(this: &z_owned_publisher_t) -> (r: &z_loaned_publisher_t)
    requires
        this@ is Some,
    ensures
        this@ == Some(r@),
{
    match &this.slot {
        Some(p) => p,
        None => unreached(),
    }
}

/// Returns the key expression the publisher is bound to.  The reference is
/// valid only while the owning handle has not been retired.
pub fn z_publisher_keyexpr(publisher: &z_loaned_publisher_t) -> (r: &String)
    ensures
        r@ == publisher@.key_expr,
{
    &publisher.key_expr
}

/// Sends a put sample onto the publisher's key expression, consuming the
/// payload and both option slots.
///
/// An already-consumed payload is rejected with `Z_EINVAL`, and nothing — the
/// publisher, its validity and key expression, the payload slot, the option
/// slots — is touched.  Otherwise the payload and whatever option values are
/// present are moved into the sample appended to the sent log, their slots
/// are left gravestone, and the result is `Z_OK`.
pub fn z_publisher_put(
    this: &mut z_owned_publisher_t,
    payload: &mut z_owned_bytes_t,
    options: &mut z_publisher_put_options_t,
) -> (r: z_error_t)
    requires
        old(this)@ is Some,
    ensures
        ({
            let (p2, pay2, enc2, att2, code) = put_transition(
                old(this)@->0,
                old(payload).data.deep_view(),
                old(options).encoding.value.deep_view(),
                old(options).attachment.data.deep_view(),
            );
            &&& final(this)@ == Some(p2)
            &&& final(payload).data.deep_view() == pay2
            &&& final(options).encoding.value.deep_view() == enc2
            &&& final(options).attachment.data.deep_view() == att2
            &&& r == code
        }),
        old(payload).data is None ==> r == Z_EINVAL && *final(this) == *old(this)
            && *final(payload) == *old(payload) && *final(options) == *old(options),
        old(payload).data is Some ==> r == Z_OK && final(payload).data is None,
{
    let data = match payload.extract() {
        Some(d) => d,
        None => {
            return Z_EINVAL;
        },
    };
    let encoding = options.encoding.extract();
    let attachment = options.attachment.extract();
    let sample = SentSample { kind: SampleKind::Put, payload: data, encoding, attachment };
    let ghost sample_view = sample@;
    match &mut this.slot {
        Some(p) => {
            p.sent.push(sample);
            proof {
                assert(p@.sent =~= old(this)@->0.sent.push(sample_view));
                assert(p@ =~~= put_transition(
                    old(this)@->0,
                    old(payload).data.deep_view(),
                    old(options).encoding.value.deep_view(),
                    old(options).attachment.data.deep_view(),
                ).0);
            }
        },
        None => {
            proof {
                assert(false);
            }
        },
    }
    Z_OK
}

/// Sends a delete tombstone onto the publisher's key expression: a sample
/// with an empty payload and no options is appended to the sent log.
pub fn z_publisher_delete(
    this: &mut z_owned_publisher_t,
    _options: z_publisher_delete_options_t,
) -> (r: z_error_t)
    requires
        old(this)@ is Some,
    ensures
        ({
            let (p2, code) = delete_transition(old(this)@->0);
            final(this)@ == Some(p2) && r == code
        }),
        r == Z_OK,
{
    let tombstone = SentSample {
        kind: SampleKind::Delete,
        payload: Vec::new(),
        encoding: None,
        attachment: None,
    };
    let ghost tombstone_view = tombstone@;
    match &mut this.slot {
        Some(p) => {
            p.sent.push(tombstone);
            proof {
                assert(p@.sent =~= old(this)@->0.sent.push(tombstone_view));
                assert(p@ =~~= delete_transition(old(this)@->0).0);
            }
        },
        None => {
            proof {
                assert(false);
            }
        },
    }
    Z_OK
}

/// Retires the handle: takes the publisher out of the slot, leaving the
/// gravestone permanently, and tears down the publisher together with any
/// registered matching channel.
///
/// Retirement always succeeds structurally: the slot is gravestone afterwards
/// whatever it held, and retiring a gravestone handle is accepted silently —
/// the operation is idempotent and never reports "already retired".
pub fn z_undeclare_publisher(this: &mut z_owned_publisher_t) -> (r: z_error_t)
    ensures
        ({
            let (h, code) = retire_transition(old(this)@);
            final(this)@ == h && r == code
        }),
        final(this)@ is None,
        r == Z_OK,
{
    let _torn_down = this.slot.take();
    Z_OK
}

/// Best-effort cleanup on scope exit: retires the handle and discards the
/// result.
pub fn z_publisher_drop(this: &mut z_owned_publisher_t)
    ensures
        final(this)@ is None,
{
    let _code: z_error_t = z_undeclare_publisher(this);
}

} // verus!
