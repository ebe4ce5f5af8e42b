//! Option records passed to declaration, put and delete, and the matching
//! status record delivered to a registered listener.

use vstd::prelude::*;

use crate::bytes::z_owned_bytes_t;
use crate::bytes::z_owned_encoding_t;

verus! {

/// The congestion-control policy applied when outbound capacity is exceeded:
/// `Block` suspends the caller, `Drop` silently discards under pressure.
/// Fixed per publisher at declaration.
#[derive(Clone, Copy, Debug, PartialEq, Eq, Structural)]
pub enum z_congestion_control_t {
    /// Suspend the caller until transport buffer space is available.
    Block,
    /// Return immediately, discarding the message under pressure.
    Drop,
}

/// The priority level of messages from a publisher.
#[derive(Clone, Copy, Debug, PartialEq, Eq, Structural)]
pub enum z_priority_t {
    RealTime,
    InteractiveHigh,
    InteractiveLow,
    DataHigh,
    Data,
    DataLow,
    Background,
}

/// Options applied when a publisher is declared.
#[derive(Clone, Copy, Debug, PartialEq, Eq, Structural)]
pub struct z_publisher_options_t {
    /// The congestion control to apply when routing messages from this publisher.
    pub congestion_control: z_congestion_control_t,
    /// The priority of messages from this publisher.
    pub priority: z_priority_t,
}

/// The declaration options used when the caller supplies none: congestion
/// control `Drop` and priority `Data`.
pub open spec fn spec_default_publisher_options() -> z_publisher_options_t {
    z_publisher_options_t {
        congestion_control: z_congestion_control_t::Drop,
        priority: z_priority_t::Data,
    }
}

/// Constructs the default value for `z_publisher_options_t`.
pub fn z_publisher_options_default(this: &mut z_publisher_options_t)
    ensures
        *final(this) == spec_default_publisher_options(),
{
    *this = z_publisher_options_t {
        congestion_control: z_congestion_control_t::Drop,
        priority: z_priority_t::Data,
    };
}

/// Options passed to a put operation.  Each field is an owned slot whose
/// value, where present, is transferred into the sent sample; a consumed or
/// never-filled field attaches nothing.
pub struct z_publisher_put_options_t {
    /// The encoding of the data to publish.
    pub encoding: z_owned_encoding_t,
    /// The attachment to attach to the publication.
    pub attachment: z_owned_bytes_t,
}

/// Constructs the default value for `z_publisher_put_options_t`: both fields
/// gravestone, so nothing is attached.
pub fn z_publisher_put_options_default(this: &mut z_publisher_put_options_t)
    ensures
        final(this).encoding.value is None,
        final(this).attachment.data is None,
{
    *this = z_publisher_put_options_t {
        encoding: z_owned_encoding_t::null(),
        attachment: z_owned_bytes_t::null(),
    };
}

/// Options applied to a delete operation issued via a publisher.  The delete
/// operation carries no options; the record exists so the boundary surface
/// can grow without changing the call shape.
#[derive(Clone, Copy, Debug, PartialEq, Eq, Structural)]
pub struct z_publisher_delete_options_t {
    /// Unused; present so the record has a stable layout.
    pub reserved: u8,
}

/// Constructs the default values for the delete operation via a publisher.
pub fn z_publisher_delete_options_default(this: &mut z_publisher_delete_options_t)
    ensures
        final(this).reserved == 0u8,
{
    *this = z_publisher_delete_options_t { reserved: 0 };
}

/// Indicates whether there exist subscribers matching the publisher's key
/// expression.
#[derive(Clone, Copy, Debug, PartialEq, Eq, Structural)]
pub struct zcu_matching_status_t {
    /// True iff at least one subscriber currently matches the publisher's key
    /// expression.
    pub matching: bool,
}

} // verus!
