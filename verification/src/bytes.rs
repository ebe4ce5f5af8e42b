//! Owned, move-only value slots: the payload and the encoding.
//!
//! Each slot holds either a value or a gravestone.  A slot is consumed by
//! extracting its value, which leaves the gravestone behind; a gravestone slot
//! may be inspected safely but yields nothing.  This models buffers whose
//! ownership is transferred into a send operation exactly once.

use vstd::prelude::*;

verus! {

/// An owned byte buffer in a slot: either a payload or a gravestone.
pub struct z_owned_bytes_t {
    /// The buffer, or `None` once consumed (or never filled).
    pub data: Option<Vec<u8>>,
}

impl z_owned_bytes_t {
    /// Constructs a slot holding the given buffer.
    pub fn new(data: Vec<u8>) -> (r: z_owned_bytes_t)
        ensures
            r.data == Some(data),
    {
        z_owned_bytes_t { data: Some(data) }
    }

    /// Constructs a slot in the gravestone state.
    pub fn null() -> (r: z_owned_bytes_t)
        ensures
            r.data is None,
    {
        z_owned_bytes_t { data: None }
    }

    /// Returns `true` iff the slot still holds a buffer.
    pub fn is_valid(&self) -> (r: bool)
        ensures
            r == (self.data is Some),
    {
        self.data.is_some()
    }

    /// Takes the buffer out, leaving the gravestone behind.
    pub fn extract(&mut self) -> (r: Option<Vec<u8>>)
        ensures
            r == old(self).data,
            final(self).data is None,
    {
        self.data.take()
    }
}

/// An owned encoding label in a slot: either a value or a gravestone.
pub struct z_owned_encoding_t {
    /// The encoding label, or `None` once consumed (or never filled).
    pub value: Option<String>,
}

impl z_owned_encoding_t {
    /// Constructs a slot holding the given encoding label.
    pub fn new(value: String) -> (r: z_owned_encoding_t)
        ensures
            r.value == Some(value),
    {
        z_owned_encoding_t { value: Some(value) }
    }

    /// Constructs a slot in the gravestone state.
    pub fn null() -> (r: z_owned_encoding_t)
        ensures
            r.value is None,
    {
        z_owned_encoding_t { value: None }
    }

    /// Returns `true` iff the slot still holds an encoding.
    pub fn is_valid(&self) -> (r: bool)
        ensures
            r == (self.value is Some),
    {
        self.value.is_some()
    }

    /// Takes the encoding out, leaving the gravestone behind.
    pub fn extract(&mut self) -> (r: Option<String>)
        ensures
            r == old(self).value,
            final(self).value is None,
    {
        self.value.take()
    }
}

} // verus!
