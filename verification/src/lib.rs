//! A verified model of a publisher endpoint over a pub/sub session.
//!
//! The library governs the lifecycle of an owning publisher handle — a slot
//! that is either a gravestone or holds a live publisher — together with the
//! operations that go through it: declaring, sending put and delete samples,
//! and a one-shot matching-notification channel whose callback ownership is
//! transferred at registration time.  Session establishment, transport and
//! key-expression routing are outside collaborators; their observable effect
//! on the handle protocol is what the contracts here pin down.

#![allow(non_camel_case_types)]

pub mod bytes;
pub mod errors;
pub mod laws;
pub mod matching;
pub mod model;
pub mod options;
pub mod publisher;
pub mod session;
