//! Event decoding and error unification for a real-time chat-platform client.
//!
//! A persistent streaming connection delivers heterogeneous JSON frames.  The
//! [`events`] module turns one frame into exactly one well-typed event variant
//! or a structured decode failure; the [`error`] module is the unified error
//! taxonomy that every failure mode of the surrounding transport stack is
//! mapped into.  The [`json`] module holds the JSON value abstraction that the
//! decoder consumes; parsing raw text into such a value is the transport
//! layer's job.  The [`laws`] module states and proves the decoder's general
//! laws.

pub mod json;

pub mod error;

pub mod entities;

pub mod events;

pub mod laws;
