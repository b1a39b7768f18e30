//! The protocol core of a remote-control relay.
//!
//! A client sends small commands over a persistent connection; the host turns
//! each into a local input event or a system action. This crate holds what
//! decides: the wire schema of the commands ([`codec`]), the mapping from a
//! command to the operations of the effectors ([`dispatch`]), and the life of
//! one connection as a machine from events to commands ([`session`], [`run`]).
//! It performs no input or output itself: the transport, the input backend,
//! the launcher and the application lister belong to whoever drives a
//! [`session::Session`].

pub mod action;
pub mod codec;
pub mod dispatch;
pub mod json;
pub mod model;
pub mod run;
pub mod session;
