//! Core of a point-to-point tunnel that carries IP packets, basE91-encoded,
//! as the payload of raw IPv4 datagrams bearing a custom protocol number.
//!
//! The crate holds the decisions of the relay: the codec contract and its
//! size estimate, the classification of outer IPv4 headers, the admission
//! guard against the outer path MTU, one step of each forwarding direction,
//! the order of a session's setup and teardown, and the merging of
//! configuration sources. Devices, sockets and threads are left to the
//! program that drives these steps.

pub mod codec;
pub mod config;
pub mod ipv4;
pub mod lifecycle;
pub mod pipeline;
