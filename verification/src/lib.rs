//! A LAN peer-discovery library.
//!
//! Each running instance announces a human-readable identity over IPv4/IPv6
//! multicast, listens for announcements from other instances, and replies
//! directly to announcers with its own identity. This crate holds the verified
//! core: the identity value and its validity, the wire codec, the per-datagram
//! decisions of the global responder and the per-interface announcer, the
//! filter that excludes IPv6 link-local addresses from announcing, the
//! supervisor's first-failure rule, and command-line argument validation.
//! Socket I/O, interface enumeration and task spawning live outside the
//! library and hand it plain values.

pub mod announcer;
pub mod args;
pub mod codec;
pub mod identity;
pub mod net;
pub mod responder;
pub mod supervisor;
