//! Verified core of an ARP network scanner.
//!
//! The library covers the scan engine itself: filtering host interfaces to
//! the scannable ones, building the broadcast ARP request frame byte by
//! byte, deciding which received frames are relevant ARP replies, and the
//! state machine that ties one scan together.  Raw-socket I/O, argument
//! handling and terminal output stay outside; they hand the engine plain
//! values and take plain values back.

pub mod catalog;
pub mod cli;
pub mod error;
pub mod frame;
pub mod iface;
pub mod matcher;
pub mod options;
pub mod render;
pub mod scan;
pub mod text;
