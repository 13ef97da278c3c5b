//! A single-peer VPN relay library.
//!
//! Frames read from a virtual network interface are stripped of their
//! 14-byte L2 header and handed to an opaque tunnel engine, which turns
//! them into UDP datagrams for the remote peer; datagrams received from
//! the network are handed back to the engine and, when the engine judges
//! them genuine plaintext, re-framed and written to the virtual
//! interface.  This crate holds the relay decisions, the session state
//! with its endpoint-learning rule, and the frame-header arithmetic;
//! the blocking device and socket I/O around it lives with the caller.

pub mod action;
pub mod config;
pub mod endpoint;
pub mod engine;
pub mod frame;
pub mod keys;
pub mod session;
