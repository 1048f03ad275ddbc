//! Interception layer for a native module: it loads the real module once, forwards
//! lifecycle events and exported calls to it, and runs optional hooks and stand-ins
//! around them. Every decision is made here from plain values; the platform calls
//! themselves (loading, export lookup, calling through an address) are made by the host.

pub mod codes;
pub mod config;
pub mod detours;
pub mod error;
pub mod laws;
pub mod proxy;
pub mod symbol;
pub mod wide;
