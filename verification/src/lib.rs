//! Order-orchestration core of a touch-screen vending kiosk.
//!
//! The library holds the logic that is worth stating precisely: the catalog
//! model and its dispensability rule, the per-order workflow state machine
//! (scan, authenticate, vend, report), the menu poller's timing decisions,
//! and the exact wire encoding of the dispense protocol. The surrounding
//! process (window toolkit, HTTP transport, tag-reader hardware) drives
//! these functions from outside.

pub mod catalog;
pub mod numfmt;
pub mod poller;
pub mod protocol;
pub mod trace;
pub mod workflow;
