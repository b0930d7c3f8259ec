//! Synchronization core for a compositor's text-composition (IME) protocol.
//!
//! The compositor delivers loosely-ordered, double-buffered protocol events:
//! individual events (focus enter/leave, preedit update, commit, delete
//! surrounding text) only describe intent, and take effect together when a
//! transaction boundary ("done") arrives. This crate holds the verified core
//! of that machinery: the per-object input state, the event dispatcher that
//! stages intents and flushes them in the protocol-mandated order, the
//! byte-offset validation for preedit cursors, the content-type mapping, and
//! the surrounding-text synchronizer with its payload truncation.
//!
//! Everything protocol-transport-related (the display connection, the event
//! queue, the proxy objects) lives outside this crate; the dispatcher works
//! on plain values and returns the requests and notifications to perform.

pub mod boundary;
pub mod content_type;
pub mod dispatch;
pub mod laws;
pub mod state;
pub mod surrounding;
