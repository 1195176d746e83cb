//! Raw-mode control for a terminal, without the I/O.
//!
//! The crate holds the decisions of a raw-mode key inspector: which attribute
//! bits raw mode changes, which attributes a session hands back when raw mode
//! ends, how a key press is rendered, and when the input loop stops. The
//! functions are verified against their contracts; the two items that are
//! taken on trust say so. Querying the device, applying attributes to it and
//! reading bytes are left to the caller.

pub mod attrs;
pub mod diagnostic;
pub mod input_loop;
pub mod session;
