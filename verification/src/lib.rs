//! A verified model of a UI-thread async bridge and script-to-host RPC
//! channel for an embedded web-rendering control.
//!
//! The library models the host side of the bridge: a JSON call/response
//! protocol between page script and named host callbacks, a FIFO dispatch
//! queue that carries work onto the owning UI thread, a nested message pump
//! that turns callback-style asynchronous platform operations into blocking
//! calls, and the registry that associates native window handles with their
//! owning sessions.  Platform calls themselves (window creation, COM, the
//! blocking message-retrieval primitive) live outside the library; the
//! library holds the decisions and the data they act on.

pub mod error;
pub mod json;
pub mod queue;
pub mod pump;
pub mod registry;
pub mod script;
pub mod session;
pub mod window_state;
pub mod wire;
