//! Connection-level control-frame scheduling for a QUIC transport.
//!
//! Other parts of a connection raise flow-control and stream-lifecycle
//! signals (credit exhausted, stream reset, stream limit changed). The
//! [`flow_mgr::FlowMgr`] turns them into frames waiting to be sent, keeping at
//! most one pending frame per signal and scope. A
//! [`flow_mgr::FlowControlGenerator`] hands those frames to packet assembly
//! when they fit, and each frame handed out travels with a
//! [`flow_mgr::FlowControlGeneratorToken`] that decides, once the packet's fate
//! is known, whether the signal has to be queued again.

pub mod stream_id;
pub mod frame;
pub mod wire;
pub mod flow_state;
pub mod flow_mgr;
pub mod connection;
pub mod laws;

pub use crate::connection::Connection;
pub use crate::frame::AppError;
