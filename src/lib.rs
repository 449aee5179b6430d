//! Typed streams over a duplex byte connection.
//!
//! The library holds the logic: size limits, the codec boundary, the
//! incremental decoder behind an inbound stream, the outbound stream's send
//! rules and the accept loop's decisions. Sockets, threads and channels are
//! driven by the application around it.
pub mod limit;
pub mod codec;
pub mod inbound;
pub mod outbound;
pub mod acceptor;

pub use limit::SizeLimit;
pub use codec::{DecodeError, EncodeError};
pub use inbound::{InboundDecoder, ReadStep};
pub use outbound::{send_all_step, Outbound, SendAllStep, SendError};
pub use acceptor::{AcceptAction, AcceptLoop, AcceptOutcome};
