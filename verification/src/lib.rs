//! Verified core of a minimal user-space network tunnel.

pub mod device;
pub mod error;
pub mod tunnel;

pub use error::{ErrorKind, TunnelError, TunnelResult};
pub use tunnel::{Action, Event, PeerAddr, Stage, Tunnel, TunnelState, MTU};
