//! Signs the Mullvad exit nodes of a tailnet under Tailscale's node locking: the
//! lock status model, the selection of the nodes to sign, and the signing run as a
//! state machine whose outside work (running `tailscale`) the caller performs.

pub mod error;
pub mod lock;
pub mod workflow;

pub use error::{check_exit, Error, InvocationError};
pub use lock::{LockStatus, Peer, TrustedKey};
pub use workflow::{Action, Phase, Workflow};
