//! The logic of a node-health sidecar: probing a compute-inventory backend, deriving
//! the node type, reporting health, and registering the node with a fleet registry.
//! Every network call is the caller's; the library says what to send and what an
//! answer means.

pub mod health;
pub mod identity;
pub mod inventory;
pub mod json;
pub mod pubkeys;
pub mod registration;
pub mod resolver;
pub mod text;
pub mod transport;
pub mod whitelist;

pub use health::{BackendInfo, DephyWorkerRespondedStatus};
pub use whitelist::{Whitelist, WhitelistQuery, WhitelistResponse};
