//! Retrieves a bounded number of not-yet-downloaded cover images for the
//! digital books of a named on-chain collection, resolving each asset to a
//! resolution-specific content identifier (CID) and deduplicating against
//! covers already present locally.

pub mod client;
pub mod cmd;
pub mod errors;
pub mod http;
pub mod resolver;
pub mod response_types;
pub mod select;
pub mod strings;

pub use cmd::Cmd;
pub use cmd::Resolution;
