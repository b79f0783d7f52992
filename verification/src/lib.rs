//! Shared runtime core of a reverse-proxy process: a per-challenge-type
//! registry of captcha-evidence files with freshness tracking, a bounded
//! time-to-live cache of pre-authentication credentials with randomized
//! pop, round-robin client pools, and a write-once context cell that
//! aggregates the whole configuration.

pub mod challenge;
pub mod clients;
pub mod config;
pub mod context;
pub mod evidence;
pub mod preauth;

pub use challenge::ChallengeType;
pub use clients::ClientPool;
pub use config::CfTurnstile;
pub use config::ContextArgs;
pub use context::Context;
pub use context::ContextCell;
pub use evidence::Har;
pub use evidence::HarRegistry;
pub use evidence::init_har;
pub use preauth::PreauthCache;
pub use preauth::PreauthEntry;
