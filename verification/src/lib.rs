//! Identity and session-lifecycle engine.
//!
//! The crate turns an email address into an authenticated, time-bounded
//! session and manages the three supported credential flows: password
//! login, one-time emailed passcode login, and emailed password-reset
//! tokens. State lives in an in-memory record store ([`store::Auth`]);
//! every operation on it is specified and verified. Password hashing,
//! salt and token generation, and identifier formatting are performed by
//! outside crates behind small trusted declarations.
//!
//! Callers that deliver mail or speak a wire protocol sit outside this
//! crate: intent-creation operations hand back everything such a caller
//! must send out-of-band, and take the current unix time as an explicit
//! argument so that expiry is a pure function of the store.

pub mod credential;
pub mod crypto;
pub mod errors;
pub mod ids;
pub mod intent;
pub mod laws;
pub mod limits;
pub mod models;
pub mod params;
pub mod registry;
pub mod session;
pub mod store;
pub mod sweep;

pub use errors::AuthError;
pub use store::Auth;
