//! Challenge-response proof of key ownership: single-use nonces, a replay
//! guard that consumes each nonce at most once, and a verification engine
//! that checks ES256-signed tokens against a submitted public key.

pub mod engine;
pub mod facade;
pub mod laws;
pub mod nonce;
pub mod outcome;
pub mod replay_guard;
pub mod token;

pub use engine::{conclude, settle, verify, TokenCheck};
pub use facade::Verifier;
pub use nonce::issue;
pub use outcome::VerificationOutcome;
pub use replay_guard::ReplayGuard;
pub use token::{authenticate, nonce_claim};
