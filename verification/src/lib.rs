//! Decisions behind signing in to Xbox Live: the proof key that tokens are
//! bound to, the parameters an authenticator is built from, and the order of
//! the calls that a session, an XSTS request and a SISU authorization make.

pub mod hex;
pub mod key;
pub mod params;
pub mod proof_key;
pub mod session;
pub mod sisu;
pub mod text;
