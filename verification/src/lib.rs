//! Verified request logic for the `users` routes of a web service: the
//! profile of the signed-in user, with the credential blanked, and logout.
//!
//! Every function here works on plain values and is proved against the
//! contract written on it. Network, cookies on the wire and the session
//! store are the caller's business.

pub mod auth;
pub mod cache;
pub mod constants;
pub mod routes;
