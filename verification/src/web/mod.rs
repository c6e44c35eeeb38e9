//! The web frontend: a read-only backend for browsers.
//!
//! The browser talks only to this service. It logs the user in via Dex, exchanges
//! that identity for a Lore token, keeps it in a server-side session, and reads
//! repositories on the user's behalf.
pub mod authsvc;
pub mod journeys;
pub mod logins;
pub mod lore;
pub mod oidc;
pub mod pages;

pub mod sessions;
