//! The auth service: who a caller is, and what they may reach.
pub mod acceptance;
pub mod access;
pub mod admin;
pub mod answers;
pub mod callers;
pub mod calls;
pub mod dexlogin;
pub mod journeys;
pub mod jwks;
pub mod jwt;
pub mod keys;
pub mod logins;
pub mod payload;
pub mod published;
pub mod service;
pub mod sessions;
pub mod store;
pub mod tokens;
pub mod verify;
