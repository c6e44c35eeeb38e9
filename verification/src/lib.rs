//! Authorization for a self-hosted Lore server.
pub mod auth;
pub mod clock;
pub mod encoding;
pub mod json;
pub mod table;
pub mod text;
pub mod web;
