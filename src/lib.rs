//! Token lifecycle and session consistency for a credential and OAuth based
//! authentication service.
//!
//! - `codec`: minting and verifying signed claim sets (access and refresh kinds).
//! - `store`: the refresh-token table, keyed by the opaque token value.
//! - `users`: the principal directory and request validation.
//! - `session`: the signup, signin, refresh, signout and OAuth protocols.
//! - `laws`: properties that relate several protocol steps.
//! - `cookies`: the client-side credentials each protocol sets or clears.
//! - `config`, `text`: startup settings read from environment values.
//! - `errors`, `ids`: the error type, random identifiers and tokens.

pub mod codec;
pub mod config;
pub mod cookies;
pub mod errors;
pub mod ids;
pub mod laws;
pub mod session;
pub mod store;
pub mod text;
pub mod users;
