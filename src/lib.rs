//! Builds signed preconfirmation inclusion requests for the Bolt, Ethgas and
//! Luban relay protocols.
pub mod auth;
pub mod beacon;
pub mod bindings;
pub mod error;
pub mod protocols;
pub mod text;
