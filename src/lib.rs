//! Control-plane client core for the unified identity and device-trust domain:
//! command routing with authentication, Kerberos command rendering, response
//! rendering, identity assembly and configuration resolution.

pub mod text;
pub mod kerberos;
pub mod error;
pub mod request;
pub mod auth;
pub mod command;
pub mod render;
pub mod identity;
pub mod config;
