//! Authentication core of the tsukimi command-line tool: the device and
//! authorization-code login flows, the session they produce and the form in
//! which that session is kept in the credential store.

pub mod api_service;
pub mod auth_code;
pub mod codec;
pub mod commands;
pub mod config;
pub mod credentials;
pub mod device_flow;
pub mod error;
pub mod exchange;
pub mod json;
pub mod login;
pub mod models;
pub mod plugin;
pub mod profile;
pub mod session;
pub mod text;
pub mod version;
