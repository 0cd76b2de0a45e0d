//! Session-based authentication for a server-rendered web application:
//! opaque session keys, password hashing and checking, per-request identity
//! resolution and the session store contract it relies on.

pub mod session_key;
pub mod ctx;
pub mod password;
pub mod resolver;
pub mod session_store;
pub mod auth;
pub mod direction;
mod text;
pub mod configuration;
pub mod forms;
