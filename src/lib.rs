//! Server-side user-id / password authentication for a database engine's
//! security plugin interface.
//!
//! The library holds the plugin's logic over plain values: decoding of the
//! length-delimited text fields that the engine hands over, the credential
//! store, the validation state machine, the authorization-identity token and
//! its derivation, the existence check, the error-message handoff and the
//! initialization decisions. The raw-pointer boundary lives outside it.

#![allow(non_camel_case_types)]

pub mod codes;
pub mod flags;
pub mod laws;
pub mod message;
pub mod plugin;
pub mod session;
pub mod store;
pub mod text;
