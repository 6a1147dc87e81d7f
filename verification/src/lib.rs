//! A minimal name-registration service: signed update messages and the
//! in-memory registry that accepts them.

pub mod client;
pub mod codec;
pub mod message;
pub mod registry;
pub mod service;
