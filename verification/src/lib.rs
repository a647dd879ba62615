//! Verified core of a client for a serverless function platform: the
//! decisions that the client makes about configuration, credentials,
//! request metadata, payload formats, apps and the invocation protocol.

pub mod app;
pub mod client;
pub mod config;
pub mod error;
pub mod function;
pub mod invocation;
pub mod serialization;
pub mod text;

pub use app::App;
pub use client::Client;
pub use error::{Error, Result};
pub use function::Function;
