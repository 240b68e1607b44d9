//! A small chat bot library: a lookup of named secrets through an injectable
//! value source, and the decision of which reply a message gets.
pub mod commands;
pub mod env;
pub mod secrets;

pub use commands::{reply_to, PING_COMMAND, PING_REPLY};
pub use env::{EnvironmentService, StandardEnvironmentService, TestEnvironmentService, TestVarError, VarError};
pub use secrets::{SecretManager, DISCORD_TOKEN_KEY};
