//! Authorization and rate-limit checks for command invocations in a multi-guild chat bot.

pub mod permissions;
pub mod resolver;
pub mod cooldown;
pub mod gate;
