//! Command dispatch and minigame-state engine for a live-streaming chat bot.
//!
//! The bot receives webhook notifications for chat messages, authenticates
//! them with a keyed hash, parses a small command grammar and drives a single
//! minigame: generate a pseudo-random value near a target, track records per
//! epoch, and let moderators mute cheaters for a bounded time.
//!
//! Everything here is pure decision and computation logic with verified
//! contracts; the host (HTTP transport, key-value store, SQL store, the
//! platform API) supplies inputs and carries out the returned actions.

pub mod commands;
pub mod config;
pub mod event;
pub mod text;
pub mod twitch;
