//! Decision logic of a Discord bot that announces Twitch streams.
//!
//! Guilds keep a list of streamers and a notification channel; a
//! background listener keeps one EventSub subscription per streamer and
//! forwards "stream online" events.  Everything that talks to Discord,
//! Twitch or the disk lives outside this crate; this crate holds the
//! state and decides what to do with each event.

pub mod action;
pub mod commands;
pub mod config;
pub mod laws;
pub mod listener;
pub mod names;
pub mod text;
pub mod websocket;
