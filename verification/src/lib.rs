//! Decision logic of a small streaming companion API: chat-command counters,
//! canned chat sentences, Steam play-time and YouTube lookups.

pub mod cache;
pub mod command;
pub mod counter;
pub mod reply;
pub mod sentence;
pub mod state;
pub mod steam;
pub mod win;
pub mod youtube;
pub mod text;
