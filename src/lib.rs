//! Composition and throttled delivery of chatbox text: source aggregation,
//! line wrapping, chat message arbitration and send gating.

pub mod text;
pub mod wrap;
pub mod tabs;
pub mod aggregate;
pub mod chat;
pub mod arbiter;
pub mod delivery;
pub mod osc;
pub mod status;
pub mod time;
pub mod network;
pub mod media;
pub mod activity;
pub mod components;
