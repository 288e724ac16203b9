//! Core of a live bingo-game backend: a registry of concurrently running
//! games, each game owning a fixed item pool, per-player boards and a
//! broadcast bus of server events, plus the per-connection session state
//! machine (liveness heartbeat and event forwarder) that drives a websocket
//! connection. HTTP, database and identity-provider glue live outside this
//! library and only hand plain values in and out.

pub mod auth;
pub mod cli;
pub mod create;
pub mod event;
pub mod event_listener;
pub mod game;
pub mod get;
pub mod heartbeat;
pub mod jwt;
pub mod manager;
pub mod metrics;
pub mod playerdata;
pub mod rate_limiter;
pub mod twitch;
pub mod utils;
pub mod websocket;
