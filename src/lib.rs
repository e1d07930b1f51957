//! Webhook-triggered deployment dispatcher: the verified core.
//!
//! The library matches inbound push notifications to a routing table of
//! deployment actions, decides what each request leads to, and plans the
//! command that carries an action out. Transport, file access and process
//! spawning are left to the program that embeds it.
pub mod text;
pub mod error;
pub mod state;
pub mod matcher;
pub mod action;
pub mod table;
pub mod config;
pub mod reload;
pub mod dispatch;
pub mod executor;
pub mod auth;
pub mod echo;
