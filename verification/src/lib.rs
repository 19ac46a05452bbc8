//! Session establishment and event fan-in for a chat client.
//!
//! The crate holds the decisions of the client: which request follows which
//! reply while a session is established, how synchronisation is brought up,
//! what a listener does with each item of its subscription, and what the
//! single consumer does with each event. The surrounding runtime performs
//! the requests (network, disk, tasks) and reports back.

pub mod auth;
pub mod bootstrap;
pub mod channel;
pub mod config;
pub mod controller;
pub mod delivery;
pub mod establish;
pub mod event;
pub mod failure;
pub mod fanin;
pub mod listener;
pub mod sequence;
pub mod session;
pub mod sync;
