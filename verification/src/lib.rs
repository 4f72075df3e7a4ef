//! A NATS JetStream consumer whose decisions are verified: its settings, the
//! handler program it runs for each event, the reaction to every step of a
//! message's processing, its runtime statistics, and the events its producer
//! publishes.

pub mod text;
pub mod number;
pub mod clock;

pub mod config;
pub mod event;
pub mod handler;
pub mod nats;
pub mod processor;
pub mod producer;
pub mod stats;
