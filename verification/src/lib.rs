//! Client-side core for a chat platform's gateway and REST interface.
//!
//! The crate models the per-shard session state machine, the identify
//! pacing queue, the REST rate limiter, the gateway frame codec and the
//! event taxonomy, each with verified contracts.

pub mod cluster;
pub mod codec;
pub mod emitter;
pub mod event;
pub mod identify;
pub mod ids;
pub mod member_list;
pub mod processor;
pub mod queue;
pub mod ratelimit;
pub mod ready;
pub mod rest;
pub mod session;
