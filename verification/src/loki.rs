//! The log-push sink and its client.

pub mod client;
pub mod proto;
pub mod push;

pub use client::DefaultClient;
pub use proto::{EntryAdapter, PushRequest, StreamAdapter, Timestamp};
pub use push::{Labels, Push};
