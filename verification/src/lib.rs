//! Verified core of a websocket listener for Uniswap-style pool events.
//!
//! The library decides which logs are decoded and forwarded, which
//! addresses and topics a subscription asks for, and how a subscription
//! stream reacts to what its channel hands over. Connecting, subscribing
//! and ABI-decoding happen around it.
pub mod address_set;
pub mod block_sub_chunk;
pub mod bytes;
pub mod chain;
pub mod event_table;
pub mod pool_event;
pub mod seeker;
pub mod stream;
pub mod ws_sub_chunk;
pub mod ws_subscription;
