//! Core logic of a gateway between small networked devices and HTTP clients.
//!
//! Devices hold long-lived TCP connections to the gateway and talk to it in
//! lines of JSON. The gateway keeps a registry of the devices it has seen and
//! of those that are reachable now, forwards their events into a shared event
//! stream, and carries requests from HTTP clients to a device and the device's
//! reply back. The TCP side and the HTTP side share nothing but a key-value
//! store.
//!
//! This library holds the decisions and none of the input and output. Every
//! operation that talks to the store, to a socket or to a clock is written as a
//! function from what was seen to what to do next; the caller does it and comes
//! back with the result. What the operations achieve together is stated and
//! proved against a model of the store.
//!
//! - [`json_wrapper`]: what kind of message a line is, and which device it
//!   names.
//! - [`polling`]: a coarser reading of the same lines.
//! - [`redis_wrapper`]: the commands for the store, its answers, the keys, and
//!   the text of a timestamp.
//! - [`store`]: the model of the store and of the registry kept in it.
//! - [`device`]: the record of one device, and a pool of devices in memory.
//! - [`map2redis`]: activation and deactivation of a device in the store, and
//!   its two mailboxes.
//! - [`connection`]: the session of one connection, from handshake to close.
//! - [`query_redis`]: the counts, and the round trip of a request.
//! - [`http_service`]: the responses of the HTTP endpoints, and the push.
//! - [`mq`]: a message queue on a list of the store.
//! - [`config`]: the configuration and its defaults.

pub mod config;
pub mod connection;
pub mod device;
pub mod http_service;
pub mod json_wrapper;
pub mod map2redis;
pub mod mq;
pub mod polling;
pub mod query_redis;
pub mod redis_wrapper;
pub mod store;
