//! An in-process message bus: topic-pattern subscriptions, ordered fan-out,
//! a request/reply overlay and the decisions of the actors that use it.
pub mod ids;
pub mod pattern;
pub mod message;
pub mod broker;
pub mod overlay;
pub mod laws;
pub mod actors;
pub mod persistence;
pub mod websocket;
pub mod auth;
