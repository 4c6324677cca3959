//! Verified core of a Lua module that drives vibrating devices through a
//! device server: timed vibration effects, the state of the vibration loop and
//! the decisions it takes each tick, the answers to server events and to
//! queueing requests, and the server address.
//!
//! Strengths are a type parameter throughout; the module instantiates them
//! with floating-point numbers and does the arithmetic on them itself.

pub mod compare;
pub mod effect;
pub mod controller;
pub mod events;
pub mod messaging;
pub mod address;
