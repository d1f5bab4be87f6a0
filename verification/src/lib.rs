//! Coordination core of a source-level debug adapter for a lazily evaluated
//! expression language: lifecycle, framing, dispatch and pause decisions.

pub mod adapter;
pub mod backend;
pub mod capabilities;
pub mod client;
pub mod codec;
pub mod commands;
pub mod config;
pub mod decimal;
pub mod input;
pub mod lifecycle;
pub mod messages;
pub mod observer;
pub mod parse;
