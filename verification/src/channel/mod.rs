//! Channels: what they are made from, and the ones that every registry starts with.

pub mod builder;
pub mod builtin;
