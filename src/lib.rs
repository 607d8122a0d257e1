//! Core of a small daemon that drives a three-joint arm: the wire format of its
//! requests and responses, and the decisions of its per-connection loop.
pub mod codec;
pub mod protocol;
