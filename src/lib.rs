//! Client side of a line-delimited JSON protocol spoken with a long-lived
//! editing backend: message framing, classification of incoming lines,
//! correlation of requests with their responses, and the command catalog.

pub mod json;
pub mod text;
pub mod codec;
pub mod bridge;
pub mod commands;
pub mod render;
