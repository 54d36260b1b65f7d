//! Decoding, classification and rendering of cluster-lifecycle notifications
//! delivered through a pub/sub push subscription.

pub mod attributes;
pub mod handler;
pub mod message;
pub mod render;
pub mod slack;
pub mod text;
