//! A compact, interactive chip that shows one piece of conversation context,
//! either already attached or suggested for attachment.
//!
//! The pill is a render-time value: it is built, laid out once into a plain
//! description of the visual tree, and then discarded. Click listeners are
//! carried as opaque handles chosen by the host.
pub mod context;
pub mod element;
pub mod laws;
pub mod layout;
pub mod pill;
