//! Registry event subscription and global-object descriptors for a
//! session-bus-like media graph.
//!
//! The library keeps the typed object catalog, the permission bit-set, the
//! descriptor built for every "global added" notification, and the table of
//! registry subscriptions that decides which listener receives which event.
pub mod object_type;
pub mod permission;
pub mod global_object;
pub mod registry;
pub mod monitor;
