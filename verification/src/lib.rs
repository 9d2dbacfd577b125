//! Tanuki: a typed client core for an MQTT-based home-automation data plane.
//!
//! Entities publish capability data under a uniform topic hierarchy; consumers
//! subscribe and dispatch inbound messages to typed handlers. This crate holds
//! the verified core: the topic schema, identifier allocation, the property
//! payload model and its JSON form, handler dispatch, and the bridge mapping
//! rules. Transport loops live with the callers.

pub mod bthome;
pub mod capabilities;
pub mod connection;
pub mod encode;
pub mod foreign;
pub mod handles;
pub mod hass;
pub mod ident;
pub mod ids;
pub mod json;
pub mod meta;
pub mod property;
pub mod registry;
pub mod rfc3339;
pub mod strutil;
pub mod timeline;
pub mod topic;
