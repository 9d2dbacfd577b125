//! The Home Assistant bridge: WebSocket message codecs, the authentication
//! state machine, and the two-way mapping between foreign entities and the
//! data plane.

pub mod entity;
pub mod messages;
pub mod session;
