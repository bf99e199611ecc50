//! Session-and-room core of a multi-room chat service: per-room membership,
//! bounded history and broadcast, a registry that routes operations to rooms,
//! and per-connection session decisions.

pub mod broadcast;
pub mod event;
pub mod registry;
pub mod room;
pub mod room_manager;
pub mod session;
pub mod laws;
