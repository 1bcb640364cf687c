//! The verified core of a small chat server: sessions, message routing and
//! the decisions that the network and database layers act on.
pub mod table;
pub mod messages;
pub mod delivery;
pub mod json;
pub mod feedback;
pub mod decimal;
pub mod session;
pub mod access;
pub mod laws;
