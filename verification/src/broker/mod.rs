//! The broker: device registry, pairing, and routing of input between
//! controller and target.

pub mod route_table;
pub mod session;
pub mod pairing;
pub mod router;
pub mod connection;
pub mod laws;
