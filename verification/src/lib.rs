//! Bridge between a MAVLink flight controller and a ground station over a
//! Reticulum mesh network: the decisions, formats and bookkeeping of both ends.

pub mod checksum;
pub mod dashboard;
pub mod fc;
pub mod gc;
pub mod heartbeat;
pub mod link;
pub mod mavlog;
pub mod page;
pub mod parser;
pub mod radio;
pub mod sitl;
pub mod text;
pub mod throughput;

pub use fc::Fc;
pub use gc::Gc;
pub use mavlog::log_mavlink;
pub use parser::MavlinkParser;
