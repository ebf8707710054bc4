pub mod registry;
pub mod udp;
