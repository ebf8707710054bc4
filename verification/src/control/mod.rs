pub mod messages;
pub mod http;
pub mod pacing;
