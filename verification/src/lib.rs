//! Verified core of the Minnty sound server: the UDP wire protocol, the
//! client registry and listener decisions, stream/monitor state machines,
//! media-control decisions and locale selection.

pub mod buf;
pub mod codec;
pub mod control;
pub mod monitor;
pub mod server_state;
pub mod transport;
pub mod text;
pub mod testing;
pub mod media_control;
pub mod i18n;
pub mod encode;
pub mod launcher;
pub mod audio;
pub mod discovery;
