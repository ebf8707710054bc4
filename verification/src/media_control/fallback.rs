//! Media control on platforms without a supported player interface: every
//! request is declined.

use vstd::prelude::*;
use crate::control::messages::{MediaCommand, NowPlayingMetadata};

verus! {

/// Transport commands are not supported here and are dropped.
pub fn handle(_command: MediaCommand, _argument: i64) {
}

/// Server volume changes are not supported here and are dropped.
pub fn adjust_volume(_command: MediaCommand, _sink: Option<&str>) {
}

/// No player can be asked, so nothing is playing.
pub fn now_playing() -> (r: Option<NowPlayingMetadata>)
    ensures
        r is None,
{
    None
}

} // verus!
