//! Settings shared between the web UI, the stream manager and the UDP
//! listener.

use vstd::prelude::*;
use crate::control::messages::option_string_view;

verus! {

pub struct ServerState {
    change_server_volume_from_clients: bool,
    calibration_streaming: bool,
    current_sink: Option<String>,
}

impl ServerState {
    pub closed spec fn volume_from_clients(&self) -> bool {
        self.change_server_volume_from_clients
    }

    pub closed spec fn is_calibration_streaming(&self) -> bool {
        self.calibration_streaming
    }

    pub closed spec fn sink(&self) -> Option<Seq<char>> {
        option_string_view(self.current_sink)
    }

    /// Volume changes from clients off, no calibration stream, no sink.
    pub fn new() -> (s: Self)
        ensures
            !s.volume_from_clients(),
            !s.is_calibration_streaming(),
            s.sink() is None,
    {
        ServerState {
            change_server_volume_from_clients: false,
            calibration_streaming: false,
            current_sink: None,
        }
    }

    pub fn change_server_volume_from_clients(&self) -> (r: bool)
        ensures
            r == self.volume_from_clients(),
    {
        self.change_server_volume_from_clients
    }

    pub fn set_change_server_volume_from_clients(&mut self, enabled: bool)
        ensures
            final(self).volume_from_clients() == enabled,
            final(self).is_calibration_streaming() == old(self).is_calibration_streaming(),
            final(self).sink() == old(self).sink(),
    {
        self.change_server_volume_from_clients = enabled;
    }

    pub fn calibration_streaming(&self) -> (r: bool)
        ensures
            r == self.is_calibration_streaming(),
    {
        self.calibration_streaming
    }

    pub fn set_calibration_streaming(&mut self, enabled: bool)
        ensures
            final(self).is_calibration_streaming() == enabled,
            final(self).volume_from_clients() == old(self).volume_from_clients(),
            final(self).sink() == old(self).sink(),
    {
        self.calibration_streaming = enabled;
    }

    pub fn current_sink(&self) -> (r: Option<String>)
        ensures
            option_string_view(r) == self.sink(),
    {
        match &self.current_sink {
            Some(s) => Some(s.clone()),
            None => None,
        }
    }

    pub fn set_current_sink(&mut self, sink: Option<String>)
        ensures
            final(self).sink() == option_string_view(sink),
            final(self).volume_from_clients() == old(self).volume_from_clients(),
            final(self).is_calibration_streaming() == old(self).is_calibration_streaming(),
    {
        self.current_sink = sink;
    }
}

} // verus!
