//! The decision taken on every read of the scanner: report the scan, wait
//! for the next read, or stop.
use vstd::prelude::*;
use vstd::string::StringExecFns;
use vstd::utf8::{encode_utf8, valid_utf8};

use crate::http::{scan_request, scan_request_of};
use crate::response::is_text;

verus! {

/// The most bytes taken from the scanner in one read.
pub const READ_BUFFER_LEN: usize = 32;

/// What one read of the scanner gave.
#[derive(Debug)]
pub enum ReadEvent {
    /// The bytes read.
    Data(Vec<u8>),
    /// The read timed out; nothing was read.
    TimedOut,
    /// The read failed in any other way.
    Failed,
}

/// Why the relay stops.
#[derive(Debug, Clone, Copy, PartialEq, Eq, Structural)]
pub enum StopReason {
    /// The scanner could not be read.
    DeviceError,
    /// The scanner sent bytes that are not UTF-8 text.
    InvalidText,
}

/// What to do after a read.
#[derive(Debug)]
pub enum RelayAction {
    /// Write this request, read the answer to its end, then read again.
    Send(Vec<u8>),
    /// Read again.
    Wait,
    /// Give up.
    Stop(StopReason),
}

/// The session of an authenticated bridge: where to report, under which
/// token, and for which station.
#[derive(Debug)]
pub struct Relay {
    pub host: String,
    pub token: Vec<u8>,
    pub station: String,
}

/// The action that `event` calls for in `relay`: each chunk of text read is
/// reported as it stands in one request; a timeout is waited out; anything
/// else stops the relay.
pub open spec fn relay_step(relay: Relay, event: ReadEvent, action: RelayAction) -> bool {
    match event {
        ReadEvent::Data(b) => if valid_utf8(b@) {
            &&& action is Send
            &&& action->Send_0@ == scan_request_of(
                encode_utf8(relay.host@),
                relay.token@,
                b@,
                encode_utf8(relay.station@),
            )
        } else {
            action == RelayAction::Stop(StopReason::InvalidText)
        },
        ReadEvent::TimedOut => action == RelayAction::Wait,
        ReadEvent::Failed => action == RelayAction::Stop(StopReason::DeviceError),
    }
}

impl Relay {
    /// The session that reports to `host` under `token` for `station`.
    pub fn new(host: &str, token: Vec<u8>, station: &str) -> (r: Relay)
        ensures
            r.host@ == host@,
            r.token@ == token@,
            r.station@ == station@,
    {
        Relay { host: String::from_str(host), token, station: String::from_str(station) }
    }

    /// Decides what to do after a read (see `relay_step`).
    pub fn on_read(&self, event: &ReadEvent) -> (r: RelayAction)
        ensures
            relay_step(*self, *event, r),
    {
        match event {
            ReadEvent::Data(b) => {
                if !is_text(b.as_slice()) {
                    return RelayAction::Stop(StopReason::InvalidText);
                }
                RelayAction::Send(
                    scan_request(
                        self.host.as_str(),
                        self.token.as_slice(),
                        b.as_slice(),
                        self.station.as_str(),
                    ),
                )
            },
            ReadEvent::TimedOut => RelayAction::Wait,
            ReadEvent::Failed => RelayAction::Stop(StopReason::DeviceError),
        }
    }
}

} // verus!
