//! The ways in which the bridge gives up.
use vstd::prelude::*;

verus! {

/// Why the bridge stops.
#[derive(Debug, Clone, Copy, PartialEq, Eq, Structural)]
pub enum Failure {
    /// The password or the station is missing from the command line.
    MissingArgument,
    /// The port given on the command line is not a number from 0 to 65535.
    BadPort,
    /// No USB serial port is attached.
    NoScanner,
    /// Bytes read from the service or from the scanner are not UTF-8 text.
    InvalidText,
}

} // verus!
