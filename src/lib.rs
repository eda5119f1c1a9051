//! Bridges a USB barcode scanner to a badge-tracking HTTP service: the
//! command line, the requests sent on the wire, the token taken from the
//! login answer, the choice of the serial device and the decision taken on
//! every read of the scanner.
pub mod args;
pub mod bytes;
pub mod device;
pub mod error;
pub mod http;
pub mod relay;
pub mod response;
