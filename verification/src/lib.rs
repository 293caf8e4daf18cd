//! Protocol transport layer for a family of USB peripherals that speak a
//! proprietary vendor report protocol over the HID feature-report channel.
//!
//! The crate is organised bottom-up:
//! - [`report`] defines the fixed-layout binary command/response structure,
//!   its serializer/deserializer and the XOR integrity checksum, together
//!   with the pure command constructors;
//! - [`parse`] parses a textual `r,g,b` color triple;
//! - [`transport`] performs one reliable request/response exchange over an
//!   abstract device handle, with bounded retries and timing delays;
//! - [`devices`] builds the typed, capability-based device families on top
//!   of the transport, and the static registry seam that maps a physical
//!   device identity to a constructing factory.

pub mod devices;
pub mod errors;
pub mod parse;
pub mod report;
pub mod transport;
