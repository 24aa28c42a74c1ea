//! Host-side controller logic for dumping a game cartridge's ROM over a
//! serial link.
//!
//! The crate holds the protocol and session core: the command frame
//! encoder, the handshake scan, the cartridge-header checksum gate, and
//! the bank-by-bank dump engine, modelled as a state machine that a thin
//! I/O shell drives. All I/O (serial port, output file, board reset)
//! lives outside this crate; the library exchanges plain values with it.

pub mod device;
pub mod errors;
pub mod handshake;
pub mod header;
pub mod protocol;
pub mod session;
