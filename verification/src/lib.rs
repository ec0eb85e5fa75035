//! Decoder for infrared remote-control signals in the NEC protocol.
//!
//! Raw edge timestamps from a free-running capture counter are turned into
//! wraparound-corrected pulse widths, classified against the NEC timing
//! windows by a small state machine that assembles a 32-bit frame, validated
//! against the protocol's inverse-byte checksum, and finally mapped to a
//! single output byte for a serial transport.
//!
//! Hardware access (timer registers, the serial port, the indicator pin)
//! stays outside this crate; it hands in plain values and takes plain values
//! back.

pub mod command_map;
pub mod frame_laws;
pub mod ir_capture;
pub mod ir_dec_nec;
pub mod orchestrator;
pub mod pulse;
