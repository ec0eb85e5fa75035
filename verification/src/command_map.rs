//! Command-to-byte mapping.
//!
//! A validated frame's command byte is turned into a single output byte by
//! a fixed table, one row per key of the remote. Unknown commands all
//! resolve to a fixed fallback byte, so the mapping is total and the
//! decoder never has to care whether a key is known. Adapting the system
//! to a different remote means editing this table only.

use vstd::prelude::*;

verus! {

/// Output byte for every command the table does not know: the letter `x`.
pub const OUT_FALLBACK: u8 = 0x78;

/// The fixed key table: one row per key of the remote, from the play key
/// down to the digit row; every other command byte resolves to the
/// fallback.
pub open spec fn spec_map_command(command: u8) -> u8 {
    if command == 0xA2 {
        0x70  // 'p'
    } else if command == 0x62 {
        0x63  // 'c'
    } else if command == 0xE2 {
        0x6E  // 'n'
    } else if command == 0x22 {
        0x3C  // '<'
    } else if command == 0x02 {
        0x3E  // '>'
    } else if command == 0xC2 {
        0x23  // '#'
    } else if command == 0xE0 {
        0x2D  // '-'
    } else if command == 0xA8 {
        0x2B  // '+'
    } else if command == 0x90 {
        0x3D  // '='
    } else if command == 0x68 {
        0x30  // '0'
    } else if command == 0x98 {
        0x68  // 'h'
    } else if command == 0xB0 {
        0x74  // 't'
    } else if command == 0x30 {
        0x31  // '1'
    } else if command == 0x18 {
        0x32  // '2'
    } else if command == 0x7A {
        0x33  // '3'
    } else if command == 0x10 {
        0x34  // '4'
    } else if command == 0x38 {
        0x35  // '5'
    } else if command == 0x5A {
        0x36  // '6'
    } else if command == 0x42 {
        0x37  // '7'
    } else if command == 0x4A {
        0x38  // '8'
    } else if command == 0x52 {
        0x39  // '9'
    } else {
        OUT_FALLBACK
    }
}

/// Maps a decoded command byte to its output byte per the key table.
pub fn map_command(command: u8) -> (out: u8)
    ensures
        out == spec_map_command(command),
{
    if command == 0xA2 {
        0x70  // 'p'
    } else if command == 0x62 {
        0x63  // 'c'
    } else if command == 0xE2 {
        0x6E  // 'n'
    } else if command == 0x22 {
        0x3C  // '<'
    } else if command == 0x02 {
        0x3E  // '>'
    } else if command == 0xC2 {
        0x23  // '#'
    } else if command == 0xE0 {
        0x2D  // '-'
    } else if command == 0xA8 {
        0x2B  // '+'
    } else if command == 0x90 {
        0x3D  // '='
    } else if command == 0x68 {
        0x30  // '0'
    } else if command == 0x98 {
        0x68  // 'h'
    } else if command == 0xB0 {
        0x74  // 't'
    } else if command == 0x30 {
        0x31  // '1'
    } else if command == 0x18 {
        0x32  // '2'
    } else if command == 0x7A {
        0x33  // '3'
    } else if command == 0x10 {
        0x34  // '4'
    } else if command == 0x38 {
        0x35  // '5'
    } else if command == 0x5A {
        0x36  // '6'
    } else if command == 0x42 {
        0x37  // '7'
    } else if command == 0x4A {
        0x38  // '8'
    } else if command == 0x52 {
        0x39  // '9'
    } else {
        OUT_FALLBACK
    }
}

} // verus!
