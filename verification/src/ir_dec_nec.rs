//! NEC protocol decoder state machine.
//!
//! Successive pulse widths are classified against the protocol's timing
//! windows and drive a six-phase state machine that assembles a 32-bit
//! frame, most significant bit first. A completed frame is split into
//! address, inverted address, command and inverted command bytes and
//! validated against the protocol's inverse-byte checksum. Any pulse
//! outside every known window forces a clean reset, which is the
//! protocol's only recovery from noise or a truncated transmission.

use vstd::prelude::*;

verus! {

/// Leader mark window, in ticks (microseconds).
pub const START1_MIN: u32 = 7900;

/// Upper bound of the leader mark window.
pub const START1_MAX: u32 = 10100;

/// Leader space window, in ticks.
pub const START2_MIN: u32 = 3400;

/// Upper bound of the leader space window.
pub const START2_MAX: u32 = 5600;

/// Window shared by bit marks and short (zero-bit) spaces, in ticks.
pub const SHORT_MIN: u32 = 350;

/// Upper bound of the bit mark / short space window.
pub const SHORT_MAX: u32 = 750;

/// Long (one-bit) space window, in ticks.
pub const LONG_MIN: u32 = 1400;

/// Upper bound of the long space window.
pub const LONG_MAX: u32 = 1900;

/// The six phases of the NEC protocol state machine.
#[derive(Clone, Copy, Debug, PartialEq, Eq, Structural)]
pub enum IrNecState {
    /// Idle; waiting for a leader mark.
    Reset,
    /// Leader mark seen; waiting for the leader space.
    Start1,
    /// Leader space seen; waiting for the first bit mark.
    Start2,
    /// Bit mark seen; the following space decides the bit's value.
    PulseData,
    /// A zero bit was just shifted into the frame.
    Data0,
    /// A one bit was just shifted into the frame.
    Data1,
}

/// Decoder state: the current protocol phase, the count of data bits
/// accumulated so far, and the 32-bit frame under construction.
#[derive(Clone, Copy, Debug, PartialEq, Eq, Structural)]
pub struct IrDecoderNec {
    /// Current protocol phase.
    pub state: IrNecState,
    /// Number of data bits shifted into `command` so far.
    pub bits: u32,
    /// The frame under construction, first bit in the most significant
    /// position once all 32 bits have arrived.
    pub command: u32,
}

/// A validated frame: the device address and the key's command byte.
#[derive(Clone, Copy, Debug, PartialEq, Eq, Structural)]
pub struct IrCode {
    /// Device address byte.
    pub address: u8,
    /// Command byte identifying the key.
    pub command: u8,
}

/// Outcome of [`IrDecoderNec::try_get`] when no validated frame is
/// available.
#[derive(Clone, Copy, Debug, PartialEq, Eq, Structural)]
pub enum IrDecodeError {
    /// Idle: nothing in flight.
    NoData,
    /// A complete 32-bit frame failed its inverse-byte checksum.
    Implausible,
    /// A frame is still accumulating; a progress signal, not a failure.
    Pending,
}

/// The decoder's start state: idle with an empty frame.
pub open spec fn spec_initial() -> IrDecoderNec {
    IrDecoderNec { state: IrNecState::Reset, bits: 0, command: 0 }
}

/// The protocol's transition table: the next phase for a pulse of the given
/// width seen in the given phase. A pulse outside every window that the
/// current phase accepts yields `Reset`.
pub open spec fn spec_next_state(state: IrNecState, pulse: u32) -> IrNecState {
    match state {
        IrNecState::Reset => if START1_MIN <= pulse <= START1_MAX {
            IrNecState::Start1
        } else {
            IrNecState::Reset
        },
        IrNecState::Start1 => if START2_MIN <= pulse <= START2_MAX {
            IrNecState::Start2
        } else {
            IrNecState::Reset
        },
        IrNecState::Start2 | IrNecState::Data0 | IrNecState::Data1 => if SHORT_MIN <= pulse
            <= SHORT_MAX {
            IrNecState::PulseData
        } else {
            IrNecState::Reset
        },
        IrNecState::PulseData => if SHORT_MIN <= pulse <= SHORT_MAX {
            IrNecState::Data0
        } else if LONG_MIN <= pulse <= LONG_MAX {
            IrNecState::Data1
        } else {
            IrNecState::Reset
        },
    }
}

/// The frame accumulator after one more bit: shifted left and OR'd with the
/// new bit (0 or 1).
pub open spec fn spec_shift_in(command: u32, bit: u32) -> u32 {
    (command << 1) | bit
}

/// One decoder step: the phase advances per the transition table; entering
/// `Data0` or `Data1` shifts the new bit into the frame and counts it, and
/// entering `Reset` clears the bit count and the frame.
pub open spec fn spec_feed(d: IrDecoderNec, pulse: u32) -> IrDecoderNec {
    let next = spec_next_state(d.state, pulse);
    match next {
        IrNecState::Data0 => (IrDecoderNec {
            state: next,
            bits: ((d.bits + 1) as u32),
            command: spec_shift_in(d.command, 0),
        }),
        IrNecState::Data1 => (IrDecoderNec {
            state: next,
            bits: ((d.bits + 1) as u32),
            command: spec_shift_in(d.command, 1),
        }),
        IrNecState::Reset => spec_initial(),
        _ => (IrDecoderNec { state: next, bits: d.bits, command: d.command }),
    }
}

/// The address byte of a complete frame: bits 31..24.
pub open spec fn spec_frame_address(message: u32) -> u8 {
    (((message >> 24) & 0xFF) as u8)
}

/// The inverted address byte of a complete frame: bits 23..16.
pub open spec fn spec_frame_address_inv(message: u32) -> u8 {
    (((message >> 16) & 0xFF) as u8)
}

/// The command byte of a complete frame: bits 15..8.
pub open spec fn spec_frame_command(message: u32) -> u8 {
    (((message >> 8) & 0xFF) as u8)
}

/// The inverted command byte of a complete frame: bits 7..0.
pub open spec fn spec_frame_command_inv(message: u32) -> u8 {
    ((message & 0xFF) as u8)
}

/// The NEC redundancy convention: the address byte must be the bitwise
/// complement of the byte that follows it, and likewise the command byte.
pub open spec fn spec_checksum_ok(message: u32) -> bool {
    &&& spec_frame_address(message) == !spec_frame_address_inv(message)
    &&& spec_frame_command(message) == !spec_frame_command_inv(message)
}

/// What [`IrDecoderNec::try_get`] returns: with 32 bits accumulated, the
/// validated code or a checksum failure; otherwise `NoData` when idle and
/// `Pending` while a frame is in flight.
pub open spec fn spec_take_result(d: IrDecoderNec) -> Result<IrCode, IrDecodeError> {
    if d.bits == 32 {
        if spec_checksum_ok(d.command) {
            Ok(
                IrCode {
                    address: spec_frame_address(d.command),
                    command: spec_frame_command(d.command),
                },
            )
        } else {
            Err(IrDecodeError::Implausible)
        }
    } else if d.state is Reset {
        Err(IrDecodeError::NoData)
    } else {
        Err(IrDecodeError::Pending)
    }
}

/// The decoder after [`IrDecoderNec::try_get`]: a complete frame is
/// consumed whether or not it validated; otherwise nothing changes.
pub open spec fn spec_take_state(d: IrDecoderNec) -> IrDecoderNec {
    if d.bits == 32 {
        spec_initial()
    } else {
        d
    }
}

impl IrDecoderNec {
    /// A fresh decoder: idle with an empty frame.
    pub fn new() -> (d: Self)
        ensures
            d == spec_initial(),
    {
        IrDecoderNec { state: IrNecState::Reset, bits: 0, command: 0 }
    }

    /// Advances the protocol phase for one pulse width per the transition
    /// table, leaving the bit count and the frame untouched.
    pub fn next_state(&mut self, pulse: u32)
        ensures
            final(self).state == spec_next_state(old(self).state, pulse),
            final(self).bits == old(self).bits,
            final(self).command == old(self).command,
    {
        let new_state = match self.state {
            IrNecState::Reset => if pulse >= START1_MIN && pulse <= START1_MAX {
                IrNecState::Start1
            } else {
                IrNecState::Reset
            },
            IrNecState::Start1 => if pulse >= START2_MIN && pulse <= START2_MAX {
                IrNecState::Start2
            } else {
                IrNecState::Reset
            },
            IrNecState::Start2 | IrNecState::Data0 | IrNecState::Data1 => if pulse >= SHORT_MIN
                && pulse <= SHORT_MAX {
                IrNecState::PulseData
            } else {
                IrNecState::Reset
            },
            IrNecState::PulseData => if pulse >= SHORT_MIN && pulse <= SHORT_MAX {
                IrNecState::Data0
            } else if pulse >= LONG_MIN && pulse <= LONG_MAX {
                IrNecState::Data1
            } else {
                IrNecState::Reset
            },
        };
        self.state = new_state;
    }

    /// Clears the decoder back to its start state: the bit count and the
    /// frame are wiped together with the phase, never separately.
    pub fn reset(&mut self)
        ensures
            *final(self) == spec_initial(),
    {
        self.state = IrNecState::Reset;
        self.bits = 0;
        self.command = 0;
    }

    /// Feeds one pulse width into the state machine: the phase advances per
    /// the transition table; a newly decoded bit is shifted into the frame
    /// and counted; a protocol break clears everything.
    pub fn feed(&mut self, pulse: u32)
        requires
            old(self).bits < u32::MAX,
        ensures
            *final(self) == spec_feed(*old(self), pulse),
    {
        self.next_state(pulse);
        match self.state {
            IrNecState::Data0 => {
                self.command = (self.command << 1) | 0;
                self.bits = self.bits + 1;
            },
            IrNecState::Data1 => {
                self.command = (self.command << 1) | 1;
                self.bits = self.bits + 1;
            },
            IrNecState::Reset => {
                self.reset();
            },
            _ => {},
        }
    }

    /// Takes the decode outcome. With 32 bits accumulated the frame slot is
    /// consumed unconditionally and the frame is validated: the result is
    /// the `(address, command)` pair when both checksum pairs hold, and
    /// `Implausible` otherwise. With fewer bits the decoder is untouched
    /// and the result is `NoData` when idle, `Pending` while a frame is in
    /// flight.
    pub fn try_get(&mut self) -> (r: Result<IrCode, IrDecodeError>)
        ensures
            r == spec_take_result(*old(self)),
            *final(self) == spec_take_state(*old(self)),
            (r is Ok || (r matches Err(e) && e is Implausible)) ==> *final(self) == spec_initial(),
    {
        if self.bits == 32 {
            let message = self.command;
            self.reset();
            proof {
                assert((message >> 24) & 0xFF < 256 && (message >> 16) & 0xFF < 256 && (message
                    >> 8) & 0xFF < 256 && message & 0xFF < 256) by (bit_vector);
            }
            let address = ((message >> 24) & 0xFF) as u8;
            let address_inv = ((message >> 16) & 0xFF) as u8;
            if address == !address_inv {
                let command = ((message >> 8) & 0xFF) as u8;
                let command_inv = (message & 0xFF) as u8;
                if command == !command_inv {
                    return Ok(IrCode { address, command });
                }
            }
            return Err(IrDecodeError::Implausible);
        }
        match self.state {
            IrNecState::Reset => Err(IrDecodeError::NoData),
            _ => Err(IrDecodeError::Pending),
        }
    }
}

/// Every pulse width outside all four timing windows drives the machine to
/// `Reset` from every phase, clearing the bit count and the frame: the
/// state machine is total and self-healing against noise.
pub proof fn lemma_out_of_window_resets(d: IrDecoderNec, pulse: u32)
    requires
        !(START1_MIN <= pulse <= START1_MAX),
        !(START2_MIN <= pulse <= START2_MAX),
        !(SHORT_MIN <= pulse <= SHORT_MAX),
        !(LONG_MIN <= pulse <= LONG_MAX),
    ensures
        spec_next_state(d.state, pulse) == IrNecState::Reset,
        spec_feed(d, pulse) == spec_initial(),
{
}

} // verus!
