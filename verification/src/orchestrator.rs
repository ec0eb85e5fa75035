//! Interrupt-level orchestration of the decoder.
//!
//! One call of [`Orchestrator::step`] is one capture interrupt: it takes
//! the event the driver polled (if any), extracts the pulse width, feeds
//! the decoder, inspects the outcome and decides what the hardware should
//! do next — which level to drive the indicator to and which bytes to
//! write to the serial transport. Performing those actions (the register
//! writes, the busy-retry on a full transport) stays with the driver; the
//! decision is fully specified here.
//!
//! The orchestrator owns the decoder outright: decoder state is touched
//! from the capture interrupt path alone, so exclusive ownership by this
//! one struct is the whole concurrency story.

use vstd::prelude::*;

use crate::command_map::{map_command, spec_map_command};
use crate::ir_capture::IrCaptureEvent;
use crate::ir_dec_nec::{
    spec_feed, spec_take_result, spec_take_state, IrDecodeError, IrDecoderNec,
};
use crate::pulse::{pulse_width, spec_pulse_width, TICKS_MODULUS};

verus! {

/// The newline terminator that closes every output line.
pub const LINE_END: u8 = 0x0A;

/// What one interrupt's worth of work asks of the hardware: a level to
/// drive the indicator to, if it changes, and the bytes to write to the
/// serial transport, in order.
pub struct StepOutcome {
    /// `Some(level)` when the indicator must be driven to `level`.
    pub indicator: Option<bool>,
    /// Bytes to write to the transport: one mapped command byte and the
    /// line terminator after a validated frame, nothing otherwise.
    pub transport: Vec<u8>,
}

/// Owner of the decoder and of the indicator's current level.
pub struct Orchestrator {
    decoder: IrDecoderNec,
    indicator_on: bool,
}

impl Orchestrator {
    /// Between interrupts no completed frame lingers in the decoder: a
    /// full frame is consumed by the same step that completes it.
    #[verifier::type_invariant]
    spec fn inv(&self) -> bool {
        self.decoder.bits < 32
    }

    /// The decoder as this orchestrator holds it.
    pub closed spec fn spec_decoder(&self) -> IrDecoderNec {
        self.decoder
    }

    /// The indicator level as last driven.
    pub closed spec fn spec_indicator(&self) -> bool {
        self.indicator_on
    }

    /// A fresh orchestrator: an idle decoder and the indicator at its
    /// idle level.
    pub fn new() -> (o: Self)
        ensures
            o.spec_decoder() == crate::ir_dec_nec::spec_initial(),
            o.spec_indicator() == false,
    {
        Orchestrator { decoder: IrDecoderNec::new(), indicator_on: false }
    }

    /// The indicator level as last driven; the driver mirrors it to the
    /// pin.
    pub fn indicator(&self) -> (on: bool)
        ensures
            on == self.spec_indicator(),
    {
        self.indicator_on
    }

    /// Runs one capture interrupt. With no event, nothing happens. With an
    /// event, the wraparound-corrected pulse width is fed to the decoder
    /// and the outcome decides everything: a validated frame drives the
    /// indicator idle and emits the mapped byte and a line terminator; a
    /// frame in progress toggles the indicator as a heartbeat and emits
    /// nothing; an idle or implausible outcome drives the indicator idle
    /// and emits nothing.
    pub fn step(&mut self, event: Option<IrCaptureEvent>) -> (outcome: StepOutcome)
        requires
            event matches Some(e) ==> e.time1 < TICKS_MODULUS && e.time2 < TICKS_MODULUS,
        ensures
            event is None ==> {
                &&& final(self).spec_decoder() == old(self).spec_decoder()
                &&& final(self).spec_indicator() == old(self).spec_indicator()
                &&& outcome.indicator is None
                &&& outcome.transport@ =~= Seq::<u8>::empty()
            },
            event matches Some(e) ==> {
                let fed = spec_feed(
                    old(self).spec_decoder(),
                    spec_pulse_width(e.time1, e.time2),
                );
                &&& final(self).spec_decoder() == spec_take_state(fed)
                &&& match spec_take_result(fed) {
                    Ok(code) => {
                        &&& outcome.indicator == Some(false)
                        &&& final(self).spec_indicator() == false
                        &&& outcome.transport@ =~= seq![
                            spec_map_command(code.command),
                            LINE_END,
                        ]
                    },
                    Err(IrDecodeError::Pending) => {
                        &&& outcome.indicator == Some(!old(self).spec_indicator())
                        &&& final(self).spec_indicator() == !old(self).spec_indicator()
                        &&& outcome.transport@ =~= Seq::<u8>::empty()
                    },
                    Err(_) => {
                        &&& outcome.indicator == Some(false)
                        &&& final(self).spec_indicator() == false
                        &&& outcome.transport@ =~= Seq::<u8>::empty()
                    },
                }
            },
    {
        proof {
            use_type_invariant(&*self);
        }
        match event {
            None => StepOutcome { indicator: None, transport: Vec::new() },
            Some(e) => {
                let width = pulse_width(e.time1, e.time2);
                let mut dec = IrDecoderNec::new();
                std::mem::swap(&mut dec, &mut self.decoder);
                dec.feed(width);
                let taken = dec.try_get();
                self.decoder = dec;
                match taken {
                    Ok(code) => {
                        self.indicator_on = false;
                        let mut line: Vec<u8> = Vec::new();
                        line.push(map_command(code.command));
                        line.push(LINE_END);
                        StepOutcome { indicator: Some(false), transport: line }
                    },
                    Err(IrDecodeError::Pending) => {
                        self.indicator_on = !self.indicator_on;
                        StepOutcome {
                            indicator: Some(self.indicator_on),
                            transport: Vec::new(),
                        }
                    },
                    Err(_) => {
                        self.indicator_on = false;
                        StepOutcome { indicator: Some(false), transport: Vec::new() }
                    },
                }
            },
        }
    }
}

} // verus!
