//! Tests of the pulse-width extractor and the NEC decoder state machine.

use ir_nec::ir_dec_nec::{IrCode, IrDecodeError, IrDecoderNec, IrNecState};
use ir_nec::pulse::pulse_width;

/// A canonical pulse stream for one transmission of `word`: leader mark,
/// leader space, then 32 bit cells, most significant bit first.
fn frame_pulses(word: u32) -> Vec<u32> {
    let mut widths: Vec<u32> = vec![9000, 4500];
    for i in (0..32).rev() {
        widths.push(575);
        if (word >> i) & 1 == 1 {
            widths.push(1690);
        } else {
            widths.push(565);
        }
    }
    widths
}

/// The frame word carrying an address and a command with their NEC
/// complement bytes.
fn frame_word(address: u8, command: u8) -> u32 {
    ((address as u32) << 24) | (((!address) as u32) << 16) | ((command as u32) << 8)
        | ((!command) as u32)
}

fn decoder_in(state: IrNecState, bits: u32, command: u32) -> IrDecoderNec {
    IrDecoderNec { state, bits, command }
}

#[test]
fn pulse_width_examples() {
    assert_eq!(pulse_width(65500, 100), 136);
    assert_eq!(pulse_width(100, 65500), 136);
    assert_eq!(pulse_width(1000, 2000), 1000);
    assert_eq!(pulse_width(0, 0), 0);
    assert_eq!(pulse_width(0, 32768), 32768);
    assert_eq!(pulse_width(0, 32769), 32767);
    assert_eq!(pulse_width(65535, 0), 1);
}

#[test]
fn leader_mark_window() {
    for (pulse, expect) in [
        (7899u32, IrNecState::Reset),
        (7900, IrNecState::Start1),
        (9000, IrNecState::Start1),
        (10100, IrNecState::Start1),
        (10101, IrNecState::Reset),
    ] {
        let mut d = IrDecoderNec::new();
        d.next_state(pulse);
        assert_eq!(d.state, expect);
    }
}

#[test]
fn leader_space_window() {
    for (pulse, expect) in [
        (3399u32, IrNecState::Reset),
        (3400, IrNecState::Start2),
        (4500, IrNecState::Start2),
        (5600, IrNecState::Start2),
        (5601, IrNecState::Reset),
    ] {
        let mut d = decoder_in(IrNecState::Start1, 0, 0);
        d.next_state(pulse);
        assert_eq!(d.state, expect);
    }
}

#[test]
fn bit_mark_window() {
    for from in [IrNecState::Start2, IrNecState::Data0, IrNecState::Data1] {
        for (pulse, expect) in [
            (349u32, IrNecState::Reset),
            (350, IrNecState::PulseData),
            (575, IrNecState::PulseData),
            (750, IrNecState::PulseData),
            (751, IrNecState::Reset),
        ] {
            let mut d = decoder_in(from, 4, 9);
            d.next_state(pulse);
            assert_eq!(d.state, expect);
        }
    }
}

#[test]
fn space_windows_decide_bits() {
    for (pulse, expect) in [
        (349u32, IrNecState::Reset),
        (350, IrNecState::Data0),
        (750, IrNecState::Data0),
        (751, IrNecState::Reset),
        (1399, IrNecState::Reset),
        (1400, IrNecState::Data1),
        (1650, IrNecState::Data1),
        (1900, IrNecState::Data1),
        (1901, IrNecState::Reset),
    ] {
        let mut d = decoder_in(IrNecState::PulseData, 4, 9);
        d.next_state(pulse);
        assert_eq!(d.state, expect);
    }
}

#[test]
fn out_of_window_resets_every_state() {
    let all = [
        IrNecState::Reset,
        IrNecState::Start1,
        IrNecState::Start2,
        IrNecState::PulseData,
        IrNecState::Data0,
        IrNecState::Data1,
    ];
    for from in all {
        for pulse in [0u32, 349, 1000, 2000, 7000, 20000, 65535, u32::MAX] {
            let mut d = decoder_in(from, 7, 0xDEAD);
            d.feed(pulse);
            assert_eq!(d.state, IrNecState::Reset);
            assert_eq!(d.bits, 0);
            assert_eq!(d.command, 0);
        }
    }
}

#[test]
fn feed_accumulates_msb_first() {
    let mut d = IrDecoderNec::new();
    d.feed(9000);
    assert_eq!(d.state, IrNecState::Start1);
    assert_eq!(d.bits, 0);
    d.feed(4500);
    assert_eq!(d.state, IrNecState::Start2);
    // bits 1, 0, 1 arrive in order.
    for (space, expect_cmd, expect_bits) in [(1690u32, 1u32, 1u32), (565, 2, 2), (1690, 5, 3)] {
        d.feed(575);
        assert_eq!(d.state, IrNecState::PulseData);
        d.feed(space);
        assert_eq!(d.command, expect_cmd);
        assert_eq!(d.bits, expect_bits);
    }
}

#[test]
fn try_get_idle_reports_no_data() {
    let mut d = IrDecoderNec::new();
    assert!(matches!(d.try_get(), Err(IrDecodeError::NoData)));
    assert_eq!(d.state, IrNecState::Reset);
    assert_eq!(d.bits, 0);
}

#[test]
fn frame_round_trip_valid() {
    let word = frame_word(0x00, 0xA2);
    let pulses = frame_pulses(word);
    let mut d = IrDecoderNec::new();
    for (i, &p) in pulses.iter().enumerate() {
        d.feed(p);
        if i + 1 < pulses.len() {
            assert!(matches!(d.try_get(), Err(IrDecodeError::Pending)));
        }
    }
    assert_eq!(d.bits, 32);
    assert_eq!(d.command, word);
    let got = d.try_get();
    assert_eq!(got, Ok(IrCode { address: 0x00, command: 0xA2 }));
}

#[test]
fn frame_round_trip_bad_checksum() {
    // One flipped bit in the inverted command byte.
    let word = frame_word(0x00, 0xA2) ^ 1;
    let mut d = IrDecoderNec::new();
    for &p in frame_pulses(word).iter() {
        d.feed(p);
    }
    assert!(matches!(d.try_get(), Err(IrDecodeError::Implausible)));
}

#[test]
fn checksum_law_over_sample_frames() {
    for (address, command) in [(0u8, 0u8), (255, 255), (0x12, 0x34), (0x00, 0xA2), (0xF7, 0x08)] {
        let word = frame_word(address, command);
        let mut d = IrDecoderNec::new();
        for &p in frame_pulses(word).iter() {
            d.feed(p);
        }
        assert_eq!(d.try_get(), Ok(IrCode { address, command }));
        // Flipping any single bit of either complement byte must fail.
        for i in (0..8).chain(16..24) {
            let mut bad = IrDecoderNec::new();
            for &p in frame_pulses(word ^ (1 << i)).iter() {
                bad.feed(p);
            }
            assert!(matches!(bad.try_get(), Err(IrDecodeError::Implausible)));
        }
    }
}

#[test]
fn reset_after_terminal_is_idempotent() {
    for word in [frame_word(0x5A, 0x3C), frame_word(0x5A, 0x3C) ^ (1 << 20)] {
        let mut d = IrDecoderNec::new();
        for &p in frame_pulses(word).iter() {
            d.feed(p);
        }
        let outcome = d.try_get();
        assert!(matches!(outcome, Ok(_)) || matches!(outcome, Err(IrDecodeError::Implausible)));
        assert_eq!(d.state, IrNecState::Reset);
        assert_eq!(d.bits, 0);
        assert_eq!(d.command, 0);
        // The next feeds behave exactly like a fresh decoder's.
        let mut fresh = IrDecoderNec::new();
        for p in [9000u32, 4500, 575, 1690] {
            d.feed(p);
            fresh.feed(p);
            assert_eq!(d, fresh);
        }
    }
}
