//! Tests of capture event extraction, command mapping, and the
//! interrupt-step orchestration.

use ir_nec::command_map::map_command;
use ir_nec::ir_capture::{IrCapture, IrCaptureEvent, LevelState};
use ir_nec::orchestrator::{Orchestrator, LINE_END};

#[test]
fn get_event_requires_a_capture_flag() {
    let idle = IrCapture { captured1: false, captured2: false, time1: 7, time2: 9 };
    assert!(idle.get_event().is_none());
}

#[test]
fn get_event_passes_times_and_polarity() {
    let falling = IrCapture { captured1: true, captured2: false, time1: 100, time2: 9100 };
    let ev = falling.get_event().unwrap();
    assert_eq!(ev.time1, 100);
    assert_eq!(ev.time2, 9100);
    assert_eq!(ev.level, LevelState::Falling);

    let rising = IrCapture { captured1: false, captured2: true, time1: 5, time2: 6 };
    assert_eq!(rising.get_event().unwrap().level, LevelState::Rising);

    let both = IrCapture { captured1: true, captured2: true, time1: 1, time2: 2 };
    assert_eq!(both.get_event().unwrap().level, LevelState::Falling);
}

/// The remote's key table, written out independently of the library.
const KEY_TABLE: [(u8, u8); 21] = [
    (0xA2, b'p'),
    (0x62, b'c'),
    (0xE2, b'n'),
    (0x22, b'<'),
    (0x02, b'>'),
    (0xC2, b'#'),
    (0xE0, b'-'),
    (0xA8, b'+'),
    (0x90, b'='),
    (0x68, b'0'),
    (0x98, b'h'),
    (0xB0, b't'),
    (0x30, b'1'),
    (0x18, b'2'),
    (0x7A, b'3'),
    (0x10, b'4'),
    (0x38, b'5'),
    (0x5A, b'6'),
    (0x42, b'7'),
    (0x4A, b'8'),
    (0x52, b'9'),
];

#[test]
fn command_mapping_known_keys() {
    for (command, byte) in KEY_TABLE {
        assert_eq!(map_command(command), byte);
        // Stateless: a second call gives the same byte.
        assert_eq!(map_command(command), byte);
    }
}

#[test]
fn command_mapping_is_total_with_fallback() {
    for c in 0u8..=255 {
        match KEY_TABLE.iter().find(|&&(command, _)| command == c) {
            Some(&(_, byte)) => assert_eq!(map_command(c), byte),
            None => assert_eq!(map_command(c), b'x'),
        }
    }
}

/// Events whose timestamp pairs, on the 16-bit ring counter, are the given
/// widths apart, starting near the top of the counter so the stream
/// crosses a wraparound.
fn events_for_widths(widths: &[u32]) -> Vec<IrCaptureEvent> {
    let mut t: u32 = 65000;
    let mut events = Vec::new();
    let mut falling = true;
    for &w in widths {
        let t2 = (t + w) % 65536;
        events.push(IrCaptureEvent {
            level: if falling { LevelState::Falling } else { LevelState::Rising },
            time1: t,
            time2: t2,
        });
        t = t2;
        falling = !falling;
    }
    events
}

fn frame_widths(word: u32) -> Vec<u32> {
    let mut widths: Vec<u32> = vec![9000, 4500];
    for i in (0..32).rev() {
        widths.push(575);
        if (word >> i) & 1 == 1 {
            widths.push(1690);
        } else {
            widths.push(565);
        }
    }
    widths
}

#[test]
fn step_without_event_does_nothing() {
    let mut o = Orchestrator::new();
    let out = o.step(None);
    assert!(out.indicator.is_none());
    assert!(out.transport.is_empty());
    assert!(!o.indicator());
}

#[test]
fn end_to_end_scenario_emits_one_line() {
    // Address 0x00, command 0xA2, with correct complements.
    let word = (0x00u32 << 24) | (0xFFu32 << 16) | (0xA2u32 << 8) | 0x5Du32;
    let events = events_for_widths(&frame_widths(word));
    let mut o = Orchestrator::new();
    let mut heartbeat = false;
    let last = events.len() - 1;
    for (i, &ev) in events.iter().enumerate() {
        let out = o.step(Some(ev));
        if i < last {
            // No output line before the final bit cell; the indicator
            // toggles as a heartbeat.
            assert!(out.transport.is_empty());
            heartbeat = !heartbeat;
            assert_eq!(out.indicator, Some(heartbeat));
            assert_eq!(o.indicator(), heartbeat);
        } else {
            assert_eq!(out.transport, vec![0x70, LINE_END]); // "p\n"
            assert_eq!(out.indicator, Some(false));
            assert!(!o.indicator());
        }
    }
}

#[test]
fn noise_suppresses_output() {
    let mut o = Orchestrator::new();
    // A lone out-of-window pulse: decoder stays idle, no output, the
    // indicator is driven to idle.
    let out = o.step(Some(IrCaptureEvent {
        level: LevelState::Falling,
        time1: 0,
        time2: 30000,
    }));
    assert!(out.transport.is_empty());
    assert_eq!(out.indicator, Some(false));

    // A corrupted frame: complete but implausible, still no output.
    let word = (0x00u32 << 24) | (0xFFu32 << 16) | (0xA2u32 << 8) | 0x5Cu32;
    let events = events_for_widths(&frame_widths(word));
    let mut bytes_written = 0;
    for &ev in events.iter() {
        bytes_written += o.step(Some(ev)).transport.len();
    }
    assert_eq!(bytes_written, 0);
    assert!(!o.indicator());
}
