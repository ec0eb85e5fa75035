//! Laws of frame assembly and validation.
//!
//! These proofs tie the state machine's single-step behaviour to whole
//! transmissions: a leader pair followed by 32 well-timed bit cells
//! assembles exactly the transmitted word, reports progress until the last
//! cell, and then validates by the inverse-byte checksum alone.

use vstd::prelude::*;

use crate::ir_dec_nec::{
    spec_checksum_ok, spec_feed, spec_frame_address, spec_frame_command, spec_initial,
    spec_shift_in, spec_take_result, IrCode, IrDecodeError, IrDecoderNec, IrNecState, LONG_MAX,
    LONG_MIN, SHORT_MAX, SHORT_MIN, START1_MAX, START1_MIN, START2_MAX, START2_MIN,
};

verus! {

/// The decoder after feeding a whole sequence of pulse widths, first pulse
/// first.
pub open spec fn spec_feed_seq(d: IrDecoderNec, pulses: Seq<u32>) -> IrDecoderNec
    decreases pulses.len(),
{
    if pulses.len() == 0 {
        d
    } else {
        spec_feed_seq(spec_feed(d, pulses[0]), pulses.drop_first())
    }
}

/// The frame accumulator after shifting in a whole sequence of bits, first
/// bit first.
pub open spec fn spec_shift_seq(command: u32, bits: Seq<bool>) -> u32
    decreases bits.len(),
{
    if bits.len() == 0 {
        command
    } else {
        spec_shift_seq(
            spec_shift_in(
                command,
                if bits[0] {
                    1
                } else {
                    0
                },
            ),
            bits.drop_first(),
        )
    }
}

/// The 32-bit word that a bit sequence assembles into an empty accumulator:
/// the first bit ends up in the most significant position once 32 bits have
/// been shifted in.
pub open spec fn spec_bits_value(bits: Seq<bool>) -> u32 {
    spec_shift_seq(0, bits)
}

/// A mark within the leader mark window.
pub open spec fn is_leader_mark(pulse: u32) -> bool {
    START1_MIN <= pulse <= START1_MAX
}

/// A space within the leader space window.
pub open spec fn is_leader_space(pulse: u32) -> bool {
    START2_MIN <= pulse <= START2_MAX
}

/// One bit cell: a bit mark followed by a short space for a zero bit or a
/// long space for a one bit.
pub open spec fn is_bit_cell(mark: u32, space: u32, bit: bool) -> bool {
    &&& SHORT_MIN <= mark <= SHORT_MAX
    &&& if bit {
        LONG_MIN <= space <= LONG_MAX
    } else {
        SHORT_MIN <= space <= SHORT_MAX
    }
}

/// A pulse sequence that carries the given bits as consecutive bit cells,
/// two pulses per bit.
pub open spec fn encodes_cells(pulses: Seq<u32>, bits: Seq<bool>) -> bool {
    &&& pulses.len() == 2 * bits.len()
    &&& forall|i: int|
        0 <= i < bits.len() ==> is_bit_cell(pulses[2 * i], pulses[2 * i + 1], #[trigger] bits[i])
}

/// The bits of a 32-bit word as a transmission would carry them: most
/// significant bit first.
pub open spec fn spec_word_bits(word: u32) -> Seq<bool> {
    Seq::new(32, |i: int| (word >> ((31 - i) as u32)) & 1 == 1)
}

/// The NEC redundancy layout as a 32-bit word: address, inverted address,
/// command, inverted command, from the most significant byte down.
pub open spec fn spec_encode_frame(address: u8, command: u8) -> u32 {
    ((address as u32) << 24) | (((!address) as u32) << 16) | ((command as u32) << 8) | ((
    !command) as u32)
}

/// The result the decoder reports after feeding the leader pair and the
/// first `k` bit cells of a transmission.
pub open spec fn spec_progress_result(mark: u32, space: u32, pulses: Seq<u32>, k: int) -> Result<
    IrCode,
    IrDecodeError,
> {
    spec_take_result(spec_feed_seq(spec_initial(), (seq![mark, space] + pulses).take(2 + 2 * k)))
}

/// Feeding a concatenation feeds the pieces in order.
pub proof fn lemma_feed_seq_append(d: IrDecoderNec, a: Seq<u32>, b: Seq<u32>)
    ensures
        spec_feed_seq(d, a + b) == spec_feed_seq(spec_feed_seq(d, a), b),
    decreases a.len(),
{
    if a.len() == 0 {
        assert(a + b =~= b);
    } else {
        assert((a + b)[0] == a[0]);
        assert((a + b).drop_first() =~= a.drop_first() + b);
        lemma_feed_seq_append(spec_feed(d, a[0]), a.drop_first(), b);
    }
}

/// Feeding a two-pulse sequence is feeding the two pulses in order.
pub proof fn lemma_feed_two(d: IrDecoderNec, p1: u32, p2: u32)
    ensures
        spec_feed_seq(d, seq![p1, p2]) == spec_feed(spec_feed(d, p1), p2),
{
    let s = seq![p1, p2];
    assert(s.drop_first() =~= seq![p2]);
    assert(seq![p2].drop_first() =~= Seq::<u32>::empty());
    assert(spec_feed_seq(d, s) == spec_feed_seq(spec_feed(d, p1), seq![p2]));
    assert(seq![p2][0] == p2);
    assert(spec_feed_seq(spec_feed(d, p1), seq![p2]) == spec_feed_seq(
        spec_feed(spec_feed(d, p1), p2),
        Seq::<u32>::empty(),
    ));
    assert(spec_feed_seq(spec_feed(spec_feed(d, p1), p2), Seq::<u32>::empty()) == spec_feed(
        spec_feed(d, p1),
        p2,
    ));
}

/// Bit cells accumulate: from any phase that accepts a bit mark, feeding
/// well-timed cells shifts exactly the encoded bits into the frame, counts
/// them, and leaves the machine in the phase of the last bit.
pub proof fn lemma_feed_cells(d: IrDecoderNec, pulses: Seq<u32>, bits: Seq<bool>)
    requires
        encodes_cells(pulses, bits),
        d.state is Start2 || d.state is Data0 || d.state is Data1,
        d.bits + bits.len() <= 32,
    ensures
        spec_feed_seq(d, pulses).bits == d.bits + bits.len(),
        spec_feed_seq(d, pulses).command == spec_shift_seq(d.command, bits),
        bits.len() == 0 ==> spec_feed_seq(d, pulses) == d,
        bits.len() > 0 ==> spec_feed_seq(d, pulses).state == (if bits.last() {
            IrNecState::Data1
        } else {
            IrNecState::Data0
        }),
    decreases bits.len(),
{
    if bits.len() == 0 {
        assert(pulses.len() == 0);
    } else {
        assert(is_bit_cell(pulses[2 * 0int], pulses[2 * 0int + 1], bits[0]));
        let mark = pulses[0];
        let space = pulses[1];
        let d1 = spec_feed(d, mark);
        let d2 = spec_feed(d1, space);
        assert(d1.state is PulseData && d1.bits == d.bits && d1.command == d.command);
        assert(d2.bits == d.bits + 1);
        assert(d2.command == spec_shift_in(
            d.command,
            if bits[0] {
                1
            } else {
                0
            },
        ));
        assert(d2.state == (if bits[0] {
            IrNecState::Data1
        } else {
            IrNecState::Data0
        }));
        let rest_p = pulses.drop_first().drop_first();
        let rest_b = bits.drop_first();
        assert(encodes_cells(rest_p, rest_b)) by {
            assert(rest_p.len() == 2 * rest_b.len());
            assert forall|j: int| 0 <= j < rest_b.len() implies is_bit_cell(
                rest_p[2 * j],
                rest_p[2 * j + 1],
                #[trigger] rest_b[j],
            ) by {
                assert(rest_b[j] == bits[j + 1]);
                assert(rest_p[2 * j] == pulses[2 * (j + 1)]);
                assert(rest_p[2 * j + 1] == pulses[2 * (j + 1) + 1]);
                assert(is_bit_cell(pulses[2 * (j + 1)], pulses[2 * (j + 1) + 1], bits[j + 1]));
            }
        };
        lemma_feed_cells(d2, rest_p, rest_b);
        assert(spec_feed_seq(d, pulses) == spec_feed_seq(d1, pulses.drop_first()));
        assert(pulses.drop_first()[0] == pulses[1]);
        assert(spec_feed_seq(d1, pulses.drop_first()) == spec_feed_seq(d2, rest_p));
        assert(spec_shift_seq(d.command, bits) == spec_shift_seq(d2.command, rest_b));
        if rest_b.len() > 0 {
            assert(bits.last() == rest_b.last());
        }
    }
}

/// Frame assembly round trip: from an idle decoder, a leader mark, a leader
/// space and 32 well-timed bit cells assemble exactly the encoded word;
/// after the leader and after every cell but the last the decoder reports
/// `Pending`, and after the last cell it reports `Ok` or `Implausible`
/// exactly as the checksum of the assembled word holds or fails.
pub proof fn lemma_frame_assembly(mark: u32, space: u32, pulses: Seq<u32>, bits: Seq<bool>)
    requires
        is_leader_mark(mark),
        is_leader_space(space),
        encodes_cells(pulses, bits),
        bits.len() == 32,
    ensures
        ({
            let ready = spec_feed_seq(spec_initial(), seq![mark, space] + pulses);
            &&& ready.bits == 32
            &&& ready.command == spec_bits_value(bits)
            &&& spec_checksum_ok(spec_bits_value(bits)) ==> spec_take_result(ready)
                == Ok::<IrCode, IrDecodeError>(
                IrCode {
                    address: spec_frame_address(spec_bits_value(bits)),
                    command: spec_frame_command(spec_bits_value(bits)),
                },
            )
            &&& !spec_checksum_ok(spec_bits_value(bits)) ==> spec_take_result(ready)
                == Err::<IrCode, IrDecodeError>(IrDecodeError::Implausible)
        }),
        forall|k: int|
            0 <= k < 32 ==> #[trigger] spec_progress_result(mark, space, pulses, k)
                == Err::<IrCode, IrDecodeError>(IrDecodeError::Pending),
{
    let leader = seq![mark, space];
    lemma_feed_two(spec_initial(), mark, space);
    let d2 = spec_feed(spec_feed(spec_initial(), mark), space);
    assert(d2.state is Start2 && d2.bits == 0 && d2.command == 0);
    lemma_feed_seq_append(spec_initial(), leader, pulses);
    lemma_feed_cells(d2, pulses, bits);
    assert forall|k: int| 0 <= k < 32 implies #[trigger] spec_progress_result(mark, space, pulses, k)
        == Err::<IrCode, IrDecodeError>(IrDecodeError::Pending) by {
        let front_p = pulses.take(2 * k);
        let front_b = bits.take(k);
        assert((leader + pulses).take(2 + 2 * k) =~= leader + front_p);
        lemma_feed_seq_append(spec_initial(), leader, front_p);
        assert(encodes_cells(front_p, front_b)) by {
            assert(front_p.len() == 2 * front_b.len());
            assert forall|j: int| 0 <= j < front_b.len() implies is_bit_cell(
                front_p[2 * j],
                front_p[2 * j + 1],
                #[trigger] front_b[j],
            ) by {
                assert(front_b[j] == bits[j]);
                assert(front_p[2 * j] == pulses[2 * j]);
                assert(front_p[2 * j + 1] == pulses[2 * j + 1]);
                assert(is_bit_cell(pulses[2 * j], pulses[2 * j + 1], bits[j]));
            }
        };
        lemma_feed_cells(d2, front_p, front_b);
        let part = spec_feed_seq(d2, front_p);
        assert(part.bits == k && part.bits < 32);
        assert(!(part.state is Reset));
    };
}

/// Shifting a word's next bit into its already-consumed prefix extends the
/// prefix by one bit.
proof fn lemma_shift_step(word: u32, j: u32)
    requires
        j < 32,
    ensures
        spec_shift_in(word >> ((j + 1) as u32), (word >> j) & 1) == word >> j,
{
    assert(((word >> ((j + 1) as u32)) << 1) | ((word >> j) & 1) == word >> j) by (bit_vector)
        requires
            j < 32,
    ;
}

/// Consuming the rest of a word's bit sequence, the top bits already
/// shifted in, assembles the whole word.
proof fn lemma_word_bits_value_from(word: u32, k: int)
    requires
        0 <= k <= 32,
    ensures
        spec_shift_seq(word >> ((32 - k) as u32), spec_word_bits(word).skip(k)) == word,
    decreases 32 - k,
{
    if k == 32 {
        assert(spec_word_bits(word).skip(32) =~= Seq::<bool>::empty());
        assert(word >> 0u32 == word) by (bit_vector);
    } else {
        let s = spec_word_bits(word).skip(k);
        assert(s[0] == spec_word_bits(word)[k]);
        let j = (31 - k) as u32;
        lemma_shift_step(word, j);
        assert(((word >> j) & 1 == 1 ==> (word >> j) & 1 == 1u32) && ((word >> j) & 1 != 1
            ==> (word >> j) & 1 == 0u32)) by (bit_vector);
        lemma_word_bits_value_from(word, k + 1);
        assert(s.drop_first() =~= spec_word_bits(word).skip(k + 1));
        assert(spec_shift_seq(word >> ((32 - k) as u32), s) == spec_shift_seq(
            spec_shift_in(
                word >> ((32 - k) as u32),
                if s[0] {
                    1
                } else {
                    0
                },
            ),
            s.drop_first(),
        ));
    }
}

/// A word's most-significant-first bit sequence assembles back to exactly
/// that word.
pub proof fn lemma_word_bits_value(word: u32)
    ensures
        spec_bits_value(spec_word_bits(word)) == word,
{
    lemma_word_bits_value_from(word, 0);
    assert(word >> 32u32 == 0u32) by (bit_vector);
    assert(spec_word_bits(word).skip(0) =~= spec_word_bits(word));
}

/// Transmission of a whole word: a leader pair and 32 bit cells that carry
/// the word's bits decode to the word's address and command when its
/// checksum holds, and are rejected as implausible when it does not.
pub proof fn lemma_transmit_word(mark: u32, space: u32, pulses: Seq<u32>, word: u32)
    requires
        is_leader_mark(mark),
        is_leader_space(space),
        encodes_cells(pulses, spec_word_bits(word)),
    ensures
        spec_take_result(spec_feed_seq(spec_initial(), seq![mark, space] + pulses))
            == (if spec_checksum_ok(word) {
            Ok::<IrCode, IrDecodeError>(
                IrCode {
                    address: spec_frame_address(word),
                    command: spec_frame_command(word),
                },
            )
        } else {
            Err::<IrCode, IrDecodeError>(IrDecodeError::Implausible)
        }),
{
    lemma_frame_assembly(mark, space, pulses, spec_word_bits(word));
    lemma_word_bits_value(word);
}

/// Checksum validity: the frame that carries an address and a command with
/// their bitwise complements passes validation and yields back exactly
/// that address and command.
pub proof fn lemma_checksum_valid(address: u8, command: u8)
    ensures
        spec_checksum_ok(spec_encode_frame(address, command)),
        spec_frame_address(spec_encode_frame(address, command)) == address,
        spec_frame_command(spec_encode_frame(address, command)) == command,
{
    assert(spec_checksum_ok(spec_encode_frame(address, command)) && spec_frame_address(
        spec_encode_frame(address, command),
    ) == address && spec_frame_command(spec_encode_frame(address, command)) == command)
        by (bit_vector);
}

/// Flipping any single bit of either complement byte breaks validation:
/// the frame is rejected as implausible.
pub proof fn lemma_complement_flip_implausible(address: u8, command: u8, i: u32)
    requires
        i < 8 || (16 <= i && i < 24),
    ensures
        !spec_checksum_ok(spec_encode_frame(address, command) ^ (1u32 << i)),
{
    assert(!spec_checksum_ok(spec_encode_frame(address, command) ^ (1u32 << i))) by (bit_vector)
        requires
            i < 8 || (16 <= i && i < 24),
    ;
}

/// End-to-end decode law: a leader pair followed by 32 well-timed bit cells
/// that encode an address and a command with correct complements decodes to
/// exactly that address and command.
pub proof fn lemma_encode_decode(
    mark: u32,
    space: u32,
    pulses: Seq<u32>,
    bits: Seq<bool>,
    address: u8,
    command: u8,
)
    requires
        is_leader_mark(mark),
        is_leader_space(space),
        encodes_cells(pulses, bits),
        bits.len() == 32,
        spec_bits_value(bits) == spec_encode_frame(address, command),
    ensures
        spec_take_result(spec_feed_seq(spec_initial(), seq![mark, space] + pulses))
            == Ok::<IrCode, IrDecodeError>(IrCode { address, command }),
{
    lemma_frame_assembly(mark, space, pulses, bits);
    lemma_checksum_valid(address, command);
}

} // verus!
