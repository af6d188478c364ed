//! The bit stream of a symbol: a byte segment, its terminator and the
//! padding, cut into data codewords.

use vstd::prelude::*;
use crate::tables::{
    data_codeword_count, data_codewords, is_version, capacity_of, length_field_bits,
    length_field_width, EccLevel,
};

verus! {

/// The mode indicator of a byte segment, written in four bits.
pub const BYTE_MODE: u8 = 4;

/// The `width` lowest bits of `value`, the most significant first.
pub open spec fn bits_of(value: nat, width: nat) -> Seq<bool>
    decreases width,
{
    if width == 0 {
        Seq::empty()
    } else {
        bits_of(value / 2, (width - 1) as nat).push(value % 2 == 1)
    }
}

/// The bits of the bytes of `bytes` in their order, eight for each byte, the
/// most significant first.
pub open spec fn bits_of_bytes(bytes: Seq<u8>) -> Seq<bool>
    decreases bytes.len(),
{
    if bytes.len() == 0 {
        Seq::empty()
    } else {
        bits_of_bytes(bytes.drop_last()) + bits_of(bytes.last() as nat, 8)
    }
}

/// `count` bits that are all zero.
pub open spec fn zero_bits(count: int) -> Seq<bool> {
    Seq::new(count as nat, |i: int| false)
}

/// A byte segment: the mode indicator, the length of the payload in the
/// width that the version gives the length field, and the payload.
pub open spec fn segment_bits(payload: Seq<u8>, version: int) -> Seq<bool> {
    bits_of(BYTE_MODE as nat, 4) + bits_of(payload.len(), length_field_width(version) as nat)
        + bits_of_bytes(payload)
}

/// The length of the terminator after `used` bits where `room` bits are
/// there in all: four bits, or fewer where fewer are left.
pub open spec fn terminator_len(used: int, room: int) -> int {
    if room - used < 4 {
        room - used
    } else {
        4
    }
}

/// The number of bits from `used` up to the next byte boundary.
pub open spec fn padding_len(used: int) -> int {
    (8 - used % 8) % 8
}

/// The segment with its terminator, padded with zero bits to a byte boundary.
pub open spec fn message_bits(payload: Seq<u8>, version: int, level: EccLevel) -> Seq<bool> {
    let segment = segment_bits(payload, version);
    let room = 8 * data_codeword_count(version, level);
    let terminated = segment + zero_bits(terminator_len(segment.len() as int, room));
    terminated + zero_bits(padding_len(terminated.len() as int))
}

/// The worth of one bit at a place of the given weight.
pub open spec fn bit_value(bit: bool, weight: int) -> int {
    if bit {
        weight
    } else {
        0
    }
}

/// The byte that eight bits spell, the most significant first.
pub open spec fn byte_of(bits: Seq<bool>) -> int
    recommends
        bits.len() == 8,
{
    bit_value(bits[0], 128) + bit_value(bits[1], 64) + bit_value(bits[2], 32) + bit_value(
        bits[3],
        16,
    ) + bit_value(bits[4], 8) + bit_value(bits[5], 4) + bit_value(bits[6], 2) + bit_value(
        bits[7],
        1,
    )
}

/// The bytes that a run of bits spells, eight bits to a byte; bits beyond the
/// last whole byte are left out.
pub open spec fn bytes_of_bits(bits: Seq<bool>) -> Seq<u8> {
    Seq::new((bits.len() / 8) as nat, |i: int| byte_of(bits.subrange(8 * i, 8 * i + 8)) as u8)
}

/// The pad codeword at place `i` after the message: 0xEC and 0x11 in turn.
pub open spec fn pad_codeword(i: int) -> u8 {
    if i % 2 == 0 {
        0xEC
    } else {
        0x11
    }
}

/// The data codewords of a symbol: the message bits as bytes, then pad
/// codewords up to the number of data codewords of the version and level.
pub open spec fn data_codewords_of(payload: Seq<u8>, version: int, level: EccLevel) -> Seq<u8> {
    let message = bytes_of_bits(message_bits(payload, version, level));
    message + Seq::new(
        (data_codeword_count(version, level) - message.len()) as nat,
        |i: int| pad_codeword(i),
    )
}

/// `bits_of` yields as many bits as asked for.
pub proof fn lemma_bits_of_len(value: nat, width: nat)
    ensures
        bits_of(value, width).len() == width,
    decreases width,
{
    if width > 0 {
        lemma_bits_of_len(value / 2, (width - 1) as nat);
    }
}

/// `bits_of_bytes` yields eight bits for each byte.
pub proof fn lemma_bits_of_bytes_len(bytes: Seq<u8>)
    ensures
        bits_of_bytes(bytes).len() == 8 * bytes.len(),
    decreases bytes.len(),
{
    if bytes.len() > 0 {
        lemma_bits_of_bytes_len(bytes.drop_last());
        lemma_bits_of_len(bytes.last() as nat, 8);
    }
}

/// Appends the `width` lowest bits of `value`, the most significant first.
fn push_bits(bits: &mut Vec<bool>, value: usize, width: usize)
    ensures
        final(bits)@ == old(bits)@ + bits_of(value as nat, width as nat),
    decreases width,
{
    if width > 0 {
        push_bits(bits, value / 2, width - 1);
        bits.push(value % 2 == 1);
        assert(bits@ =~= old(bits)@ + bits_of(value as nat, width as nat));
    } else {
        assert(bits@ =~= old(bits)@ + bits_of(value as nat, width as nat));
    }
}

/// Appends `count` zero bits.
fn push_zero_bits(bits: &mut Vec<bool>, count: usize)
    ensures
        final(bits)@ == old(bits)@ + zero_bits(count as int),
{
    let mut pushed: usize = 0;
    while pushed < count
        invariant
            pushed <= count,
            bits@ == old(bits)@ + zero_bits(pushed as int),
        decreases count - pushed,
    {
        bits.push(false);
        pushed += 1;
        assert(bits@ =~= old(bits)@ + zero_bits(pushed as int));
    }
    assert(bits@ =~= old(bits)@ + zero_bits(count as int));
}

/// Reads the eight bits from `start` on as a byte.
fn read_byte(bits: &Vec<bool>, start: usize) -> (byte: u8)
    requires
        start + 8 <= bits.len(),
    ensures
        byte == byte_of(bits@.subrange(start as int, start + 8)),
{
    let mut byte: u8 = 0;
    if bits[start] {
        byte += 128;
    }
    if bits[start + 1] {
        byte += 64;
    }
    if bits[start + 2] {
        byte += 32;
    }
    if bits[start + 3] {
        byte += 16;
    }
    if bits[start + 4] {
        byte += 8;
    }
    if bits[start + 5] {
        byte += 4;
    }
    if bits[start + 6] {
        byte += 2;
    }
    if bits[start + 7] {
        byte += 1;
    }
    byte
}

/// Assembles the data codewords of a symbol that carries `payload` in one
/// byte segment.
pub fn assemble_data_codewords(payload: &[u8], version: u8, level: EccLevel) -> (codewords: Vec<u8>)
    requires
        is_version(version as int),
        payload.len() <= capacity_of(version as int, level),
    ensures
        codewords@ == data_codewords_of(payload@, version as int, level),
        codewords.len() == data_codeword_count(version as int, level),
{
    let total = data_codewords(version, level);
    let width = length_field_bits(version);
    let mut bits: Vec<bool> = Vec::new();
    push_bits(&mut bits, BYTE_MODE as usize, 4);
    push_bits(&mut bits, payload.len(), width);
    let ghost header = bits@;
    proof {
        lemma_bits_of_len(BYTE_MODE as nat, 4);
        lemma_bits_of_len(payload.len() as nat, width as nat);
        assert(header =~= bits_of(BYTE_MODE as nat, 4) + bits_of(
            payload@.len(),
            length_field_width(version as int) as nat,
        ));
        assert(payload@.take(0) =~= Seq::<u8>::empty());
    }
    let mut taken: usize = 0;
    while taken < payload.len()
        invariant
            taken <= payload.len(),
            bits@ == header + bits_of_bytes(payload@.take(taken as int)),
        decreases payload.len() - taken,
    {
        push_bits(&mut bits, payload[taken] as usize, 8);
        proof {
            let longer = payload@.take(taken + 1);
            assert(longer.drop_last() =~= payload@.take(taken as int));
            assert(longer.last() == payload@[taken as int]);
            assert(bits@ =~= header + bits_of_bytes(longer));
        }
        taken += 1;
    }
    proof {
        assert(payload@.take(taken as int) =~= payload@);
        lemma_bits_of_bytes_len(payload@);
        assert(bits@ =~= segment_bits(payload@, version as int));
    }
    let room = 8 * total;
    let terminator = if room - bits.len() < 4 {
        room - bits.len()
    } else {
        4
    };
    push_zero_bits(&mut bits, terminator);
    let padding = (8 - bits.len() % 8) % 8;
    push_zero_bits(&mut bits, padding);
    assert(bits@ == message_bits(payload@, version as int, level));
    let mut codewords: Vec<u8> = Vec::new();
    let whole = bits.len() / 8;
    let mut packed: usize = 0;
    while packed < whole
        invariant
            packed <= whole,
            whole == bits.len() / 8,
            codewords.len() == packed,
            forall|i: int|
                0 <= i < packed ==> codewords@[i] == byte_of(
                    bits@.subrange(8 * i, 8 * i + 8),
                ) as u8,
        decreases whole - packed,
    {
        let byte = read_byte(&bits, 8 * packed);
        codewords.push(byte);
        packed += 1;
    }
    let ghost message = codewords@;
    assert(message =~= bytes_of_bits(bits@));
    let mut padded: usize = 0;
    while codewords.len() < total
        invariant
            message.len() <= total,
            codewords.len() == message.len() + padded,
            codewords.len() <= total,
            codewords@ == message + Seq::new(padded as nat, |i: int| pad_codeword(i)),
        decreases total - codewords.len(),
    {
        if padded % 2 == 0 {
            codewords.push(0xEC);
        } else {
            codewords.push(0x11);
        }
        padded += 1;
        assert(codewords@ =~= message + Seq::new(padded as nat, |i: int| pad_codeword(i)));
    }
    codewords
}

} // verus!
