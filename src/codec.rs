//! Bit-field layout of the 64-bit instruction word.
//!
//! Each field is read by rotating the word left by a fixed count and masking
//! the low bits of the result. The opcode is the top byte; the two operand
//! nibbles sit just below it; the register field overlaps the operand
//! nibbles (it is used only by instructions that have no operands); the
//! address field is the low 32 bits.

use vstd::prelude::*;

verus! {

pub const OPCODE_ROTATION: u64 = 8;
pub const OPERAND_ONE_ROTATION: u64 = 12;
pub const OPERAND_TWO_ROTATION: u64 = 16;
pub const REGISTER_ROTATION: u64 = 13;

pub const OPCODE_MASK: u64 = 0xFF;
pub const OPERAND_MASK: u64 = 0xF;
pub const REGISTER_MASK: u64 = 0x1F;
pub const ADDRESS_MASK: u64 = 0xFFFF_FFFF;

/// Which of the two operand nibbles of a binary instruction.
#[derive(Clone, Copy, Debug, PartialEq, Eq, Structural)]
pub enum Slot {
    First,
    Second,
}

/// Rotation of a word to the left by `n` bits, `0 < n < 64`.
pub open spec fn rotl(w: u64, n: u64) -> u64 {
    ((w << n) | (w >> ((64 - n) as u64))) as u64
}

pub open spec fn opcode_field(w: u64) -> u8 {
    (rotl(w, OPCODE_ROTATION) & OPCODE_MASK) as u8
}

pub open spec fn slot_rotation(slot: Slot) -> u64 {
    match slot {
        Slot::First => OPERAND_ONE_ROTATION,
        Slot::Second => OPERAND_TWO_ROTATION,
    }
}

pub open spec fn operand_field(w: u64, slot: Slot) -> u8 {
    (rotl(w, slot_rotation(slot)) & OPERAND_MASK) as u8
}

pub open spec fn register_field(w: u64) -> u8 {
    (rotl(w, REGISTER_ROTATION) & REGISTER_MASK) as u8
}

pub open spec fn address_field(w: u64) -> u32 {
    (w & ADDRESS_MASK) as u32
}

pub open spec fn plain_word(opcode: u8) -> u64 {
    ((opcode as u64) << 56u64) as u64
}

pub open spec fn binary_word(opcode: u8, first: u8, second: u8) -> u64 {
    (((opcode as u64) << 56u64) | ((first as u64) << 52u64) | ((second as u64) << 48u64)) as u64
}

pub open spec fn register_word(opcode: u8, index: u8) -> u64 {
    (((opcode as u64) << 56u64) | ((index as u64) << 51u64)) as u64
}

pub open spec fn address_word(opcode: u8, target: u32) -> u64 {
    (((opcode as u64) << 56u64) | (target as u64)) as u64
}

fn rotate(w: u64, n: u64) -> (r: u64)
    requires
        0 < n < 64,
    ensures
        r == rotl(w, n),
{
    (w << n) | (w >> (64 - n))
}

/// The 8-bit opcode field. Never fails: validity is the caller's concern.
pub fn decode_opcode(word: u64) -> (r: u8)
    ensures
        r == opcode_field(word),
{
    (rotate(word, OPCODE_ROTATION) & OPCODE_MASK) as u8
}

/// One of the two 4-bit operand fields.
pub fn decode_operand(word: u64, slot: Slot) -> (r: u8)
    ensures
        r == operand_field(word, slot),
        r < 16,
{
    let n = match slot {
        Slot::First => OPERAND_ONE_ROTATION,
        Slot::Second => OPERAND_TWO_ROTATION,
    };
    let y = rotate(word, n);
    let x = y & OPERAND_MASK;
    assert(y & 0xFu64 < 16) by (bit_vector);
    x as u8
}

/// The 5-bit register field that selects a general or special register.
pub fn decode_register_index(word: u64) -> (r: u8)
    ensures
        r == register_field(word),
        r < 32,
{
    let y = rotate(word, REGISTER_ROTATION);
    let x = y & REGISTER_MASK;
    assert(y & 0x1Fu64 < 32) by (bit_vector);
    x as u8
}

/// The 32-bit jump target field.
pub fn decode_address(word: u64) -> (r: u32)
    ensures
        r == address_field(word),
{
    (word & ADDRESS_MASK) as u32
}

/// Word with `opcode` in the top byte and every other bit clear.
pub fn encode_plain(opcode: u8) -> (w: u64)
    ensures
        w == plain_word(opcode),
        opcode_field(w) == opcode,
{
    let w = (opcode as u64) << 56;
    assert(opcode_field(w) == opcode) by (bit_vector)
        requires
            w == (opcode as u64) << 56,
    ;
    w
}

/// Word of a binary instruction: opcode and two operand nibbles.
pub fn encode_binary(opcode: u8, first: u8, second: u8) -> (w: u64)
    requires
        first < 16,
        second < 16,
    ensures
        w == binary_word(opcode, first, second),
        opcode_field(w) == opcode,
        operand_field(w, Slot::First) == first,
        operand_field(w, Slot::Second) == second,
{
    let w = ((opcode as u64) << 56) | ((first as u64) << 52) | ((second as u64) << 48);
    assert(opcode_field(w) == opcode && operand_field(w, Slot::First) == first
        && operand_field(w, Slot::Second) == second) by (bit_vector)
        requires
            first < 16,
            second < 16,
            w == ((opcode as u64) << 56) | ((first as u64) << 52) | ((second as u64) << 48),
    ;
    w
}

/// Word of an instruction that names one register by the 5-bit register field.
pub fn encode_register(opcode: u8, index: u8) -> (w: u64)
    requires
        index < 32,
    ensures
        w == register_word(opcode, index),
        opcode_field(w) == opcode,
        register_field(w) == index,
{
    let w = ((opcode as u64) << 56) | ((index as u64) << 51);
    assert(opcode_field(w) == opcode && register_field(w) == index) by (bit_vector)
        requires
            index < 32,
            w == ((opcode as u64) << 56) | ((index as u64) << 51),
    ;
    w
}

/// Word of a jump: opcode and a 32-bit target address.
pub fn encode_address(opcode: u8, target: u32) -> (w: u64)
    ensures
        w == address_word(opcode, target),
        opcode_field(w) == opcode,
        address_field(w) == target,
{
    let w = ((opcode as u64) << 56) | (target as u64);
    assert(opcode_field(w) == opcode && address_field(w) == target) by (bit_vector)
        requires
            w == ((opcode as u64) << 56) | (target as u64),
    ;
    w
}

/// The opcode field of a word is the byte placed in its top eight bits,
/// whatever the remaining 56 bits (the other fields) hold.
pub proof fn lemma_opcode_field_isolated(opcode: u8, rest: u64)
    requires
        rest < 0x0100_0000_0000_0000u64,
    ensures
        opcode_field(((opcode as u64) << 56) | rest) == opcode,
{
    assert(opcode_field(((opcode as u64) << 56) | rest) == opcode) by (bit_vector)
        requires
            rest < 0x0100_0000_0000_0000u64,
    ;
}

/// Two words that agree in their top byte have the same opcode field.
pub proof fn lemma_opcode_field_depends_on_top_byte(a: u64, b: u64)
    requires
        a >> 56 == b >> 56,
    ensures
        opcode_field(a) == opcode_field(b),
{
    assert(opcode_field(a) == opcode_field(b)) by (bit_vector)
        requires
            a >> 56 == b >> 56,
    ;
}

} // verus!
