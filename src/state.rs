//! The machine's state as a mathematical value, and the meaning of each
//! instruction as a function from state to state.

use vstd::prelude::*;
use crate::codec::{address_field, opcode_field, operand_field, register_field, Slot};

verus! {

pub const HALT: u8 = 0x00;
pub const IN_N: u8 = 0x01;
pub const OUT_N: u8 = 0x02;
pub const IN_S: u8 = 0x03;
pub const OUT_S: u8 = 0x04;
pub const ADD: u8 = 0x05;
pub const SUB: u8 = 0x06;
pub const MUL: u8 = 0x07;
pub const DIV: u8 = 0x08;
pub const CON: u8 = 0x09;
pub const PUSH: u8 = 0x0A;
pub const POP: u8 = 0x0B;
pub const LD: u8 = 0x0C;
pub const ST: u8 = 0x0D;
pub const JMP: u8 = 0x0E;
pub const JGR: u8 = 0x0F;
pub const JGE: u8 = 0x10;
pub const JEQ: u8 = 0x11;
pub const JNE: u8 = 0x12;
pub const JLE: u8 = 0x13;
pub const JLS: u8 = 0x14;

/// Number of general-purpose registers (indices 0 to 7).
pub const REG_NUM: usize = 8;
pub const IP_INDEX: usize = 8;
pub const SP_INDEX: usize = 9;
pub const ACC_INDEX: usize = 10;
/// General registers followed by IP, SP and ACC, in one index space.
pub const REG_FILE_LEN: usize = 11;

/// Words of memory.
pub const MEM_CAP: usize = 50000;
/// Longest program: the program region is addresses `0 .. PROGRAM_CAP`.
pub const PROGRAM_CAP: usize = 30001;
/// The stack region is `STACK_BOTTOM ..= STACK_TOP`; the stack grows down.
pub const STACK_BOTTOM: u64 = 30001;
pub const STACK_TOP: u64 = 40000;
/// The variable region is `VAR_BOTTOM ..= VAR_TOP`.
pub const VAR_BOTTOM: u64 = 40001;
pub const VAR_TOP: u64 = 49999;

/// An inclusive range of addresses.
#[derive(Clone, Copy, Debug, PartialEq, Eq, Structural)]
pub struct Region {
    pub first: u64,
    pub last: u64,
}

impl Region {
    pub open spec fn has(self, address: int) -> bool {
        self.first <= address <= self.last
    }

    pub fn contains(&self, address: u64) -> (r: bool)
        ensures
            r == self.has(address as int),
    {
        self.first <= address && address <= self.last
    }
}

/// Where the stack lives.
pub fn stack_region() -> (r: Region)
    ensures
        r == (Region { first: STACK_BOTTOM, last: STACK_TOP }),
{
    Region { first: STACK_BOTTOM, last: STACK_TOP }
}

/// Where `LD` and `ST` read and write.
pub fn variable_region() -> (r: Region)
    ensures
        r == (Region { first: VAR_BOTTOM, last: VAR_TOP }),
{
    Region { first: VAR_BOTTOM, last: VAR_TOP }
}

/// The program, stack and variable regions lie in memory in that order and
/// never overlap, whatever the length of the loaded program.
pub proof fn lemma_regions_disjoint(prog_len: nat, address: int)
    requires
        prog_len <= PROGRAM_CAP,
    ensures
        0 <= address < prog_len ==> !(Region { first: STACK_BOTTOM, last: STACK_TOP }).has(address),
        (Region { first: STACK_BOTTOM, last: STACK_TOP }).has(address) ==> !(Region {
            first: VAR_BOTTOM,
            last: VAR_TOP,
        }).has(address),
        (Region { first: VAR_BOTTOM, last: VAR_TOP }).has(address) ==> address < MEM_CAP,
{
}

/// The memory errors, each with the context a diagnostic needs.
#[derive(Clone, Copy, Debug, PartialEq, Eq, Structural)]
pub enum MemFault {
    /// A push found the stack pointer at the bottom of the stack region.
    StackFull,
    /// A pop found the stack pointer at the top of the stack region.
    StackEmpty,
    /// A register index that names no register.
    UnknownRegister(u8),
    /// An address outside memory, outside the program region for a fetch,
    /// or a stack pointer outside the stack region.
    AddressOutOfRange(u64),
    /// An offset that leads outside the variable region.
    VariableOutOfRange(u64),
}

/// The binary floating-point operations.
#[derive(Clone, Copy, Debug, PartialEq, Eq, Structural)]
pub enum ArithOp {
    Add,
    Sub,
    Mul,
    Div,
}

/// What one cycle of the machine asks of its driver.
#[derive(Clone, Copy, Debug, PartialEq, Eq, Structural)]
pub enum Effect {
    /// The instruction was carried out; the machine goes on.
    Continue,
    /// `HALT`: normal stop, nothing changed.
    Halt,
    /// An error flag is set; the machine has stopped with an error.
    Fault,
    /// The opcode names no instruction; nothing changed.
    BadOpcode(u8),
    /// `IN_S` or `OUT_S`, whose operand convention is not defined; nothing changed.
    Unsupported(u8),
    /// `IN_N`: the driver reads a number and hands it to `process_in_n`.
    Input,
    /// `OUT_N` was carried out; the driver prints this word as a double.
    Output(u64),
    /// A binary operation on the two words read as doubles; the driver
    /// computes it and hands the result's bits to `complete_arith`.
    Compute(ArithOp, u64, u64),
}

/// The whole machine: register file, memory, loaded program length and
/// the two error flags.
pub struct MachineState {
    pub regs: Seq<u64>,
    pub mem: Seq<u64>,
    pub prog_len: nat,
    pub io_error: bool,
    pub mem_fault: Option<MemFault>,
}

impl MachineState {
    pub open spec fn wf(self) -> bool {
        &&& self.regs.len() == REG_FILE_LEN
        &&& self.mem.len() == MEM_CAP
        &&& self.prog_len <= PROGRAM_CAP
    }

    pub open spec fn ip(self) -> u64 {
        self.regs[IP_INDEX as int]
    }

    pub open spec fn sp(self) -> u64 {
        self.regs[SP_INDEX as int]
    }

    pub open spec fn acc(self) -> u64 {
        self.regs[ACC_INDEX as int]
    }

    /// The instruction word at the instruction pointer.
    pub open spec fn word(self) -> u64 {
        self.mem[self.ip() as int]
    }

    pub open spec fn has_errors(self) -> bool {
        self.io_error || self.mem_fault is Some
    }

    pub open spec fn with_fault(self, f: MemFault) -> MachineState {
        MachineState { mem_fault: Some(f), ..self }
    }

    pub open spec fn with_reg(self, index: int, v: u64) -> MachineState {
        MachineState { regs: self.regs.update(index, v), ..self }
    }

    pub open spec fn advanced(self, n: int) -> MachineState {
        self.with_reg(IP_INDEX as int, (self.ip() + n) as u64)
    }
}

/// A fresh machine: all memory and registers zero, the stack pointer at
/// the top of the stack region, no program, no error.
pub open spec fn initial_state() -> MachineState {
    MachineState {
        regs: Seq::new(REG_FILE_LEN as nat, |i: int| if i == SP_INDEX { STACK_TOP } else { 0u64 }),
        mem: Seq::new(MEM_CAP as nat, |i: int| 0u64),
        prog_len: 0,
        io_error: false,
        mem_fault: None,
    }
}

pub open spec fn valid_register(index: u8) -> bool {
    index < REG_FILE_LEN
}

/// Push of register `index`: store it at the stack pointer, then move the
/// stack pointer down by one and the instruction pointer on by one.
pub open spec fn push_reg(s: MachineState, index: u8) -> MachineState {
    if s.sp() <= STACK_BOTTOM {
        s.with_fault(MemFault::StackFull)
    } else if s.sp() > STACK_TOP {
        s.with_fault(MemFault::AddressOutOfRange(s.sp()))
    } else if !valid_register(index) {
        s.with_fault(MemFault::UnknownRegister(index))
    } else {
        MachineState {
            mem: s.mem.update(s.sp() as int, s.regs[index as int]),
            ..s.with_reg(SP_INDEX as int, (s.sp() - 1) as u64).advanced(1)
        }
    }
}

/// Pop into register `index`: move the stack pointer up by one, take the
/// word it then points at, move the instruction pointer on by one, and
/// write the word into the register (a pop into IP or SP overrides the
/// pointer it names).
pub open spec fn pop_reg(s: MachineState, index: u8) -> MachineState {
    if s.sp() >= STACK_TOP {
        s.with_fault(MemFault::StackEmpty)
    } else if s.sp() < STACK_BOTTOM {
        s.with_fault(MemFault::AddressOutOfRange(s.sp()))
    } else if !valid_register(index) {
        s.with_fault(MemFault::UnknownRegister(index))
    } else {
        s.with_reg(SP_INDEX as int, (s.sp() + 1) as u64).advanced(1).with_reg(
            index as int,
            s.mem[s.sp() + 1],
        )
    }
}

/// `CON`: the word after the instruction is a constant, written into the
/// named register; the instruction pointer moves past both words.
pub open spec fn con_reg(s: MachineState, index: u8) -> MachineState {
    if s.ip() + 1 >= s.prog_len {
        s.with_fault(MemFault::AddressOutOfRange((s.ip() + 1) as u64))
    } else if !valid_register(index) {
        s.with_fault(MemFault::UnknownRegister(index))
    } else {
        s.advanced(2).with_reg(index as int, s.mem[s.ip() + 1])
    }
}

/// Address in the variable region named by the offset held in register
/// `index`, or the fault it raises.
pub open spec fn var_address(s: MachineState, index: u8) -> Result<int, MemFault> {
    if !valid_register(index) {
        Err(MemFault::UnknownRegister(index))
    } else if s.regs[index as int] > VAR_TOP - VAR_BOTTOM {
        Err(MemFault::VariableOutOfRange(s.regs[index as int]))
    } else {
        Ok(VAR_BOTTOM + s.regs[index as int])
    }
}

/// `LD`: the accumulator takes the variable at the register-held offset.
pub open spec fn load_var(s: MachineState, index: u8) -> MachineState {
    match var_address(s, index) {
        Err(f) => s.with_fault(f),
        Ok(a) => s.with_reg(ACC_INDEX as int, s.mem[a]).advanced(1),
    }
}

/// `ST`: the variable at the register-held offset takes the accumulator.
pub open spec fn store_var(s: MachineState, index: u8) -> MachineState {
    match var_address(s, index) {
        Err(f) => s.with_fault(f),
        Ok(a) => MachineState { mem: s.mem.update(a, s.acc()), ..s.advanced(1) },
    }
}

/// Sign-free part of a double's bit pattern.
pub open spec fn magnitude(bits: u64) -> u64 {
    bits & 0x7FFF_FFFF_FFFF_FFFFu64
}

pub open spec fn is_nan_bits(bits: u64) -> bool {
    magnitude(bits) > 0x7FF0_0000_0000_0000u64
}

pub open spec fn is_zero_bits(bits: u64) -> bool {
    magnitude(bits) == 0
}

pub open spec fn is_negative_bits(bits: u64) -> bool {
    bits >> 63u64 == 1
}

/// The comparison of the double with bit pattern `bits` against zero that a
/// conditional jump makes, as IEEE-754 orders it (a NaN compares unequal to
/// everything and neither above nor below). `JMP` always jumps.
pub open spec fn jump_taken(opcode: u8, bits: u64) -> bool {
    let ordered = !is_nan_bits(bits) && !is_zero_bits(bits);
    if opcode == JGR {
        ordered && !is_negative_bits(bits)
    } else if opcode == JGE {
        (ordered && !is_negative_bits(bits)) || is_zero_bits(bits)
    } else if opcode == JEQ {
        is_zero_bits(bits)
    } else if opcode == JNE {
        !is_zero_bits(bits)
    } else if opcode == JLE {
        (ordered && is_negative_bits(bits)) || is_zero_bits(bits)
    } else if opcode == JLS {
        ordered && is_negative_bits(bits)
    } else {
        true
    }
}

/// A jump instruction: to the word's address field when taken, else on by one.
pub open spec fn jump(s: MachineState, opcode: u8) -> MachineState {
    if jump_taken(opcode, s.acc()) {
        s.with_reg(IP_INDEX as int, address_field(s.word()) as u64)
    } else {
        s.advanced(1)
    }
}

/// The two general registers named by the operand fields of the current word.
pub open spec fn arith_operands(s: MachineState) -> Result<(u64, u64), MemFault> {
    let a = operand_field(s.word(), Slot::First);
    let b = operand_field(s.word(), Slot::Second);
    if a >= REG_NUM {
        Err(MemFault::UnknownRegister(a))
    } else if b >= REG_NUM {
        Err(MemFault::UnknownRegister(b))
    } else {
        Ok((s.regs[a as int], s.regs[b as int]))
    }
}

pub open spec fn arith_op(opcode: u8) -> ArithOp {
    if opcode == ADD {
        ArithOp::Add
    } else if opcode == SUB {
        ArithOp::Sub
    } else if opcode == MUL {
        ArithOp::Mul
    } else {
        ArithOp::Div
    }
}

/// The accumulator takes a result and the instruction pointer moves on.
pub open spec fn accumulate(s: MachineState, bits: u64) -> MachineState {
    s.with_reg(ACC_INDEX as int, bits).advanced(1)
}

/// `IN_N` with what the input line parsed to: a double's bits, or nothing
/// when it was no number (the I/O flag is set and IP stays).
pub open spec fn input_number(s: MachineState, parsed: Option<u64>) -> MachineState {
    match parsed {
        Some(bits) => accumulate(s, bits),
        None => MachineState { io_error: true, ..s },
    }
}

/// Instructions carried out without outside help, with opcode `op`.
pub open spec fn internal(s: MachineState, op: u8) -> MachineState {
    let index = register_field(s.word());
    if op == CON {
        con_reg(s, index)
    } else if op == PUSH {
        push_reg(s, index)
    } else if op == POP {
        pop_reg(s, index)
    } else if op == LD {
        load_var(s, index)
    } else if op == ST {
        store_var(s, index)
    } else {
        jump(s, op)
    }
}

/// One fetch-decode-execute cycle: the next state and what it asks of the driver.
pub open spec fn cycle(s: MachineState) -> (MachineState, Effect) {
    if s.has_errors() {
        (s, Effect::Fault)
    } else if s.ip() >= s.prog_len {
        (s.with_fault(MemFault::AddressOutOfRange(s.ip())), Effect::Fault)
    } else {
        let op = opcode_field(s.word());
        if op == HALT {
            (s, Effect::Halt)
        } else if op == IN_N {
            (s, Effect::Input)
        } else if op == OUT_N {
            (s.advanced(1), Effect::Output(s.acc()))
        } else if op == IN_S || op == OUT_S {
            (s, Effect::Unsupported(op))
        } else if ADD <= op <= DIV {
            match arith_operands(s) {
                Ok((a, b)) => (s, Effect::Compute(arith_op(op), a, b)),
                Err(f) => (s.with_fault(f), Effect::Fault),
            }
        } else if op > JLS {
            (s, Effect::BadOpcode(op))
        } else {
            let t = internal(s, op);
            (t, if t.has_errors() { Effect::Fault } else { Effect::Continue })
        }
    }
}

/// Up to `fuel` cycles, stopping at the first that does not just continue.
pub open spec fn run(s: MachineState, fuel: nat) -> (MachineState, Effect)
    decreases fuel,
{
    if fuel == 0 {
        (s, Effect::Continue)
    } else {
        let (t, e) = cycle(s);
        if e == Effect::Continue {
            run(t, (fuel - 1) as nat)
        } else {
            (t, e)
        }
    }
}

} // verus!
