//! The executable machine: register file, memory, stack engine and the
//! fetch-decode-execute cycle, each proved to follow `crate::state`.

use vstd::prelude::*;
use crate::codec::{decode_address, decode_opcode, decode_operand, decode_register_index, Slot};
use crate::state::{
    accumulate, arith_operands, con_reg, cycle, initial_state, input_number, jump,
    jump_taken, load_var, pop_reg, push_reg, run, store_var, valid_register, var_address,
    ArithOp, Effect, MachineState, Region, MemFault, ACC_INDEX, ADD, CON, DIV, HALT, IN_N, IN_S, IP_INDEX,
    JEQ, JGE, JGR, JLE, JLS, JMP, JNE, LD, MEM_CAP, MUL, OUT_N, OUT_S, POP, PROGRAM_CAP, PUSH,
    REG_FILE_LEN, REG_NUM, SP_INDEX, ST, STACK_BOTTOM, STACK_TOP, SUB, VAR_BOTTOM, VAR_TOP,
};
use crate::codec::register_field;

verus! {

/// Why a program could not be placed in the program region.
#[derive(Clone, Copy, Debug, PartialEq, Eq, Structural)]
pub enum LoadError {
    /// More words than the program region holds.
    ProgramTooLong,
    /// The record with this index has no fields.
    EmptyRecord(usize),
    /// The record with this index starts with no known mnemonic.
    UnknownMnemonic(usize),
    /// The record with this index has the wrong number of operand fields.
    OperandCount(usize),
    /// An operand of the record with this index is no number, or too large for its field.
    BadOperand(usize),
}

pub struct Vm {
    regs: Vec<u64>,
    mem: Vec<u64>,
    prog_len: usize,
    io_error: bool,
    mem_fault: Option<MemFault>,
}

impl View for Vm {
    type V = MachineState;

    closed spec fn view(&self) -> MachineState {
        MachineState {
            regs: self.regs@,
            mem: self.mem@,
            prog_len: self.prog_len as nat,
            io_error: self.io_error,
            mem_fault: self.mem_fault,
        }
    }
}

impl Vm {
    /// A fresh machine, with nothing loaded.
    pub fn new() -> (r: Box<Vm>)
        ensures
            r@ == initial_state(),
            r@.wf(),
    {
        let mut regs = vec![0u64; REG_FILE_LEN];
        regs.set(SP_INDEX, STACK_TOP);
        let mem = vec![0u64; MEM_CAP];
        let vm = Vm { regs, mem, prog_len: 0, io_error: false, mem_fault: None };
        assert(vm@.regs =~= initial_state().regs);
        assert(vm@.mem =~= initial_state().mem);
        Box::new(vm)
    }

    pub fn ip(&self) -> (r: u64)
        requires
            self@.wf(),
        ensures
            r == self@.ip(),
    {
        self.regs[IP_INDEX]
    }

    pub fn sp(&self) -> (r: u64)
        requires
            self@.wf(),
        ensures
            r == self@.sp(),
    {
        self.regs[SP_INDEX]
    }

    pub fn acc(&self) -> (r: u64)
        requires
            self@.wf(),
        ensures
            r == self@.acc(),
    {
        self.regs[ACC_INDEX]
    }

    /// The program region, `None` while no program is loaded.
    pub fn program_region(&self) -> (r: Option<Region>)
        ensures
            self@.prog_len == 0 ==> r is None,
            self@.prog_len > 0 ==> r == Some(Region { first: 0, last: (self@.prog_len - 1) as u64 }),
    {
        if self.prog_len == 0 {
            None
        } else {
            Some(Region { first: 0, last: (self.prog_len - 1) as u64 })
        }
    }

    /// Length of the loaded program, in words.
    pub fn program_len(&self) -> (r: usize)
        ensures
            r == self@.prog_len,
    {
        self.prog_len
    }

    pub fn io_error(&self) -> (r: bool)
        ensures
            r == self@.io_error,
    {
        self.io_error
    }

    pub fn mem_fault(&self) -> (r: Option<MemFault>)
        ensures
            r == self@.mem_fault,
    {
        self.mem_fault
    }

    /// Whether either error flag is set.
    pub fn has_errors(&self) -> (r: bool)
        ensures
            r == self@.has_errors(),
    {
        self.io_error || self.mem_fault.is_some()
    }

    /// Register `index` of the unified index space: 0 to 7 general, 8 IP,
    /// 9 SP, 10 ACC.
    pub fn register(&self, index: u8) -> (r: Result<u64, MemFault>)
        requires
            self@.wf(),
        ensures
            valid_register(index) ==> r == Ok::<u64, MemFault>(self@.regs[index as int]),
            !valid_register(index) ==> r == Err::<u64, MemFault>(MemFault::UnknownRegister(index)),
    {
        if (index as usize) < REG_FILE_LEN {
            Ok(self.regs[index as usize])
        } else {
            Err(MemFault::UnknownRegister(index))
        }
    }

    /// Writes register `index`; nothing changes for an index that names no register.
    pub fn set_register(&mut self, index: u8, word: u64) -> (r: Result<(), MemFault>)
        requires
            old(self)@.wf(),
        ensures
            final(self)@.wf(),
            valid_register(index) ==> r is Ok && final(self)@ == old(self)@.with_reg(index as int, word),
            !valid_register(index) ==> r == Err::<(), MemFault>(MemFault::UnknownRegister(index))
                && final(self)@ == old(self)@,
    {
        if (index as usize) < REG_FILE_LEN {
            self.regs.set(index as usize, word);
            Ok(())
        } else {
            Err(MemFault::UnknownRegister(index))
        }
    }

    /// The word at `address`.
    pub fn read(&self, address: u64) -> (r: Result<u64, MemFault>)
        requires
            self@.wf(),
        ensures
            address < MEM_CAP ==> r == Ok::<u64, MemFault>(self@.mem[address as int]),
            address >= MEM_CAP ==> r == Err::<u64, MemFault>(MemFault::AddressOutOfRange(address)),
    {
        if address < MEM_CAP as u64 {
            Ok(self.mem[address as usize])
        } else {
            Err(MemFault::AddressOutOfRange(address))
        }
    }

    /// Writes the word at `address`; nothing changes for an address outside memory.
    pub fn write(&mut self, address: u64, word: u64) -> (r: Result<(), MemFault>)
        requires
            old(self)@.wf(),
        ensures
            final(self)@.wf(),
            address < MEM_CAP ==> r is Ok && final(self)@ == (MachineState {
                mem: old(self)@.mem.update(address as int, word),
                ..old(self)@
            }),
            address >= MEM_CAP ==> r == Err::<(), MemFault>(MemFault::AddressOutOfRange(address))
                && final(self)@ == old(self)@,
    {
        if address < MEM_CAP as u64 {
            self.mem.set(address as usize, word);
            Ok(())
        } else {
            Err(MemFault::AddressOutOfRange(address))
        }
    }

    /// Places `words` at the start of memory as the program; the rest of the
    /// state is kept.
    pub fn load_program(&mut self, words: &Vec<u64>) -> (r: Result<(), LoadError>)
        requires
            old(self)@.wf(),
        ensures
            final(self)@.wf(),
            words@.len() <= PROGRAM_CAP ==> r is Ok && final(self)@ == (MachineState {
                mem: words@ + old(self)@.mem.skip(words@.len() as int),
                prog_len: words@.len(),
                ..old(self)@
            }),
            words@.len() > PROGRAM_CAP ==> r == Err::<(), LoadError>(LoadError::ProgramTooLong)
                && final(self)@ == old(self)@,
    {
        if words.len() > PROGRAM_CAP {
            return Err(LoadError::ProgramTooLong);
        }
        let ghost before = self@;
        let ghost old_mem = self.mem@;
        let mut i: usize = 0;
        while i < words.len()
            invariant
                i <= words@.len() <= PROGRAM_CAP,
                self.mem@.len() == MEM_CAP,
                self.mem@ =~= words@.take(i as int) + old_mem.skip(i as int),
                old_mem.len() == MEM_CAP,
                self.regs@ == before.regs,
                self.prog_len == before.prog_len,
                self.io_error == before.io_error,
                self.mem_fault == before.mem_fault,
            decreases words@.len() - i,
        {
            self.mem.set(i, words[i]);
            i = i + 1;
        }
        self.prog_len = words.len();
        assert(self.mem@ =~= words@ + old_mem.skip(words@.len() as int));
        Ok(())
    }

    fn raise(&mut self, f: MemFault)
        requires
            old(self)@.wf(),
        ensures
            final(self)@ == old(self)@.with_fault(f),
    {
        self.mem_fault = Some(f);
    }

    fn set_ip(&mut self, ip: u64)
        requires
            old(self)@.wf(),
        ensures
            final(self)@ == old(self)@.with_reg(IP_INDEX as int, ip),
    {
        self.regs.set(IP_INDEX, ip);
    }

    /// The current instruction's register field.
    pub fn get_register_index(&self) -> (r: u8)
        requires
            self@.wf(),
            self@.ip() < self@.prog_len,
        ensures
            r == register_field(self@.word()),
    {
        decode_register_index(self.mem[self.regs[IP_INDEX] as usize])
    }

    /// `PUSH`: see `push_reg`. On any error only the memory flag changes.
    pub fn process_push(&mut self)
        requires
            old(self)@.wf(),
            old(self)@.ip() < old(self)@.prog_len,
        ensures
            final(self)@.wf(),
            final(self)@ == push_reg(old(self)@, register_field(old(self)@.word())),
    {
        let sp = self.regs[SP_INDEX];
        if sp <= STACK_BOTTOM {
            self.raise(MemFault::StackFull);
            return ;
        }
        if sp > STACK_TOP {
            self.raise(MemFault::AddressOutOfRange(sp));
            return ;
        }
        let index = self.get_register_index();
        if index as usize >= REG_FILE_LEN {
            self.raise(MemFault::UnknownRegister(index));
            return ;
        }
        let value = self.regs[index as usize];
        let ip = self.regs[IP_INDEX];
        self.mem.set(sp as usize, value);
        self.regs.set(SP_INDEX, sp - 1);
        self.regs.set(IP_INDEX, ip + 1);
    }

    /// `POP`: see `pop_reg`. On any error only the memory flag changes.
    pub fn process_pop(&mut self)
        requires
            old(self)@.wf(),
            old(self)@.ip() < old(self)@.prog_len,
        ensures
            final(self)@.wf(),
            final(self)@ == pop_reg(old(self)@, register_field(old(self)@.word())),
    {
        let sp = self.regs[SP_INDEX];
        if sp >= STACK_TOP {
            self.raise(MemFault::StackEmpty);
            return ;
        }
        if sp < STACK_BOTTOM {
            self.raise(MemFault::AddressOutOfRange(sp));
            return ;
        }
        let index = self.get_register_index();
        if index as usize >= REG_FILE_LEN {
            self.raise(MemFault::UnknownRegister(index));
            return ;
        }
        let value = self.mem[(sp + 1) as usize];
        let ip = self.regs[IP_INDEX];
        self.regs.set(SP_INDEX, sp + 1);
        self.regs.set(IP_INDEX, ip + 1);
        self.regs.set(index as usize, value);
    }

    /// `CON`: see `con_reg`.
    pub fn process_con(&mut self)
        requires
            old(self)@.wf(),
            old(self)@.ip() < old(self)@.prog_len,
        ensures
            final(self)@.wf(),
            final(self)@ == con_reg(old(self)@, register_field(old(self)@.word())),
    {
        let ip = self.regs[IP_INDEX];
        if ip + 1 >= self.prog_len as u64 {
            self.raise(MemFault::AddressOutOfRange(ip + 1));
            return ;
        }
        let index = self.get_register_index();
        if index as usize >= REG_FILE_LEN {
            self.raise(MemFault::UnknownRegister(index));
            return ;
        }
        let value = self.mem[(ip + 1) as usize];
        self.regs.set(IP_INDEX, ip + 2);
        self.regs.set(index as usize, value);
    }

    /// Variable-region address named by the current instruction's register.
    fn var_address(&self) -> (r: Result<usize, MemFault>)
        requires
            self@.wf(),
            self@.ip() < self@.prog_len,
        ensures
            match var_address(self@, register_field(self@.word())) {
                Ok(a) => r == Ok::<usize, MemFault>(a as usize) && a < MEM_CAP,
                Err(f) => r == Err::<usize, MemFault>(f),
            },
    {
        let index = self.get_register_index();
        if index as usize >= REG_FILE_LEN {
            return Err(MemFault::UnknownRegister(index));
        }
        let offset = self.regs[index as usize];
        if offset > VAR_TOP - VAR_BOTTOM {
            return Err(MemFault::VariableOutOfRange(offset));
        }
        Ok((VAR_BOTTOM + offset) as usize)
    }

    /// `LD`: see `load_var`.
    pub fn process_ld(&mut self)
        requires
            old(self)@.wf(),
            old(self)@.ip() < old(self)@.prog_len,
        ensures
            final(self)@.wf(),
            final(self)@ == load_var(old(self)@, register_field(old(self)@.word())),
    {
        match self.var_address() {
            Err(f) => self.raise(f),
            Ok(a) => {
                let value = self.mem[a];
                let ip = self.regs[IP_INDEX];
                self.regs.set(ACC_INDEX, value);
                self.regs.set(IP_INDEX, ip + 1);
            },
        }
    }

    /// `ST`: see `store_var`.
    pub fn process_st(&mut self)
        requires
            old(self)@.wf(),
            old(self)@.ip() < old(self)@.prog_len,
        ensures
            final(self)@.wf(),
            final(self)@ == store_var(old(self)@, register_field(old(self)@.word())),
    {
        match self.var_address() {
            Err(f) => self.raise(f),
            Ok(a) => {
                let value = self.regs[ACC_INDEX];
                let ip = self.regs[IP_INDEX];
                self.mem.set(a, value);
                self.regs.set(IP_INDEX, ip + 1);
            },
        }
    }

    /// Whether the jump with `opcode` is taken on accumulator bits `bits`.
    pub fn jump_condition(opcode: u8, bits: u64) -> (r: bool)
        ensures
            r == jump_taken(opcode, bits),
    {
        let magnitude = bits & 0x7FFF_FFFF_FFFF_FFFFu64;
        let zero = magnitude == 0;
        let ordered = !(magnitude > 0x7FF0_0000_0000_0000u64) && !zero;
        let negative = bits >> 63u64 == 1;
        if opcode == JGR {
            ordered && !negative
        } else if opcode == JGE {
            (ordered && !negative) || zero
        } else if opcode == JEQ {
            zero
        } else if opcode == JNE {
            !zero
        } else if opcode == JLE {
            (ordered && negative) || zero
        } else if opcode == JLS {
            ordered && negative
        } else {
            true
        }
    }

    fn process_jump(&mut self, opcode: u8)
        requires
            old(self)@.wf(),
            old(self)@.ip() < old(self)@.prog_len,
        ensures
            final(self)@.wf(),
            final(self)@ == jump(old(self)@, opcode),
    {
        let ip = self.regs[IP_INDEX];
        if Self::jump_condition(opcode, self.regs[ACC_INDEX]) {
            let target = decode_address(self.mem[ip as usize]);
            self.set_ip(target as u64);
        } else {
            self.set_ip(ip + 1);
        }
    }

    /// `JMP`: to the address field, always.
    pub fn process_jmp(&mut self)
        requires
            old(self)@.wf(),
            old(self)@.ip() < old(self)@.prog_len,
        ensures
            final(self)@.wf(),
            final(self)@ == jump(old(self)@, JMP),
    {
        self.process_jump(JMP)
    }

    /// `JGR`: jump when the accumulator is above zero.
    pub fn process_jgr(&mut self)
        requires
            old(self)@.wf(),
            old(self)@.ip() < old(self)@.prog_len,
        ensures
            final(self)@.wf(),
            final(self)@ == jump(old(self)@, JGR),
    {
        self.process_jump(JGR)
    }

    /// `JGE`: jump when the accumulator is zero or above.
    pub fn process_jge(&mut self)
        requires
            old(self)@.wf(),
            old(self)@.ip() < old(self)@.prog_len,
        ensures
            final(self)@.wf(),
            final(self)@ == jump(old(self)@, JGE),
    {
        self.process_jump(JGE)
    }

    /// `JEQ`: jump when the accumulator is zero.
    pub fn process_jeq(&mut self)
        requires
            old(self)@.wf(),
            old(self)@.ip() < old(self)@.prog_len,
        ensures
            final(self)@.wf(),
            final(self)@ == jump(old(self)@, JEQ),
    {
        self.process_jump(JEQ)
    }

    /// `JNE`: jump when the accumulator is not zero (a NaN included).
    pub fn process_jne(&mut self)
        requires
            old(self)@.wf(),
            old(self)@.ip() < old(self)@.prog_len,
        ensures
            final(self)@.wf(),
            final(self)@ == jump(old(self)@, JNE),
    {
        self.process_jump(JNE)
    }

    /// `JLE`: jump when the accumulator is zero or below.
    pub fn process_jle(&mut self)
        requires
            old(self)@.wf(),
            old(self)@.ip() < old(self)@.prog_len,
        ensures
            final(self)@.wf(),
            final(self)@ == jump(old(self)@, JLE),
    {
        self.process_jump(JLE)
    }

    /// `JLS`: jump when the accumulator is below zero.
    pub fn process_jls(&mut self)
        requires
            old(self)@.wf(),
            old(self)@.ip() < old(self)@.prog_len,
        ensures
            final(self)@.wf(),
            final(self)@ == jump(old(self)@, JLS),
    {
        self.process_jump(JLS)
    }

    /// `IN_N`, given what the input line parsed to (`None`: not a number).
    pub fn process_in_n(&mut self, parsed: Option<u64>)
        requires
            old(self)@.wf(),
            old(self)@.ip() < old(self)@.prog_len,
        ensures
            final(self)@.wf(),
            final(self)@ == input_number(old(self)@, parsed),
    {
        match parsed {
            Some(bits) => self.complete_arith(bits),
            None => self.io_error = true,
        }
    }

    /// `OUT_N`: the accumulator's bits, for the driver to print; IP moves on.
    pub fn process_out_n(&mut self) -> (r: u64)
        requires
            old(self)@.wf(),
            old(self)@.ip() < old(self)@.prog_len,
        ensures
            final(self)@.wf(),
            final(self)@ == old(self)@.advanced(1),
            r == old(self)@.acc(),
    {
        let ip = self.regs[IP_INDEX];
        self.set_ip(ip + 1);
        self.regs[ACC_INDEX]
    }

    /// The words in the two general registers that the current binary
    /// instruction names.
    pub fn get_operands(&self) -> (r: Result<(u64, u64), MemFault>)
        requires
            self@.wf(),
            self@.ip() < self@.prog_len,
        ensures
            r == arith_operands(self@),
    {
        let word = self.mem[self.regs[IP_INDEX] as usize];
        let a = decode_operand(word, Slot::First);
        let b = decode_operand(word, Slot::Second);
        if a as usize >= REG_NUM {
            Err(MemFault::UnknownRegister(a))
        } else if b as usize >= REG_NUM {
            Err(MemFault::UnknownRegister(b))
        } else {
            Ok((self.regs[a as usize], self.regs[b as usize]))
        }
    }

    /// Finishes a binary instruction: the accumulator takes the result's bits
    /// and IP moves on.
    pub fn complete_arith(&mut self, result: u64)
        requires
            old(self)@.wf(),
            old(self)@.ip() < old(self)@.prog_len,
        ensures
            final(self)@.wf(),
            final(self)@ == accumulate(old(self)@, result),
    {
        let ip = self.regs[IP_INDEX];
        self.regs.set(ACC_INDEX, result);
        self.set_ip(ip + 1);
    }

    /// One fetch-decode-execute cycle.
    pub fn step(&mut self) -> (e: Effect)
        requires
            old(self)@.wf(),
        ensures
            final(self)@.wf(),
            (final(self)@, e) == cycle(old(self)@),
    {
        if self.has_errors() {
            return Effect::Fault;
        }
        let ip = self.regs[IP_INDEX];
        if ip >= self.prog_len as u64 {
            self.raise(MemFault::AddressOutOfRange(ip));
            return Effect::Fault;
        }
        let op = decode_opcode(self.mem[ip as usize]);
        if op == HALT {
            Effect::Halt
        } else if op == IN_N {
            Effect::Input
        } else if op == OUT_N {
            let bits = self.process_out_n();
            Effect::Output(bits)
        } else if op == IN_S || op == OUT_S {
            Effect::Unsupported(op)
        } else if ADD <= op && op <= DIV {
            match self.get_operands() {
                Ok((a, b)) => {
                    let kind = if op == ADD {
                        ArithOp::Add
                    } else if op == SUB {
                        ArithOp::Sub
                    } else if op == MUL {
                        ArithOp::Mul
                    } else {
                        ArithOp::Div
                    };
                    Effect::Compute(kind, a, b)
                },
                Err(f) => {
                    self.raise(f);
                    Effect::Fault
                },
            }
        } else if op > JLS {
            Effect::BadOpcode(op)
        } else {
            if op == CON {
                self.process_con();
            } else if op == PUSH {
                self.process_push();
            } else if op == POP {
                self.process_pop();
            } else if op == LD {
                self.process_ld();
            } else if op == ST {
                self.process_st();
            } else if op == JMP {
                self.process_jmp();
            } else if op == JGR {
                self.process_jgr();
            } else if op == JGE {
                self.process_jge();
            } else if op == JEQ {
                self.process_jeq();
            } else if op == JNE {
                self.process_jne();
            } else if op == JLE {
                self.process_jle();
            } else {
                self.process_jls();
            }
            if self.has_errors() {
                Effect::Fault
            } else {
                Effect::Continue
            }
        }
    }

    /// Runs up to `budget` cycles, returning at the first cycle that does more
    /// than continue (a stop, an error, or a request for outside work); returns
    /// `Continue` when the budget is spent.
    pub fn execute(&mut self, budget: u64) -> (e: Effect)
        requires
            old(self)@.wf(),
        ensures
            final(self)@.wf(),
            (final(self)@, e) == run(old(self)@, budget as nat),
    {
        let ghost start = self@;
        let mut left = budget;
        while left > 0
            invariant
                self@.wf(),
                run(self@, left as nat) == run(start, budget as nat),
                start == old(self)@,
            decreases left,
        {
            let e = self.step();
            match e {
                Effect::Continue => {},
                _ => {
                    return e;
                },
            }
            left = left - 1;
        }
        Effect::Continue
    }
}

} // verus!