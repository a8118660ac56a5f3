//! Laws of the fetch-decode-execute cycle.

use vstd::prelude::*;
use crate::codec::{opcode_field, operand_field, Slot};
use crate::state::{
    accumulate, arith_op, cycle, input_number, Effect, MachineState, ADD, DIV, IN_N, JLS, REG_NUM,
};

verus! {

/// An `IN_N` whose input line was no number sets the I/O error flag and
/// leaves the instruction pointer at the `IN_N`; the next cycle then stops
/// with an error instead of fetching the instruction again.
pub proof fn lemma_input_error_halts(s: MachineState)
    requires
        s.wf(),
        !s.has_errors(),
        s.ip() < s.prog_len,
        opcode_field(s.word()) == IN_N,
    ensures
        cycle(s) == (s, Effect::Input),
        input_number(s, None).io_error,
        input_number(s, None).ip() == s.ip(),
        input_number(s, None).regs == s.regs,
        input_number(s, None).mem == s.mem,
        cycle(input_number(s, None)) == (input_number(s, None), Effect::Fault),
{
}

/// A word whose opcode field is above the last defined opcode stops the
/// machine with a decode error and changes nothing, the instruction pointer
/// included.
pub proof fn lemma_unknown_opcode_halts(s: MachineState)
    requires
        s.wf(),
        !s.has_errors(),
        s.ip() < s.prog_len,
        opcode_field(s.word()) > JLS,
    ensures
        cycle(s) == (s, Effect::BadOpcode(opcode_field(s.word()))),
{
}

/// A binary instruction whose operand fields name general registers hands
/// exactly the words of those two registers out for the operation and
/// changes nothing yet; the result's bits then become the accumulator, the
/// instruction pointer moves on by one, and the operand registers keep
/// their words.
pub proof fn lemma_binary_instruction(s: MachineState, result: u64)
    requires
        s.wf(),
        !s.has_errors(),
        s.ip() < s.prog_len,
        ADD <= opcode_field(s.word()) <= DIV,
        operand_field(s.word(), Slot::First) < REG_NUM,
        operand_field(s.word(), Slot::Second) < REG_NUM,
    ensures
        cycle(s) == (s, Effect::Compute(
            arith_op(opcode_field(s.word())),
            s.regs[operand_field(s.word(), Slot::First) as int],
            s.regs[operand_field(s.word(), Slot::Second) as int],
        )),
        accumulate(s, result).acc() == result,
        accumulate(s, result).ip() == s.ip() + 1,
        forall|r: int| 0 <= r < REG_NUM ==> accumulate(s, result).regs[r] == s.regs[r],
        accumulate(s, result).mem == s.mem,
{
}

} // verus!
