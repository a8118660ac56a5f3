//! Laws of the stack engine over sequences of pushes and pops.

use vstd::prelude::*;
use crate::state::{
    pop_reg, push_reg, MachineState, MemFault, ACC_INDEX, IP_INDEX, REG_NUM, SP_INDEX, STACK_BOTTOM,
    STACK_TOP,
};

verus! {

/// Pushes of the registers `srcs`, first to last.
pub open spec fn push_all(s: MachineState, srcs: Seq<u8>) -> MachineState
    decreases srcs.len(),
{
    if srcs.len() == 0 {
        s
    } else {
        push_reg(push_all(s, srcs.drop_last()), srcs.last())
    }
}

/// `n` pops into register `dest`.
pub open spec fn pop_times(s: MachineState, dest: u8, n: nat) -> MachineState
    decreases n,
{
    if n == 0 {
        s
    } else {
        pop_reg(pop_times(s, dest, (n - 1) as nat), dest)
    }
}

/// A register that a push or a pop treats as plain storage: a general
/// register or the accumulator.
pub open spec fn data_register(index: u8) -> bool {
    index < REG_NUM || index == ACC_INDEX
}

proof fn lemma_push_all(s: MachineState, srcs: Seq<u8>)
    requires
        s.wf(),
        !s.has_errors(),
        STACK_BOTTOM + srcs.len() <= s.sp() <= STACK_TOP,
        forall|i: int| 0 <= i < srcs.len() ==> data_register(#[trigger] srcs[i]),
    ensures
        push_all(s, srcs).wf(),
        !push_all(s, srcs).has_errors(),
        push_all(s, srcs).sp() == s.sp() - srcs.len(),
        push_all(s, srcs).prog_len == s.prog_len,
        forall|r: int|
            0 <= r < s.regs.len() && r != IP_INDEX && r != SP_INDEX ==> push_all(s, srcs).regs[r]
                == s.regs[r],
        forall|i: int|
            0 <= i < srcs.len() ==> push_all(s, srcs).mem[s.sp() - i] == s.regs[srcs[i] as int],
    decreases srcs.len(),
{
    if srcs.len() > 0 {
        let init = srcs.drop_last();
        assert forall|i: int| 0 <= i < init.len() implies data_register(#[trigger] init[i]) by {
            assert(init[i] == srcs[i]);
        }
        lemma_push_all(s, init);
        let t = push_all(s, init);
        let u = push_reg(t, srcs.last());
        assert(data_register(srcs[srcs.len() - 1]));
        assert forall|i: int| 0 <= i < srcs.len() implies u.mem[s.sp() - i] == s.regs[srcs[i] as int] by {
            if i < init.len() {
                assert(init[i] == srcs[i]);
            }
        }
    }
}

proof fn lemma_pop_times(t: MachineState, dest: u8, k: nat)
    requires
        t.wf(),
        !t.has_errors(),
        STACK_BOTTOM <= t.sp(),
        t.sp() + k <= STACK_TOP,
        data_register(dest),
    ensures
        pop_times(t, dest, k).wf(),
        !pop_times(t, dest, k).has_errors(),
        pop_times(t, dest, k).sp() == t.sp() + k,
        pop_times(t, dest, k).mem == t.mem,
        k > 0 ==> pop_times(t, dest, k).regs[dest as int] == t.mem[t.sp() + k],
    decreases k,
{
    if k > 0 {
        lemma_pop_times(t, dest, (k - 1) as nat);
    }
}

/// Values pushed from registers come back in reverse order. After pushing
/// the registers `srcs` (general registers or the accumulator) one after
/// another, with room on the stack for all of them, the `k`-th of the
/// following pops into `dest` (counting from zero) delivers what register
/// `srcs[n - 1 - k]` held at the start; after `n` pops the stack pointer is
/// back at its value before the first push, and no error was raised.
pub proof fn lemma_stack_lifo(s: MachineState, srcs: Seq<u8>, dest: u8)
    requires
        s.wf(),
        !s.has_errors(),
        STACK_BOTTOM + srcs.len() <= s.sp() <= STACK_TOP,
        forall|i: int| 0 <= i < srcs.len() ==> data_register(#[trigger] srcs[i]),
        data_register(dest),
    ensures
        forall|k: nat|
            k < srcs.len() ==> (#[trigger] pop_times(push_all(s, srcs), dest, k + 1)).regs[dest as int]
                == s.regs[srcs[srcs.len() - 1 - k] as int],
        pop_times(push_all(s, srcs), dest, srcs.len()).sp() == s.sp(),
        !pop_times(push_all(s, srcs), dest, srcs.len()).has_errors(),
{
    let n = srcs.len();
    lemma_push_all(s, srcs);
    let t = push_all(s, srcs);
    lemma_pop_times(t, dest, n);
    assert forall|k: nat| k < n implies (#[trigger] pop_times(t, dest, k + 1)).regs[dest as int]
        == s.regs[srcs[n - 1 - k] as int] by {
        lemma_pop_times(t, dest, k + 1);
        assert(t.sp() + (k + 1) == s.sp() - (n - 1 - k));
    }
}

/// A push onto a full stack raises the stack-full memory error and changes
/// nothing else: starting from a stack pointer with room for exactly
/// `srcs.len()` pushes, those pushes succeed, and one more leaves the
/// registers (the stack pointer among them) and memory as the last
/// successful push left them.
pub proof fn lemma_stack_overflow(s: MachineState, srcs: Seq<u8>, extra: u8)
    requires
        s.wf(),
        !s.has_errors(),
        s.sp() <= STACK_TOP,
        s.sp() == STACK_BOTTOM + srcs.len(),
        forall|i: int| 0 <= i < srcs.len() ==> data_register(#[trigger] srcs[i]),
    ensures
        !push_all(s, srcs).has_errors(),
        push_reg(push_all(s, srcs), extra) == push_all(s, srcs).with_fault(MemFault::StackFull),
        push_reg(push_all(s, srcs), extra).regs == push_all(s, srcs).regs,
        push_reg(push_all(s, srcs), extra).mem == push_all(s, srcs).mem,
{
    lemma_push_all(s, srcs);
}

/// A pop from an empty stack (the stack pointer at the top of the stack
/// region, where it starts) raises the stack-empty memory error and leaves
/// every register and all of memory unchanged.
pub proof fn lemma_stack_underflow(s: MachineState, dest: u8)
    requires
        s.sp() == STACK_TOP,
    ensures
        pop_reg(s, dest) == s.with_fault(MemFault::StackEmpty),
        pop_reg(s, dest).regs == s.regs,
        pop_reg(s, dest).mem == s.mem,
{
}

} // verus!
