//! Turning textual instruction records into words of the program region.
//!
//! A record is a mnemonic followed by its operand fields, separated by
//! spaces. Operands are unsigned decimal numbers:
//! - `HALT`, `IN_N`, `OUT_N`, `IN_S`, `OUT_S`: none;
//! - `ADD`, `SUB`, `MUL`, `DIV`: two register indices below 16;
//! - `CON`: a register index below 32 and the constant word, which takes
//!   the program word after the instruction;
//! - `PUSH`, `POP`, `LD`, `ST`: a register index below 32;
//! - the jumps: a target address that fits 32 bits.

use vstd::prelude::*;
use vstd::string::*;
use crate::codec::{
    address_word, binary_word, encode_address, encode_binary, encode_plain, encode_register,
    plain_word, register_word,
};
use crate::mnemonics::{lookup, standard_names, Instructions};
use crate::state::{initial_state, MachineState, CON, DIV, OUT_S, PROGRAM_CAP, ST};
use crate::vm::{LoadError, Vm};

verus! {

pub open spec fn is_digit(c: char) -> bool {
    '0' <= c <= '9'
}

pub open spec fn decimal_value(t: Seq<char>) -> int
    decreases t.len(),
{
    if t.len() == 0 {
        0
    } else {
        decimal_value(t.drop_last()) * 10 + (t.last() as int - '0' as int)
    }
}

/// The number an operand field writes, if it is one that fits 64 bits.
pub open spec fn number_of(t: Seq<char>) -> Option<u64> {
    if t.len() > 0 && (forall|i: int| 0 <= i < t.len() ==> is_digit(#[trigger] t[i]))
        && decimal_value(t) <= u64::MAX {
        Some(decimal_value(t) as u64)
    } else {
        None
    }
}

/// A left-to-right scan of the first `n` characters for space-separated
/// fields: the spans of the fields closed so far and the start of the open one.
pub open spec fn scan(s: Seq<char>, n: nat) -> (Seq<(int, int)>, Option<int>)
    decreases n,
{
    if n == 0 {
        (seq![], None)
    } else {
        let (done, open) = scan(s, (n - 1) as nat);
        if s[n - 1] == ' ' {
            match open {
                Some(start) => (done.push((start, n - 1)), None),
                None => (done, None),
            }
        } else {
            match open {
                Some(start) => (done, Some(start)),
                None => (done, Some(n - 1)),
            }
        }
    }
}

pub open spec fn field_spans(s: Seq<char>) -> Seq<(int, int)> {
    let (done, open) = scan(s, s.len());
    match open {
        Some(start) => done.push((start, s.len() as int)),
        None => done,
    }
}

/// The maximal runs of non-space characters of `s`, in order.
pub open spec fn fields(s: Seq<char>) -> Seq<Seq<char>> {
    field_spans(s).map_values(|p: (int, int)| s.subrange(p.0, p.1))
}

/// Words for an instruction with opcode `op` and operand fields `ops`.
pub open spec fn encode_operands(op: u8, ops: Seq<Seq<char>>, line: usize) -> Result<
    Seq<u64>,
    LoadError,
> {
    if op <= OUT_S {
        if ops.len() != 0 {
            Err(LoadError::OperandCount(line))
        } else {
            Ok(seq![plain_word(op)])
        }
    } else if op <= DIV {
        if ops.len() != 2 {
            Err(LoadError::OperandCount(line))
        } else {
            match (number_of(ops[0]), number_of(ops[1])) {
                (Some(a), Some(b)) => if a < 16 && b < 16 {
                    Ok(seq![binary_word(op, a as u8, b as u8)])
                } else {
                    Err(LoadError::BadOperand(line))
                },
                _ => Err(LoadError::BadOperand(line)),
            }
        }
    } else if op == CON {
        if ops.len() != 2 {
            Err(LoadError::OperandCount(line))
        } else {
            match (number_of(ops[0]), number_of(ops[1])) {
                (Some(a), Some(c)) => if a < 32 {
                    Ok(seq![register_word(op, a as u8), c])
                } else {
                    Err(LoadError::BadOperand(line))
                },
                _ => Err(LoadError::BadOperand(line)),
            }
        }
    } else if ops.len() != 1 {
        Err(LoadError::OperandCount(line))
    } else if op <= ST {
        match number_of(ops[0]) {
            Some(a) => if a < 32 {
                Ok(seq![register_word(op, a as u8)])
            } else {
                Err(LoadError::BadOperand(line))
            },
            None => Err(LoadError::BadOperand(line)),
        }
    } else {
        match number_of(ops[0]) {
            Some(a) => if a <= u32::MAX {
                Ok(seq![address_word(op, a as u32)])
            } else {
                Err(LoadError::BadOperand(line))
            },
            None => Err(LoadError::BadOperand(line)),
        }
    }
}

/// Words for the record `text`, the `line`-th of the program.
pub open spec fn encode_record(names: Seq<Seq<char>>, text: Seq<char>, line: usize) -> Result<
    Seq<u64>,
    LoadError,
> {
    let f = fields(text);
    if f.len() == 0 {
        Err(LoadError::EmptyRecord(line))
    } else {
        match lookup(names, f[0]) {
            None => Err(LoadError::UnknownMnemonic(line)),
            Some(op) => encode_operands(op, f.drop_first(), line),
        }
    }
}

/// Words of a whole program, or the error of its first bad record.
pub open spec fn assemble(names: Seq<Seq<char>>, records: Seq<Seq<char>>) -> Result<
    Seq<u64>,
    LoadError,
>
    decreases records.len(),
{
    if records.len() == 0 {
        Ok(seq![])
    } else {
        match assemble(names, records.drop_last()) {
            Err(e) => Err(e),
            Ok(ws) => match encode_record(names, records.last(), (records.len() - 1) as usize) {
                Err(e) => Err(e),
                Ok(w) => Ok(ws + w),
            },
        }
    }
}

/// Reads an operand field as an unsigned decimal number.
pub fn parse_number(t: &str) -> (r: Option<u64>)
    ensures
        r == number_of(t@),
{
    let n = t.unicode_len();
    if n == 0 {
        return None;
    }
    let mut value: u64 = 0;
    let mut overflow = false;
    let mut i: usize = 0;
    while i < n
        invariant
            n == t@.len(),
            i <= n,
            forall|j: int| 0 <= j < i ==> is_digit(#[trigger] t@[j]),
            decimal_value(t@.take(i as int)) >= 0,
            overflow == (decimal_value(t@.take(i as int)) > u64::MAX),
            !overflow ==> value == decimal_value(t@.take(i as int)),
        decreases n - i,
    {
        let c = t.get_char(i);
        if !('0' <= c && c <= '9') {
            assert(!is_digit(t@[i as int]));
            return None;
        }
        let d = (c as u32 - '0' as u32) as u64;
        assert(t@.take(i + 1).drop_last() =~= t@.take(i as int));
        assert(decimal_value(t@.take(i + 1)) == decimal_value(t@.take(i as int)) * 10 + d);
        if !overflow {
            if value < 1844674407370955161u64 || (value == 1844674407370955161u64 && d <= 5) {
                value = value * 10 + d;
            } else {
                overflow = true;
            }
        }
        i = i + 1;
    }
    assert(t@.take(n as int) =~= t@);
    if overflow {
        None
    } else {
        Some(value)
    }
}

/// Spans `(start, end)` of the space-separated fields of `s`, in order.
pub fn split_fields(s: &str) -> (r: Vec<(usize, usize)>)
    ensures
        r@.len() == field_spans(s@).len(),
        forall|k: int|
            0 <= k < r@.len() ==> r@[k].0 as int == field_spans(s@)[k].0 && r@[k].1 as int
                == field_spans(s@)[k].1 && r@[k].0 <= r@[k].1 <= s@.len(),
{
    let n = s.unicode_len();
    let mut done: Vec<(usize, usize)> = Vec::new();
    let mut open: Option<usize> = None;
    let mut i: usize = 0;
    while i < n
        invariant
            n == s@.len(),
            i <= n,
            done@.len() == scan(s@, i as nat).0.len(),
            forall|k: int|
                0 <= k < done@.len() ==> done@[k].0 as int == scan(s@, i as nat).0[k].0
                    && done@[k].1 as int == scan(s@, i as nat).0[k].1 && done@[k].0 <= done@[k].1
                    <= i,
            match open {
                Some(start) => scan(s@, i as nat).1 == Some(start as int) && start < i,
                None => scan(s@, i as nat).1 is None,
            },
        decreases n - i,
    {
        let c = s.get_char(i);
        if c == ' ' {
            match open {
                Some(start) => {
                    done.push((start, i));
                    open = None;
                },
                None => {},
            }
        } else {
            if open.is_none() {
                open = Some(i);
            }
        }
        i = i + 1;
    }
    match open {
        Some(start) => {
            done.push((start, n));
        },
        None => {},
    }
    done
}

/// The `k`-th field of `text`, read as a number.
fn field_number(text: &str, spans: &Vec<(usize, usize)>, k: usize) -> (r: Option<u64>)
    requires
        spans@.len() == field_spans(text@).len(),
        forall|j: int|
            0 <= j < spans@.len() ==> spans@[j].0 as int == field_spans(text@)[j].0
                && spans@[j].1 as int == field_spans(text@)[j].1 && spans@[j].0 <= spans@[j].1
                <= text@.len(),
        k < spans@.len(),
    ensures
        r == number_of(fields(text@)[k as int]),
{
    let field = text.substring_char(spans[k].0, spans[k].1);
    parse_number(field)
}

fn single(w: u64) -> (r: Vec<u64>)
    ensures
        r@ == seq![w],
{
    let mut v = Vec::new();
    v.push(w);
    assert(v@ =~= seq![w]);
    v
}

/// Words for the record `text`, the `line`-th of its program.
pub fn encode_line(table: &Instructions, text: &str, line: usize) -> (r: Result<Vec<u64>, LoadError>)
    ensures
        match encode_record(table.names(), text@, line) {
            Ok(ws) => r is Ok && r->Ok_0@ == ws,
            Err(e) => r == Err::<Vec<u64>, LoadError>(e),
        },
{
    let spans = split_fields(text);
    let ghost f = fields(text@);
    let ghost ops = f.drop_first();
    if spans.len() == 0 {
        return Err(LoadError::EmptyRecord(line));
    }
    let name = text.substring_char(spans[0].0, spans[0].1);
    assert(name@ == f[0]);
    let op = match table.opcode(name) {
        None => {
            return Err(LoadError::UnknownMnemonic(line));
        },
        Some(op) => op,
    };
    let count = spans.len() - 1;
    assert(ops.len() == count);
    assert(forall|j: int| 0 <= j < count ==> ops[j] == #[trigger] f[j + 1]);
    if op <= OUT_S {
        if count != 0 {
            Err(LoadError::OperandCount(line))
        } else {
            Ok(single(encode_plain(op)))
        }
    } else if op <= DIV {
        if count != 2 {
            return Err(LoadError::OperandCount(line));
        }
        let a = field_number(text, &spans, 1);
        let b = field_number(text, &spans, 2);
        assert(a == number_of(ops[0]) && b == number_of(ops[1]));
        match (a, b) {
            (Some(a), Some(b)) => if a < 16 && b < 16 {
                Ok(single(encode_binary(op, a as u8, b as u8)))
            } else {
                Err(LoadError::BadOperand(line))
            },
            _ => Err(LoadError::BadOperand(line)),
        }
    } else if op == CON {
        if count != 2 {
            return Err(LoadError::OperandCount(line));
        }
        let a = field_number(text, &spans, 1);
        let c = field_number(text, &spans, 2);
        assert(a == number_of(ops[0]) && c == number_of(ops[1]));
        match (a, c) {
            (Some(a), Some(c)) => if a < 32 {
                let mut v = single(encode_register(op, a as u8));
                v.push(c);
                assert(v@ =~= seq![register_word(op, a as u8), c]);
                Ok(v)
            } else {
                Err(LoadError::BadOperand(line))
            },
            _ => Err(LoadError::BadOperand(line)),
        }
    } else if count != 1 {
        Err(LoadError::OperandCount(line))
    } else {
        let a = field_number(text, &spans, 1);
        assert(a == number_of(ops[0]));
        if op <= ST {
            match a {
                Some(a) => if a < 32 {
                    Ok(single(encode_register(op, a as u8)))
                } else {
                    Err(LoadError::BadOperand(line))
                },
                None => Err(LoadError::BadOperand(line)),
            }
        } else {
            match a {
                Some(a) => if a <= u32::MAX as u64 {
                    Ok(single(encode_address(op, a as u32)))
                } else {
                    Err(LoadError::BadOperand(line))
                },
                None => Err(LoadError::BadOperand(line)),
            }
        }
    }
}

pub open spec fn texts(code: Seq<String>) -> Seq<Seq<char>> {
    code.map_values(|s: String| s@)
}

/// An error in the first `k` records is the error of the whole program.
proof fn lemma_assemble_error_persists(names: Seq<Seq<char>>, records: Seq<Seq<char>>, k: int)
    requires
        0 <= k <= records.len(),
        assemble(names, records.take(k)) is Err,
    ensures
        assemble(names, records) == assemble(names, records.take(k)),
    decreases records.len() - k,
{
    if k < records.len() {
        assert(records.take(k + 1).drop_last() =~= records.take(k));
        lemma_assemble_error_persists(names, records, k + 1);
    } else {
        assert(records.take(k) =~= records);
    }
}

/// Words of the whole program `code`, or the error of its first bad record.
pub fn assemble_records(table: &Instructions, code: &Vec<String>) -> (r: Result<Vec<u64>, LoadError>)
    ensures
        match assemble(table.names(), texts(code@)) {
            Ok(ws) => r is Ok && r->Ok_0@ == ws,
            Err(e) => r == Err::<Vec<u64>, LoadError>(e),
        },
{
    let mut words: Vec<u64> = Vec::new();
    let mut i: usize = 0;
    while i < code.len()
        invariant
            i <= code@.len(),
            assemble(table.names(), texts(code@).take(i as int)) == Ok::<Seq<u64>, LoadError>(
                words@,
            ),
        decreases code@.len() - i,
    {
        assert(texts(code@).take(i + 1).drop_last() =~= texts(code@).take(i as int));
        assert(texts(code@).take(i + 1).last() == code@[i as int]@);
        let mut w = match encode_line(table, code[i].as_str(), i) {
            Ok(w) => w,
            Err(e) => {
                proof {
                    lemma_assemble_error_persists(table.names(), texts(code@), i + 1);
                }
                return Err(e);
            },
        };
        words.append(&mut w);
        i = i + 1;
    }
    assert(texts(code@).take(code@.len() as int) =~= texts(code@));
    Ok(words)
}

impl Vm {
    /// Assembles the records `code` with the mnemonics of `table` and loads
    /// the words as the program; on any error the machine is unchanged.
    pub fn load_code(&mut self, table: &Instructions, code: Vec<String>) -> (r: Result<(), LoadError>)
        requires
            old(self)@.wf(),
        ensures
            final(self)@.wf(),
            match assemble(table.names(), texts(code@)) {
                Err(e) => r == Err::<(), LoadError>(e) && final(self)@ == old(self)@,
                Ok(ws) => if ws.len() <= PROGRAM_CAP {
                    r is Ok && final(self)@ == (MachineState {
                        mem: ws + old(self)@.mem.skip(ws.len() as int),
                        prog_len: ws.len(),
                        ..old(self)@
                    })
                } else {
                    r == Err::<(), LoadError>(LoadError::ProgramTooLong) && final(self)@ == old(
                        self,
                    )@
                },
            },
    {
        let words = assemble_records(table, &code)?;
        self.load_program(&words)
    }
}

/// A fresh machine with `code` loaded by the standard mnemonics.
pub fn vm(code: Vec<String>) -> (r: Result<Box<Vm>, LoadError>)
    ensures
        match assemble(standard_names(), texts(code@)) {
            Err(e) => r == Err::<Box<Vm>, LoadError>(e),
            Ok(ws) => if ws.len() <= PROGRAM_CAP {
                r is Ok && r->Ok_0@ == (MachineState {
                    mem: ws + initial_state().mem.skip(ws.len() as int),
                    prog_len: ws.len(),
                    ..initial_state()
                })
            } else {
                r == Err::<Box<Vm>, LoadError>(LoadError::ProgramTooLong)
            },
        },
{
    let table = Instructions::standard();
    let mut machine = Vm::new();
    match machine.load_code(&table, code) {
        Ok(()) => Ok(machine),
        Err(e) => Err(e),
    }
}

} // verus!
