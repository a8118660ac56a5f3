//! The table from instruction names to opcodes, built once and passed by
//! reference to the loader.

use vstd::prelude::*;
use vstd::string::*;

verus! {

/// Text of each instruction's mnemonic; a field's position in
/// `Instructions::names` is its opcode.
pub struct Instructions {
    pub halt: &'static str,
    pub in_n: &'static str,
    pub out_n: &'static str,
    pub in_s: &'static str,
    pub out_s: &'static str,
    pub add: &'static str,
    pub sub: &'static str,
    pub mul: &'static str,
    pub div: &'static str,
    pub con: &'static str,
    pub push: &'static str,
    pub pop: &'static str,
    pub ld: &'static str,
    pub st: &'static str,
    pub jmp: &'static str,
    pub jgr: &'static str,
    pub jge: &'static str,
    pub jeq: &'static str,
    pub jne: &'static str,
    pub jle: &'static str,
    pub jls: &'static str,
}

/// Number of defined opcodes, `0x00 ..= 0x14`.
pub const OPCODE_COUNT: usize = 21;

/// Index of the first entry of `names`, from `j` on, equal to `name`.
pub open spec fn lookup_from(names: Seq<Seq<char>>, name: Seq<char>, j: nat) -> Option<u8>
    decreases names.len() - j,
{
    if j >= names.len() {
        None
    } else if names[j as int] == name {
        Some(j as u8)
    } else {
        lookup_from(names, name, j + 1)
    }
}

/// Opcode that a table of mnemonics gives to `name`: its first position.
pub open spec fn lookup(names: Seq<Seq<char>>, name: Seq<char>) -> Option<u8> {
    lookup_from(names, name, 0)
}

/// Whether two strings hold the same characters.
pub fn str_eq(a: &str, b: &str) -> (r: bool)
    ensures
        r == (a@ == b@),
{
    let n = a.unicode_len();
    if n != b.unicode_len() {
        return false;
    }
    let mut i: usize = 0;
    while i < n
        invariant
            n == a@.len() == b@.len(),
            i <= n,
            a@.take(i as int) == b@.take(i as int),
        decreases n - i,
    {
        if a.get_char(i) != b.get_char(i) {
            return false;
        }
        assert(a@.take(i + 1) =~= a@.take(i as int).push(a@[i as int]));
        assert(b@.take(i + 1) =~= b@.take(i as int).push(b@[i as int]));
        i = i + 1;
    }
    assert(a@ =~= a@.take(n as int));
    assert(b@ =~= b@.take(n as int));
    true
}

/// The machine's mnemonics in opcode order.
pub open spec fn standard_names() -> Seq<Seq<char>> {
    seq![
        "HALT"@, "IN_N"@, "OUT_N"@, "IN_S"@, "OUT_S"@, "ADD"@, "SUB"@, "MUL"@, "DIV"@, "CON"@,
        "PUSH"@, "POP"@, "LD"@, "ST"@, "JMP"@, "JGR"@, "JGE"@, "JEQ"@, "JNE"@, "JLE"@, "JLS"@,
    ]
}

impl Instructions {
    /// The mnemonics in opcode order.
    pub open spec fn names(self) -> Seq<Seq<char>> {
        seq![
            self.halt@, self.in_n@, self.out_n@, self.in_s@, self.out_s@, self.add@, self.sub@,
            self.mul@, self.div@, self.con@, self.push@, self.pop@, self.ld@, self.st@,
            self.jmp@, self.jgr@, self.jge@, self.jeq@, self.jne@, self.jle@, self.jls@,
        ]
    }

    /// The machine's own mnemonics.
    pub fn standard() -> (r: Instructions)
        ensures
            r.names() == standard_names(),
    {
        Instructions {
            halt: "HALT",
            in_n: "IN_N",
            out_n: "OUT_N",
            in_s: "IN_S",
            out_s: "OUT_S",
            add: "ADD",
            sub: "SUB",
            mul: "MUL",
            div: "DIV",
            con: "CON",
            push: "PUSH",
            pop: "POP",
            ld: "LD",
            st: "ST",
            jmp: "JMP",
            jgr: "JGR",
            jge: "JGE",
            jeq: "JEQ",
            jne: "JNE",
            jle: "JLE",
            jls: "JLS",
        }
    }

    /// The opcode of the first mnemonic equal to `name`, if any.
    pub fn opcode(&self, name: &str) -> (r: Option<u8>)
        ensures
            r == lookup(self.names(), name@),
            r is Some ==> r->0 < OPCODE_COUNT,
    {
        let table: [&'static str; 21] = [
            self.halt, self.in_n, self.out_n, self.in_s, self.out_s, self.add, self.sub,
            self.mul, self.div, self.con, self.push, self.pop, self.ld, self.st, self.jmp,
            self.jgr, self.jge, self.jeq, self.jne, self.jle, self.jls,
        ];
        assert(table@.map_values(|t: &'static str| t@) =~= self.names());
        let mut i: usize = 0;
        while i < OPCODE_COUNT
            invariant
                i <= OPCODE_COUNT,
                table@.map_values(|t: &'static str| t@) == self.names(),
                lookup(self.names(), name@) == lookup_from(self.names(), name@, i as nat),
            decreases OPCODE_COUNT - i,
        {
            assert(self.names()[i as int] == table@[i as int]@);
            if str_eq(table[i], name) {
                return Some(i as u8);
            }
            i = i + 1;
        }
        None
    }
}

} // verus!
