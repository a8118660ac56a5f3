use tpm::codec::{encode_address, encode_binary, encode_plain, encode_register};
use tpm::state::{
    ADD, CON, DIV, HALT, IN_N, IN_S, JEQ, JGR, JMP, JNE, LD, MUL, OUT_N, POP, PUSH, ST,
    STACK_BOTTOM, STACK_TOP, SUB, VAR_BOTTOM,
};
use tpm::{vm, ArithOp, Effect, MemFault, Vm};

fn machine(words: &Vec<u64>) -> Box<Vm> {
    let mut m = Vm::new();
    assert_eq!(m.load_program(words), Ok(()));
    m
}

fn finish(m: &mut Vm, op: ArithOp, a: u64, b: u64) {
    let (x, y) = (f64::from_bits(a), f64::from_bits(b));
    let r = match op {
        ArithOp::Add => x + y,
        ArithOp::Sub => x - y,
        ArithOp::Mul => x * y,
        ArithOp::Div => x / y,
    };
    m.complete_arith(r.to_bits());
}

#[test]
fn new_machine_is_empty() {
    let m = Vm::new();
    assert_eq!(m.ip(), 0);
    assert_eq!(m.sp(), STACK_TOP);
    assert_eq!(m.acc(), 0);
    assert_eq!(m.program_len(), 0);
    assert!(!m.has_errors());
    assert_eq!(m.read(40000), Ok(0));
}

#[test]
fn end_to_end_add_prints_eight() {
    let code = vec![
        format!("CON 0 {}", 5.0f64.to_bits()),
        format!("CON 1 {}", 3.0f64.to_bits()),
        "ADD 0 1".to_string(),
        "OUT_N".to_string(),
        "HALT".to_string(),
    ];
    let mut m = vm(code).unwrap();
    assert_eq!(m.program_len(), 7);
    let e = m.execute(100);
    assert_eq!(e, Effect::Compute(ArithOp::Add, 5.0f64.to_bits(), 3.0f64.to_bits()));
    finish(&mut m, ArithOp::Add, 5.0f64.to_bits(), 3.0f64.to_bits());
    match m.execute(100) {
        Effect::Output(bits) => assert_eq!(format!("{}", f64::from_bits(bits)), "8"),
        other => panic!("unexpected {:?}", other),
    }
    assert_eq!(m.execute(100), Effect::Halt);
    assert_eq!(m.ip(), 6);
    assert!(!m.has_errors());
}

#[test]
fn arithmetic_round_trip() {
    let cases = [(1.5f64, 2.25f64), (-7.0, 0.5), (1e300, 3.0), (0.1, 0.2)];
    for &(a, b) in cases.iter() {
        for &(op, kind) in [(ADD, ArithOp::Add), (SUB, ArithOp::Sub), (MUL, ArithOp::Mul), (DIV, ArithOp::Div)].iter() {
            let mut m = machine(&vec![encode_binary(op, 2, 5), encode_plain(HALT)]);
            m.set_register(2, a.to_bits()).unwrap();
            m.set_register(5, b.to_bits()).unwrap();
            let e = m.step();
            assert_eq!(e, Effect::Compute(kind, a.to_bits(), b.to_bits()));
            finish(&mut m, kind, a.to_bits(), b.to_bits());
            let expected = match kind {
                ArithOp::Add => a + b,
                ArithOp::Sub => a - b,
                ArithOp::Mul => a * b,
                ArithOp::Div => a / b,
            };
            assert_eq!(f64::from_bits(m.acc()), expected);
            assert_eq!(m.ip(), 1);
        }
    }
}

#[test]
fn division_by_zero_is_not_an_error() {
    let mut m = machine(&vec![encode_binary(DIV, 0, 1), encode_plain(HALT)]);
    m.set_register(0, 1.0f64.to_bits()).unwrap();
    m.set_register(1, 0.0f64.to_bits()).unwrap();
    let e = m.step();
    assert_eq!(e, Effect::Compute(ArithOp::Div, 1.0f64.to_bits(), 0.0f64.to_bits()));
    finish(&mut m, ArithOp::Div, 1.0f64.to_bits(), 0.0f64.to_bits());
    assert_eq!(f64::from_bits(m.acc()), f64::INFINITY);
    assert_eq!(m.step(), Effect::Halt);
}

#[test]
fn operand_above_seven_is_unknown_register() {
    let mut m = machine(&vec![encode_binary(ADD, 9, 1)]);
    assert_eq!(m.step(), Effect::Fault);
    assert_eq!(m.mem_fault(), Some(MemFault::UnknownRegister(9)));
    assert_eq!(m.ip(), 0);
}

#[test]
fn stack_is_last_in_first_out() {
    let mut words = Vec::new();
    for r in 0..3u8 {
        words.push(encode_register(PUSH, r));
    }
    for r in 3..6u8 {
        words.push(encode_register(POP, r));
    }
    words.push(encode_plain(HALT));
    let mut m = machine(&words);
    m.set_register(0, 11).unwrap();
    m.set_register(1, 22).unwrap();
    m.set_register(2, 33).unwrap();
    assert_eq!(m.execute(3), Effect::Continue);
    assert_eq!(m.sp(), STACK_TOP - 3);
    assert_eq!(m.execute(100), Effect::Halt);
    assert_eq!(m.register(3), Ok(33));
    assert_eq!(m.register(4), Ok(22));
    assert_eq!(m.register(5), Ok(11));
    assert_eq!(m.sp(), STACK_TOP);
}

#[test]
fn push_and_pop_special_registers() {
    let mut m = machine(&vec![
        encode_register(PUSH, 9),
        encode_register(PUSH, 8),
        encode_register(POP, 10),
        encode_register(POP, 7),
        encode_plain(HALT),
    ]);
    assert_eq!(m.execute(100), Effect::Halt);
    assert_eq!(m.acc(), 1);
    assert_eq!(m.register(7), Ok(STACK_TOP));
    assert_eq!(m.sp(), STACK_TOP);
}

#[test]
fn pop_into_ip_jumps() {
    let mut m = machine(&vec![encode_register(POP, 8), encode_plain(HALT), encode_plain(HALT)]);
    m.write(STACK_TOP, 2).unwrap();
    m.set_register(9, STACK_TOP - 1).unwrap();
    assert_eq!(m.step(), Effect::Continue);
    assert_eq!(m.ip(), 2);
    assert_eq!(m.sp(), STACK_TOP);
}

#[test]
fn stack_overflow_leaves_state() {
    let capacity = (STACK_TOP - STACK_BOTTOM) as usize;
    let words = vec![encode_register(PUSH, 0); capacity + 1];
    let mut m = machine(&words);
    m.set_register(0, 7).unwrap();
    assert_eq!(m.execute(capacity as u64), Effect::Continue);
    assert_eq!(m.sp(), STACK_BOTTOM);
    assert!(!m.has_errors());
    assert_eq!(m.execute(1), Effect::Fault);
    assert_eq!(m.mem_fault(), Some(MemFault::StackFull));
    assert_eq!(m.sp(), STACK_BOTTOM);
    assert_eq!(m.ip(), capacity as u64);
    assert_eq!(m.read(STACK_BOTTOM), Ok(0));
    assert_eq!(m.read(STACK_BOTTOM + 1), Ok(7));
}

#[test]
fn stack_underflow_leaves_registers() {
    let mut m = machine(&vec![encode_register(POP, 3)]);
    m.set_register(3, 99).unwrap();
    assert_eq!(m.step(), Effect::Fault);
    assert_eq!(m.mem_fault(), Some(MemFault::StackEmpty));
    assert_eq!(m.register(3), Ok(99));
    assert_eq!(m.sp(), STACK_TOP);
    assert_eq!(m.ip(), 0);
    assert_eq!(m.step(), Effect::Fault);
}

#[test]
fn push_unknown_register() {
    let mut m = machine(&vec![encode_register(PUSH, 11)]);
    assert_eq!(m.step(), Effect::Fault);
    assert_eq!(m.mem_fault(), Some(MemFault::UnknownRegister(11)));
    assert_eq!(m.sp(), STACK_TOP);
}

#[test]
fn push_with_stack_pointer_outside_region() {
    let mut m = machine(&vec![encode_register(PUSH, 0)]);
    m.set_register(9, 45000).unwrap();
    assert_eq!(m.step(), Effect::Fault);
    assert_eq!(m.mem_fault(), Some(MemFault::AddressOutOfRange(45000)));
}

#[test]
fn input_error_does_not_advance() {
    let mut m = machine(&vec![encode_plain(IN_N), encode_plain(HALT)]);
    assert_eq!(m.execute(10), Effect::Input);
    m.process_in_n(None);
    assert!(m.io_error());
    assert_eq!(m.ip(), 0);
    assert_eq!(m.execute(10), Effect::Fault);
    assert_eq!(m.ip(), 0);
}

#[test]
fn input_number_sets_accumulator() {
    let mut m = machine(&vec![encode_plain(IN_N), encode_plain(HALT)]);
    assert_eq!(m.step(), Effect::Input);
    m.process_in_n(Some(2.5f64.to_bits()));
    assert_eq!(f64::from_bits(m.acc()), 2.5);
    assert_eq!(m.ip(), 1);
    assert_eq!(m.step(), Effect::Halt);
}

#[test]
fn unknown_opcode_halts() {
    for op in [0x15u8, 0x40, 0xFF].iter() {
        let mut m = machine(&vec![encode_plain(*op) | 0x1234]);
        assert_eq!(m.step(), Effect::BadOpcode(*op));
        assert_eq!(m.ip(), 0);
        assert!(!m.has_errors());
    }
}

#[test]
fn string_io_is_unsupported() {
    let mut m = machine(&vec![encode_plain(IN_S)]);
    assert_eq!(m.step(), Effect::Unsupported(IN_S));
    assert_eq!(m.ip(), 0);
}

#[test]
fn fetch_past_program_is_memory_error() {
    let mut m = machine(&vec![encode_address(JMP, 5)]);
    assert_eq!(m.step(), Effect::Continue);
    assert_eq!(m.ip(), 5);
    assert_eq!(m.step(), Effect::Fault);
    assert_eq!(m.mem_fault(), Some(MemFault::AddressOutOfRange(5)));
}

#[test]
fn output_hands_accumulator() {
    let mut m = machine(&vec![encode_plain(OUT_N)]);
    m.set_register(10, (-1.25f64).to_bits()).unwrap();
    assert_eq!(m.step(), Effect::Output((-1.25f64).to_bits()));
    assert_eq!(m.ip(), 1);
}

#[test]
fn conditional_jumps_compare_accumulator_with_zero() {
    let run = |op: u8, acc: f64| -> u64 {
        let mut m = machine(&vec![encode_address(op, 7)]);
        m.set_register(10, acc.to_bits()).unwrap();
        assert_eq!(m.step(), Effect::Continue);
        m.ip()
    };
    assert_eq!(run(JEQ, 0.0), 7);
    assert_eq!(run(JEQ, -0.0), 7);
    assert_eq!(run(JEQ, 1.0), 1);
    assert_eq!(run(JGR, 2.0), 7);
    assert_eq!(run(JGR, -2.0), 1);
    assert_eq!(run(JGR, f64::NAN), 1);
    assert_eq!(run(JGR, f64::INFINITY), 7);
    assert_eq!(run(JNE, f64::NAN), 7);
    assert_eq!(run(JNE, 0.0), 1);
    assert_eq!(run(tpm::state::JGE, 0.0), 7);
    assert_eq!(run(tpm::state::JGE, -1.0), 1);
    assert_eq!(run(tpm::state::JLE, -0.0), 7);
    assert_eq!(run(tpm::state::JLE, 3.0), 1);
    assert_eq!(run(tpm::state::JLS, -3.0), 7);
    assert_eq!(run(tpm::state::JLS, f64::NEG_INFINITY), 7);
    assert_eq!(run(tpm::state::JLS, 0.0), 1);
    assert_eq!(run(JMP, f64::NAN), 7);
}

#[test]
fn jump_condition_on_bits() {
    assert!(Vm::jump_condition(JEQ, 0x8000_0000_0000_0000));
    assert!(!Vm::jump_condition(JGR, 0x7FF8_0000_0000_0000));
    assert!(Vm::jump_condition(JGR, 1));
}

#[test]
fn store_and_load_variables() {
    let mut m = machine(&vec![
        encode_register(ST, 1),
        encode_register(CON, 10),
        0,
        encode_register(LD, 1),
        encode_plain(HALT),
    ]);
    m.set_register(1, 25).unwrap();
    m.set_register(10, 4242).unwrap();
    assert_eq!(m.execute(100), Effect::Halt);
    assert_eq!(m.read(VAR_BOTTOM + 25), Ok(4242));
    assert_eq!(m.acc(), 4242);
}

#[test]
fn variable_offset_out_of_range() {
    let mut m = machine(&vec![encode_register(LD, 0)]);
    m.set_register(0, 9999).unwrap();
    assert_eq!(m.step(), Effect::Fault);
    assert_eq!(m.mem_fault(), Some(MemFault::VariableOutOfRange(9999)));
    let mut m = machine(&vec![encode_register(ST, 0)]);
    m.set_register(0, 9998).unwrap();
    m.set_register(10, 5).unwrap();
    assert_eq!(m.step(), Effect::Continue);
    assert_eq!(m.read(49999), Ok(5));
}

#[test]
fn constant_without_following_word() {
    let mut m = machine(&vec![encode_register(CON, 0)]);
    assert_eq!(m.step(), Effect::Fault);
    assert_eq!(m.mem_fault(), Some(MemFault::AddressOutOfRange(1)));
}

#[test]
fn constant_loads_following_word() {
    let mut m = machine(&vec![encode_register(CON, 4), 123456789, encode_plain(HALT)]);
    assert_eq!(m.step(), Effect::Continue);
    assert_eq!(m.register(4), Ok(123456789));
    assert_eq!(m.ip(), 2);
}

#[test]
fn register_file_bounds() {
    let mut m = Vm::new();
    assert_eq!(m.register(11), Err(MemFault::UnknownRegister(11)));
    assert_eq!(m.set_register(31, 1), Err(MemFault::UnknownRegister(31)));
    assert_eq!(m.set_register(8, 3), Ok(()));
    assert_eq!(m.ip(), 3);
    assert_eq!(m.read(50000), Err(MemFault::AddressOutOfRange(50000)));
    assert_eq!(m.write(50000, 1), Err(MemFault::AddressOutOfRange(50000)));
    assert_eq!(m.write(49999, 1), Ok(()));
    assert_eq!(m.read(49999), Ok(1));
}

#[test]
fn arithmetic_opcodes_other_than_add() {
    for &(op, kind) in [(SUB, ArithOp::Sub), (MUL, ArithOp::Mul)].iter() {
        let mut m = machine(&vec![encode_binary(op, 0, 0)]);
        assert_eq!(m.step(), Effect::Compute(kind, 0, 0));
    }
    let m = machine(&vec![encode_plain(OUT_N)]);
    assert_eq!(m.program_len(), 1);
    assert!(IN_N < OUT_N);
}

#[test]
fn regions_are_ordered_and_apart() {
    let stack = tpm::state::stack_region();
    let vars = tpm::state::variable_region();
    assert_eq!((stack.first, stack.last), (30001, 40000));
    assert_eq!((vars.first, vars.last), (40001, 49999));
    assert!(stack.contains(30001) && stack.contains(40000) && !stack.contains(40001));
    assert!(vars.contains(40001) && !vars.contains(50000));
    assert_eq!(Vm::new().program_region(), None);
    let m = machine(&vec![encode_plain(HALT); 3]);
    let p = m.program_region().unwrap();
    assert_eq!((p.first, p.last), (0, 2));
    assert!(p.last < stack.first);
}

#[test]
fn handlers_called_directly() {
    let mut m = machine(&vec![encode_register(PUSH, 2), encode_register(POP, 6)]);
    m.set_register(2, 5).unwrap();
    assert_eq!(m.get_register_index(), 2);
    m.process_push();
    assert_eq!(m.get_register_index(), 6);
    m.process_pop();
    assert_eq!(m.register(6), Ok(5));
    assert_eq!(m.ip(), 2);
    let mut m = machine(&vec![encode_address(JGR, 9)]);
    m.process_jgr();
    assert_eq!(m.ip(), 1);
    let mut m = machine(&vec![encode_address(JMP, 9)]);
    m.process_jmp();
    assert_eq!(m.ip(), 9);
    let mut m = machine(&vec![encode_binary(ADD, 1, 2)]);
    m.set_register(1, 3).unwrap();
    m.set_register(2, 4).unwrap();
    assert_eq!(m.get_operands(), Ok((3, 4)));
    assert_eq!(m.process_out_n(), 0);
    assert_eq!(m.ip(), 1);
}
