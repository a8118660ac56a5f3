use tpm::codec::{encode_address, encode_binary, encode_plain, encode_register};
use tpm::loader::{assemble_records, encode_line, parse_number, split_fields};
use tpm::state::{ADD, CON, HALT, JGE, PROGRAM_CAP, PUSH};
use tpm::{vm, Instructions, LoadError, Vm};

#[test]
fn standard_table_gives_opcodes() {
    let t = Instructions::standard();
    assert_eq!(t.opcode("HALT"), Some(0));
    assert_eq!(t.opcode("PUSH"), Some(10));
    assert_eq!(t.opcode("JLS"), Some(0x14));
    assert_eq!(t.opcode("push"), None);
    assert_eq!(t.opcode(""), None);
    assert_eq!(t.push, "PUSH");
}

#[test]
fn numbers_parse_in_decimal() {
    assert_eq!(parse_number("0"), Some(0));
    assert_eq!(parse_number("4617315517961601024"), Some(4617315517961601024));
    assert_eq!(parse_number("18446744073709551615"), Some(u64::MAX));
    assert_eq!(parse_number("18446744073709551616"), None);
    assert_eq!(parse_number("99999999999999999999x"), None);
    assert_eq!(parse_number(""), None);
    assert_eq!(parse_number("12a"), None);
    assert_eq!(parse_number("-1"), None);
}

#[test]
fn fields_split_on_spaces() {
    assert_eq!(split_fields("  PUSH   3 "), vec![(2, 6), (9, 10)]);
    assert_eq!(split_fields("ADD 1 2"), vec![(0, 3), (4, 5), (6, 7)]);
    assert_eq!(split_fields("   "), vec![]);
}

#[test]
fn records_encode_to_words() {
    let t = Instructions::standard();
    assert_eq!(encode_line(&t, "HALT", 0), Ok(vec![encode_plain(HALT)]));
    assert_eq!(encode_line(&t, " ADD 3  12", 0), Ok(vec![encode_binary(ADD, 3, 12)]));
    assert_eq!(encode_line(&t, "PUSH 10", 0), Ok(vec![encode_register(PUSH, 10)]));
    assert_eq!(encode_line(&t, "CON 1 77", 0), Ok(vec![encode_register(CON, 1), 77]));
    assert_eq!(encode_line(&t, "JGE 4294967295", 0), Ok(vec![encode_address(JGE, u32::MAX)]));
}

#[test]
fn record_errors_name_the_record() {
    let t = Instructions::standard();
    assert_eq!(encode_line(&t, "  ", 3), Err(LoadError::EmptyRecord(3)));
    assert_eq!(encode_line(&t, "NOP", 4), Err(LoadError::UnknownMnemonic(4)));
    assert_eq!(encode_line(&t, "HALT 1", 5), Err(LoadError::OperandCount(5)));
    assert_eq!(encode_line(&t, "ADD 1", 6), Err(LoadError::OperandCount(6)));
    assert_eq!(encode_line(&t, "ADD 1 16", 7), Err(LoadError::BadOperand(7)));
    assert_eq!(encode_line(&t, "PUSH 32", 8), Err(LoadError::BadOperand(8)));
    assert_eq!(encode_line(&t, "JMP 4294967296", 9), Err(LoadError::BadOperand(9)));
    assert_eq!(encode_line(&t, "CON x 1", 10), Err(LoadError::BadOperand(10)));
    assert_eq!(encode_line(&t, "POP", 11), Err(LoadError::OperandCount(11)));
}

#[test]
fn first_bad_record_wins() {
    let t = Instructions::standard();
    let code = vec!["HALT".to_string(), "FOO".to_string(), "ADD 1".to_string()];
    assert_eq!(assemble_records(&t, &code), Err(LoadError::UnknownMnemonic(1)));
    let code = vec!["CON 0 5".to_string(), "HALT".to_string()];
    assert_eq!(assemble_records(&t, &code), Ok(vec![encode_register(CON, 0), 5, encode_plain(HALT)]));
}

#[test]
fn load_places_program_and_keeps_machine_on_error() {
    let t = Instructions::standard();
    let mut m = Vm::new();
    assert_eq!(m.load_code(&t, vec!["PUSH 1".to_string(), "HALT".to_string()]), Ok(()));
    assert_eq!(m.program_len(), 2);
    assert_eq!(m.read(0), Ok(encode_register(PUSH, 1)));
    assert_eq!(m.load_code(&t, vec!["BAD".to_string()]), Err(LoadError::UnknownMnemonic(0)));
    assert_eq!(m.program_len(), 2);
}

#[test]
fn program_longer_than_region_is_refused() {
    let code = vec!["HALT".to_string(); PROGRAM_CAP + 1];
    assert!(matches!(vm(code), Err(LoadError::ProgramTooLong)));
    let mut m = Vm::new();
    assert_eq!(m.load_program(&vec![0; PROGRAM_CAP + 1]), Err(LoadError::ProgramTooLong));
    assert_eq!(m.load_program(&vec![0; PROGRAM_CAP]), Ok(()));
    assert_eq!(m.program_len(), PROGRAM_CAP);
}
