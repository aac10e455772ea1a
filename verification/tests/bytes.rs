use mir_interpreter::bytes::{bits_to_int, decode_uint, encode_uint, int_to_bits};
use mir_interpreter::error::{ErrorClass, EvalError};

#[test]
fn encoding_puts_the_low_byte_first() {
    assert_eq!(encode_uint(0x0102_0304, 4), vec![4, 3, 2, 1]);
    assert_eq!(encode_uint(0x0102_0304, 2), vec![4, 3]);
    assert_eq!(encode_uint(7, 0), Vec::<u8>::new());
    assert_eq!(encode_uint(u64::MAX, 8), vec![0xff; 8]);
}

#[test]
fn decoding_undoes_encoding() {
    assert_eq!(decode_uint(&vec![4, 3, 2, 1]), 0x0102_0304);
    assert_eq!(decode_uint(&vec![]), 0);
    assert_eq!(decode_uint(&encode_uint(0xdead_beef_1234_5678, 8)), 0xdead_beef_1234_5678);
    assert_eq!(decode_uint(&encode_uint(0xdead_beef_1234_5678, 3)), 0x34_5678);
}

#[test]
fn signed_numbers_are_twos_complement() {
    assert_eq!(int_to_bits(-1, 1), 0xff);
    assert_eq!(int_to_bits(-1, 8), u64::MAX);
    assert_eq!(int_to_bits(-129, 1), 0x7f);
    assert_eq!(int_to_bits(i64::MIN, 4), 0);
    assert_eq!(int_to_bits(300, 2), 300);
    assert_eq!(bits_to_int(0xff, 1), -1);
    assert_eq!(bits_to_int(0x7f, 1), 127);
    assert_eq!(bits_to_int(0x8000, 2), -32768);
    assert_eq!(bits_to_int(0xffff_fffe, 4), -2);
    assert_eq!(bits_to_int(u64::MAX, 8), -1);
    assert_eq!(bits_to_int(1 << 63, 8), i64::MIN);
}

#[test]
fn every_error_has_a_class() {
    assert_eq!(EvalError::ReadUndefBytes.class(), ErrorClass::MemoryFault);
    assert_eq!(EvalError::ExecutionTimeLimitReached.class(), ErrorClass::ResourceExhausted);
    assert_eq!(EvalError::InlineAsm.class(), ErrorClass::UnsupportedOperation);
    assert_eq!(EvalError::UnsupportedFloat.class(), ErrorClass::UnsupportedOperation);
    assert_eq!(EvalError::AssumptionNotHeld.class(), ErrorClass::InvalidProgramState);
    assert_eq!(EvalError::InvalidChar(1).class(), ErrorClass::InvalidProgramState);
    assert_eq!(EvalError::MissingStatic.class(), ErrorClass::InvalidProgramState);
    assert_eq!(EvalError::ModifiedConstantMemory.class(), ErrorClass::MemoryFault);
}
