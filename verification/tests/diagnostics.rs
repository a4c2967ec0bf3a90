use instruction_decoder::decode::DecodeError;
use instruction_decoder::diag::diagnostic_line;
use instruction_decoder::diag::u64_to_decimal;
use instruction_decoder::process_instruction;

#[test]
fn decimal_of_zero_is_a_single_digit() {
    assert_eq!(u64_to_decimal(0), "0");
}

#[test]
fn decimal_of_a_multi_digit_value() {
    assert_eq!(u64_to_decimal(1234567890), "1234567890");
}

#[test]
fn decimal_of_u64_max() {
    assert_eq!(u64_to_decimal(18446744073709551615), "18446744073709551615");
}

#[test]
fn diagnostic_line_names_the_parameter_in_decimal() {
    assert_eq!(diagnostic_line(1), "value 1");
}

#[test]
fn diagnostic_line_for_zero() {
    assert_eq!(diagnostic_line(0), "value 0");
}

#[test]
fn diagnostic_line_for_u64_max() {
    assert_eq!(diagnostic_line(18446744073709551615), "value 18446744073709551615");
}

#[test]
fn processing_returns_the_decoded_value_and_its_line() {
    let r = process_instruction(&[0x02, 0x01, 0x00, 0x00, 0x00, 0x00, 0x00, 0x00, 0x00]);
    let (decoded, line) = r.expect("a non-empty buffer decodes");
    assert_eq!(decoded.opcode, 0x02);
    assert_eq!(decoded.parameter, 1);
    assert_eq!(line, "value 1");
}

#[test]
fn processing_an_empty_buffer_reports_the_malformed_instruction() {
    assert_eq!(
        process_instruction(&[]).map(|(d, _)| d),
        Err(DecodeError::MalformedInstruction)
    );
}

#[test]
fn repeated_processing_yields_identical_diagnostics() {
    let buffer: [u8; 4] = [0x07, 0x05, 0x00, 0x00];
    let first = process_instruction(&buffer).expect("non-empty");
    let second = process_instruction(&buffer).expect("non-empty");
    assert_eq!(first.0, second.0);
    assert_eq!(first.1, second.1);
}
