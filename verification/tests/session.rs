use microwave::ovr::OvrError;
use microwave::session::{char_array_to_string, failed};

fn buffer(text: &[u8], size: usize) -> Vec<i8> {
    let mut chars: Vec<i8> = text.iter().map(|&b| b as i8).collect();
    chars.resize(size, 0);
    chars
}

#[test]
fn padded_buffer_reads_as_its_text() {
    assert_eq!(char_array_to_string(&buffer(b"Oculus Rift S", 64)), "Oculus Rift S");
}

#[test]
fn empty_buffer_reads_as_empty_text() {
    assert_eq!(char_array_to_string(&[]), "");
    assert_eq!(char_array_to_string(&[0; 64]), "");
}

#[test]
fn zeros_are_dropped_wherever_they_stand() {
    let chars: Vec<i8> = vec![0, 97, 0, 0, 98, 99, 0, 100, 0];
    assert_eq!(char_array_to_string(&chars), "abcd");
}

#[test]
fn high_bytes_are_read_as_utf8() {
    let chars = buffer("Qu\u{e9}st \u{2713}".as_bytes(), 32);
    assert!(chars.iter().any(|&c| c < 0));
    assert_eq!(char_array_to_string(&chars), "Qu\u{e9}st \u{2713}");
}

#[test]
fn invalid_utf8_reads_as_unknown() {
    assert_eq!(char_array_to_string(&[-1, 0, 0]), "Unknown");
    assert_eq!(char_array_to_string(&[72, 105, -128]), "Unknown");
    assert_eq!(char_array_to_string(&[-61]), "Unknown");
}

#[test]
fn a_zero_inside_a_sequence_does_not_split_it() {
    let chars: Vec<i8> = vec![-61, 0, -87];
    assert_eq!(char_array_to_string(&chars), "\u{e9}");
}

#[test]
fn negative_results_are_failures() {
    assert!(failed(-1));
    assert!(failed(-3001));
    assert!(failed(i32::MIN));
    assert!(!failed(0));
    assert!(!failed(1));
    assert!(!failed(i32::MAX));
}

#[test]
fn driver_error_keeps_code_and_reads_reason() {
    let error = OvrError::from_driver(123, &buffer(b"not found", 512));
    assert_eq!(error.code, 123);
    assert_eq!(error.reason, "not found");
    let error = OvrError::from_driver(-3001, &[-1, -2]);
    assert_eq!(error.code, -3001);
    assert_eq!(error.reason, "Unknown");
}
