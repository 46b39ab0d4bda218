use wasm_runner::error::PipelineError;
use wasm_runner::format::{accept_translation, inspect, is_wasm_binary, Inspection};

#[test]
fn magic_prefix_is_recognised() {
    assert!(is_wasm_binary(&[0x00, 0x61, 0x73, 0x6d, 0x01, 0x00, 0x00, 0x00]));
    assert!(is_wasm_binary(b"\0asm"));
}

#[test]
fn anything_else_is_not_binary() {
    assert!(!is_wasm_binary(&[]));
    assert!(!is_wasm_binary(&[0x00, 0x61, 0x73]));
    assert!(!is_wasm_binary(b"(module)"));
    assert!(!is_wasm_binary(&[0x01, 0x61, 0x73, 0x6d]));
    assert!(!is_wasm_binary(&[0x00, 0x61, 0x73, 0x6e]));
    assert!(!is_wasm_binary(&[0x61, 0x73, 0x6d, 0x00]));
}

#[test]
fn binary_input_is_handed_back_unchanged() {
    let raw = vec![0x00, 0x61, 0x73, 0x6d, 0x01, 0x00, 0x00, 0x00, 0xff];
    assert_eq!(inspect(raw.clone()), Inspection::Binary(raw));
}

#[test]
fn textual_input_is_sent_to_the_translator_whole() {
    let raw = b"(module (func))".to_vec();
    assert_eq!(inspect(raw.clone()), Inspection::Text(raw));
}

#[test]
fn translation_is_taken_as_it_comes() {
    let binary = vec![0x00, 0x61, 0x73, 0x6d, 0x01, 0x00, 0x00, 0x00];
    assert_eq!(accept_translation(Ok(binary.clone())), Ok(binary));
}

#[test]
fn failed_translation_is_a_format_conversion_error() {
    assert_eq!(
        accept_translation(Err(String::from("unexpected token"))),
        Err(PipelineError::FormatConversion(String::from("unexpected token")))
    );
}
