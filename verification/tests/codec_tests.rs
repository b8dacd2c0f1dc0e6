use vision_match::codec::{decode_response, encode_command, encode_process_request, exit_command};
use vision_match::errors::WorkerError;
use vision_match::text::{is_blank_str, str_eq, trim_end};

#[test]
fn encode_builds_verb_colon_argument_line() {
    assert_eq!(encode_command("switch", "model.bin"), "switch:model.bin\n");
    assert_eq!(encode_command("verb", ""), "verb:\n");
}

#[test]
fn encode_process_request_matches_wire_format() {
    assert_eq!(
        encode_process_request("/tmp/a.png"),
        "process_image:/tmp/a.png\n"
    );
}

#[test]
fn exit_command_is_bare_exit_line() {
    assert_eq!(exit_command(), "exit\n");
}

#[test]
fn decode_accepts_well_formed_payload_and_strips_newline() {
    let line = "{\"prediction\":\"cat\",\"confidence\":0.91,\"class_probabilities\":{\"cat\":0.91,\"dog\":0.09}}\n";
    let payload = decode_response(line).expect("well-formed payload must decode");
    assert_eq!(
        payload.text,
        "{\"prediction\":\"cat\",\"confidence\":0.91,\"class_probabilities\":{\"cat\":0.91,\"dog\":0.09}}"
    );
}

#[test]
fn decode_strips_carriage_return_and_spaces() {
    let payload = decode_response("[1, 2, 3] \r\n").expect("payload must decode");
    assert_eq!(payload.text, "[1, 2, 3]");
}

#[test]
fn decode_error_keeps_raw_text() {
    match decode_response("{not valid json\n") {
        Err(WorkerError::ProtocolDecode { raw }) => assert_eq!(raw, "{not valid json"),
        other => panic!("expected a decode error, got {:?}", other),
    }
}

#[test]
fn trim_end_removes_only_trailing_whitespace() {
    assert_eq!(trim_end("  a b \t\r\n"), "  a b");
    assert_eq!(trim_end(""), "");
    assert_eq!(trim_end("\n\n"), "");
    assert_eq!(trim_end("x"), "x");
}

#[test]
fn str_eq_compares_characters() {
    assert!(str_eq("abc", "abc"));
    assert!(!str_eq("abc", "abd"));
    assert!(!str_eq("abc", "ab"));
}

#[test]
fn blank_detection() {
    assert!(is_blank_str(""));
    assert!(is_blank_str(" \t\r\n"));
    assert!(!is_blank_str(" x "));
}
