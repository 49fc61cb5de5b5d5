use tank_maze::network::{
    decode_host_code, encode_host_code, host_code_text_from_bytes, is_host_answer, is_host_choice,
    player_id_for, HostCodeError,
};

#[test]
fn host_code_known_value() {
    assert_eq!(encode_host_code("hi"), "aGk=");
    assert_eq!(encode_host_code(""), "");
    assert_eq!(encode_host_code("{\"id\":1}"), "eyJpZCI6MX0=");
}

#[test]
fn host_code_round_trip() {
    for text in ["", "a", "{\"node_id\":\"abc\",\"relay\":null}", "ünïcode ✓"] {
        let code = encode_host_code(text);
        assert_eq!(decode_host_code(&code), Ok(text.to_string()));
    }
}

#[test]
fn host_code_trims_whitespace() {
    assert_eq!(decode_host_code("  aGk=\n"), Ok("hi".to_string()));
}

#[test]
fn host_code_bad_base64() {
    assert_eq!(decode_host_code("not base64!"), Err(HostCodeError::InvalidBase64));
    assert_eq!(decode_host_code("aGk"), Err(HostCodeError::InvalidBase64));
}

#[test]
fn host_code_bad_utf8() {
    // "/w==" is the byte 0xFF.
    assert_eq!(decode_host_code("/w=="), Err(HostCodeError::InvalidUtf8));
}

#[test]
fn host_choice_parsing() {
    assert!(is_host_choice("h"));
    assert!(is_host_choice("H\n"));
    assert!(is_host_choice("  h  "));
    assert!(!is_host_choice("c"));
    assert!(!is_host_choice("host"));
    assert!(!is_host_choice(""));
    assert_eq!(player_id_for(true), 0);
    assert_eq!(player_id_for(false), 1);
}

#[test]
fn host_answer_after_trim() {
    assert!(is_host_answer("h"));
    assert!(is_host_answer("H"));
    assert!(!is_host_answer(" h"));
    assert!(!is_host_answer("hh"));
    assert!(!is_host_answer(""));
}

#[test]
fn text_from_decoded_bytes() {
    assert_eq!(host_code_text_from_bytes(None), Err(HostCodeError::InvalidBase64));
    assert_eq!(host_code_text_from_bytes(Some(vec![0xC3, 0x28])), Err(HostCodeError::InvalidUtf8));
    assert_eq!(host_code_text_from_bytes(Some(vec![0x68, 0x69])), Ok("hi".to_string()));
    assert_eq!(host_code_text_from_bytes(Some(vec![])), Ok(String::new()));
}

#[test]
fn host_code_round_trip_as_read_from_a_line() {
    let code = encode_host_code("{\"addr\":42}");
    let line = format!("{}\n", code);
    assert_eq!(decode_host_code(&line), Ok("{\"addr\":42}".to_string()));
    let padded = format!(" \t{}\r\n", code);
    assert_eq!(decode_host_code(&padded), Ok("{\"addr\":42}".to_string()));
}
