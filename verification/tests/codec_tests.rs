use discord_bot::codec::{
    decode, heartbeat_frame, hello_interval, identify_frame, GatewayError,
};
use discord_bot::text::{json_quote, parse_u64, str_eq, u64_to_string};

#[test]
fn decode_reads_every_field() {
    let env = decode("{\"op\":0,\"d\":{\"k\":1},\"s\":42,\"t\":\"MESSAGE_CREATE\"}").unwrap();
    assert_eq!(env.opcode, 0);
    assert_eq!(env.sequence, Some(42));
    assert_eq!(env.event_name.as_deref(), Some("MESSAGE_CREATE"));
    assert_eq!(env.heartbeat_interval, None);
}

#[test]
fn decode_hello_payload() {
    let env = decode("{\"op\":10,\"d\":{\"heartbeat_interval\":45000}}").unwrap();
    assert_eq!(env.opcode, 10);
    assert_eq!(env.heartbeat_interval, Some(45000));
    assert_eq!(hello_interval(&env), Ok(45000));
}

#[test]
fn decode_rejects_text_outside_the_grammar() {
    assert_eq!(decode("not json at all").unwrap_err(), GatewayError::MalformedFrame);
    assert_eq!(decode("").unwrap_err(), GatewayError::MalformedFrame);
    assert_eq!(decode("[1,2,3]").unwrap_err(), GatewayError::MalformedFrame);
    assert_eq!(decode("17").unwrap_err(), GatewayError::MalformedFrame);
}

#[test]
fn decode_requires_the_opcode() {
    assert_eq!(decode("{\"d\":null}").unwrap_err(), GatewayError::MalformedFrame);
    assert_eq!(decode("{\"op\":\"x\"}").unwrap_err(), GatewayError::MalformedFrame);
    assert_eq!(decode("{\"op\":-1}").unwrap_err(), GatewayError::MalformedFrame);
}

#[test]
fn hello_without_interval_is_a_protocol_violation() {
    let env = decode("{\"op\":10,\"d\":{}}").unwrap();
    assert_eq!(hello_interval(&env), Err(GatewayError::ProtocolViolation));
    let env = decode("{\"op\":10,\"d\":null}").unwrap();
    assert_eq!(hello_interval(&env), Err(GatewayError::ProtocolViolation));
    let env = decode("{\"op\":10,\"d\":{\"heartbeat_interval\":\"soon\"}}").unwrap();
    assert_eq!(hello_interval(&env), Err(GatewayError::ProtocolViolation));
    let env = decode("{\"op\":11,\"d\":null}").unwrap();
    assert_eq!(hello_interval(&env), Err(GatewayError::ProtocolViolation));
}

#[test]
fn heartbeat_frame_carries_the_sequence() {
    assert_eq!(heartbeat_frame(None), "{\"op\":1,\"d\":null}");
    assert_eq!(heartbeat_frame(Some(0)), "{\"op\":1,\"d\":0}");
    assert_eq!(heartbeat_frame(Some(123)), "{\"op\":1,\"d\":123}");
}

#[test]
fn identify_frame_embeds_the_quoted_token() {
    assert_eq!(
        identify_frame("abc"),
        "{\"op\":2,\"d\":{\"token\":\"abc\",\"intents\":0,\"properties\":{\"$browser\":\"discord-rs\",\"$device\":\"discord-rs\"}}}"
    );
}

#[test]
fn identify_frame_escapes_the_token() {
    let frame = identify_frame("a\"b\\c");
    assert_eq!(
        frame,
        "{\"op\":2,\"d\":{\"token\":\"a\\\"b\\\\c\",\"intents\":0,\"properties\":{\"$browser\":\"discord-rs\",\"$device\":\"discord-rs\"}}}"
    );
    let parsed: serde_json::Value = serde_json::from_str(&frame).unwrap();
    assert_eq!(parsed["d"]["token"].as_str(), Some("a\"b\\c"));
}

#[test]
fn json_quote_wraps_and_escapes() {
    assert_eq!(json_quote("plain"), "\"plain\"");
    assert_eq!(json_quote(""), "\"\"");
    assert_eq!(json_quote("a\"b"), "\"a\\\"b\"");
    assert_eq!(json_quote("a\nb"), "\"a\\nb\"");
}

#[test]
fn u64_renders_in_decimal() {
    assert_eq!(u64_to_string(0), "0");
    assert_eq!(u64_to_string(7), "7");
    assert_eq!(u64_to_string(4567), "4567");
    assert_eq!(u64_to_string(u64::MAX), "18446744073709551615");
}

#[test]
fn parse_u64_accepts_digit_strings() {
    assert_eq!(parse_u64("0"), Some(0));
    assert_eq!(parse_u64("123"), Some(123));
    assert_eq!(parse_u64("007"), Some(7));
    assert_eq!(parse_u64("18446744073709551615"), Some(u64::MAX));
}

#[test]
fn parse_u64_accepts_one_leading_plus() {
    assert_eq!(parse_u64("+5"), Some(5));
    assert_eq!(parse_u64("+0"), Some(0));
    assert_eq!(parse_u64("+18446744073709551615"), Some(u64::MAX));
    assert_eq!(parse_u64("+"), None);
    assert_eq!(parse_u64("++5"), None);
    assert_eq!(parse_u64("5+"), None);
}

#[test]
fn parse_u64_rejects_everything_else() {
    assert_eq!(parse_u64(""), None);
    assert_eq!(parse_u64("12a"), None);
    assert_eq!(parse_u64("-1"), None);
    assert_eq!(parse_u64(" 1"), None);
    assert_eq!(parse_u64("18446744073709551616"), None);
}

#[test]
fn str_eq_compares_characters() {
    assert!(str_eq("abc", "abc"));
    assert!(!str_eq("abc", "abd"));
    assert!(!str_eq("abc", "ab"));
}
