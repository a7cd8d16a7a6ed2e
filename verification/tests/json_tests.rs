//! The wire-text building blocks: JSON string escaping, decimal formatting,
//! string arrays, and nonce attachment.

use discord_ipc_rust::json::bool_json;
use discord_ipc_rust::json::i32_dec;
use discord_ipc_rust::json::json_quote;
use discord_ipc_rust::json::string_array_json;
use discord_ipc_rust::json::u32_dec;
use discord_ipc_rust::json::u64_dec;
use discord_ipc_rust::utils::attach_nonce;
use discord_ipc_rust::utils::create_packet_json;
use discord_ipc_rust::DiscordRPCError;

#[test]
fn quote_wraps_plain_text() {
    assert_eq!(json_quote("hello"), "\"hello\"");
    assert_eq!(json_quote(""), "\"\"");
}

#[test]
fn quote_escapes_quotes_and_backslashes() {
    assert_eq!(json_quote("a\"b"), "\"a\\\"b\"");
    assert_eq!(json_quote("a\\b"), "\"a\\\\b\"");
}

#[test]
fn quote_escapes_control_characters() {
    assert_eq!(json_quote("a\nb"), "\"a\\u000ab\"");
    assert_eq!(json_quote("\t"), "\"\\u0009\"");
    assert_eq!(json_quote("\u{0}"), "\"\\u0000\"");
    assert_eq!(json_quote("\u{1f}"), "\"\\u001f\"");
}

#[test]
fn quote_keeps_other_characters_unchanged() {
    assert_eq!(json_quote("caf\u{e9} \u{1f600}"), "\"caf\u{e9} \u{1f600}\"");
}

#[test]
fn unsigned_decimals_print_all_digits() {
    assert_eq!(u64_dec(0), "0");
    assert_eq!(u64_dec(7), "7");
    assert_eq!(u64_dec(1234567890), "1234567890");
    assert_eq!(u64_dec(u64::MAX), "18446744073709551615");
    assert_eq!(u32_dec(u32::MAX), "4294967295");
}

#[test]
fn signed_decimals_carry_the_sign() {
    assert_eq!(i32_dec(0), "0");
    assert_eq!(i32_dec(42), "42");
    assert_eq!(i32_dec(-1), "-1");
    assert_eq!(i32_dec(-123), "-123");
    assert_eq!(i32_dec(i32::MIN), "-2147483648");
    assert_eq!(i32_dec(i32::MAX), "2147483647");
}

#[test]
fn booleans_spell_true_and_false() {
    assert_eq!(bool_json(true), "true");
    assert_eq!(bool_json(false), "false");
}

#[test]
fn string_arrays_quote_each_item_in_order() {
    assert_eq!(string_array_json(&vec![]), "[]");
    assert_eq!(string_array_json(&vec!["rpc".to_string()]), "[\"rpc\"]");
    assert_eq!(
        string_array_json(&vec!["rpc".to_string(), "identify".to_string()]),
        "[\"rpc\",\"identify\"]"
    );
    assert_eq!(string_array_json(&vec!["a\"b".to_string()]), "[\"a\\\"b\"]");
}

#[test]
fn attach_nonce_appends_the_member_before_the_closing_brace() {
    let out = attach_nonce("{\"cmd\":\"GET_GUILDS\"}", "abc").unwrap();
    assert_eq!(out, "{\"cmd\":\"GET_GUILDS\",\"nonce\":\"abc\"}");
}

#[test]
fn attach_nonce_on_an_empty_object_needs_no_comma() {
    let out = attach_nonce("{}", "n1").unwrap();
    assert_eq!(out, "{\"nonce\":\"n1\"}");
}

#[test]
fn attach_nonce_treats_a_whitespace_object_as_empty() {
    let out = attach_nonce("{ }", "n2").unwrap();
    assert_eq!(out, "{ \"nonce\":\"n2\"}");
    let doc: serde_json::Value = serde_json::from_str(&out).unwrap();
    assert_eq!(doc.get("nonce").unwrap().as_str().unwrap(), "n2");
}

#[test]
fn attach_nonce_rejects_non_object_text() {
    assert_eq!(attach_nonce("[1,2]", "n"), Err(DiscordRPCError::SerdeJson));
    assert_eq!(attach_nonce("x", "n"), Err(DiscordRPCError::SerdeJson));
    assert_eq!(attach_nonce("", "n"), Err(DiscordRPCError::SerdeJson));
    assert_eq!(attach_nonce("{\"a\":1}]", "n"), Err(DiscordRPCError::SerdeJson));
}

#[test]
fn packet_json_keeps_the_command_and_adds_a_valid_nonce() {
    let out = create_packet_json("{\"cmd\":\"GET_GUILDS\"}").unwrap();
    assert!(out.starts_with("{\"cmd\":\"GET_GUILDS\",\"nonce\":\""));
    assert!(out.ends_with("\"}"));
    let doc: serde_json::Value = serde_json::from_str(&out).unwrap();
    assert_eq!(doc.get("cmd").unwrap().as_str().unwrap(), "GET_GUILDS");
    let nonce = doc.get("nonce").unwrap().as_str().unwrap();
    assert_eq!(nonce.len(), 36);
    assert!(nonce.chars().all(|c| c.is_ascii_hexdigit() || c == '-'));
}

#[test]
fn packet_json_rejects_non_object_text() {
    assert_eq!(create_packet_json("17"), Err(DiscordRPCError::SerdeJson));
}

#[test]
fn consecutive_packets_carry_distinct_nonces() {
    let a = create_packet_json("{\"cmd\":\"GET_GUILDS\"}").unwrap();
    let b = create_packet_json("{\"cmd\":\"GET_GUILDS\"}").unwrap();
    let na = serde_json::from_str::<serde_json::Value>(&a).unwrap()["nonce"]
        .as_str()
        .unwrap()
        .to_string();
    let nb = serde_json::from_str::<serde_json::Value>(&b).unwrap()["nonce"]
        .as_str()
        .unwrap()
        .to_string();
    assert_ne!(na, nb);
}
