//! Exact wire text of outgoing messages, and the offset conversions at the
//! layout boundary.

use xi_win::protocol::{
    chars_params_string, edit_params_string, file_params_string, int_pair_string,
    new_view_params_string, notification_string, point_select_params_string, request_string,
    str_eq,
};
use xi_win::textline::conv_utf16_to_utf8_offset;
use xi_win::util::{FromWide, ToWide};

#[test]
fn notification_text_is_exact() {
    let msg = notification_string("client_started", "{}");
    assert_eq!(msg, "{\"method\":\"client_started\",\"params\":{}}");
}

#[test]
fn request_text_carries_id() {
    let msg = request_string("new_view", "{}", 0);
    assert_eq!(msg, "{\"method\":\"new_view\",\"params\":{},\"id\":0}");
    let msg = request_string("new_view", "{}", 41);
    assert_eq!(msg, "{\"method\":\"new_view\",\"params\":{},\"id\":41}");
}

#[test]
fn edit_params_wrap_command_and_view() {
    let params = edit_params_string("move_up", "[]", "view-id-1");
    assert_eq!(params, "{\"method\":\"move_up\",\"params\":[],\"view_id\":\"view-id-1\"}");
}

#[test]
fn chars_params_escape_specials() {
    let params = chars_params_string("a\"b\\c\n");
    assert_eq!(params, "{\"chars\":\"a\\\"b\\\\c\\u000a\"}");
}

#[test]
fn point_select_params_text() {
    let params = point_select_params_string(7, 12);
    assert_eq!(params, "{\"ty\":\"point_select\",\"line\":7,\"col\":12}");
}

#[test]
fn int_pair_text() {
    assert_eq!(int_pair_string(0, 18), "[0,18]");
}

#[test]
fn file_params_text() {
    let params = file_params_string("view-id-2", "C:\\notes.txt");
    assert_eq!(params, "{\"view_id\":\"view-id-2\",\"file_path\":\"C:\\\\notes.txt\"}");
}

#[test]
fn decimal_rendering_is_exact() {
    assert_eq!(int_pair_string(10, 18446744073709551615), "[10,18446744073709551615]");
}

#[test]
fn serialized_messages_parse_back() {
    let msg = notification_string("edit", &edit_params_string("insert", "{\"chars\":\"\\u0009\"}", "v"));
    let v: serde_json::Value = serde_json::from_str(&msg).unwrap();
    assert_eq!(v["method"].as_str().unwrap(), "edit");
    assert_eq!(v["params"]["method"].as_str().unwrap(), "insert");
    assert_eq!(v["params"]["params"]["chars"].as_str().unwrap(), "\t");
}

#[test]
fn new_view_params_with_and_without_file() {
    assert_eq!(new_view_params_string(None), "{}");
    assert_eq!(
        new_view_params_string(Some("a.txt")),
        "{\"file_path\":\"a.txt\"}"
    );
}

#[test]
fn str_eq_compares_content() {
    assert!(str_eq("update", "update"));
    assert!(!str_eq("update", "scroll_to"));
    assert!(!str_eq("", "a"));
}

#[test]
fn utf16_offsets_in_ascii_are_identity() {
    assert_eq!(conv_utf16_to_utf8_offset("hello", 0), 0);
    assert_eq!(conv_utf16_to_utf8_offset("hello", 3), 3);
    assert_eq!(conv_utf16_to_utf8_offset("hello", 5), 5);
    assert_eq!(conv_utf16_to_utf8_offset("hello", 99), 5);
}

#[test]
fn utf16_offsets_cross_multibyte() {
    // 'é' is one UTF-16 unit but two UTF-8 bytes.
    let s = "h\u{e9}llo";
    assert_eq!(conv_utf16_to_utf8_offset(s, 1), 1);
    assert_eq!(conv_utf16_to_utf8_offset(s, 2), 3);
}

#[test]
fn utf16_offset_inside_surrogate_pair_resolves_to_char_start() {
    // U+1D11E takes two UTF-16 units and four UTF-8 bytes.
    let s = "a\u{1d11e}b";
    assert_eq!(conv_utf16_to_utf8_offset(s, 0), 0);
    assert_eq!(conv_utf16_to_utf8_offset(s, 1), 1);
    assert_eq!(conv_utf16_to_utf8_offset(s, 2), 1);
    assert_eq!(conv_utf16_to_utf8_offset(s, 3), 5);
    assert_eq!(conv_utf16_to_utf8_offset(s, 4), 6);
}

#[test]
fn to_wide_encodes_ascii_and_terminates() {
    assert_eq!("ab".to_wide_sized(), vec![97u16, 98u16]);
    assert_eq!("ab".to_wide(), vec![97u16, 98u16, 0u16]);
}

#[test]
fn to_wide_encodes_surrogate_pairs() {
    assert_eq!("\u{1d11e}".to_wide_sized(), vec![0xd834u16, 0xdd1eu16]);
}

#[test]
fn from_wide_round_trips() {
    let wide = "caf\u{e9} \u{1d11e}".to_wide_sized();
    let back = wide.as_slice().from_wide().unwrap();
    assert_eq!(back, "caf\u{e9} \u{1d11e}");
}

#[test]
fn from_wide_rejects_lone_surrogate() {
    let lone: Vec<u16> = vec![0xd834u16];
    assert!(lone.as_slice().from_wide().is_none());
    let swapped: Vec<u16> = vec![0xdd1eu16, 0xd834u16];
    assert!(swapped.as_slice().from_wide().is_none());
}
