use webf_sys::c_string::copy_c_string;
use webf_sys::c_string::raw_c_string;
use webf_sys::exception_state::ExceptionState;

#[test]
fn raw_c_string_appends_the_terminator() {
    let raw = raw_c_string(&"abc".to_string());
    assert_eq!(raw, "abc\0".to_string());
    let raw = raw_c_string(&"".to_string());
    assert_eq!(raw, "\0".to_string());
}

#[test]
fn copy_c_string_stops_at_the_first_terminator() {
    assert_eq!(copy_c_string("abc\0"), "abc".to_string());
    assert_eq!(copy_c_string("\0"), "".to_string());
    assert_eq!(copy_c_string("abc\0def\0"), "abc".to_string());
}

#[test]
fn rendering_and_copying_out_round_trips() {
    let content = "https://example.test/#fragment".to_string();
    let raw = raw_c_string(&content);
    assert_eq!(copy_c_string(raw.as_str()), content);
}

#[test]
fn a_fresh_exception_slot_is_clear() {
    let slot = ExceptionState::new();
    assert!(!slot.has_exception());
}
