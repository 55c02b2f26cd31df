use llama_xet::cstr::{cstr_to_opt_string, cstr_to_string, decimal};
use llama_xet::last_error::{get_ptr, LastError};
use llama_xet::session::{abort_inner, new_inner};
use llama_xet::LXET_ERR_INVALID_ARG;

#[test]
fn new_free_roundtrip_with_nulls() {
    let mut slot = LastError::new();
    let s = new_inner(&mut slot, None, None, None);
    assert!(s.is_some(), "session_new should succeed with NULL args");
    assert_eq!(get_ptr(&slot), &[0u8][..]);
    drop(s);
}

#[test]
fn new_captures_fields() {
    let mut slot = LastError::new();
    let s = new_inner(
        &mut slot,
        Some(b"https://cas.example"),
        Some(b"hf_xxx"),
        Some(b"https://hf/api/.../xet-read-token/main"),
    )
    .unwrap();
    assert_eq!(s.endpoint.as_deref(), Some("https://cas.example"));
    assert_eq!(s.bearer_token.as_deref(), Some("hf_xxx"));
    assert_eq!(s.token_refresh_url.as_deref(), Some("https://hf/api/.../xet-read-token/main"));
}

#[test]
fn new_drops_non_utf8_fields() {
    let mut slot = LastError::new();
    llama_xet::last_error::set(&mut slot, "stale");
    let s = new_inner(&mut slot, Some(&[0xff, 0x00]), None, Some(b"u")).unwrap();
    assert_eq!(s.endpoint, None);
    assert_eq!(s.bearer_token, None);
    assert_eq!(s.token_refresh_url.as_deref(), Some("u"));
    assert_eq!(get_ptr(&slot), &[0u8][..]);
}

#[test]
fn abort_null_is_safe() {
    abort_inner(None);
}

#[test]
fn abort_live_session_is_safe() {
    let mut slot = LastError::new();
    let s = new_inner(&mut slot, None, None, None).unwrap();
    abort_inner(Some(&s));
}

#[test]
fn cstr_to_string_cases() {
    let f = cstr_to_string(None, "endpoint").err().unwrap();
    assert_eq!(f.code, LXET_ERR_INVALID_ARG);
    assert_eq!(f.message, "endpoint pointer is NULL");
    let f = cstr_to_string(Some(&[0x80]), "token").err().unwrap();
    assert_eq!(f.code, LXET_ERR_INVALID_ARG);
    assert_eq!(f.message, "token is not valid UTF-8");
    assert_eq!(cstr_to_string(Some("grüße".as_bytes()), "x").ok().unwrap(), "grüße");
    assert_eq!(cstr_to_string(Some(b""), "x").ok().unwrap(), "");
}

#[test]
fn cstr_to_opt_string_cases() {
    assert_eq!(cstr_to_opt_string(None), None);
    assert_eq!(cstr_to_opt_string(Some(&[0xed, 0xa0, 0x80])), None);
    assert_eq!(cstr_to_opt_string(Some(b"ok")).as_deref(), Some("ok"));
}

#[test]
fn decimal_renders_like_format() {
    for n in [0usize, 7, 10, 99, 100, 305, 4096, 1234567890, usize::MAX] {
        assert_eq!(decimal(n), format!("{n}"));
    }
}
