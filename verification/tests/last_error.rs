use llama_xet::last_error::{clear, get_ptr, LastError};

fn read(slot: &LastError) -> String {
    let bytes = get_ptr(slot);
    assert_eq!(*bytes.last().unwrap(), 0u8);
    let body = &bytes[..bytes.len() - 1];
    assert!(!body.contains(&0u8));
    String::from_utf8(body.to_vec()).unwrap()
}

#[test]
fn initially_empty() {
    let slot = LastError::new();
    let ptr = get_ptr(&slot);
    assert!(!ptr.is_empty());
    assert_eq!(ptr[0], 0);
}

#[test]
fn set_get_roundtrip() {
    let mut slot = LastError::new();
    llama_xet::last_error::set(&mut slot, "download failed: 503");
    assert_eq!(read(&slot), "download failed: 503");
    clear(&mut slot);
}

#[test]
fn clear_resets_to_empty() {
    let mut slot = LastError::new();
    llama_xet::last_error::set(&mut slot, "stale");
    clear(&mut slot);
    let ptr = get_ptr(&slot);
    assert_eq!(ptr[0], 0);
}

#[test]
fn nul_in_message_is_handled() {
    let mut slot = LastError::new();
    llama_xet::last_error::set(&mut slot, "bad\0message");
    let s = read(&slot);
    assert!(s.contains("contained NUL"), "got: {s}");
    assert_eq!(s, "(llama-xet: error message contained NUL)");
    clear(&mut slot);
}

#[test]
fn overwrite_replaces_previous() {
    let mut slot = LastError::new();
    llama_xet::last_error::set(&mut slot, "first");
    llama_xet::last_error::set(&mut slot, "second");
    assert_eq!(read(&slot), "second");
    clear(&mut slot);
}

#[test]
fn unicode_message_round_trips() {
    let mut slot = LastError::new();
    llama_xet::last_error::set(&mut slot, "téléchargement échoué ✓");
    assert_eq!(read(&slot), "téléchargement échoué ✓");
    llama_xet::last_error::set(&mut slot, "");
    assert_eq!(get_ptr(&slot), &[0u8][..]);
}
