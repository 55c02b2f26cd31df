use llama_xet::classify::{classify_error, classify_lowered};
use llama_xet::download::{
    conclude, group_config, Outcome, marshal_file, stage_failure, DownloadAction, DownloadDriver, DownloadEvent,
    GroupAuth, Phase, Stage,
};
use llama_xet::last_error::LastError;
use llama_xet::session::{new_inner, LlamaXetSession};
use llama_xet::{
    LXET_ERR_AUTH, LXET_ERR_CANCELLED, LXET_ERR_INTEGRITY, LXET_ERR_INVALID_ARG, LXET_ERR_NETWORK,
    LXET_ERR_OTHER, LXET_OK,
};

fn live_session() -> Box<LlamaXetSession> {
    let mut slot = LastError::new();
    new_inner(&mut slot, None, None, None).expect("session creation should succeed with NULL args")
}

fn outcome_code(action: &DownloadAction) -> i32 {
    match action {
        DownloadAction::Complete(o) => o.code,
        _ => panic!("expected the call to complete"),
    }
}

fn outcome_error(action: &DownloadAction) -> Option<String> {
    match action {
        DownloadAction::Complete(o) => o.error.clone(),
        _ => panic!("expected the call to complete"),
    }
}

#[test]
fn null_session_returns_invalid_arg() {
    let (driver, action) = DownloadDriver::start(&mut LastError::new(), None, false, 0);
    assert_eq!(outcome_code(&action), LXET_ERR_INVALID_ARG);
    assert_eq!(outcome_error(&action).as_deref(), Some("session is NULL"));
    assert!(matches!(driver.phase, Phase::Done));
}

#[test]
fn zero_files_is_trivially_ok() {
    let s = live_session();
    let (_, action) = DownloadDriver::start(&mut LastError::new(), Some(&s), false, 0);
    assert_eq!(outcome_code(&action), LXET_OK);
    assert_eq!(outcome_error(&action), None);
}

#[test]
fn null_files_with_nonzero_count_is_invalid() {
    let s = live_session();
    let (_, action) = DownloadDriver::start(&mut LastError::new(), Some(&s), false, 3);
    assert_eq!(outcome_code(&action), LXET_ERR_INVALID_ARG);
    assert_eq!(
        outcome_error(&action).as_deref(),
        Some("files is NULL but file_count > 0")
    );
}

#[test]
fn classify_error_heuristics() {
    assert_eq!(classify_error("user cancelled"), LXET_ERR_CANCELLED);
    assert_eq!(classify_error("http 401 unauthorized"), LXET_ERR_AUTH);
    assert_eq!(classify_error("chunk integrity failed"), LXET_ERR_INTEGRITY);
    assert_eq!(classify_error("connection timeout"), LXET_ERR_NETWORK);
    assert_eq!(classify_error("something else entirely"), LXET_ERR_OTHER);
}

#[test]
fn classify_error_ignores_case() {
    assert_eq!(classify_error("USER CANCELLED"), LXET_ERR_CANCELLED);
    assert_eq!(classify_error("Auth Token Expired"), LXET_ERR_AUTH);
    assert_eq!(classify_error("HASH MISMATCH"), LXET_ERR_INTEGRITY);
    assert_eq!(classify_error("NETWORK unreachable"), LXET_ERR_NETWORK);
    assert_eq!(classify_lowered("USER CANCELLED"), LXET_ERR_OTHER);
}

#[test]
fn classify_error_keyword_order() {
    assert_eq!(classify_error("cancelled after 403"), LXET_ERR_CANCELLED);
    assert_eq!(classify_error("403 on hash lookup"), LXET_ERR_AUTH);
    assert_eq!(classify_error("hash check hit a timeout"), LXET_ERR_INTEGRITY);
    assert_eq!(classify_error("could not connect"), LXET_ERR_NETWORK);
    assert_eq!(classify_error(""), LXET_ERR_OTHER);
    assert_eq!(classify_error("forbidden"), LXET_ERR_OTHER);
}

#[test]
fn stage_failure_messages_and_codes() {
    let f = stage_failure(Stage::NewGroup, "session aborted by user: Cancelled");
    assert_eq!(f.message, "new_file_download_group: session aborted by user: Cancelled");
    assert_eq!(f.code, LXET_ERR_CANCELLED);
    let f = stage_failure(Stage::Build, "HTTP 403 Forbidden");
    assert_eq!(f.message, "group build: HTTP 403 Forbidden");
    assert_eq!(f.code, LXET_ERR_AUTH);
    let f = stage_failure(Stage::Enqueue, "disk full");
    assert_eq!(f.message, "enqueue: disk full");
    assert_eq!(f.code, LXET_ERR_OTHER);
    let f = stage_failure(Stage::Finish, "Connection reset");
    assert_eq!(f.message, "finish: Connection reset");
    assert_eq!(f.code, LXET_ERR_NETWORK);
}

#[test]
fn marshal_file_accepts_valid_descriptor() {
    let r = marshal_file(0, Some(b"abc123"), 0, Some(b"/tmp/out.gguf")).ok().unwrap();
    assert_eq!(r.hash, "abc123");
    assert_eq!(r.file_size, None);
    assert_eq!(r.dest_path, "/tmp/out.gguf");
    let r = marshal_file(1, Some(b"h"), 4096, Some(b"d")).ok().unwrap();
    assert_eq!(r.file_size, Some(4096));
}

#[test]
fn marshal_file_names_the_bad_field() {
    let f = marshal_file(0, None, 1, Some(b"d")).err().unwrap();
    assert_eq!(f.code, LXET_ERR_INVALID_ARG);
    assert_eq!(f.message, "files[0].hash pointer is NULL");
    let f = marshal_file(12, Some(b"h"), 1, None).err().unwrap();
    assert_eq!(f.message, "files[12].dest_path pointer is NULL");
    let f = marshal_file(7, Some(&[0xff, 0xfe]), 1, Some(b"d")).err().unwrap();
    assert_eq!(f.message, "files[7].hash is not valid UTF-8");
    let f = marshal_file(305, Some(b"h"), 1, Some(&[0xc3])).err().unwrap();
    assert_eq!(f.message, "files[305].dest_path is not valid UTF-8");
    let f = marshal_file(3, None, 1, None).err().unwrap();
    assert_eq!(f.message, "files[3].hash pointer is NULL");
}

fn session_with(
    endpoint: Option<&str>,
    bearer: Option<&str>,
    refresh: Option<&str>,
) -> Box<LlamaXetSession> {
    let mut slot = LastError::new();
    new_inner(
        &mut slot,
        endpoint.map(|s| s.as_bytes()),
        bearer.map(|s| s.as_bytes()),
        refresh.map(|s| s.as_bytes()),
    )
    .unwrap()
}

#[test]
fn group_config_prefers_refresh_url() {
    let s = session_with(Some("https://cas.example"), Some("hf_tok"), Some("https://hf/refresh"));
    let c = group_config(&s);
    assert_eq!(c.endpoint.as_deref(), Some("https://cas.example"));
    match c.auth {
        GroupAuth::RefreshUrl(u) => assert_eq!(u, "https://hf/refresh"),
        _ => panic!("expected refresh URL auth"),
    }
}

#[test]
fn group_config_uses_static_token() {
    let s = session_with(None, Some("hf_tok"), None);
    let c = group_config(&s);
    assert_eq!(c.endpoint, None);
    match c.auth {
        GroupAuth::StaticToken(t, e) => {
            assert_eq!(t, "hf_tok");
            assert_eq!(e, u64::MAX);
        }
        _ => panic!("expected static token auth"),
    }
}

#[test]
fn group_config_anonymous() {
    let s = session_with(None, None, None);
    assert!(matches!(group_config(&s).auth, GroupAuth::Anonymous));
}

fn file_read(hash: &str, size: u64, dest: &str) -> DownloadEvent {
    DownloadEvent::FileRead {
        hash: Some(hash.as_bytes().to_vec()),
        file_size: size,
        dest_path: Some(dest.as_bytes().to_vec()),
    }
}

#[test]
fn driver_runs_a_batch_to_success() {
    let s = session_with(Some("https://cas.example"), Some("tok"), None);
    let (mut d, a) = DownloadDriver::start(&mut LastError::new(), Some(&s), true, 2);
    assert!(matches!(a, DownloadAction::ReadFile(0)));
    let a = d.step(file_read("h0", 10, "/a"));
    assert!(matches!(a, DownloadAction::ReadFile(1)));
    let a = d.step(file_read("h1", 0, "/b"));
    assert!(matches!(a, DownloadAction::CreateGroup));
    let a = d.step(DownloadEvent::GroupCreated(Ok(())));
    match a {
        DownloadAction::BuildGroup(c) => {
            assert_eq!(c.endpoint.as_deref(), Some("https://cas.example"));
            assert!(matches!(c.auth, GroupAuth::StaticToken(_, u64::MAX)));
        }
        _ => panic!("expected BuildGroup"),
    }
    let a = d.step(DownloadEvent::GroupBuilt(Ok(())));
    match a {
        DownloadAction::Enqueue(q) => {
            assert_eq!(q.hash, "h0");
            assert_eq!(q.file_size, Some(10));
            assert_eq!(q.dest_path, "/a");
        }
        _ => panic!("expected Enqueue"),
    }
    let a = d.step(DownloadEvent::Enqueued(Ok(())));
    match a {
        DownloadAction::Enqueue(q) => {
            assert_eq!(q.hash, "h1");
            assert_eq!(q.file_size, None);
        }
        _ => panic!("expected Enqueue"),
    }
    let a = d.step(DownloadEvent::Enqueued(Ok(())));
    assert!(matches!(a, DownloadAction::AwaitCompletion));
    let a = d.step(DownloadEvent::Finished(Ok(1234)));
    match a {
        DownloadAction::Complete(o) => {
            assert_eq!(o.code, LXET_OK);
            assert_eq!(o.error, None);
            assert_eq!(o.final_progress, Some(1234));
        }
        _ => panic!("expected Complete"),
    }
    assert!(matches!(d.phase, Phase::Done));
}

#[test]
fn driver_reports_bad_descriptor() {
    let s = session_with(None, None, None);
    let (mut d, _) = DownloadDriver::start(&mut LastError::new(), Some(&s), true, 3);
    let _ = d.step(file_read("h0", 1, "/a"));
    let a = d.step(DownloadEvent::FileRead { hash: Some(b"h1".to_vec()), file_size: 1, dest_path: None });
    assert_eq!(outcome_code(&a), LXET_ERR_INVALID_ARG);
    assert_eq!(outcome_error(&a).as_deref(), Some("files[1].dest_path pointer is NULL"));
}

#[test]
fn driver_classifies_stage_failures() {
    let s = session_with(None, None, None);
    let (mut d, _) = DownloadDriver::start(&mut LastError::new(), Some(&s), true, 1);
    let _ = d.step(file_read("h0", 1, "/a"));
    let a = d.step(DownloadEvent::GroupCreated(Err("User cancelled".to_string())));
    assert_eq!(outcome_code(&a), LXET_ERR_CANCELLED);
    assert_eq!(outcome_error(&a).as_deref(), Some("new_file_download_group: User cancelled"));

    let (mut d, _) = DownloadDriver::start(&mut LastError::new(), Some(&s), true, 1);
    let _ = d.step(file_read("h0", 1, "/a"));
    let _ = d.step(DownloadEvent::GroupCreated(Ok(())));
    let a = d.step(DownloadEvent::GroupBuilt(Err("401 Unauthorized".to_string())));
    assert_eq!(outcome_code(&a), LXET_ERR_AUTH);
    assert_eq!(outcome_error(&a).as_deref(), Some("group build: 401 Unauthorized"));

    let (mut d, _) = DownloadDriver::start(&mut LastError::new(), Some(&s), true, 1);
    let _ = d.step(file_read("h0", 1, "/a"));
    let _ = d.step(DownloadEvent::GroupCreated(Ok(())));
    let _ = d.step(DownloadEvent::GroupBuilt(Ok(())));
    let a = d.step(DownloadEvent::Enqueued(Err("bad path".to_string())));
    assert_eq!(outcome_code(&a), LXET_ERR_OTHER);
    assert_eq!(outcome_error(&a).as_deref(), Some("enqueue: bad path"));

    let (mut d, _) = DownloadDriver::start(&mut LastError::new(), Some(&s), true, 1);
    let _ = d.step(file_read("h0", 1, "/a"));
    let _ = d.step(DownloadEvent::GroupCreated(Ok(())));
    let _ = d.step(DownloadEvent::GroupBuilt(Ok(())));
    let _ = d.step(DownloadEvent::Enqueued(Ok(())));
    let a = d.step(DownloadEvent::Finished(Err("Chunk hash mismatch".to_string())));
    assert_eq!(outcome_code(&a), LXET_ERR_INTEGRITY);
    assert_eq!(outcome_error(&a).as_deref(), Some("finish: Chunk hash mismatch"));
}

#[test]
fn classify_error_ascii_case_law() {
    for msg in [
        "user cancelled",
        "http 401 unauthorized",
        "Chunk Integrity failed",
        "connection TIMEOUT",
        "something else entirely",
        "Mixed Case Network Error 403",
    ] {
        let code = classify_error(msg);
        assert_eq!(classify_error(&msg.to_ascii_uppercase()), code);
        assert_eq!(classify_error(&msg.to_ascii_lowercase()), code);
    }
}

#[test]
fn conclude_records_failures_only() {
    let mut slot = LastError::new();
    let r = conclude(&mut slot, Outcome { code: LXET_OK, error: None, final_progress: Some(7) });
    assert_eq!(r, (LXET_OK, Some(7)));
    assert_eq!(llama_xet::last_error::get_ptr(&slot), &[0u8][..]);
    let r = conclude(
        &mut slot,
        Outcome { code: LXET_ERR_AUTH, error: Some("group build: 401".to_string()), final_progress: None },
    );
    assert_eq!(r, (LXET_ERR_AUTH, None));
    assert_eq!(llama_xet::last_error::get_ptr(&slot), &b"group build: 401\0"[..]);
}

#[test]
fn start_clears_a_stale_message() {
    let s = live_session();
    let mut slot = LastError::new();
    llama_xet::last_error::set(&mut slot, "stale failure");
    let (_, action) = DownloadDriver::start(&mut slot, Some(&s), false, 0);
    assert_eq!(outcome_code(&action), LXET_OK);
    assert_eq!(llama_xet::last_error::get_ptr(&slot), &[0u8][..]);
    let outcome = match action {
        DownloadAction::Complete(o) => o,
        _ => panic!("expected the call to complete"),
    };
    let (code, _) = conclude(&mut slot, outcome);
    assert_eq!(code, LXET_OK);
    assert_eq!(llama_xet::last_error::get_ptr(&slot), &[0u8][..]);

    llama_xet::last_error::set(&mut slot, "stale failure");
    let (_, action) = DownloadDriver::start(&mut slot, None, true, 1);
    assert_eq!(llama_xet::last_error::get_ptr(&slot), &[0u8][..]);
    let outcome = match action {
        DownloadAction::Complete(o) => o,
        _ => panic!("expected the call to complete"),
    };
    let (code, _) = conclude(&mut slot, outcome);
    assert_eq!(code, LXET_ERR_INVALID_ARG);
    assert_eq!(llama_xet::last_error::get_ptr(&slot), &b"session is NULL\0"[..]);
}
