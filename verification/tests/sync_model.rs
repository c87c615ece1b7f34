use radishlex::text::contains_text;
use radishlex::sync_model::{
    accept_cycle, check_control, check_response_status, map_remote_error, map_sync_phase,
    phase_for_path, RemoteFailure, SyncCycleOutcome, SyncCyclePhase,
    is_loopback_https_endpoint, valid_workspace_name, QualificationError,
    QualificationErrorCode, QualificationPhase, QualificationRequest, QualificationRunSnapshot,
    QualificationRunState, SyncCycleCounts, QUALIFICATION_REQUEST_VERSION,
    QUALIFICATION_SNAPSHOT_VERSION,
};

fn token() -> String {
    "q".repeat(48)
}

#[test]
fn accepts_only_explicit_loopback_https_endpoints() {
    for endpoint in [
        "https://localhost",
        "https://localhost:8443",
        "https://127.0.0.1:443/",
        "https://[::1]:9443",
    ] {
        QualificationRequest::new(endpoint.to_string(), token(), None, 1_000)
            .expect("valid loopback endpoint");
    }

    for endpoint in [
        "http://localhost:8080",
        "https://example.com",
        "https://localhost.evil.test",
        "https://user@localhost",
        "https://localhost/path",
        "https://localhost?token=x",
        "https://localhost#fragment",
        "https://127.0.0.2",
        "https://localhost:0",
    ] {
        assert!(QualificationRequest::new(endpoint.to_string(), token(), None, 1_000).is_err());
    }
}

#[test]
fn rejects_noncanonical_version_token_ca_and_timeout() {
    assert!(QualificationRequest::with_version(
        2,
        "https://localhost".to_string(),
        token(),
        None,
        1_000
    )
    .is_err());
    assert!(QualificationRequest::new(
        "https://localhost".to_string(),
        "short".to_string(),
        None,
        1_000
    )
    .is_err());
    assert!(QualificationRequest::new(
        "https://localhost".to_string(),
        format!("{} x", "q".repeat(32)),
        None,
        1_000,
    )
    .is_err());
    assert!(QualificationRequest::new(
        "https://localhost".to_string(),
        format!("{}\u{7f}", "q".repeat(32)),
        None,
        1_000,
    )
    .is_err());
    assert!(QualificationRequest::new(
        "https://localhost".to_string(),
        token(),
        Some(Vec::new()),
        1_000,
    )
    .is_err());
    assert!(
        QualificationRequest::new("https://localhost".to_string(), token(), None, 99).is_err()
    );
}

#[test]
fn endpoint_edges_follow_port_and_length_limits() {
    assert!(is_loopback_https_endpoint("https://localhost:65535"));
    assert!(!is_loopback_https_endpoint("https://localhost:65536"));
    assert!(is_loopback_https_endpoint("https://localhost:0443"));
    assert!(!is_loopback_https_endpoint("https://localhost:"));
    assert!(!is_loopback_https_endpoint("https://localhost:+80"));
    assert!(!is_loopback_https_endpoint("https://"));
    assert!(!is_loopback_https_endpoint("https:///"));
    assert!(!is_loopback_https_endpoint("https://localhost//"));
    assert!(!is_loopback_https_endpoint(" https://localhost"));
    assert!(!is_loopback_https_endpoint(""));
    let request = QualificationRequest::new(
        "https://[::1]/".to_string(),
        "!".repeat(32),
        Some(vec![1, 2, 3]),
        120_000,
    )
    .expect("request");
    assert_eq!(request.version(), QUALIFICATION_REQUEST_VERSION);
    assert_eq!(request.endpoint(), "https://[::1]/");
    assert_eq!(request.timeout_ms(), 120_000);
    assert_eq!(request.local_ca_der(), Some(&[1u8, 2, 3][..]));
    assert_eq!(request.access_token().len(), 32);
    assert!(QualificationRequest::new(
        "https://localhost".to_string(),
        "q".repeat(4097),
        None,
        1_000
    )
    .is_err());
    assert!(QualificationRequest::new(
        "https://localhost".to_string(),
        token(),
        None,
        120_001
    )
    .is_err());
    assert_eq!(
        QualificationRequest::new("https://localhost".to_string(), token(), None, 99)
            .err(),
        Some(QualificationError::invalid_request())
    );
}

#[test]
fn run_snapshot_moves_through_one_terminal_outcome() {
    let initial = QualificationRunSnapshot::default();
    assert_eq!(initial.version, QUALIFICATION_SNAPSHOT_VERSION);
    assert_eq!(initial.state, QualificationRunState::Created);
    let mut snapshot = QualificationRunSnapshot::started();
    assert_eq!(snapshot.state, QualificationRunState::Running);
    snapshot.set_phase(QualificationPhase::CreateDomain);
    assert_eq!(snapshot.phase, QualificationPhase::CreateDomain);
    snapshot.add_summary(&SyncCycleCounts {
        discovered: 2,
        downloaded: 1,
        applied: 1,
        uploaded: 3,
        conflicts: 0,
        retries: usize::MAX,
    });
    snapshot.add_summary(&SyncCycleCounts {
        discovered: 1,
        downloaded: 0,
        applied: 0,
        uploaded: 0,
        conflicts: 1,
        retries: 5,
    });
    assert_eq!(snapshot.discovered, 3);
    assert_eq!(snapshot.conflicts, 1);
    assert_eq!(snapshot.retries, usize::MAX);
    assert!(snapshot.request_cancel(false));
    assert_eq!(snapshot.state, QualificationRunState::Cancelling);
    snapshot.set_phase(QualificationPhase::ClientBMerge);
    assert_eq!(snapshot.state, QualificationRunState::Cancelling);
    assert!(!snapshot.request_cancel(true));
    snapshot.finish(Ok(()), true, true);
    assert_eq!(snapshot.state, QualificationRunState::Cancelled);
    assert_eq!(
        snapshot.error,
        Some(QualificationError::cancelled(QualificationPhase::ClientBMerge))
    );
    assert!(snapshot.worker_stopped && snapshot.transient_inputs_cleared);
    let before = snapshot;
    snapshot.set_phase(QualificationPhase::Cleanup);
    assert!(!snapshot.request_cancel(false));
    assert_eq!(snapshot, before);
}

#[test]
fn finishing_reports_success_failure_or_panic() {
    let mut completed = QualificationRunSnapshot::started();
    completed.finish(Ok(()), false, true);
    assert_eq!(completed.state, QualificationRunState::Completed);
    assert_eq!(completed.phase, QualificationPhase::Complete);
    assert_eq!(completed.error, None);

    let failure = QualificationError::new(
        QualificationErrorCode::ConvergenceFailed,
        QualificationPhase::VerifyConvergence,
        false,
    );
    let mut failed = QualificationRunSnapshot::started();
    failed.finish(Err(failure), false, false);
    assert_eq!(failed.state, QualificationRunState::Failed);
    assert_eq!(failed.phase, QualificationPhase::VerifyConvergence);
    assert_eq!(failed.error, Some(failure));
    assert!(!failed.temporary_files_cleaned);

    let mut panicked = QualificationRunSnapshot::started();
    panicked.set_phase(QualificationPhase::PrepareConflict);
    panicked.finish_after_panic();
    assert_eq!(panicked.state, QualificationRunState::Failed);
    assert_eq!(
        panicked.error.map(|e| e.code),
        Some(QualificationErrorCode::Internal)
    );
    assert_eq!(QualificationErrorCode::Internal.number(), 255);
    assert_eq!(QualificationPhase::Complete.number(), 12);
    assert_eq!(QualificationRunState::Cancelled.number(), 6);
    assert!(QualificationRunState::Failed.is_terminal());
    assert!(!QualificationRunState::Cancelling.is_terminal());
}

#[test]
fn restart_cleanup_recognizes_only_exact_workspace_names() {
    assert!(valid_workspace_name("radishlex-sync-qualification-123-4"));
    assert!(!valid_workspace_name("radishlex-sync-qualification-123-"));
    assert!(!valid_workspace_name("radishlex-sync-qualification--4"));
    assert!(!valid_workspace_name("radishlex-sync-qualification-12a-4"));
    assert!(!valid_workspace_name("radishlex-sync-qualification-12-4-5"));
    assert!(!valid_workspace_name("other-123-4"));
    assert!(!valid_workspace_name("radishlex-sync-qualification-1234"));
}

#[test]
fn text_search_finds_substrings_anywhere() {
    assert!(contains_text("tls handshake failed", "tls"));
    assert!(contains_text("operation timed out", "timed out"));
    assert!(contains_text("abc", ""));
    assert!(contains_text("abc", "abc"));
    assert!(!contains_text("ab", "abc"));
    assert!(!contains_text("TLS", "tls"));
}

#[test]
fn remote_failures_map_to_run_errors() {
    let phase = QualificationPhase::CreateDomain;
    let transport = |message: &str| RemoteFailure::Transport { message: message.to_string() };
    let tls = map_remote_error(&transport("tls certificate rejected"), phase);
    assert_eq!((tls.code, tls.retryable), (QualificationErrorCode::TlsRejected, false));
    let timeout = map_remote_error(&transport("request timed out"), phase);
    assert_eq!((timeout.code, timeout.retryable), (QualificationErrorCode::TransportTimeout, true));
    let short = map_remote_error(&transport("connect timeout"), phase);
    assert_eq!(short.code, QualificationErrorCode::TransportTimeout);
    let refused = map_remote_error(&transport("connection refused"), phase);
    assert_eq!((refused.code, refused.retryable), (QualificationErrorCode::ServerUnavailable, true));
    let unauthenticated = map_remote_error(&RemoteFailure::Server { status: 401, retryable: true }, phase);
    assert_eq!((unauthenticated.code, unauthenticated.retryable), (QualificationErrorCode::Unauthenticated, false));
    let busy = map_remote_error(&RemoteFailure::Server { status: 503, retryable: true }, phase);
    assert_eq!((busy.code, busy.retryable), (QualificationErrorCode::ProtocolRejected, true));
    assert_eq!(map_remote_error(&RemoteFailure::InvalidRequest, phase).code, QualificationErrorCode::InvalidRequest);
    assert_eq!(map_remote_error(&RemoteFailure::InvalidResponse, phase).code, QualificationErrorCode::ProtocolRejected);
    assert_eq!(tls.phase, phase);
}

#[test]
fn setup_responses_need_the_expected_status() {
    let phase = QualificationPhase::AuthorizeSecondDevice;
    assert!(check_response_status(201, 201, None, phase).is_ok());
    assert_eq!(check_response_status(401, 201, None, phase).unwrap_err().code, QualificationErrorCode::Unauthenticated);
    assert_eq!(
        check_response_status(403, 201, Some("unauthenticated"), phase).unwrap_err().code,
        QualificationErrorCode::Unauthenticated
    );
    assert_eq!(
        check_response_status(409, 201, Some("conflict"), phase).unwrap_err().code,
        QualificationErrorCode::ProtocolRejected
    );
    assert_eq!(phase_for_path("/api/v1/domains"), QualificationPhase::CreateDomain);
    assert_eq!(phase_for_path("/api/v1/devices"), QualificationPhase::AuthorizeSecondDevice);
}

#[test]
fn cycles_and_controls_decide_whether_the_run_goes_on() {
    let mut snapshot = QualificationRunSnapshot::default();
    let counts = SyncCycleCounts { discovered: 2, downloaded: 1, applied: 1, uploaded: 3, conflicts: 0, retries: 1 };
    let phase = QualificationPhase::ClientBMerge;
    assert!(accept_cycle(&mut snapshot, &counts, SyncCycleOutcome::Completed, None, phase).is_ok());
    assert_eq!((snapshot.discovered, snapshot.uploaded, snapshot.retries), (2, 3, 1));
    let cancelled = accept_cycle(&mut snapshot, &counts, SyncCycleOutcome::Cancelled, None, phase).unwrap_err();
    assert_eq!((cancelled.code, cancelled.phase), (QualificationErrorCode::Cancelled, phase));
    assert_eq!(snapshot.discovered, 4);
    let own = QualificationError::new(QualificationErrorCode::CryptoRejected, QualificationPhase::VerifyConvergence, false);
    assert_eq!(accept_cycle(&mut snapshot, &counts, SyncCycleOutcome::Failed, Some(own), phase), Err(own));
    assert_eq!(
        accept_cycle(&mut snapshot, &counts, SyncCycleOutcome::Blocked, None, phase).unwrap_err().code,
        QualificationErrorCode::ProtocolRejected
    );
    assert_eq!(map_sync_phase(SyncCyclePhase::Preflight), QualificationPhase::PrepareWorkspace);
    assert_eq!(map_sync_phase(SyncCyclePhase::Upload), QualificationPhase::VerifyConvergence);
    assert!(check_control(false, 99, 100, phase).is_ok());
    let timed_out = check_control(false, 100, 100, phase).unwrap_err();
    assert_eq!((timed_out.code, timed_out.retryable), (QualificationErrorCode::TransportTimeout, true));
    assert_eq!(check_control(true, 100, 100, phase).unwrap_err().code, QualificationErrorCode::Cancelled);
}
