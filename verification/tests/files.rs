use jeliya_ui::api::{
    ApiError, ByteTotal, EnforcedAt, FileListOut, FileRow, Link, LinkReason, PeerRow, StreamAbortReason,
    Target, Timestamp, Truncated,
};
use jeliya_ui::files::list::{FileListModel, FileName, FileNameRejected, FileRowView};
use jeliya_ui::client::{CallError, Execution};
use jeliya_ui::files::errors::{FlowFailure, FlowStop, Settled};
use jeliya_ui::files::fetch::{fetch_op_id, fetch_start, fetch_step, FetchAction, FetchEvent, FetchState};
use jeliya_ui::files::upload::{
    share_request, upload_start, upload_step, FileShareOut, UploadAction, UploadDone, UploadEvent,
};
use jeliya_ui::files::preview::{classify, PreviewPolicy};
use jeliya_ui::files::size::{preflight, OverLimit, SizeLimit};
use jeliya_ui::files::transfer::{race_result, Progress, RaceOutcome};
use jeliya_ui::files::Load;
use jeliya_ui::platform::{CapabilityError, FailureKind, StageProgress};

#[test]
fn load_loaded_returns_inner_value_or_none() {
    assert_eq!(Load::<u32>::Loading.loaded(), None);
    assert_eq!(Load::Loaded(42u32).loaded(), Some(&42));
    assert_eq!(Load::<u32>::Failed(FlowFailure::Wire).loaded(), None);
}

#[test]
fn load_from_result_classifies_ok_and_err() {
    let ok: Load<u32> = Load::from_result(Ok(99), |_: ()| FlowFailure::Wire);
    assert_eq!(ok, Load::Loaded(99));
    let failed: Load<u32> = Load::from_result(Err(()), |_| FlowFailure::Transport);
    assert_eq!(failed, Load::Failed(FlowFailure::Transport));
}

#[test]
fn inert_types_may_offer_an_optin_preview() {
    for declared in [
        "text/plain",
        "text/plain; charset=utf-8",
        "IMAGE/PNG",
        "  image/jpeg ",
        "image/gif",
        "image/webp",
    ] {
        assert_eq!(classify(declared), PreviewPolicy::SandboxedOptional, "{declared:?}");
    }
}

#[test]
fn active_and_unknown_types_are_export_only() {
    for declared in [
        "text/html",
        "image/svg+xml",
        "application/pdf",
        "application/octet-stream",
        "application/javascript",
        "video/mp4",
        "",
        "not-a-mime",
        "text/html; charset=utf-8",
    ] {
        assert_eq!(classify(declared), PreviewPolicy::ExportOnly, "{declared:?}");
    }
}

#[test]
fn only_the_sandboxed_policy_offers_a_preview() {
    assert!(PreviewPolicy::SandboxedOptional.offers_preview());
    assert!(!PreviewPolicy::ExportOnly.offers_preview());
}

#[test]
fn preflight_refuses_only_strictly_oversize() {
    let limit = SizeLimit::new(100);
    assert!(limit.preflight(99).is_ok());
    assert!(limit.preflight(100).is_ok(), "the ceiling is inclusive");
    assert_eq!(limit.preflight(101).unwrap_err(), OverLimit { size: 101, limit: 100 });
}

#[test]
fn an_absent_served_limit_never_substitutes_a_constant() {
    assert!(preflight(None, u64::MAX).is_ok());
    assert!(preflight(Some(SizeLimit::new(10)), 11).is_err());
}

#[test]
fn max_bytes_accessor_returns_the_served_ceiling() {
    let limit = SizeLimit::new(1_048_576);
    assert_eq!(limit.max_bytes(), 1_048_576);
}

#[test]
fn zero_size_file_does_not_trip_a_zero_limit() {
    let limit = SizeLimit::new(0);
    assert!(limit.preflight(0).is_ok());
}

#[test]
fn a_wire_size_refusal_carries_the_served_integers_and_is_not_digest() {
    let stop = FlowStop::from_call(&CallError::Wire(ApiError::FileTooLarge {
        declared_bytes: 200,
        limit_bytes: 100,
        enforced_at: EnforcedAt::StageDeclared,
    }));
    assert_eq!(stop, FlowStop::Failed(FlowFailure::TooLarge { size: 200, limit: 100 }));
    let digest = FlowStop::from_call(&CallError::Wire(ApiError::DigestMismatch {
        expected: "a".into(),
        observed: "b".into(),
    }));
    assert_eq!(digest, FlowStop::Failed(FlowFailure::DigestMismatch));
}

#[test]
fn cancellation_is_never_a_failure() {
    let stop = FlowStop::from_call(&CallError::Cancelled { execution: Execution::Unknown });
    assert_eq!(stop, FlowStop::Cancelled);
    assert!(Settled::<()>::from_stop(stop).is_cancelled());
    assert!(FlowStop::from_capability(CapabilityError::Cancelled) == FlowStop::Cancelled);
}

#[test]
fn a_transport_failure_is_not_a_daemon_verdict() {
    assert_eq!(FlowStop::from_call(&CallError::Timeout), FlowStop::Failed(FlowFailure::Transport));
    assert_eq!(
        FlowStop::from_call(&CallError::Disconnected { execution: Execution::Unknown }),
        FlowStop::Failed(FlowFailure::Transport)
    );
}

#[test]
fn pipe_unreachable_is_distinct_from_pipe_unknown() {
    let unreachable = FlowStop::from_call(&CallError::Wire(ApiError::PipeUnreachable {
        pipe_id: "blake3:pipe".into(),
        link: Link::NotConnected { reason: LinkReason::NoRoute },
    }));
    let unknown = FlowStop::from_call(&CallError::Wire(ApiError::PipeUnknown {
        pipe_id: "blake3:pipe".into(),
    }));
    assert_eq!(unreachable, FlowStop::Failed(FlowFailure::PipeUnreachable));
    assert_eq!(unknown, FlowStop::Failed(FlowFailure::PipeUnknown));
    assert_ne!(unreachable, unknown);
}

#[test]
fn platform_failures_map_to_typed_kinds() {
    assert_eq!(
        FlowStop::from_capability(CapabilityError::Unavailable),
        FlowStop::Failed(FlowFailure::Unavailable)
    );
    assert_eq!(
        FlowStop::from_capability(CapabilityError::Failed(FailureKind::FileEmpty)),
        FlowStop::Failed(FlowFailure::Empty)
    );
    assert_eq!(
        FlowStop::from_capability(CapabilityError::Failed(FailureKind::FileTooLarge { size: 5, limit: 4 })),
        FlowStop::Failed(FlowFailure::TooLarge { size: 5, limit: 4 })
    );
    assert_eq!(
        FlowStop::from_capability(CapabilityError::Failed(FailureKind::Io)),
        FlowStop::Failed(FlowFailure::Unreadable)
    );
    assert_eq!(
        FlowStop::from_capability(CapabilityError::Failed(FailureKind::WriteNotDurable)),
        FlowStop::Failed(FlowFailure::Transport)
    );
}

#[test]
fn size_mismatch_is_distinct_from_too_large_and_carries_bytes() {
    let stop = FlowStop::from_call(&CallError::Wire(ApiError::DeclaredSizeMismatch {
        declared_bytes: 100,
        observed_bytes: 120,
    }));
    assert_eq!(stop, FlowStop::Failed(FlowFailure::SizeMismatch { declared: 100, observed: 120 }));
    assert_ne!(stop, FlowStop::Failed(FlowFailure::TooLarge { size: 100, limit: 120 }));
}

#[test]
fn provider_unreachable_maps_to_no_reachable_provider() {
    let stop = FlowStop::from_call(&CallError::Wire(ApiError::ProviderUnreachable {
        file_id: "blake3:file".into(),
        providers: vec![],
    }));
    assert_eq!(stop, FlowStop::Failed(FlowFailure::NoReachableProvider));
    assert_ne!(stop, FlowStop::Failed(FlowFailure::DigestMismatch));
}

#[test]
fn both_index_errors_collapse_to_index_unreadable() {
    let file_idx = FlowStop::from_call(&CallError::Wire(ApiError::FileIndexUnreadable));
    let pipe_idx = FlowStop::from_call(&CallError::Wire(ApiError::PipeIndexUnreadable));
    assert_eq!(file_idx, FlowStop::Failed(FlowFailure::IndexUnreadable));
    assert_eq!(pipe_idx, FlowStop::Failed(FlowFailure::IndexUnreadable));
    assert_eq!(file_idx, pipe_idx);
}

#[test]
fn remaining_file_transfer_wire_errors_map_to_their_discriminants() {
    assert_eq!(
        FlowStop::from_call(&CallError::Wire(ApiError::FileUnknown { file_id: "blake3:f".into() })),
        FlowStop::Failed(FlowFailure::FileUnknown),
    );
    assert_eq!(
        FlowStop::from_call(&CallError::Wire(ApiError::FileNotFetched { file_id: "blake3:f".into() })),
        FlowStop::Failed(FlowFailure::NotFetched),
    );
    assert_eq!(
        FlowStop::from_call(&CallError::Wire(ApiError::TransferStalled {
            transferred_bytes: 0,
            total: ByteTotal::Unknown,
        })),
        FlowStop::Failed(FlowFailure::Stalled),
    );
    assert_eq!(
        FlowStop::from_call(&CallError::Wire(ApiError::TransferDeadlineExceeded {
            transferred_bytes: 0,
            total: ByteTotal::Unknown,
            budget_ms: 5000,
        })),
        FlowStop::Failed(FlowFailure::DeadlineExceeded),
    );
    assert_eq!(
        FlowStop::from_call(&CallError::Wire(ApiError::StreamAborted {
            transferred_bytes: 0,
            total: ByteTotal::Unknown,
            reason: StreamAbortReason::Cancelled,
        })),
        FlowStop::Failed(FlowFailure::Aborted),
    );
    assert_eq!(
        FlowStop::from_call(&CallError::Wire(ApiError::TransferUnknown {
            transfer_op_id: "file.fetch:r:f".into(),
        })),
        FlowStop::Failed(FlowFailure::Transport),
    );
}

#[test]
fn remaining_pipe_wire_errors_map_to_their_discriminants() {
    assert_eq!(
        FlowStop::from_call(&CallError::Wire(ApiError::PipeRevoked {
            pipe_id: "blake3:pipe".into(),
            revoked_at: Timestamp::unix_epoch(),
        })),
        FlowStop::Failed(FlowFailure::PipeRevoked),
    );
    assert_eq!(
        FlowStop::from_call(&CallError::Wire(ApiError::PipeNotPublisher { pipe_id: "blake3:pipe".into() })),
        FlowStop::Failed(FlowFailure::PipeNotPublisher),
    );
    assert_eq!(
        FlowStop::from_call(&CallError::Wire(ApiError::ConnectionUnknown { connection_id: "conn-1".into() })),
        FlowStop::Failed(FlowFailure::ConnectionUnknown),
    );
    assert_eq!(
        FlowStop::from_call(&CallError::Wire(ApiError::RoomNotLive { room_id: "r".into() })),
        FlowStop::Failed(FlowFailure::RoomNotLive),
    );
    assert_eq!(
        FlowStop::from_call(&CallError::Wire(ApiError::PolicyRefused { room_id: "r".into() })),
        FlowStop::Failed(FlowFailure::PolicyRefused),
    );
    assert_eq!(
        FlowStop::from_call(&CallError::Wire(ApiError::PipeTargetRefused {
            target: Target { host: "127.0.0.1".into(), port: 8080 },
        })),
        FlowStop::Failed(FlowFailure::PipeTargetRefused),
    );
}

#[test]
fn an_unknown_wire_error_maps_to_the_wire_catch_all() {
    assert_eq!(
        FlowStop::from_call(&CallError::Wire(ApiError::SubscriptionLimitReached { limit: 10 })),
        FlowStop::Failed(FlowFailure::Wire),
    );
}

#[test]
fn queue_full_is_not_a_daemon_verdict() {
    assert_eq!(
        FlowStop::from_call(&CallError::QueueFull { resource: "queue_depth".into(), limit: 64 }),
        FlowStop::Failed(FlowFailure::Transport),
    );
}

#[test]
fn denied_capability_error_is_a_typed_failure() {
    assert_eq!(
        FlowStop::from_capability(CapabilityError::Denied),
        FlowStop::Failed(FlowFailure::Denied),
    );
}

#[test]
fn settled_is_cancelled_only_for_the_cancelled_variant() {
    assert!(Settled::<u32>::Cancelled.is_cancelled());
    assert!(!Settled::Succeeded(0u32).is_cancelled());
    assert!(!Settled::<u32>::Failed(FlowFailure::Wire).is_cancelled());
}

#[test]
fn progress_is_monotonic_and_keeps_the_known_total() {
    let p = Progress::zero()
        .advance(StageProgress { transferred: 50, total: Some(100) })
        .advance(StageProgress { transferred: 25, total: Some(100) });
    assert_eq!(p.transferred, 50, "a lower re-report never rewinds");
    let q = Progress::zero()
        .advance(StageProgress { transferred: 10, total: Some(100) })
        .advance(StageProgress { transferred: 20, total: None });
    assert_eq!(q.total, Some(100));
    assert_eq!(q.transferred, 20);
}

#[test]
fn fetch_op_id_is_deterministic_and_addressable() {
    let a = fetch_op_id(&"r".to_string(), &"f".to_string());
    let b = fetch_op_id(&"r".to_string(), &"f".to_string());
    assert_eq!(a, b, "a fetch's cancel must be able to name the same op");
    assert_ne!(a, fetch_op_id(&"r".to_string(), &"g".to_string()));
    assert_eq!(a, "file.fetch:r:f");
}

fn drive_upload(limit: Option<SizeLimit>, events: Vec<UploadEvent>) -> Vec<UploadAction> {
    let (mut state, first) = upload_start();
    let mut actions = vec![first];
    for event in events {
        let (next, action) = upload_step(state, event, limit);
        state = next;
        actions.push(action);
    }
    actions
}

#[test]
fn an_upload_stages_shares_and_releases_before_settling_shared() {
    let actions = drive_upload(
        Some(SizeLimit::new(1000)),
        vec![
            UploadEvent::Picked(Ok(Some(400))),
            UploadEvent::Staged(Ok(400)),
            UploadEvent::ReaderOpened(Ok(())),
            UploadEvent::ShareFinished(Ok(FileShareOut { file_id: "f-1".to_string(), bytes: 400 })),
            UploadEvent::Released,
        ],
    );
    assert_eq!(
        actions,
        vec![
            UploadAction::Pick,
            UploadAction::Stage { limit: 1000 },
            UploadAction::ReadStaged,
            UploadAction::Share { declared_bytes: 400 },
            UploadAction::ReleaseStaged,
            UploadAction::Settle(Settled::Succeeded(UploadDone { file_id: "f-1".to_string(), bytes: 400 })),
        ]
    );
}

#[test]
fn an_oversize_pick_is_released_and_refused_before_any_copy() {
    let actions = drive_upload(
        Some(SizeLimit::new(100)),
        vec![UploadEvent::Picked(Ok(Some(101))), UploadEvent::Released],
    );
    assert_eq!(
        actions,
        vec![
            UploadAction::Pick,
            UploadAction::DiscardSource,
            UploadAction::Settle(Settled::Failed(FlowFailure::TooLarge { size: 101, limit: 100 })),
        ]
    );
}

#[test]
fn an_absent_limit_stages_without_a_ceiling_and_a_dismissed_pick_cancels() {
    let staged = drive_upload(None, vec![UploadEvent::Picked(Ok(Some(u64::MAX)))]);
    assert_eq!(staged[1], UploadAction::Stage { limit: u64::MAX });
    let dismissed = drive_upload(None, vec![UploadEvent::Picked(Ok(None))]);
    assert_eq!(dismissed[1], UploadAction::Settle(Settled::Cancelled));
    let denied = drive_upload(None, vec![UploadEvent::Picked(Err(CapabilityError::Denied))]);
    assert_eq!(denied[1], UploadAction::Settle(Settled::Failed(FlowFailure::Denied)));
}

#[test]
fn a_failed_share_or_reader_still_releases_the_staged_blob() {
    let cancelled = drive_upload(
        None,
        vec![
            UploadEvent::Picked(Ok(Some(5))),
            UploadEvent::Staged(Ok(5)),
            UploadEvent::ReaderOpened(Ok(())),
            UploadEvent::ShareFinished(Err(FlowStop::Cancelled)),
            UploadEvent::Released,
        ],
    );
    assert_eq!(cancelled[4], UploadAction::ReleaseStaged);
    assert_eq!(cancelled[5], UploadAction::Settle(Settled::Cancelled));
    let unreadable = drive_upload(
        None,
        vec![
            UploadEvent::Picked(Ok(Some(5))),
            UploadEvent::Staged(Ok(5)),
            UploadEvent::ReaderOpened(Err(CapabilityError::Failed(FailureKind::Unreadable))),
            UploadEvent::Released,
        ],
    );
    assert_eq!(unreadable[3], UploadAction::ReleaseStaged);
    assert!(matches!(unreadable[4], UploadAction::Settle(Settled::Failed(_))));
}

#[test]
fn an_out_of_order_upload_event_is_ignored() {
    let (state, _) = upload_start();
    let (after, action) = upload_step(state.clone(), UploadEvent::Released, None);
    assert_eq!(action, UploadAction::Ignore);
    assert_eq!(after, state);
}

#[test]
fn a_share_request_declares_the_mime_or_nothing() {
    let with = share_request("r".to_string(), "a.txt".to_string(), 3, Some("text/plain".to_string()));
    assert_eq!(with.declared_content_type, "text/plain");
    assert_eq!(with.declared_bytes, 3);
    let without = share_request("r".to_string(), "a.bin".to_string(), 3, None);
    assert_eq!(without.declared_content_type, "");
    assert_eq!(without.name, "a.bin");
}

fn drive_fetch(signed: u64, limit: Option<SizeLimit>, events: Vec<FetchEvent>) -> Vec<FetchAction> {
    let (mut state, first) = fetch_start(signed, limit);
    let mut actions = vec![first];
    for event in events {
        let (next, action) = fetch_step(state, event);
        state = next;
        actions.push(action);
    }
    actions
}

#[test]
fn a_fetch_commits_its_export_only_after_a_complete_read() {
    let actions = drive_fetch(
        10,
        Some(SizeLimit::new(10)),
        vec![
            FetchEvent::TargetPicked(Ok(true)),
            FetchEvent::Fetched(Ok(())),
            FetchEvent::SinkOpened(Ok(())),
            FetchEvent::ReadFinished(Ok(())),
            FetchEvent::Committed(Ok(())),
        ],
    );
    assert_eq!(
        actions,
        vec![
            FetchAction::PickExportTarget,
            FetchAction::Fetch,
            FetchAction::OpenSink,
            FetchAction::Read,
            FetchAction::Commit,
            FetchAction::Settle(Settled::Succeeded(())),
        ]
    );
}

#[test]
fn an_oversize_fetch_is_refused_before_contacting_a_provider() {
    let (state, action) = fetch_start(11, Some(SizeLimit::new(10)));
    assert_eq!(state, FetchState::Settled);
    assert_eq!(action, FetchAction::Settle(Settled::Failed(FlowFailure::TooLarge { size: 11, limit: 10 })));
}

#[test]
fn a_cancelled_fetch_names_the_transfer_and_discards_the_target() {
    let actions = drive_fetch(
        1,
        None,
        vec![
            FetchEvent::TargetPicked(Ok(true)),
            FetchEvent::Fetched(Err(FlowStop::Cancelled)),
            FetchEvent::TransferCancelSent,
            FetchEvent::TargetDiscarded,
        ],
    );
    assert_eq!(
        &actions[2..],
        &[FetchAction::CancelTransfer, FetchAction::DiscardTarget, FetchAction::Settle(Settled::Cancelled)]
    );
    let failed_read = drive_fetch(
        1,
        None,
        vec![
            FetchEvent::TargetPicked(Ok(true)),
            FetchEvent::Fetched(Ok(())),
            FetchEvent::SinkOpened(Ok(())),
            FetchEvent::ReadFinished(Err(FlowStop::Failed(FlowFailure::DigestMismatch))),
        ],
    );
    assert_eq!(failed_read[4], FetchAction::AbandonSink(Settled::Failed(FlowFailure::DigestMismatch)));
    let no_target = drive_fetch(1, None, vec![FetchEvent::TargetPicked(Ok(false))]);
    assert_eq!(no_target[1], FetchAction::Settle(Settled::Cancelled));
}

#[test]
fn a_race_won_by_the_cancel_is_a_cancellation() {
    assert_eq!(race_result::<u8>(RaceOutcome::Cancelled), Err(FlowStop::Cancelled));
    assert_eq!(race_result(RaceOutcome::Finished(Ok(7u8))), Ok(7));
    assert_eq!(
        race_result::<u8>(RaceOutcome::Finished(Err(CallError::Cancelled { execution: Execution::Unknown }))),
        Err(FlowStop::Cancelled)
    );
    assert_eq!(
        race_result::<u8>(RaceOutcome::Finished(Err(CallError::Timeout))),
        Err(FlowStop::Failed(FlowFailure::Transport))
    );
}

fn fraction(p: Progress) -> Option<f64> {
    p.total.map(|total| {
        if total == 0 {
            1.0
        } else {
            (p.transferred as f64 / total as f64).clamp(0.0, 1.0)
        }
    })
}

#[test]
fn progress_is_monotonic_and_fractional() {
    let p = Progress::default()
        .advance(StageProgress { transferred: 50, total: Some(100) })
        .advance(StageProgress { transferred: 25, total: Some(100) });
    assert_eq!(p.transferred, 50, "a lower re-report never rewinds");
    assert_eq!(fraction(p), Some(0.5));
    let unknown = Progress::default().advance(StageProgress { transferred: 10, total: None });
    assert_eq!(fraction(unknown), None);
}

#[test]
fn zero_total_fraction_is_complete() {
    let p = Progress::default().advance(StageProgress { transferred: 0, total: Some(0) });
    assert_eq!(fraction(p), Some(1.0));
}

#[test]
fn total_is_retained_when_later_report_omits_it() {
    let p = Progress::default()
        .advance(StageProgress { transferred: 10, total: Some(100) })
        .advance(StageProgress { transferred: 20, total: None });
    assert_eq!(p.total, Some(100));
    assert_eq!(fraction(p), Some(0.2));
}

fn peer_list(link: Link) -> PeerRow {
    PeerRow {
        subject_id: "blake3:subject".to_string(),
        device_id: "blake3:device".to_string(),
        link,
    }
}

fn row_list(name: &str, fetchable: bool, providers: Vec<PeerRow>) -> FileRow {
    FileRow {
        file_id: "blake3:file".to_string(),
        name: name.to_string(),
        bytes: 10,
        digest: "blake3:deadbeefcafefeed".to_string(),
        declared_content_type: "text/plain".to_string(),
        shared_by: "blake3:sharer".to_string(),
        shared_at: Timestamp::unix_epoch(),
        providers,
        fetchable,
        self_hosted: false,
    }
}

#[test]
fn a_hostile_name_fails_closed_at_ingest() {
    let view = FileRowView::from_row(row_list("../../etc/passwd", true, vec![]));
    assert!(view.name.is_none(), "a path-syntax name must not parse");
    let ok = FileRowView::from_row(row_list("report.pdf", true, vec![]));
    assert_eq!(ok.name.as_ref().map(FileName::as_str), Some("report.pdf"));
    for hostile in ["", ".", "..", "a/b", "a\\b", "bell\u{7}", "nl\n", "c1\u{85}"] {
        assert_eq!(FileName::parse(hostile.to_string()), Err(FileNameRejected), "{hostile:?}");
    }
    assert!(FileName::parse("...".to_string()).is_ok());
    assert!(FileName::parse("résumé v2.txt".to_string()).is_ok());
}

#[test]
fn availability_reads_only_the_file_list_fields() {
    let live = FileRowView::from_row(row_list(
        "a.txt",
        true,
        vec![peer_list(Link::Direct { since: Timestamp::unix_epoch() })],
    ));
    assert!(live.can_fetch());
    assert!(live.any_provider_reachable());

    let not_fetchable = FileRowView::from_row(row_list(
        "a.txt",
        false,
        vec![peer_list(Link::Relay { since: Timestamp::unix_epoch() })],
    ));
    assert!(!not_fetchable.can_fetch());
    assert!(not_fetchable.any_provider_reachable());

    let offline = FileRowView::from_row(row_list(
        "a.txt",
        false,
        vec![peer_list(Link::NotConnected { reason: LinkReason::NoRoute })],
    ));
    assert!(!offline.any_provider_reachable());
}

#[test]
fn digest_short_form_is_truncated_and_prefix_free() {
    let view = FileRowView::from_row(row_list("a.txt", true, vec![]));
    assert_eq!(view.digest_short, "deadbeefcafe");
    assert!(!view.digest_short.contains(':'));
}

#[test]
fn file_list_model_builds_and_looks_up_by_id() {
    let file_id = "blake3:file".to_string();
    let model = FileListModel::from_out(FileListOut {
        room_id: "r".to_string(),
        files: vec![row_list("notes.txt", true, vec![])],
        truncated: Truncated::Complete,
    });
    assert_eq!(model.rows.len(), 1);
    assert!(model.row(&file_id).is_some(), "row lookup finds by file_id");
    assert!(model.row(&"blake3:other".to_string()).is_none(), "unknown id returns None");
    assert_eq!(model.truncated, Truncated::Complete);
}

#[test]
fn relay_provider_link_is_reachable() {
    let relay = FileRowView::from_row(row_list(
        "a.txt",
        true,
        vec![peer_list(Link::Relay { since: Timestamp::unix_epoch() })],
    ));
    assert!(relay.any_provider_reachable());
}

#[test]
fn self_hosted_field_is_carried_verbatim() {
    let mut hosted = row_list("a.txt", true, vec![]);
    hosted.self_hosted = true;
    let view = FileRowView::from_row(hosted);
    assert!(view.self_hosted);
    assert!(!FileRowView::from_row(row_list("b.txt", true, vec![])).self_hosted);
}

#[test]
fn classify_ignores_letter_case_and_parameters() {
    for (a, b) in [
        ("image/webp", "Image/WebP; q=1"),
        ("text/plain", "TEXT/PLAIN;charset=utf-8"),
        ("text/html", "TEXT/HTML; charset=utf-8"),
        ("image/svg+xml", "IMAGE/SVG+XML"),
    ] {
        assert_eq!(classify(a), classify(b));
    }
    assert_eq!(classify("Image/WebP; q=1"), PreviewPolicy::SandboxedOptional);
    assert_eq!(classify("TEXT/HTML; charset=utf-8"), PreviewPolicy::ExportOnly);
}
