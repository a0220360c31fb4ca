use telegram_cloud::store::MetadataStore;
use telegram_cloud::upload::{
    commit_upload, remote_id, start, step, uploading_status, UploadAction, UploadError,
    UploadEvent, UploadPhase,
};

fn drive(events: &[UploadEvent]) -> (UploadPhase, Vec<UploadAction>) {
    let (mut phase, mut actions) = start(true);
    for e in events {
        let (next, acts) = step(phase, *e);
        phase = next;
        actions.extend(acts);
    }
    (phase, actions)
}

fn progress(actions: &[UploadAction]) -> Vec<u32> {
    actions
        .iter()
        .filter_map(|a| match a {
            UploadAction::Progress { permille } => Some(*permille),
            _ => None,
        })
        .collect()
}

#[test]
fn transfer_failure_records_nothing() {
    let (phase, actions) = drive(&[
        UploadEvent::Measured { size: 4096 },
        UploadEvent::TransferFailed,
        UploadEvent::Resolved,
        UploadEvent::Delivered,
    ]);
    assert_eq!(phase, UploadPhase::Failed { error: UploadError::Transfer });
    assert!(!actions.iter().any(|a| matches!(a, UploadAction::Finish { .. })));
    assert_eq!(actions.last(), Some(&UploadAction::Abort { error: UploadError::Transfer }));
    let mut store = MetadataStore::new();
    assert!(!commit_upload(&mut store, "doc.pdf", phase));
    assert_eq!(store.len(), 0);
}

#[test]
fn successful_upload_records_once_with_measured_size() {
    let (phase, actions) = drive(&[
        UploadEvent::Measured { size: 1_572_864 },
        UploadEvent::Transferred,
        UploadEvent::Resolved,
        UploadEvent::Delivered,
    ]);
    assert_eq!(phase, UploadPhase::Completed { size: 1_572_864 });
    assert_eq!(progress(&actions), vec![100, 800, 1000]);
    assert_eq!(
        actions,
        vec![
            UploadAction::Measure,
            UploadAction::Announce,
            UploadAction::Progress { permille: 100 },
            UploadAction::Transfer,
            UploadAction::Progress { permille: 800 },
            UploadAction::ResolveSelf,
            UploadAction::Deliver,
            UploadAction::Progress { permille: 1000 },
            UploadAction::Finish { size: 1_572_864 },
        ]
    );
    let mut store = MetadataStore::new();
    assert!(commit_upload(&mut store, "movie.mkv", phase));
    let all = store.read_all();
    assert_eq!(all.len(), 1);
    assert_eq!(all[0].filename, "movie.mkv");
    assert_eq!(all[0].file_id, "tg_file_movie.mkv");
    assert_eq!(all[0].file_size, 1_572_864);
}

#[test]
fn unreadable_file_fails_with_io() {
    let (phase, actions) = drive(&[UploadEvent::Unreadable]);
    assert_eq!(phase, UploadPhase::Failed { error: UploadError::Io });
    assert_eq!(actions.last(), Some(&UploadAction::Abort { error: UploadError::Io }));
}

#[test]
fn resolution_and_delivery_failures() {
    let (phase, _) = drive(&[
        UploadEvent::Measured { size: 1 },
        UploadEvent::Transferred,
        UploadEvent::ResolveFailed,
    ]);
    assert_eq!(phase, UploadPhase::Failed { error: UploadError::Resolution });
    let (phase, actions) = drive(&[
        UploadEvent::Measured { size: 1 },
        UploadEvent::Transferred,
        UploadEvent::Resolved,
        UploadEvent::DeliveryFailed,
    ]);
    assert_eq!(phase, UploadPhase::Failed { error: UploadError::Delivery });
    assert_eq!(progress(&actions), vec![100, 800]);
}

#[test]
fn nameless_path_fails_at_start() {
    let (phase, actions) = start(false);
    assert_eq!(phase, UploadPhase::Failed { error: UploadError::InvalidName });
    assert_eq!(actions, vec![UploadAction::Abort { error: UploadError::InvalidName }]);
}

#[test]
fn unexpected_event_changes_nothing() {
    let (phase, actions) = step(UploadPhase::Measuring, UploadEvent::Delivered);
    assert_eq!(phase, UploadPhase::Measuring);
    assert!(actions.is_empty());
}

#[test]
fn identifiers_and_status_text() {
    assert_eq!(remote_id("a.bin"), "tg_file_a.bin");
    assert_eq!(uploading_status("a.bin"), "Uploading a.bin...");
}
