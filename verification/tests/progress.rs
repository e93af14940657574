use dfs_client::progress::{Phase, ProgressEvent, ProgressTracker};
use dfs_client::transfer::{begin_download, begin_upload, settle, stream_fault, StreamFault};
use dfs_client::error::TransferError;

fn assert_monotone(events: &[ProgressEvent]) {
    for w in events.windows(2) {
        assert!(w[0].bytes_transferred <= w[1].bytes_transferred);
    }
}

fn assert_single_terminal(events: &[ProgressEvent]) {
    let terminals = events
        .iter()
        .filter(|e| e.phase != Phase::InProgress)
        .count();
    assert_eq!(terminals, 1);
    assert!(events.last().unwrap().phase != Phase::InProgress);
}

#[test]
fn upload_progress_monotone_and_complete() {
    let mut t = begin_upload(Some(12));
    let mut events = Vec::new();
    events.push(t.on_chunk(3));
    events.push(t.on_chunk(4));
    events.push(t.on_chunk(5));
    events.push(t.complete());

    let bytes: Vec<u64> = events.iter().map(|e| e.bytes_transferred).collect();
    assert_eq!(bytes, vec![3, 7, 12, 12]);
    assert_monotone(&events);
    assert_single_terminal(&events);
    // the final in-progress value equals the bytes actually moved
    assert_eq!(events[2].bytes_transferred, 12);
    assert_eq!(events[2].phase, Phase::InProgress);
    assert_eq!(events[3].phase, Phase::Completed);
    for e in &events {
        assert_eq!(e.total_bytes, Some(12));
    }
}

#[test]
fn progress_is_capped_at_declared_total() {
    let mut t = ProgressTracker::new(Some(10));
    let e1 = t.on_chunk(6);
    let e2 = t.on_chunk(6);
    let done = t.complete();
    assert_eq!(e1.bytes_transferred, 6);
    assert_eq!(e2.bytes_transferred, 10);
    assert_eq!(done.bytes_transferred, 10);
    assert_eq!(t.transferred, 12);
}

#[test]
fn unknown_length_download_completes_with_no_total() {
    let t = begin_download(true, 200, b"", None);
    let mut t = t.expect("success status must begin the download");
    let mut events = Vec::new();
    events.push(t.on_chunk(5));
    events.push(t.on_chunk(5));
    events.push(t.complete());
    assert_monotone(&events);
    assert_single_terminal(&events);
    let last = events.last().unwrap();
    assert_eq!(last.phase, Phase::Completed);
    assert_eq!(last.total_bytes, None);
    assert_eq!(last.bytes_transferred, 10);
}

#[test]
fn streaming_many_chunks_keeps_constant_state() {
    // the engine sees one chunk length at a time and holds only its
    // counters, never the payload: a long stream leaves the same
    // fixed-size tracker behind
    let mut t = begin_download(true, 200, b"", Some(10_000)).unwrap();
    let mut events = Vec::new();
    for _ in 0..10 {
        events.push(t.on_chunk(1000));
    }
    events.push(t.complete());
    assert_eq!(events.len(), 11);
    assert_monotone(&events);
    assert_single_terminal(&events);
    assert_eq!(t.transferred, 10_000);
    assert_eq!(events[10].bytes_transferred, 10_000);
}

#[test]
fn settle_failure_emits_single_failed_event() {
    let mut t = begin_upload(Some(5));
    let mut events = Vec::new();
    events.push(t.on_chunk(5));
    events.push(settle(&mut t, false));
    assert_single_terminal(&events);
    assert_eq!(events[1].phase, Phase::Failed);
    assert!(t.terminated);
}

#[test]
fn settle_success_emits_completed_event() {
    let mut t = begin_upload(None);
    t.on_chunk(7);
    let e = settle(&mut t, true);
    assert_eq!(e.phase, Phase::Completed);
    assert_eq!(e.bytes_transferred, 7);
    assert_eq!(e.total_bytes, None);
}

#[test]
fn stream_fault_maps_transport_error() {
    let mut t = begin_download(true, 200, b"", Some(100)).unwrap();
    t.on_chunk(40);
    let (e, err) = stream_fault(&mut t, StreamFault::Transport("connection reset".to_string()));
    assert_eq!(e.phase, Phase::Failed);
    assert_eq!(e.bytes_transferred, 40);
    assert_eq!(err, TransferError::TransportError("connection reset".to_string()));
    assert!(err.message().contains("connection reset"));
}

#[test]
fn stream_fault_maps_sink_write_error() {
    let mut t = begin_download(true, 200, b"", None).unwrap();
    let (e, err) = stream_fault(&mut t, StreamFault::SinkWrite("disk full".to_string()));
    assert_eq!(e.phase, Phase::Failed);
    assert_eq!(err, TransferError::SinkWriteError("disk full".to_string()));
    assert_eq!(err.message(), "sink write error: disk full");
}
