use phantomftp::transfer::{
    percentage, PreviewText, RetryOutcome, RetryState, StreamAction, StreamState, TransferDirection,
};

#[test]
fn three_attempts_then_stop() {
    let mut r = RetryState::new(TransferDirection::Download);
    assert_eq!(r.attempts(), 1);
    match r.after_attempt(false, false, "/pub/a", "Some(e1)") {
        RetryOutcome::Retry { notice, delay_secs } => {
            assert_eq!(notice, "Download attempt 1/3 failed. Retrying in 2 seconds...");
            assert_eq!(delay_secs, 2);
        }
        other => panic!("a second attempt expected, got {:?}", other),
    }
    match r.after_attempt(false, false, "/pub/a", "Some(e2)") {
        RetryOutcome::Retry { notice, .. } => {
            assert_eq!(notice, "Download attempt 2/3 failed. Retrying in 2 seconds...");
        }
        other => panic!("a third attempt expected, got {:?}", other),
    }
    assert_eq!(r.attempts(), 3);
    match r.after_attempt(false, false, "/pub/a", "Some(boom)") {
        RetryOutcome::Failed(m) => assert_eq!(m, "Download failed after 3 attempts: Some(boom)"),
        other => panic!("failure expected, got {:?}", other),
    }
    assert_eq!(r.attempts(), 3);
}

#[test]
fn a_success_completes_at_once() {
    let mut r = RetryState::new(TransferDirection::Upload);
    match r.after_attempt(false, false, "notes.txt", "Some(e)") {
        RetryOutcome::Retry { .. } => {}
        other => panic!("a retry expected, got {:?}", other),
    }
    match r.after_attempt(true, false, "notes.txt", "") {
        RetryOutcome::Completed(m) => assert_eq!(m, "Uploaded: notes.txt"),
        other => panic!("completion expected, got {:?}", other),
    }
    assert_eq!(r.attempts(), 2);
    let mut d = RetryState::new(TransferDirection::Download);
    match d.after_attempt(true, true, "/pub/a", "") {
        RetryOutcome::Completed(m) => assert_eq!(m, "Downloaded: /pub/a"),
        other => panic!("completion expected, got {:?}", other),
    }
}

#[test]
fn cancelled_transfers_stop() {
    let mut r = RetryState::new(TransferDirection::Upload);
    match r.after_attempt(false, true, "notes.txt", "Some(Cancelled)") {
        RetryOutcome::Failed(m) => assert_eq!(m, "Transfer cancelled by user"),
        other => panic!("failure expected, got {:?}", other),
    }
    assert_eq!(r.attempts(), 1);
    assert_eq!(r.failure_message(true, "x"), "Transfer cancelled by user");
    assert_eq!(r.completed_message("notes.txt"), "Uploaded: notes.txt");
}

#[test]
fn stream_steps_count_and_report() {
    let mut s = StreamState::new(TransferDirection::Download, "a.bin".to_string(), 300);
    assert!(matches!(s.step(false, None), StreamAction::Read));
    match s.step(false, Some(100)) {
        StreamAction::Deliver { progress } => {
            assert_eq!(progress.filename, "a.bin");
            assert_eq!(progress.transferred_bytes, 100);
            assert_eq!(progress.total_bytes, 300);
            assert_eq!(progress.percentage, 33);
        }
        other => panic!("delivery expected, got {:?}", other),
    }
    match s.step(false, Some(200)) {
        StreamAction::Deliver { progress } => {
            assert_eq!(progress.transferred_bytes, 300);
            assert_eq!(progress.percentage, 100);
        }
        other => panic!("delivery expected, got {:?}", other),
    }
    assert!(matches!(s.step(false, Some(0)), StreamAction::Finish));
    assert_eq!(s.transferred_bytes, 300);
}

#[test]
fn cancelled_streams_abort() {
    let mut d = StreamState::new(TransferDirection::Download, "a.bin".to_string(), 10);
    assert!(matches!(d.step(true, None), StreamAction::Abort { remove_partial: true }));
    assert!(matches!(d.step(true, Some(5)), StreamAction::Abort { remove_partial: true }));
    assert_eq!(d.transferred_bytes, 0);
    let mut u = StreamState::new(TransferDirection::Upload, "b.bin".to_string(), 10);
    assert!(matches!(u.step(true, None), StreamAction::Abort { remove_partial: false }));
}

#[test]
fn preview_keeps_valid_text() {
    let mut p = PreviewText::new();
    assert!(p.add_chunk("héllo ".as_bytes().to_vec()));
    assert!(p.add_chunk(vec![0xff, 0xfe]));
    assert!(p.add_chunk(b"world".to_vec()));
    assert_eq!(p.text(), "héllo world");
}

#[test]
fn preview_stops_after_ten_thousand_bytes() {
    let mut p = PreviewText::new();
    let chunk = vec![b'a'; 8192];
    assert!(p.add_chunk(chunk.clone()));
    assert!(!p.add_chunk(chunk));
    let text = p.text();
    assert_eq!(text.len(), 10000 + "\n...[truncated]...".len());
    assert!(text.starts_with(&"a".repeat(10000)));
    assert!(text.ends_with("\n...[truncated]..."));
}

#[test]
fn preview_at_the_limit_reads_on() {
    let mut p = PreviewText::new();
    assert!(p.add_chunk(vec![b'b'; 10000]));
    assert!(!p.add_chunk(vec![b'c'; 1]));
    assert_eq!(p.text(), format!("{}\n...[truncated]...", "b".repeat(10000)));
}

#[test]
fn preview_cut_does_not_split_a_character() {
    let mut p = PreviewText::new();
    assert!(p.add_chunk(vec![b'x'; 9999]));
    assert!(!p.add_chunk("é".as_bytes().to_vec()));
    assert_eq!(p.text(), format!("{}\n...[truncated]...", "x".repeat(9999)));
}

#[test]
fn percentages_are_whole_and_rounded_down() {
    assert_eq!(percentage(29, 100), 29);
    assert_eq!(percentage(1, 3), 33);
    assert_eq!(percentage(2, 3), 66);
    assert_eq!(percentage(5, 0), 0);
    assert_eq!(percentage(u64::MAX, u64::MAX), 100);
    assert_eq!(percentage(u64::MAX, 1), u32::MAX);
}
