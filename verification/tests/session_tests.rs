use voicekey::buffer::SampleBuffer;
use voicekey::session::{Phase, Session, ToggleAction};

fn start(session: &mut Session) {
    assert_eq!(session.toggle_action(), ToggleAction::StartCapture);
    session.begin_recording(0, 48000, 2);
}

#[test]
fn session_starts_idle_and_cleared() {
    let s = Session::new();
    assert_eq!(s.phase(), Phase::Idle);
    assert!(!s.capture_active());
    assert_eq!(s.started_at(), None);
    assert_eq!(s.sample_rate(), None);
    assert_eq!(s.channel_count(), None);
    assert_eq!(s.buffered_len(), 0);
}

#[test]
fn begin_recording_captures_metadata() {
    let mut s = Session::new();
    s.begin_recording(1234, 8000, 1);
    assert_eq!(s.phase(), Phase::Recording);
    assert!(s.capture_active());
    assert_eq!(s.started_at(), Some(1234));
    assert_eq!(s.sample_rate(), Some(8000));
    assert_eq!(s.channel_count(), Some(1));
    assert_eq!(s.buffered_len(), 0);
}

#[test]
fn phases_cycle_in_order() {
    // Sequential toggles: Idle -> Recording -> Processing -> Idle, no phase
    // skipped, none repeated.
    let mut s = Session::new();
    assert_eq!(s.phase(), Phase::Idle);

    assert_eq!(s.toggle_action(), ToggleAction::StartCapture);
    s.begin_recording(0, 44100, 2);
    assert_eq!(s.phase(), Phase::Recording);

    assert_eq!(s.toggle_action(), ToggleAction::StopAndProcess);
    let _input = s.begin_processing();
    assert_eq!(s.phase(), Phase::Processing);

    let outcome: Result<String, ()> = Ok(String::from("done"));
    let _ = s.finish_run(outcome);
    assert_eq!(s.phase(), Phase::Idle);

    // A fresh toggle starts the cycle again from the top.
    assert_eq!(s.toggle_action(), ToggleAction::StartCapture);
}

#[test]
fn toggles_while_processing_are_ignored() {
    // Single-flight: a burst of toggles during a pipeline run changes
    // nothing and starts nothing.
    let mut s = Session::new();
    start(&mut s);
    let _input = s.begin_processing();
    assert_eq!(s.phase(), Phase::Processing);
    for _ in 0..5 {
        assert_eq!(s.toggle_action(), ToggleAction::Ignore);
        assert_eq!(s.phase(), Phase::Processing);
        assert!(!s.capture_active());
    }
    let _ = s.finish_run(());
    assert_eq!(s.phase(), Phase::Idle);
}

#[test]
fn state_restored_after_any_outcome() {
    // The guaranteed-release cleanup runs the same way for success and for
    // every failure kind.
    let outcomes: Vec<Result<&str, &str>> = vec![
        Ok("text"),
        Err("device unavailable"),
        Err("stream failure"),
        Err("encode failure"),
        Err("missing credential"),
        Err("transport failure"),
        Err("remote rejection"),
        Err("malformed response"),
    ];
    for outcome in outcomes {
        let mut s = Session::new();
        start(&mut s);
        s.append_samples(&[1, 2, 3]);
        let _input = s.begin_processing();
        let back = s.finish_run(outcome);
        assert_eq!(back, outcome);
        assert_eq!(s.phase(), Phase::Idle);
        assert!(!s.capture_active());
        assert_eq!(s.started_at(), None);
        assert_eq!(s.sample_rate(), None);
        assert_eq!(s.channel_count(), None);
        assert_eq!(s.buffered_len(), 0);
    }
}

#[test]
fn begin_processing_hands_over_snapshot() {
    let mut s = Session::new();
    s.begin_recording(10, 8000, 1);
    s.append_samples(&[7, 8]);
    s.append_samples(&[9]);
    let input = s.begin_processing();
    assert_eq!(input.samples, vec![7, 8, 9]);
    assert_eq!(input.sample_rate, 8000);
    assert_eq!(input.channel_count, 1);
    assert!(!s.capture_active());
    assert_eq!(s.buffered_len(), 0);
}

#[test]
fn buffer_length_is_sum_of_frames() {
    // Appends only ever grow the buffer, and the final length is the sum of
    // all delivered frame sizes.
    let mut b = SampleBuffer::new();
    assert_eq!(b.len(), 0);
    let frames: Vec<Vec<i16>> = vec![vec![1, 2], vec![], vec![3, 4, 5], vec![6]];
    let mut previous = 0;
    let mut total = 0;
    for frame in &frames {
        b.append_frame(frame);
        total += frame.len();
        assert!(b.len() >= previous);
        previous = b.len();
    }
    assert_eq!(b.len(), total);
    assert_eq!(b.into_samples(), vec![1, 2, 3, 4, 5, 6]);
}

#[test]
fn empty_recording_yields_empty_snapshot() {
    let mut s = Session::new();
    s.begin_recording(0, 16000, 2);
    let input = s.begin_processing();
    assert!(input.samples.is_empty());
}
