use clip_capture::capture::{CaptureLoop, Poll, PollOutcome, RateGate};
use clip_capture::circular_buffer::BufferError;
use clip_capture::hotkey::Chord;

fn session(fps: u32, duration: usize) -> CaptureLoop {
    let chords = vec![Chord::new(7, 8, 9).unwrap(), Chord::new(47, 48, 49).unwrap()];
    CaptureLoop::new(fps, duration, (2, 1), chords).unwrap()
}

fn frame(number: u8, elapsed: u64) -> Poll {
    Poll::Frame { pixels: vec![number; 8], elapsed }
}

#[test]
fn gate_interval_is_one_second_over_the_rate() {
    assert_eq!(RateGate::new(5).unwrap().interval_nanos(), 200_000_000);
    assert_eq!(RateGate::new(60).unwrap().interval_nanos(), 16_666_666);
    assert_eq!(RateGate::new(1).unwrap().interval_nanos(), 1_000_000_000);
    assert_eq!(RateGate::new(u32::MAX).unwrap().interval_nanos(), 0);
    assert_eq!(RateGate::new(0), None);
}

#[test]
fn window_of_no_frames_is_invalid() {
    assert_eq!(CaptureLoop::new(0, 3, (2, 1), vec![]).err(), Some(BufferError::InvalidCapacity));
    assert_eq!(CaptureLoop::new(60, 0, (2, 1), vec![]).err(), Some(BufferError::InvalidCapacity));
    assert_eq!(
        CaptureLoop::new(2, usize::MAX, (2, 1), vec![]).err(),
        Some(BufferError::InvalidCapacity)
    );
    assert!(CaptureLoop::new(60, 3, (2, 1), vec![]).is_ok());
}

#[test]
fn frames_are_stored_and_the_window_rolls() {
    let mut s = session(5, 1);
    assert!(s.is_capturing());
    assert_eq!(s.len(), 0);
    for i in 1..=8u8 {
        let elapsed = if i == 1 { 0 } else { 200_000_000 };
        assert_eq!(s.on_poll(frame(i, elapsed)), PollOutcome::Stored);
    }
    assert_eq!(s.len(), 5);
    let numbers: Vec<u8> = s.snapshot().iter().map(|f| f.frame[0]).collect();
    assert_eq!(numbers, vec![4, 5, 6, 7, 8]);
}

#[test]
fn not_ready_waits_one_interval() {
    let mut s = session(5, 1);
    assert_eq!(s.on_poll(Poll::NotReady), PollOutcome::Wait(200_000_000));
    assert!(s.is_capturing());
    assert_eq!(s.len(), 0);
    assert_eq!(s.on_poll(frame(1, 0)), PollOutcome::Stored);
    assert_eq!(s.on_poll(Poll::NotReady), PollOutcome::Wait(200_000_000));
    assert_eq!(s.len(), 1);
}

#[test]
fn failure_ends_the_session_for_good() {
    let mut s = session(5, 1);
    assert_eq!(s.on_poll(frame(1, 0)), PollOutcome::Stored);
    assert_eq!(s.on_poll(Poll::Failed), PollOutcome::Stop);
    assert!(!s.is_capturing());
    assert_eq!(s.on_poll(frame(2, 5)), PollOutcome::Stop);
    assert_eq!(s.on_poll(Poll::NotReady), PollOutcome::Stop);
    assert_eq!(s.len(), 1);
    assert!(s.on_keys(vec![7, 8, 9]).is_none());
    assert!(!s.is_capturing());
}

#[test]
fn trigger_hands_out_a_copy_of_the_window() {
    let mut s = session(3, 1);
    for i in 1..=4u8 {
        s.on_poll(frame(i, 10 * i as u64));
    }
    assert!(s.on_keys(vec![]).is_none());
    let task = s.on_keys(vec![9, 8, 7]).unwrap();
    assert_eq!(task.dimensions, (2, 1));
    assert_eq!(task.chord, 0);
    let numbers: Vec<u8> = task.frames.iter().map(|f| f.frame[0]).collect();
    assert_eq!(numbers, vec![2, 3, 4]);
    let delays: Vec<u64> = task.frames.iter().map(|f| f.delay).collect();
    assert_eq!(delays, vec![20, 30, 40]);
    assert_eq!(s.len(), 3);
    s.on_poll(frame(5, 50));
    assert_eq!(task.frames.len(), 3);
    assert_eq!(task.frames[0].frame, vec![2; 8]);
    let numbers: Vec<u8> = s.snapshot().iter().map(|f| f.frame[0]).collect();
    assert_eq!(numbers, vec![3, 4, 5]);
}

#[test]
fn held_chord_triggers_once() {
    let mut s = session(3, 1);
    s.on_poll(frame(1, 0));
    assert!(s.on_keys(vec![7, 8, 9]).is_some());
    assert!(s.on_keys(vec![7, 8, 9]).is_none());
    assert!(s.on_keys(vec![8, 9, 7]).is_none());
    assert!(s.on_keys(vec![]).is_none());
    assert!(s.on_keys(vec![7, 8, 9]).is_some());
}

#[test]
fn second_chord_is_told_apart() {
    let mut s = session(3, 1);
    let task = s.on_keys(vec![47, 48, 49]).unwrap();
    assert_eq!(task.chord, 1);
    assert!(task.frames.is_empty());
    assert!(s.on_keys(vec![47, 48]).is_none());
    assert!(s.on_keys(vec![47, 48, 49, 7]).is_none());
}

#[test]
fn capture_goes_on_while_tasks_are_pending() {
    let mut s = session(3, 1);
    for i in 1..=3u8 {
        s.on_poll(frame(i, 10));
    }
    let first = s.on_keys(vec![7, 8, 9]).unwrap();
    assert_eq!(s.on_poll(frame(4, 10)), PollOutcome::Stored);
    assert!(s.on_keys(vec![]).is_none());
    let second = s.on_keys(vec![47, 48, 49]).unwrap();
    assert_eq!(s.on_poll(frame(5, 10)), PollOutcome::Stored);

    let numbers: Vec<u8> = first.frames.iter().map(|f| f.frame[0]).collect();
    assert_eq!(numbers, vec![1, 2, 3]);
    let numbers: Vec<u8> = second.frames.iter().map(|f| f.frame[0]).collect();
    assert_eq!(numbers, vec![2, 3, 4]);
    let numbers: Vec<u8> = s.snapshot().iter().map(|f| f.frame[0]).collect();
    assert_eq!(numbers, vec![3, 4, 5]);
    assert_eq!((first.chord, second.chord), (0, 1));
}

#[test]
fn widest_window_that_can_be_counted() {
    let mut s = CaptureLoop::new(1, usize::MAX, (2, 1), vec![]).unwrap();
    assert_eq!(s.on_poll(frame(1, 0)), PollOutcome::Stored);
    assert_eq!(s.len(), 1);
}
