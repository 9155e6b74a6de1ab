use loopback::feed::{capture_block, playback_block};
use loopback::latency::{latency_samples, prefilled_queue, SizingError, SILENCE};
use loopback::queue::SampleQueue;
use loopback::session::{Diagnostic, Session, SessionError, SessionState};

fn running_session(latency_ms: u32, sample_rate: u32, channels: u16) -> Session {
    let mut s = Session::new();
    assert_eq!(s.configure(latency_ms, sample_rate, channels), Ok(()));
    assert_eq!(s.start(), Ok(()));
    s
}

#[test]
fn round_trip_prefill_then_drain() {
    let mut q = SampleQueue::new(2000);
    for _ in 0..1000 {
        assert!(q.try_push(SILENCE));
    }
    assert_eq!(q.len(), 1000);
    for _ in 0..1000 {
        assert_eq!(q.try_pop(), Some(0.0f32.to_bits()));
    }
    assert_eq!(q.len(), 0);
    assert!(q.is_empty());
}

#[test]
fn round_trip_through_prefilled_queue() {
    let mut q = prefilled_queue(1000, 1000, 1).unwrap();
    assert_eq!(q.capacity(), 2000);
    assert_eq!(q.len(), 1000);
    for _ in 0..1000 {
        assert_eq!(q.try_pop(), Some(SILENCE));
    }
    assert_eq!(q.len(), 0);
    assert_eq!(q.try_pop(), None);
}

#[test]
fn end_to_end_sizing_48k_stereo() {
    assert_eq!(latency_samples(1000, 48000, 2), Some(96000));
    let q = prefilled_queue(1000, 48000, 2).unwrap();
    assert_eq!(q.capacity(), 192000);
    assert_eq!(q.len(), 96000);
}

#[test]
fn latency_truncates_partial_frames() {
    // 15 ms at 44100 Hz is 661.5 frames: the half frame is dropped.
    assert_eq!(latency_samples(15, 44100, 2), Some(1322));
    assert_eq!(latency_samples(1, 999, 1), Some(0));
}

#[test]
fn latency_too_large_for_usize_is_none() {
    assert_eq!(latency_samples(u32::MAX, u32::MAX, u16::MAX), None);
}

#[test]
fn zero_latency_is_refused() {
    assert_eq!(prefilled_queue(0, 48000, 2).err(), Some(SizingError::NoLatency));
    assert_eq!(prefilled_queue(1000, 0, 2).err(), Some(SizingError::NoLatency));
    assert_eq!(prefilled_queue(1000, 48000, 0).err(), Some(SizingError::NoLatency));
    assert_eq!(prefilled_queue(1, 500, 1).err(), Some(SizingError::NoLatency));
}

#[test]
fn oversized_latency_is_refused() {
    assert_eq!(prefilled_queue(u32::MAX, u32::MAX, u16::MAX).err(), Some(SizingError::TooLarge));
}

#[test]
fn prefill_leaves_equal_headroom() {
    let mut q = prefilled_queue(10, 8000, 1).unwrap();
    assert_eq!(q.len(), 80);
    assert_eq!(q.capacity(), 160);
    for i in 0..80u32 {
        assert!(q.try_push(i + 1));
    }
    assert!(q.is_full());
    assert!(!q.try_push(999));
    assert_eq!(q.len(), 160);
}

#[test]
fn queue_is_fifo_and_refuses_when_full() {
    let mut q = SampleQueue::new(3);
    assert!(q.try_push(10));
    assert!(q.try_push(20));
    assert!(q.try_push(30));
    assert!(!q.try_push(40));
    assert_eq!(q.try_pop(), Some(10));
    assert!(q.try_push(50));
    assert_eq!(q.try_pop(), Some(20));
    assert_eq!(q.try_pop(), Some(30));
    assert_eq!(q.try_pop(), Some(50));
    assert_eq!(q.try_pop(), None);
}

#[test]
fn capture_block_drops_what_does_not_fit() {
    let mut q = SampleQueue::new(4);
    assert!(q.try_push(1));
    let overrun = capture_block(&mut q, &[2, 3, 4, 5, 6]);
    assert!(overrun);
    assert_eq!(q.len(), 4);
    let mut out = vec![9u32; 6];
    let underrun = playback_block(&mut q, &mut out);
    assert!(underrun);
    assert_eq!(out, vec![1, 2, 3, 4, 0, 0]);
    assert_eq!(q.len(), 0);
}

#[test]
fn matched_rate_stays_quiet() {
    let mut s = running_session(10, 8000, 2);
    let block: Vec<u32> = (1..=64).collect();
    let mut out = vec![0u32; 64];
    for _ in 0..200 {
        assert_eq!(s.on_capture(&block), None);
        assert_eq!(s.on_playback(&mut out), None);
        assert_eq!(s.queued(), Some(160));
    }
    // Playback first in a round is just as balanced.
    for _ in 0..200 {
        assert_eq!(s.on_playback(&mut out), None);
        assert_eq!(s.on_capture(&block), None);
    }
    assert_eq!(s.overrun_count(), 0);
    assert_eq!(s.underrun_count(), 0);
}

#[test]
fn stalled_producer_underruns_with_silence() {
    let mut s = running_session(1, 4000, 1);
    assert_eq!(s.queued(), Some(4));
    assert_eq!(s.on_capture(&[7, 8]), None);
    let mut out = vec![0xdead_beefu32; 10];
    assert_eq!(s.on_playback(&mut out), Some(Diagnostic::ConsumerUnderrun));
    assert_eq!(out, vec![0, 0, 0, 0, 7, 8, 0, 0, 0, 0]);
    let mut out2 = vec![0xdead_beefu32; 3];
    assert_eq!(s.on_playback(&mut out2), Some(Diagnostic::ConsumerUnderrun));
    assert_eq!(out2, vec![0, 0, 0]);
    assert_eq!(s.underrun_count(), 2);
    assert_eq!(s.queued(), Some(0));
}

#[test]
fn stalled_consumer_overruns_and_drops() {
    let mut s = running_session(1, 4000, 1);
    let block = [1u32, 2, 3];
    assert_eq!(s.on_capture(&block), None);
    assert_eq!(s.queued(), Some(7));
    assert_eq!(s.on_capture(&block), Some(Diagnostic::ProducerOverrun));
    assert_eq!(s.queued(), Some(8));
    assert_eq!(s.on_capture(&block), Some(Diagnostic::ProducerOverrun));
    assert_eq!(s.queued(), Some(8));
    assert_eq!(s.overrun_count(), 2);
    let mut out = vec![0u32; 8];
    assert_eq!(s.on_playback(&mut out), None);
    assert_eq!(out, vec![0, 0, 0, 0, 1, 2, 3, 1]);
}

#[test]
fn stopped_session_ignores_callbacks() {
    let mut s = running_session(1, 4000, 1);
    assert_eq!(s.on_capture(&[5, 6, 7, 8, 9]), Some(Diagnostic::ProducerOverrun));
    s.stop();
    assert_eq!(s.state(), SessionState::Stopped);
    assert_eq!(s.queued(), None);
    for _ in 0..10 {
        assert_eq!(s.on_capture(&[1, 2, 3, 4, 5, 6, 7, 8, 9]), None);
        let mut out = vec![42u32; 16];
        assert_eq!(s.on_playback(&mut out), None);
        assert_eq!(out, vec![0u32; 16]);
    }
    assert_eq!(s.overrun_count(), 1);
    assert_eq!(s.underrun_count(), 0);
    assert_eq!(s.start(), Err(SessionError::WrongState));
}

#[test]
fn session_steps_follow_their_order() {
    let mut s = Session::new();
    assert_eq!(s.state(), SessionState::Unconfigured);
    assert_eq!(s.start(), Err(SessionError::WrongState));
    assert_eq!(s.configure(0, 48000, 2), Err(SessionError::Sizing(SizingError::NoLatency)));
    assert_eq!(s.state(), SessionState::Unconfigured);
    assert_eq!(s.configure(1000, 48000, 2), Ok(()));
    assert_eq!(s.state(), SessionState::Configured);
    assert_eq!(s.queued(), Some(96000));
    assert_eq!(s.configure(1000, 48000, 2), Err(SessionError::WrongState));
    let mut out = vec![3u32; 4];
    assert_eq!(s.on_playback(&mut out), None);
    assert_eq!(out, vec![0u32; 4]);
    assert_eq!(s.queued(), Some(96000));
    assert_eq!(s.start(), Ok(()));
    assert_eq!(s.state(), SessionState::Running);
    assert_eq!(s.start(), Err(SessionError::WrongState));
}

#[test]
fn silence_is_positive_zero() {
    assert_eq!(f32::from_bits(SILENCE), 0.0f32);
    assert_eq!(0.0f32.to_bits(), SILENCE);
}
