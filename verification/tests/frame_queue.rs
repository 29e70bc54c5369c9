use lumina_video::frame_queue::{FrameQueue, PopOutcome, PushOutcome, DEFAULT_BUFFER_SIZE};
use lumina_video::time::Duration;
use lumina_video::video::VideoFrame;

fn frame(millis: u64) -> VideoFrame {
    VideoFrame::new(Duration::from_millis(millis), 2, 2, millis)
}

fn taken(queue: &mut FrameQueue) -> Vec<u128> {
    let mut numbers = Vec::new();
    while let Some(frame) = queue.pop() {
        numbers.push(frame.pts.nanos / 1_000_000);
    }
    numbers
}

#[test]
fn a_live_queue_holds_the_newest_window() {
    let mut queue = FrameQueue::new(3);
    for millis in 0..8 {
        assert!(queue.push_live(frame(millis)));
        assert!(queue.len() <= 3);
    }
    assert_eq!(queue.live_frames_dropped(), 5);
    assert_eq!(taken(&mut queue), vec![5, 6, 7]);
    assert!(queue.push_live(frame(9)));
    assert_eq!(queue.live_frames_dropped(), 5);
    assert_eq!(taken(&mut queue), vec![9]);
}

#[test]
fn frames_are_taken_in_the_order_they_were_queued() {
    let mut queue = FrameQueue::new(4);
    assert!(queue.try_push(frame(1)));
    assert!(queue.try_push(frame(2)));
    assert_eq!(queue.peek_pts(), Some(Duration::from_millis(1)));
    assert_eq!(queue.pop().map(|frame| frame.pts), Some(Duration::from_millis(1)));
    assert!(queue.try_push(frame(3)));
    assert_eq!(taken(&mut queue), vec![2, 3]);
    assert!(queue.pop().is_none());
    assert!(queue.peek().is_none());
}

#[test]
fn a_recorded_queue_waits_for_space() {
    let mut queue = FrameQueue::new(1);
    assert!(matches!(queue.push(frame(1)), PushOutcome::Accepted));
    assert!(matches!(queue.push(frame(2)), PushOutcome::WaitForSpace));
    assert!(queue.is_full() && !queue.try_push(frame(2)));
    queue.begin_flush();
    assert!(matches!(queue.push(frame(2)), PushOutcome::Discarded));
    assert!(!queue.push_live(frame(2)));
    assert_eq!(queue.len(), 1);
    queue.flush();
    assert!(queue.is_empty());
    assert!(matches!(queue.push(frame(3)), PushOutcome::Accepted));
    queue.stop();
    assert!(matches!(queue.push(frame(4)), PushOutcome::Discarded));
    assert_eq!(taken(&mut queue), vec![3]);
}

#[test]
fn an_empty_queue_is_waited_for_once() {
    let mut queue = FrameQueue::new(0);
    assert_eq!(queue.capacity, 1);
    assert!(matches!(queue.pop_blocking(false), PopOutcome::WaitForFrame));
    assert!(matches!(queue.pop_blocking(true), PopOutcome::Nothing));
    queue.set_eos();
    assert!(matches!(queue.pop_blocking(false), PopOutcome::Nothing));
    assert!(queue.try_push(frame(6)));
    assert!(matches!(
        queue.pop_blocking(false),
        PopOutcome::Frame(shown) if shown.pts == Duration::from_millis(6)
    ));
    assert!(queue.is_eos());
    queue.clear_eos();
    assert!(!queue.is_eos());
    assert_eq!(FrameQueue::default().capacity, DEFAULT_BUFFER_SIZE);
}
