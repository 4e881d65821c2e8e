use pitch_tracker::{AudioFrame, FrameQueue};

#[test]
fn queue_keeps_order_below_capacity() {
    let mut q: FrameQueue<u32> = FrameQueue::new(3);
    assert!(q.is_empty());
    assert!(q.push(1));
    assert!(q.push(2));
    assert_eq!(q.len(), 2);
    assert_eq!(q.pop(), Some(1));
    assert_eq!(q.pop(), Some(2));
    assert_eq!(q.pop(), None);
    assert_eq!(q.overruns(), 0);
}

#[test]
fn queue_overrun_drops_oldest() {
    let cap: usize = 4;
    let mut q: FrameQueue<Vec<i32>> = FrameQueue::new(cap);
    let pushed: usize = 11;
    let mut reported: usize = 0;
    for k in 0..pushed {
        if !q.push(vec![k as i32; 8]) {
            reported += 1;
        }
    }
    assert_eq!(reported, pushed - cap);
    assert_eq!(q.overruns() as usize, pushed - cap);
    assert_eq!(q.len(), cap);
    for k in (pushed - cap)..pushed {
        assert_eq!(q.pop(), Some(vec![k as i32; 8]));
    }
    assert!(q.is_empty());
}

#[test]
fn queue_accepts_again_after_pop() {
    let mut q: FrameQueue<u8> = FrameQueue::new(1);
    assert_eq!(q.capacity(), 1);
    assert!(q.push(7));
    assert!(!q.push(8));
    assert_eq!(q.pop(), Some(8));
    assert!(q.push(9));
    assert_eq!(q.overruns(), 1);
}

#[test]
fn audio_frames_pass_through_queue() {
    let mut q: FrameQueue<AudioFrame> = FrameQueue::new(2);
    assert!(q.push(AudioFrame::new(vec![1, 2, 3], 44100, 1)));
    let f = q.pop().unwrap();
    assert_eq!(f.len(), 3);
    assert_eq!(f.sample_rate, 44100);
    assert_eq!(f.channels, 1);
    assert_eq!(f.fitted(4), vec![1, 2, 3, 0]);
    assert_eq!(f.fitted(2), vec![1, 2]);
}
