use tagged_channel::thread::channel::{
    bounded, bounded_default, try_bounded, ChannelError, Destination, IntoTuple, Origin, Receiver, Sender,
    DEFAULT_CAPACITY,
};
use tagged_channel::thread::wait::{Backoff, Step, SPIN_LIMIT};
use tagged_channel::thread::{duplex, duplex_default};

struct Main;
struct Worker;

impl Origin for Main {}
impl Origin for Worker {}
impl Destination for Main {}
impl Destination for Worker {}

#[test]
fn scenario_capacity_four() {
    let (mut tx, mut rx): (Sender<Worker, i32>, Receiver<Main, i32>) = bounded(4);
    for v in [10, 20, 30, 40] {
        assert_eq!(tx.push(v), Ok(()));
    }
    assert_eq!(tx.push(50), Err(ChannelError::QueueFull(50)));
    assert_eq!(tx.push(50), Err(ChannelError::QueueFull(50)));
    assert_eq!(rx.pop(), Ok(10));
    assert_eq!(tx.push(50), Ok(()));
    assert_eq!(rx.pop(), Ok(20));
    assert_eq!(rx.pop(), Ok(30));
    assert_eq!(rx.pop(), Ok(40));
    assert_eq!(rx.pop(), Ok(50));
    assert_eq!(rx.pop(), Err(ChannelError::QueueEmpty));
}

#[test]
fn fifo_order_through_small_buffer() {
    let (mut tx, mut rx): (Sender<Worker, i32>, Receiver<Main, i32>) = bounded(3);
    let items: Vec<i32> = (0..50).map(|i| i * 7 - 100).collect();
    let mut out = Vec::new();
    let mut next = 0;
    while out.len() < items.len() {
        while next < items.len() && tx.try_send(items[next]).is_ok() {
            next += 1;
        }
        while let Ok(v) = rx.try_recv() {
            out.push(v);
        }
    }
    assert_eq!(out, items);
}

#[test]
fn no_loss_no_duplication() {
    let (mut tx, mut rx): (Sender<Worker, i32>, Receiver<Main, i32>) = bounded(5);
    let mut pushed = Vec::new();
    let mut popped = Vec::new();
    for round in 0..20 {
        for k in 0..(round % 7) {
            let v = round * 10 + k;
            if tx.push(v).is_ok() {
                pushed.push(v);
            }
        }
        for _ in 0..(round % 4) {
            if let Ok(v) = rx.pop() {
                popped.push(v);
            }
        }
    }
    while let Ok(v) = rx.pop() {
        popped.push(v);
    }
    assert_eq!(popped, pushed);
}

#[test]
fn is_full_exactly_at_capacity() {
    let (mut tx, mut rx): (Sender<Worker, i32>, Receiver<Main, i32>) = bounded(3);
    for v in 0..3 {
        assert!(!tx.is_full());
        assert_eq!(tx.push(v), Ok(()));
    }
    assert!(tx.is_full());
    assert!(!rx.is_empty());
    assert_eq!(rx.pop(), Ok(0));
    assert!(!tx.is_full());
}

#[test]
fn capacity_reported_on_both_endpoints() {
    let (tx, rx): (Sender<Worker, i32>, Receiver<Main, i32>) = bounded(100);
    assert_eq!(tx.capacity(), 100);
    assert_eq!(rx.capacity(), 100);
    let (tx, rx): (Sender<Worker, i32>, Receiver<Main, i32>) = bounded(7);
    assert_eq!(tx.capacity(), 7);
    assert_eq!(rx.capacity(), 7);
    let (tx, rx): (Sender<Worker, i32>, Receiver<Main, i32>) = bounded_default();
    assert_eq!(tx.capacity(), DEFAULT_CAPACITY);
    assert_eq!(rx.capacity(), 100);
}

#[test]
fn duplex_default_reports_capacity_everywhere() {
    let (main_side, worker_side) = duplex_default::<Main, Worker>();
    assert_eq!(main_side.sender.capacity(), 100);
    assert_eq!(main_side.receiver.capacity(), 100);
    assert_eq!(worker_side.sender.capacity(), 100);
    assert_eq!(worker_side.receiver.capacity(), 100);
}

#[test]
fn capacity_unchanged_by_traffic() {
    let (mut tx, mut rx): (Sender<Worker, i32>, Receiver<Main, i32>) = bounded(2);
    tx.push(1).unwrap();
    tx.push(2).unwrap();
    assert!(tx.push(3).is_err());
    rx.pop().unwrap();
    assert_eq!(tx.capacity(), 2);
    assert_eq!(rx.capacity(), 2);
}

#[test]
fn full_duplex_independence() {
    let (mut main_side, mut worker_side) = duplex::<Main, Worker>(2);
    assert_eq!(main_side.try_send(1), Ok(()));
    assert_eq!(main_side.try_send(2), Ok(()));
    assert_eq!(main_side.try_send(3), Err(ChannelError::QueueFull(3)));
    // the other direction is still empty and has all its room
    assert!(main_side.receiver.is_empty());
    assert!(!worker_side.sender.is_full());
    assert!(main_side.receiver.is_empty_paired(&worker_side.sender));
    assert!(!worker_side.sender.is_full_paired(&main_side.receiver));
    assert!(main_side.sender.is_full_paired(&worker_side.receiver));
    assert_eq!(worker_side.try_send(9), Ok(()));
    assert_eq!(worker_side.try_send(8), Ok(()));
    assert_eq!(main_side.try_recv(), Ok(9));
    assert_eq!(worker_side.try_recv(), Ok(1));
    assert_eq!(worker_side.try_recv(), Ok(2));
    assert_eq!(worker_side.try_recv(), Err(ChannelError::QueueEmpty));
    assert_eq!(main_side.try_recv(), Ok(8));
}

#[test]
fn try_bounded_rejects_zero() {
    let r: Result<(Sender<Worker, i32>, Receiver<Main, i32>), ChannelError> = try_bounded(0);
    assert!(matches!(r, Err(ChannelError::InvalidCapacity)));
}

#[test]
fn try_bounded_rejects_unallocatable() {
    let r: Result<(Sender<Worker, i32>, Receiver<Main, i32>), ChannelError> = try_bounded(usize::MAX);
    assert!(matches!(r, Err(ChannelError::InvalidCapacity)));
    let r: Result<(Sender<Worker, i32>, Receiver<Main, i32>), ChannelError> =
        try_bounded((isize::MAX as usize) / 4 + 1);
    assert!(matches!(r, Err(ChannelError::InvalidCapacity)));
}

#[test]
fn try_bounded_accepts_one() {
    let r: Result<(Sender<Worker, i32>, Receiver<Main, i32>), ChannelError> = try_bounded(1);
    let (mut tx, mut rx) = r.ok().unwrap();
    assert_eq!(tx.capacity(), 1);
    assert_eq!(tx.try_send(5), Ok(()));
    assert_eq!(tx.try_send(6), Err(ChannelError::QueueFull(6)));
    assert_eq!(rx.try_recv(), Ok(5));
    assert_eq!(rx.try_recv(), Err(ChannelError::QueueEmpty));
}

#[test]
fn pop_on_empty_reports_queue_empty() {
    let (_tx, mut rx): (Sender<Worker, i32>, Receiver<Main, i32>) = bounded(4);
    assert!(rx.is_empty());
    assert_eq!(rx.pop(), Err(ChannelError::QueueEmpty));
}

#[test]
fn wrap_raw_halves_with_into_tuple() {
    let (mut tx, mut rx): (Sender<Worker, i32>, Receiver<Main, i32>) =
        rtrb::RingBuffer::<i32>::new(3).into_tuple();
    assert_eq!(tx.capacity(), 3);
    assert_eq!(rx.capacity(), 3);
    assert_eq!(tx.push(-4), Ok(()));
    assert_eq!(rx.pop(), Ok(-4));
}

#[test]
fn wrap_raw_halves_with_from() {
    let (p, c) = rtrb::RingBuffer::<i32>::new(2);
    let mut tx: Sender<Main, i32> = Sender::from(p);
    let mut rx: Receiver<Worker, i32> = Receiver::from(c);
    assert_eq!(tx.push(11), Ok(()));
    assert_eq!(rx.pop(), Ok(11));
}

#[test]
fn backoff_spins_then_yields() {
    let mut b = Backoff::new();
    for _ in 0..SPIN_LIMIT {
        assert_eq!(b.next_step::<()>(false), Step::Spin);
    }
    assert_eq!(b.next_step::<()>(false), Step::Yield);
    assert_eq!(b.next_step::<()>(false), Step::Yield);
    assert_eq!(b.next_step::<()>(true), Step::Stop);
    b.reset();
    assert_eq!(b.next_step::<()>(false), Step::Spin);
}

#[test]
fn send_and_recv_steps() {
    let (mut tx, mut rx): (Sender<Worker, i32>, Receiver<Main, i32>) = bounded(1);
    let mut sb = Backoff::new();
    let mut rb = Backoff::new();
    assert_eq!(rx.recv_step(&mut rb, false), Step::Spin);
    assert_eq!(tx.send_step(1, &mut sb, false), Step::Done(()));
    assert_eq!(tx.send_step(2, &mut sb, false), Step::Spin);
    assert_eq!(tx.send_step(2, &mut sb, true), Step::Stop);
    assert_eq!(rx.recv_step(&mut rb, true), Step::Stop);
    assert_eq!(rx.recv_step(&mut rb, false), Step::Done(1));
    assert_eq!(tx.send_step(2, &mut sb, false), Step::Done(()));
    assert_eq!(rx.recv_step(&mut rb, false), Step::Done(2));
}

#[test]
fn scenario_capacity_four_paired() {
    let (mut tx, mut rx): (Sender<Worker, i32>, Receiver<Main, i32>) = bounded(4);
    assert!(rx.is_empty_paired(&tx));
    assert!(!tx.is_full_paired(&rx));
    for v in [10, 20, 30, 40] {
        assert_eq!(tx.push_paired(&rx, v), Ok(()));
    }
    assert!(tx.is_full_paired(&rx));
    assert_eq!(tx.push_paired(&rx, 50), Err(ChannelError::QueueFull(50)));
    assert_eq!(rx.pop_paired(&tx), Ok(10));
    assert!(!tx.is_full_paired(&rx));
    assert_eq!(tx.push_paired(&rx, 50), Ok(()));
    for v in [20, 30, 40, 50] {
        assert_eq!(rx.pop_paired(&tx), Ok(v));
    }
    assert!(rx.is_empty_paired(&tx));
    assert_eq!(rx.pop_paired(&tx), Err(ChannelError::QueueEmpty));
}

#[test]
fn paired_fresh_channel_is_empty() {
    let (mut tx, mut rx): (Sender<Worker, i32>, Receiver<Main, i32>) = bounded(1);
    assert!(rx.is_empty_paired(&tx));
    assert_eq!(rx.pop_paired(&tx), Err(ChannelError::QueueEmpty));
    assert_eq!(tx.push_paired(&rx, 3), Ok(()));
    assert!(!rx.is_empty_paired(&tx));
    assert!(tx.is_full_paired(&rx));
    assert_eq!(tx.push_paired(&rx, 4), Err(ChannelError::QueueFull(4)));
    assert_eq!(rx.pop_paired(&tx), Ok(3));
}

#[test]
fn full_push_hands_item_back() {
    let (mut tx, _rx): (Sender<Worker, i32>, Receiver<Main, i32>) = bounded(1);
    assert_eq!(tx.push(-1), Ok(()));
    assert_eq!(tx.push(77), Err(ChannelError::QueueFull(77)));
    assert_eq!(tx.try_send(78), Err(ChannelError::QueueFull(78)));
}
