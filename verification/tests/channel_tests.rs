use bus_queue::flavors::rw_lock::{bounded, Slot};
use bus_queue::{RingBuffer, SwapSlot, TryRecvError};
use std::sync::Arc;

#[test]
fn subcount() {
    let (sender, receiver) = bounded::<()>(1);
    let receiver2 = receiver.clone();
    assert_eq!(sender.get_sub_count(), 2);
    assert_eq!(receiver.get_sub_count(), 2);
    assert_eq!(receiver2.get_sub_count(), 2);
    drop(receiver2);

    assert_eq!(sender.get_sub_count(), 1);
    assert_eq!(receiver.get_sub_count(), 1);
}

#[test]
fn bounded_channel() {
    let (sender, receiver) = bounded::<i32>(1);
    let mut receiver2 = receiver.clone();
    let mut receiver = receiver;
    sender.broadcast(123).unwrap();
    assert_eq!(*receiver.try_recv().unwrap(), 123);
    assert_eq!(*receiver2.try_recv().unwrap(), 123);
}

#[test]
fn bounded_channel_no_subs() {
    let (sender, receiver) = bounded(1);
    drop(receiver);
    let err = sender.broadcast(123);
    assert!(err.is_err());
}

#[test]
fn bounded_channel_no_sender() {
    let (sender, receiver) = bounded::<()>(1);
    drop(sender);
    assert_eq!(receiver.is_sender_available(), false);
}

#[test]
fn bounded_channel_size() {
    let (sender, receiver) = bounded::<()>(3);
    assert_eq!(sender.len(), 3);
    assert_eq!(receiver.len(), 3);
}

#[test]
fn bounded_within_size() {
    let (sender, receiver) = bounded(3);
    assert_eq!(sender.len(), 3);

    for i in 0..3 {
        sender.broadcast(i).unwrap();
    }

    let mut receiver = receiver;
    let mut values: Vec<i32> = Vec::new();
    while let Some(v) = receiver.next() {
        values.push(*v);
    }
    assert_eq!(values, (0..=2).collect::<Vec<i32>>());
}

#[test]
fn bounded_overflow() {
    let (sender, receiver) = bounded(3);
    assert_eq!(sender.len(), 3);

    for i in 0..4 {
        sender.broadcast(i).unwrap();
    }

    let mut receiver = receiver;
    let mut values: Vec<i32> = Vec::new();
    while let Some(v) = receiver.next() {
        values.push(*v);
    }
    assert_eq!(values, (1..=3).collect::<Vec<i32>>());
}

#[test]
fn bounded_overflow_with_reads() {
    let mut ring: RingBuffer<i32, Slot<i32>> = RingBuffer::new(3);
    assert_eq!(ring.len(), 3);

    for i in 0..3 {
        ring.broadcast(i).unwrap();
    }

    let mut ri: usize = 0;
    assert_eq!(*ring.try_recv(&mut ri, 0).unwrap(), 0);
    assert_eq!(*ring.try_recv(&mut ri, 0).unwrap(), 1);

    // "Cycle" the buffer around twice.
    for i in 3..10 {
        ring.broadcast(i).unwrap();
    }

    // The reader should resume from the oldest element still in the buffer.
    let size = ring.len() + 1;
    let index = (ring.write_index() - size + 1) % size;

    assert_eq!(*SwapSlot::load(&ring.buffer[index]).unwrap(), 7);
    assert_eq!(*ring.try_recv(&mut ri, 0).unwrap(), 7);

    // A second cursor taken now starts where the first one left off.
    let mut ri2: usize = ri;
    assert_eq!(*ring.try_recv(&mut ri2, 0).unwrap(), 8);
    assert_eq!(*ring.try_recv(&mut ri2, 0).unwrap(), 9);
    assert_eq!(ring.try_recv(&mut ri2, 0), Err(TryRecvError::Empty));

    ring.broadcast(10).unwrap();

    // The first cursor has moved forward in the buffer.
    let mut values: Vec<i32> = Vec::new();
    while let Ok(v) = ring.try_recv(&mut ri, 0) {
        values.push(*v);
    }
    assert_eq!(values, (8..=10).collect::<Vec<i32>>());
}

#[test]
fn read_before_writer_increments() {
    let mut ring: RingBuffer<i32, Slot<i32>> = RingBuffer::new(3);
    assert_eq!(ring.len(), 3);

    for i in 0..3 {
        ring.broadcast(i).unwrap();
    }
    assert_eq!(ring.write_index(), 3);
    let mut ri: usize = 0;
    assert_eq!(ri, 0);

    let size = ring.len() + 1;

    // Insert the value 3 without advancing the write cursor.
    let wi = ring.write_index();
    ring.buffer[wi % size].store(3);
    // The reader still expects the oldest value in the buffer.
    assert_eq!(*ring.try_recv(&mut ri, 0).unwrap(), 0);
    // Reset the reader cursor.
    ri = 0;

    // Now the write cursor is advanced.
    ring.set_write_index(wi + 1);
    assert_eq!(*ring.try_recv(&mut ri, 0).unwrap(), 1);

    // Reset the reader cursor.
    ri = 0;

    // Insert the value 4 without advancing the write cursor.
    let wi = ring.write_index();
    ring.buffer[wi % size].store(4);
    // The reader still expects the oldest value in the buffer.
    assert_eq!(*ring.try_recv(&mut ri, 0).unwrap(), 1);
}

#[test]
fn writer_overflows_pass_usize_max_less_then_size() {
    let mut ring: RingBuffer<i32, Slot<i32>> = RingBuffer::new(3);
    // Set the write cursor to usize::MAX - 3.
    ring.set_write_index(usize::MAX - 3);
    let mut ri: usize = 0;
    // Fill the buffer so that the reader can read the oldest values (1, 2, 3).
    for i in 1..4 {
        ring.broadcast(i).unwrap();
    }
    assert_eq!(*ring.try_recv(&mut ri, 0).unwrap(), 1);
    assert_eq!(*ring.try_recv(&mut ri, 0).unwrap(), 2);

    // The write cursor should be at usize::MAX.
    assert_eq!(ring.write_index(), usize::MAX);
    // The read cursor should be at usize::MAX - 1.
    assert_eq!(ri, usize::MAX - 1);

    // Broadcast two more items (4, 5) so the write cursor lands on 1.
    for i in 4..6 {
        ring.broadcast(i).unwrap();
    }
    assert_eq!(ring.write_index(), 1);
    // The reader should be able to receive 3.
    assert_eq!(*ring.try_recv(&mut ri, 0).unwrap(), 3);
    // The read cursor should be at usize::MAX.
    assert_eq!(ri, usize::MAX);
}

#[test]
fn writer_overflows_pass_usize_max_more_then_size() {
    let mut ring: RingBuffer<i32, Slot<i32>> = RingBuffer::new(3);
    // Set the write cursor to usize::MAX - 3.
    ring.set_write_index(usize::MAX - 3);
    let mut ri: usize = 0;
    // Fill the buffer so that the reader can read the oldest values (1, 2, 3).
    for i in 1..4 {
        ring.broadcast(i).unwrap();
    }
    assert_eq!(*ring.try_recv(&mut ri, 0).unwrap(), 1);
    assert_eq!(*ring.try_recv(&mut ri, 0).unwrap(), 2);

    // The write cursor should be at usize::MAX.
    assert_eq!(ring.write_index(), usize::MAX);
    // The read cursor should be at usize::MAX - 1.
    assert_eq!(ri, usize::MAX - 1);

    // Broadcast six more items (4..=9) so the write cursor lands on 5.
    for i in 4..10 {
        ring.broadcast(i).unwrap();
    }
    assert_eq!(ring.write_index(), 5);

    // Before the receive, the read cursor is still at usize::MAX - 1.
    assert_eq!(ri, usize::MAX - 1);
    // The reader should be able to receive 7.
    assert_eq!(*ring.try_recv(&mut ri, 0).unwrap(), 7);
    // The read cursor should have jumped to 3.
    assert_eq!(ri, 3);
}

#[test]
fn test_arc() {
    // A sender with two receiver clones.
    let (sender, receiver) = bounded(1);
    let mut receiver2 = receiver.clone();
    let mut receiver = receiver;

    // Broadcast an item. It is stored through a shared reference inside the
    // buffer, so its reference count is 1.
    sender.broadcast(1).unwrap();

    // Pick up the item through one receiver: its count jumps to 2.
    let arc1 = receiver.try_recv().unwrap();
    assert_eq!(*arc1, 1);
    assert_eq!(Arc::strong_count(&arc1), 2);

    // Pick up the same item through the second receiver: 3.
    let arc2 = receiver2.try_recv().unwrap();
    assert_eq!(Arc::strong_count(&arc2), 3);
    // The first received handle sees the same count.
    assert_eq!(Arc::strong_count(&arc1), 3);

    // Broadcast another item. The internal buffer is one cell bigger than
    // the requested size, so the first item is still inside the buffer and
    // its count is unchanged.
    sender.broadcast(2).unwrap();
    assert_eq!(Arc::strong_count(&arc1), 3);
    assert_eq!(Arc::strong_count(&arc2), 3);

    // One more broadcast overwrites the first item in the buffer, and its
    // count drops by one.
    sender.broadcast(3).unwrap();
    assert_eq!(Arc::strong_count(&arc1), 2);
    assert_eq!(Arc::strong_count(&arc2), 2);
}

#[test]
fn test_is_empty() {
    let (sender, receiver) = bounded::<i32>(1);
    assert!(sender.is_empty());
    assert!(receiver.is_empty());
    let mut ring: RingBuffer<i32, Slot<i32>> = RingBuffer::new(1);
    assert!(ring.is_empty());
    sender.broadcast(1).unwrap();
    assert!(!sender.is_empty());
    assert!(!receiver.is_empty());
    ring.broadcast(1).unwrap();
    assert!(!ring.is_empty());
}

#[test]
fn test_sender_eq() {
    let (sender1, _r1) = bounded::<i32>(1);
    let (sender2, _r2) = bounded::<i32>(1);
    assert!(!sender1.eq(&sender2));
    assert!(sender1.eq(&sender1));
    assert!(sender2.eq(&sender2));
}

#[test]
fn ring_buffer_test_set_skip_items() {
    let (sender, receiver1) = bounded(3);
    let mut receiver2 = receiver1.clone();
    let mut receiver3 = receiver1.clone();
    let mut receiver4 = receiver1.clone();
    receiver2.set_skip_items(1);
    receiver3.set_skip_items(2);
    receiver4.set_skip_items(3);

    for i in 0..6 {
        sender.broadcast(i).unwrap();
    }
    let mut receiver1 = receiver1;
    assert_eq!(*receiver1.try_recv().unwrap(), 3);
    assert_eq!(*receiver2.try_recv().unwrap(), 4);
    assert_eq!(*receiver3.try_recv().unwrap(), 5);
    assert_eq!(*receiver4.try_recv().unwrap(), 5);
}

#[test]
fn ring_sub_count_accounting() {
    let mut ring: RingBuffer<i32, Slot<i32>> = RingBuffer::new(1);
    assert_eq!(ring.sub_count(), 1);
    ring.inc_sub_count();
    assert_eq!(ring.sub_count(), 2);
    ring.dec_sub_count();
    assert_eq!(ring.sub_count(), 1);
    ring.dec_sub_count();
    assert_eq!(ring.sub_count(), 0);
    // A broadcast with no subscribers on record fails and changes nothing.
    assert!(ring.broadcast(1).is_err());
    assert!(ring.is_sub_empty(0));
    assert!(ring.is_available());
    ring.close();
    assert!(!ring.is_available());
    ring.close();
    assert!(!ring.is_available());
}

#[test]
fn test_rwslot_none() {
    let slot: Slot<()> = <Slot<()> as SwapSlot<()>>::none();

    assert_eq!(slot.load(), None);
}

#[test]
fn test_rwslot_store() {
    let mut slot: Slot<i32> = <Slot<i32> as SwapSlot<i32>>::none();

    slot.store(5);

    assert_eq!(slot.load(), Some(Arc::new(5)));
}

#[test]
fn test_rwslot_load() {
    let mut slot: Slot<i32> = <Slot<i32> as SwapSlot<i32>>::none();
    slot.store(10);

    let arc = slot.load();

    assert_eq!(arc, Some(Arc::new(10)));
    assert_eq!(Arc::strong_count(&arc.unwrap()), 2)
}
