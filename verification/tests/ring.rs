use logdrv::ring::{SharedMemory, RING_CAPACITY};

fn pattern(len: usize, seed: u8) -> Vec<u8> {
    (0..len).map(|i| (i as u8).wrapping_mul(31).wrapping_add(seed)).collect()
}

#[test]
fn new_ring_is_empty_and_zeroed() {
    let mut ring = SharedMemory::new();
    assert_eq!(ring.read, 0);
    assert_eq!(ring.write, 0);
    assert!(ring.buffer.iter().all(|b| *b == 0));
    assert_eq!(ring.read(), Vec::<u8>::new());
}

#[test]
fn writes_within_capacity_read_back_in_order() {
    let mut ring = SharedMemory::new();
    ring.write(&[1, 2, 3]);
    ring.write(&[]);
    ring.write(&[4]);
    ring.write(&[5, 6, 7, 8]);
    assert_eq!(ring.read(), vec![1, 2, 3, 4, 5, 6, 7, 8]);
    assert_eq!(ring.read(), Vec::<u8>::new());
}

#[test]
fn read_moves_the_read_cursor_to_the_write_cursor() {
    let mut ring = SharedMemory::new();
    ring.write(&[9, 8, 7]);
    assert_eq!((ring.read, ring.write), (0, 3));
    assert_eq!(ring.read(), vec![9, 8, 7]);
    assert_eq!((ring.read, ring.write), (3, 3));
}

#[test]
fn full_capacity_round_trip() {
    let mut ring = SharedMemory::new();
    let data = pattern(RING_CAPACITY - 1, 3);
    ring.write(&data);
    assert_eq!(ring.write, RING_CAPACITY - 1);
    assert_eq!(ring.read(), data);
    assert_eq!(ring.read(), Vec::<u8>::new());
}

#[test]
fn write_beyond_capacity_keeps_the_leading_bytes() {
    let mut ring = SharedMemory::new();
    let data = pattern(5000, 7);
    ring.write(&data);
    let out = ring.read();
    assert_eq!(out.len(), RING_CAPACITY - 1);
    assert_eq!(out, data[..RING_CAPACITY - 1].to_vec());
}

#[test]
fn write_into_partly_filled_ring_is_cut_at_the_free_space() {
    let mut ring = SharedMemory::new();
    let first = pattern(4000, 1);
    let second = pattern(200, 2);
    ring.write(&first);
    ring.write(&second);
    let mut expected = first.clone();
    expected.extend_from_slice(&second[..95]);
    assert_eq!(ring.read(), expected);
}

#[test]
fn write_to_full_ring_stores_nothing() {
    let mut ring = SharedMemory::new();
    let data = pattern(RING_CAPACITY - 1, 5);
    ring.write(&data);
    ring.write(&[1, 2, 3]);
    assert_eq!(ring.read(), data);
}

#[test]
fn cycles_across_the_end_of_the_buffer_lose_nothing() {
    let mut ring = SharedMemory::new();
    let mut sent: Vec<u8> = Vec::new();
    let mut received: Vec<u8> = Vec::new();
    let mut wraps = 0;
    for round in 0..12 {
        let chunk = pattern(1500, round as u8);
        let before = ring.write;
        ring.write(&chunk);
        if ring.write < before {
            wraps += 1;
        }
        sent.extend_from_slice(&chunk);
        received.extend(ring.read());
    }
    assert!(wraps >= 3);
    assert_eq!(received, sent);
    assert_eq!(ring.read(), Vec::<u8>::new());
}

#[test]
fn wrapped_region_is_read_tail_first() {
    let mut ring = SharedMemory::new();
    ring.write(&pattern(4090, 0));
    ring.read();
    let data: Vec<u8> = (1..=20).collect();
    ring.write(&data);
    assert_eq!(ring.read, 4090);
    assert_eq!(ring.write, 14);
    assert_eq!(ring.buffer[4095], 6);
    assert_eq!(ring.buffer[0], 7);
    assert_eq!(ring.read(), data);
}

#[test]
fn full_ring_at_a_wrapped_position() {
    let mut ring = SharedMemory::new();
    ring.write(&pattern(100, 0));
    ring.read();
    let data = pattern(5000, 9);
    ring.write(&data);
    assert_eq!(ring.write, 99);
    assert_eq!(ring.read(), data[..RING_CAPACITY - 1].to_vec());
}

#[test]
fn overflowing_write_leaves_the_spare_slot() {
    let mut ring = SharedMemory::new();
    let data: Vec<u8> = (0..5000usize).map(|i| (i % 251) as u8 + 1).collect();
    ring.write(&data);
    assert_eq!(ring.write, 4095);
    assert_eq!(ring.read, 0);
    assert_eq!(ring.buffer[..4095], data[..4095]);
    assert_eq!(ring.buffer[4095], 0);
}

#[test]
fn second_write_is_cut_at_the_spare_slot() {
    let mut ring = SharedMemory::new();
    ring.write(&[9u8; 4090]);
    ring.write(&[1, 2, 3, 4, 5, 6, 7, 8]);
    assert_eq!(ring.write, 4095);
    assert_eq!(ring.read, 0);
    assert_eq!(ring.buffer[4090..4095], [1, 2, 3, 4, 5]);
    assert_eq!(ring.buffer[4095], 0);
    assert_eq!(ring.buffer[0], 9);
}

#[test]
fn write_touches_only_the_slots_it_fills() {
    let mut ring = SharedMemory::new();
    ring.buffer = [0x55; 4096];
    ring.read = 4000;
    ring.write = 4090;
    let data: Vec<u8> = (1..=10).collect();
    ring.write(&data);
    assert_eq!(ring.write, 4);
    assert_eq!(ring.read, 4000);
    assert_eq!(ring.buffer[4090..], [1, 2, 3, 4, 5, 6]);
    assert_eq!(ring.buffer[..4], [7, 8, 9, 10]);
    assert!(ring.buffer[4..4090].iter().all(|b| *b == 0x55));
}

#[test]
fn empty_write_and_write_to_full_ring_change_nothing() {
    let mut ring = SharedMemory::new();
    ring.buffer = [0x33; 4096];
    ring.read = 7;
    ring.write = 7;
    ring.write(&[]);
    assert_eq!((ring.read, ring.write), (7, 7));
    assert!(ring.buffer.iter().all(|b| *b == 0x33));
    ring.write = 6;
    ring.write(&[1, 2, 3]);
    assert_eq!((ring.read, ring.write), (7, 6));
    assert!(ring.buffer.iter().all(|b| *b == 0x33));
}
