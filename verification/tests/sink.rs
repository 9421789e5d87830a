use audio_stream::sink::SampleSink;

#[test]
fn append_twice_then_drain_then_append_again() {
    let mut sink = SampleSink::new();
    sink.append(&[0x01, 0x02]);
    sink.append(&[0x03]);
    assert_eq!(sink.drain_all(), vec![0x01, 0x02, 0x03]);
    assert_eq!(sink.drain_all(), Vec::<u8>::new());
    sink.append(&[0x04]);
    assert_eq!(sink.drain_all(), vec![0x04]);
}

#[test]
fn new_sink_is_empty() {
    let mut sink = SampleSink::new();
    assert!(sink.is_empty());
    assert_eq!(sink.len(), 0);
    assert_eq!(sink.drain_all(), Vec::<u8>::new());
    assert!(sink.is_empty());
}

#[test]
fn len_counts_buffered_bytes() {
    let mut sink = SampleSink::new();
    sink.append(&[9, 8, 7]);
    assert_eq!(sink.len(), 3);
    assert!(!sink.is_empty());
    sink.append(&[6]);
    assert_eq!(sink.len(), 4);
    sink.drain_all();
    assert_eq!(sink.len(), 0);
}

#[test]
fn appending_nothing_changes_nothing() {
    let mut sink = SampleSink::new();
    sink.append(&[]);
    assert!(sink.is_empty());
    sink.append(&[5]);
    sink.append(&[]);
    assert_eq!(sink.drain_all(), vec![5]);
}

#[test]
fn drain_returns_chunks_in_call_order() {
    let chunks: Vec<Vec<u8>> = vec![
        vec![10, 11, 12],
        vec![],
        vec![20],
        vec![30, 31],
        vec![40, 41, 42, 43],
    ];
    let mut sink = SampleSink::new();
    for chunk in &chunks {
        sink.append(chunk);
    }
    assert_eq!(sink.drain_all(), chunks.concat());
    assert!(sink.is_empty());
}

#[test]
fn second_drain_in_a_row_is_empty() {
    let mut sink = SampleSink::new();
    sink.append(&[1, 2, 3, 4]);
    let first = sink.drain_all();
    let second = sink.drain_all();
    assert!(!first.is_empty());
    assert!(second.is_empty());
}

#[test]
fn interleaved_drains_lose_and_reorder_nothing() {
    let mut sink = SampleSink::new();
    let mut written: Vec<u8> = Vec::new();
    let mut read: Vec<u8> = Vec::new();
    let mut next: u8 = 0;
    for round in 0..40usize {
        let size: usize = round % 7;
        let mut chunk: Vec<u8> = Vec::new();
        for _ in 0..size {
            chunk.push(next);
            next = next.wrapping_add(1);
        }
        sink.append(&chunk);
        written.extend_from_slice(&chunk);
        if round % 3 == 2 {
            read.extend_from_slice(&sink.drain_all());
        }
    }
    read.extend_from_slice(&sink.drain_all());
    assert_eq!(read.len(), written.len());
    assert_eq!(read, written);
    assert!(sink.is_empty());
}

#[test]
fn drain_hands_out_whole_chunks() {
    let mut sink = SampleSink::new();
    sink.append(&[1, 1, 1, 1]);
    sink.append(&[2, 2, 2, 2]);
    assert_eq!(sink.drain_all(), vec![1, 1, 1, 1, 2, 2, 2, 2]);
    sink.append(&[3, 3, 3, 3]);
    assert_eq!(sink.drain_all(), vec![3, 3, 3, 3]);
}
