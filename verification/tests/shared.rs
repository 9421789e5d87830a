use audio_stream::shared::SharedSink;

#[test]
fn shared_sink_starts_empty() {
    let sink = SharedSink::new();
    assert_eq!(sink.drain_all(), Ok(Vec::<u8>::new()));
}

#[test]
fn shared_append_then_drain() {
    let sink = SharedSink::new();
    assert_eq!(sink.append(&[0x01, 0x02]), Ok(()));
    assert_eq!(sink.append(&[0x03]), Ok(()));
    assert_eq!(sink.drain_all(), Ok(vec![0x01, 0x02, 0x03]));
    assert_eq!(sink.drain_all(), Ok(Vec::<u8>::new()));
    assert_eq!(sink.append(&[0x04]), Ok(()));
    assert_eq!(sink.drain_all(), Ok(vec![0x04]));
}

#[test]
fn handles_reach_the_same_sink() {
    let writer = SharedSink::new();
    let reader = writer.clone();
    assert_eq!(writer.append(&[7, 8]), Ok(()));
    assert_eq!(reader.drain_all(), Ok(vec![7, 8]));
    assert_eq!(writer.drain_all(), Ok(Vec::<u8>::new()));
    assert_eq!(reader.append(&[9]), Ok(()));
    assert_eq!(writer.drain_all(), Ok(vec![9]));
}

#[test]
fn sink_outlives_the_handle_that_made_it() {
    let first = SharedSink::new();
    let second = first.clone();
    assert_eq!(first.append(&[1]), Ok(()));
    drop(first);
    assert_eq!(second.append(&[2]), Ok(()));
    assert_eq!(second.drain_all(), Ok(vec![1, 2]));
}

#[test]
fn concurrent_appends_arrive_whole_and_in_order() {
    let runtime = tokio::runtime::Builder::new_multi_thread()
        .worker_threads(2)
        .build()
        .unwrap();
    let writer = SharedSink::new();
    let reader = writer.clone();
    let chunks: usize = 2000;
    let producer = runtime.spawn(async move {
        for k in 0..chunks {
            let byte: u8 = (k % 251) as u8;
            assert_eq!(writer.append(&[byte; 8]), Ok(()));
            if k % 50 == 0 {
                tokio::task::yield_now().await;
            }
        }
    });
    let read: Vec<u8> = runtime.block_on(async move {
        let mut read: Vec<u8> = Vec::new();
        while read.len() < chunks * 8 {
            let out: Vec<u8> = reader.drain_all().unwrap();
            assert_eq!(out.len() % 8, 0);
            read.extend_from_slice(&out);
            tokio::task::yield_now().await;
        }
        producer.await.unwrap();
        assert_eq!(reader.drain_all(), Ok(Vec::<u8>::new()));
        read
    });
    let mut expected: Vec<u8> = Vec::new();
    for k in 0..chunks {
        expected.extend_from_slice(&[(k % 251) as u8; 8]);
    }
    assert_eq!(read, expected);
}
