use cupchan::cupchan;

#[test]
fn test_chan_sync() {
    let (mut chan, mut writer, reader) = cupchan(0);
    writer.write(&mut chan, 1);
    writer.flush(&mut chan);
    assert_eq!(*reader.read(&mut chan), 1);

    writer.write(&mut chan, 2);
    writer.flush(&mut chan);
    assert_eq!(*reader.read(&mut chan), 2);

    let last = reader.disconnect(&mut chan);
    assert!(!last);

    let reader = writer.new_reader(&mut chan).unwrap();

    writer.write(&mut chan, 3);
    writer.flush(&mut chan);
    assert_eq!(*reader.read(&mut chan), 3);
    let _ = writer.disconnect(&mut chan);
}

#[test]
fn greedy_reader_sees_every_value() {
    let (mut chan, mut writer, reader) = cupchan(0usize);
    let mut last = 0usize;
    for i in 0..5000 {
        writer.write(&mut chan, i);
        writer.flush(&mut chan);
        let v = *reader.read(&mut chan);
        assert_eq!(v, i);
        assert!(v >= last);
        last = v;
    }
    assert_eq!(last, 4999);
}

#[test]
fn lazy_reader_skips_to_latest() {
    let (mut chan, mut writer, reader) = cupchan(0usize);
    let mut last = 0usize;
    for i in 0..1000 {
        writer.write(&mut chan, 2 * i);
        writer.flush(&mut chan);
        writer.write(&mut chan, 2 * i + 1);
        writer.flush(&mut chan);
        let v = *reader.read(&mut chan);
        // latest value wins: the even publication was silently overwritten
        assert_eq!(v, 2 * i + 1);
        assert!(v >= last);
        last = v;
    }
    assert_eq!(last, 1999);
}

#[test]
fn read_without_publish_repeats_value() {
    let (mut chan, mut writer, reader) = cupchan(7u32);
    assert_eq!(*reader.read(&mut chan), 7);
    assert_eq!(*reader.read(&mut chan), 7);
    // a write alone publishes nothing
    writer.write(&mut chan, 9);
    assert_eq!(*reader.read(&mut chan), 7);
    writer.flush(&mut chan);
    assert_eq!(*reader.read(&mut chan), 9);
}

#[test]
fn clone_payload_round() {
    let (mut chan, mut writer, reader) = cupchan(String::from("seed"));
    assert_eq!(reader.read(&mut chan).as_str(), "seed");
    writer.write(&mut chan, String::from("one"));
    writer.flush(&mut chan);
    assert_eq!(reader.read(&mut chan).as_str(), "one");
    writer.write(&mut chan, String::from("two"));
    writer.flush(&mut chan);
    assert_eq!(reader.read(&mut chan).as_str(), "two");
}

#[test]
fn double_drop_writer_first() {
    let (mut chan, writer, reader) = cupchan(0);
    // the first departure must not free the block
    assert!(!writer.disconnect(&mut chan));
    // the second departure is the one that frees it
    assert!(reader.disconnect(&mut chan));
}

#[test]
fn double_drop_reader_first() {
    let (mut chan, writer, reader) = cupchan(0);
    assert!(!reader.disconnect(&mut chan));
    assert!(writer.disconnect(&mut chan));
}

#[test]
fn failed_reconnection_race() {
    let (mut chan, mut writer, reader) = cupchan(0);
    // with both handles live the claim finds no vacancy
    assert!(writer.new_reader(&mut chan).is_none());
    assert!(!reader.disconnect(&mut chan));
    // after the reader departs, the first claim wins ...
    let replacement = writer.new_reader(&mut chan);
    assert!(replacement.is_some());
    // ... and a second claim fails again
    assert!(writer.new_reader(&mut chan).is_none());
    let reader2 = replacement.unwrap();
    writer.write(&mut chan, 42);
    writer.flush(&mut chan);
    assert_eq!(*reader2.read(&mut chan), 42);
}

#[test]
fn reconnect_writer_side() {
    let (mut chan, writer, reader) = cupchan(5u64);
    assert!(reader.new_writer(&mut chan).is_none());
    assert!(!writer.disconnect(&mut chan));
    let replacement = reader.new_writer(&mut chan);
    assert!(replacement.is_some());
    assert!(reader.new_writer(&mut chan).is_none());
    let mut writer2 = replacement.unwrap();
    writer2.write(&mut chan, 6);
    writer2.flush(&mut chan);
    assert_eq!(*reader.read(&mut chan), 6);
}

#[test]
fn reconnected_pair_can_free_block() {
    let (mut chan, writer, reader) = cupchan(1i64);
    assert!(!reader.disconnect(&mut chan));
    let reader2 = writer.new_reader(&mut chan).unwrap();
    // the replacement restored full occupancy: dropping both frees once
    assert!(!writer.disconnect(&mut chan));
    assert!(reader2.disconnect(&mut chan));
}
