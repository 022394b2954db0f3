use lyrfin::timeshift::{byte_rate_from, seek_landing, ReadStep, Ring, SeekOrigin, Timeshift};
use std::time::Duration;

#[test]
fn ring_writes_and_reads_back_in_order() {
    let mut r = Ring::new(16);
    r.write(&[1, 2, 3, 4]);
    let mut dst = [0u8; 4];
    assert_eq!(r.read(&mut dst), 4);
    assert_eq!(dst, [1, 2, 3, 4]);
    assert_eq!(r.read(&mut dst), 0);
}

#[test]
fn ring_wraps_across_the_capacity_boundary() {
    let mut r = Ring::new(8);
    r.write(&[1, 2, 3, 4, 5, 6]);
    let mut a = [0u8; 4];
    assert_eq!(r.read(&mut a), 4);
    assert_eq!(a, [1, 2, 3, 4]);
    r.write(&[7, 8, 9, 10]);
    let mut b = [0u8; 6];
    let n = r.read(&mut b);
    assert_eq!(&b[..n], &[5, 6, 7, 8, 9, 10]);
}

#[test]
fn ring_drops_oldest_and_pulls_a_stale_read_cursor_forward() {
    let mut r = Ring::new(4);
    r.write(&[1, 2, 3, 4]);
    r.write(&[5, 6]);
    assert_eq!(r.tail(), 2);
    assert_eq!(r.cursor(), 2);
    let mut dst = [0u8; 4];
    let n = r.read(&mut dst);
    assert_eq!(&dst[..n], &[3, 4, 5, 6], "reads resume from the new tail");
}

#[test]
fn ring_seek_clamps_into_the_window() {
    let mut r = Ring::new(8);
    r.write(&[0, 1, 2, 3, 4, 5]);
    assert_eq!(r.seek(3), 3);
    assert_eq!(r.seek(99), 6);
    r.write(&[6, 7, 8, 9]);
    assert_eq!(r.seek(0), 2, "before the tail → clamped to the oldest retained");
}

#[test]
fn ring_stays_bounded_under_heavy_writes() {
    let mut r = Ring::new(1024);
    let chunk = vec![7u8; 333];
    for _ in 0..400 {
        r.write(&chunk);
        assert!(r.head() - r.tail() <= r.cap(), "window never exceeds capacity");
        assert_eq!(r.buf_len() as u64, r.cap(), "the ring never reallocates/grows");
        assert!(
            r.cursor() >= r.tail() && r.cursor() <= r.head(),
            "cursor stays in the window"
        );
    }
    let mut dst = vec![0u8; 4096];
    let n = r.read(&mut dst);
    assert!(n as u64 <= r.cap());
}

#[test]
fn write_larger_than_capacity_keeps_only_the_newest() {
    let mut r = Ring::new(4);
    r.write(&[1, 2, 3, 4, 5, 6, 7]);
    let mut dst = [0u8; 8];
    let n = r.read(&mut dst);
    assert_eq!(&dst[..n], &[4, 5, 6, 7]);
}

#[test]
fn source_reads_buffered_bytes_and_reports_eof() {
    let mut ts = Timeshift::new(Duration::from_secs(1).as_secs());
    ts.write(&[10, 20, 30]);
    ts.set_eof();
    let mut buf = [0u8; 8];
    assert_eq!(ts.read_step(&mut buf), ReadStep::Data(3));
    assert_eq!(&buf[..3], &[10, 20, 30]);
    // drained + EOF → a real end of stream, not a wait
    assert_eq!(ts.read_step(&mut buf), ReadStep::End);
}

#[test]
fn a_zero_capacity_ring_holds_one_byte() {
    let mut r = Ring::new(0);
    assert_eq!(r.cap(), 1);
    r.write(&[1, 2]);
    let mut dst = [0u8; 2];
    assert_eq!(r.read(&mut dst), 1);
    assert_eq!(dst[0], 2);
}

#[test]
fn reader_keeping_up_loses_nothing() {
    let mut r = Ring::new(4);
    let mut got = Vec::new();
    for chunk in [[1u8, 2], [3, 4], [5, 6], [7, 8]] {
        r.write(&chunk);
        let mut dst = [0u8; 3];
        let n = r.read(&mut dst);
        got.extend_from_slice(&dst[..n]);
    }
    assert_eq!(got, vec![1, 2, 3, 4, 5, 6, 7, 8]);
}

#[test]
fn a_consumer_waits_at_the_live_edge_until_eof_or_shutdown() {
    let mut ts = Timeshift::new(1);
    let mut buf = [0u8; 4];
    assert_eq!(ts.read_step(&mut buf), ReadStep::Wait);
    ts.shutdown();
    assert!(ts.is_shutdown());
    assert_eq!(ts.read_step(&mut buf), ReadStep::End);
}

#[test]
fn timeshift_window_moves_with_writes_and_seeks() {
    let mut ts = Timeshift::new(60);
    assert_eq!(ts.window_bytes(), (0, 0, 0));
    assert_eq!(ts.byte_rate(), 24_000);
    assert!(!ts.is_shutdown());
    ts.set_byte_rate(1000);
    assert_eq!(ts.byte_rate(), 1000);
    ts.set_byte_rate(0);
    assert_eq!(ts.byte_rate(), 1000, "a zero rate is ignored");
    ts.write(&vec![0u8; 5000]);
    assert_eq!(ts.window_bytes(), (0, 0, 5000));
    assert_eq!(ts.seek_bytes(3000), 3000);
    assert_eq!(ts.window_bytes(), (0, 3000, 5000));
    assert_eq!(ts.seek_bytes(99_000), 5000);
}

#[test]
fn source_seeks_relative_to_the_cursor_and_the_live_edge() {
    let mut ts = Timeshift::new(1);
    ts.write(&[1, 2, 3, 4, 5, 6]);
    assert_eq!(ts.seek(SeekOrigin::Start(2)), 2);
    assert_eq!(ts.seek(SeekOrigin::Current(3)), 5);
    assert_eq!(ts.seek(SeekOrigin::Current(-100)), 0);
    assert_eq!(ts.seek(SeekOrigin::End(-1)), 5);
    assert_eq!(ts.seek(SeekOrigin::End(10)), 6);
    assert_eq!(seek_landing(SeekOrigin::Start(1), 2, 3, 9), 2);
}

#[test]
fn byte_rate_is_measured_from_one_packet() {
    assert_eq!(byte_rate_from(44_100, 1152, 418), Some(16_001));
    assert_eq!(byte_rate_from(0, 1152, 418), None);
    assert_eq!(byte_rate_from(44_100, 0, 418), None);
    assert_eq!(byte_rate_from(44_100, 1152, 0), None);
    assert_eq!(byte_rate_from(u64::MAX, 2, u64::MAX), Some(u64::MAX / 2));
}

#[test]
fn head_counts_every_byte_ever_written() {
    let mut r = Ring::new(4);
    r.write(&[1, 2, 3, 4, 5, 6, 7]);
    assert_eq!(r.head(), 7, "head is the total bytes ever written");
    assert_eq!(r.tail(), 3, "tail is the oldest retained offset");
    assert_eq!(r.cursor(), 3, "a cursor behind the window is pulled forward");
    r.write(&[8]);
    assert_eq!((r.tail(), r.head()), (4, 8));
}
