use lyrfin::http_source::parse_stream_title;

#[test]
fn icy_stream_title_parsed() {
    let meta = b"StreamTitle='Miles Davis - So What';StreamUrl='http://x';\0\0";
    assert_eq!(
        parse_stream_title(meta).as_deref(),
        Some("Miles Davis - So What")
    );
    assert_eq!(parse_stream_title(b"StreamTitle='';"), None);
    assert_eq!(parse_stream_title(b"\0\0\0"), None);
}

#[test]
fn icy_title_without_terminator_runs_to_the_end_trimmed() {
    assert_eq!(parse_stream_title(b"StreamTitle=' Live Set  ").as_deref(), Some("Live Set"));
    assert_eq!(
        parse_stream_title(b"x StreamTitle='A';StreamTitle='B';").as_deref(),
        Some("A")
    );
}

#[test]
fn icy_invalid_utf8_is_decoded_lossily() {
    assert_eq!(
        parse_stream_title(b"StreamTitle='caf\xff';").as_deref(),
        Some("caf\u{FFFD}")
    );
}

use lyrfin::http_source::{meta_block_len, range_seek, IcyState, IcyStep};
use lyrfin::timeshift::SeekOrigin;

#[test]
fn icy_reads_stop_at_each_metadata_block() {
    let mut s = IcyState::new(8);
    assert_eq!(s.step(100), IcyStep::Audio(8));
    s.after_audio(5);
    assert_eq!(s.step(100), IcyStep::Audio(3));
    assert_eq!(s.step(2), IcyStep::Audio(2));
    s.after_audio(3);
    assert_eq!(s.step(100), IcyStep::Metadata);
    assert_eq!(meta_block_len(2), 32);
    let announced = s.after_metadata(b"StreamTitle='One';");
    assert_eq!(announced.as_deref(), Some("One"));
    assert_eq!(s.step(100), IcyStep::Audio(8));
    // the same title again is not re-announced; an empty block changes nothing
    assert_eq!(s.after_metadata(b"StreamTitle='One';"), None);
    assert_eq!(s.after_metadata(b""), None);
    assert_eq!(s.last_title, "One");
    assert_eq!(IcyState::new(0).step(10), IcyStep::Passthrough);
}

#[test]
fn ranged_seeks_reopen_only_when_moving() {
    assert_eq!(range_seek(SeekOrigin::Start(10), 10, 100), None);
    assert_eq!(range_seek(SeekOrigin::Start(500), 10, 100), Some(100));
    assert_eq!(range_seek(SeekOrigin::Current(-20), 10, 100), Some(0));
    assert_eq!(range_seek(SeekOrigin::End(-30), 10, 100), Some(70));
    assert_eq!(range_seek(SeekOrigin::Current(0), 10, 100), None);
}
