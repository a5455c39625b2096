use tauri_plugin_android_player::read_seek::{ReadSeekRead, ReadStep};
use tauri_plugin_android_player::IoErrorKind;

#[test]
fn offset_at_or_past_the_end_reads_nothing() {
    let (_, step) = ReadSeekRead::start(10, 10, 4);
    assert_eq!(step, ReadStep::Finished(0));
    let (_, step) = ReadSeekRead::start(10, 11, 4);
    assert_eq!(step, ReadStep::Finished(0));
}

#[test]
fn seeks_only_when_the_position_differs() {
    let (read, step) = ReadSeekRead::start(100, 5, 4);
    assert_eq!(step, ReadStep::QueryPosition);
    assert_eq!(read.on_position(0), ReadStep::SeekTo(5));
    assert_eq!(read.on_position(5), ReadStep::ReadInto(0));
    assert_eq!(read.on_seeked(), ReadStep::ReadInto(0));
}

#[test]
fn reads_until_the_buffer_is_full() {
    let (mut read, _) = ReadSeekRead::start(100, 0, 10);
    assert_eq!(read.on_read(4), ReadStep::ReadInto(4));
    assert_eq!(read.on_read(5), ReadStep::ReadInto(9));
    assert_eq!(read.on_read(1), ReadStep::Finished(10));
}

#[test]
fn short_stream_ends_the_read() {
    let (mut read, _) = ReadSeekRead::start(100, 0, 10);
    assert_eq!(read.on_read(3), ReadStep::ReadInto(3));
    assert_eq!(read.on_read(0), ReadStep::Finished(3));
}

#[test]
fn empty_buffer_finishes_at_once() {
    let (read, step) = ReadSeekRead::start(100, 0, 0);
    assert_eq!(step, ReadStep::QueryPosition);
    assert_eq!(read.on_position(0), ReadStep::Finished(0));
}

#[test]
fn interrupted_operations_are_repeated_other_errors_fail() {
    let (mut read, _) = ReadSeekRead::start(100, 0, 10);
    assert_eq!(read.on_read(4), ReadStep::ReadInto(4));
    assert_eq!(read.on_error(IoErrorKind::Interrupted, ReadStep::ReadInto(4)), ReadStep::ReadInto(4));
    assert_eq!(read.on_error(IoErrorKind::Interrupted, ReadStep::SeekTo(0)), ReadStep::SeekTo(0));
    // An error after bytes were read still fails the read: no partial count.
    assert_eq!(read.on_error(IoErrorKind::NotFound, ReadStep::ReadInto(4)), ReadStep::Fail);
    assert_eq!(read.on_error(IoErrorKind::Other, ReadStep::QueryPosition), ReadStep::Fail);
}
