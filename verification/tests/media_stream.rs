use tauri_plugin_android_player::{DataSourceError, MediaStream, MediaStreams};

#[test]
fn ids_count_up_from_zero() {
    let mut streams: MediaStreams<&str> = MediaStreams::new();
    assert_eq!(streams.add("a"), 0);
    assert_eq!(streams.add("b"), 1);
    assert_eq!(streams.add("c"), 2);
    assert_eq!(streams.len(), 3);
}

#[test]
fn lookup_after_add_finds_the_stream() {
    let mut streams: MediaStreams<String> = MediaStreams::new();
    let id = streams.add("first".to_string());
    let other = streams.add("second".to_string());
    assert_ne!(id, other);
    assert_eq!(streams.get_stream(id).unwrap(), "first");
    assert_eq!(streams.get_stream(other).unwrap(), "second");
}

#[test]
fn missing_stream_is_an_error() {
    let streams: MediaStreams<u8> = MediaStreams::new();
    let err = streams.get_stream(7).unwrap_err();
    assert_eq!(err.error_code(), 2000);
    assert_eq!(err.to_datasource_exception_message(), "Data source error; Missing stream");
}

#[test]
fn close_removes_exactly_the_given_ids() {
    let mut streams: MediaStreams<u32> = MediaStreams::new();
    let a = streams.add(10);
    let b = streams.add(20);
    let c = streams.add(30);
    streams.close(&vec![a, c, 99]);
    assert!(streams.get_stream(a).is_err());
    assert!(streams.get_stream(c).is_err());
    assert_eq!(*streams.get_stream(b).unwrap(), 20);
    assert_eq!(streams.len(), 1);
}

#[test]
fn ids_are_not_reused_right_away() {
    let mut streams: MediaStreams<u32> = MediaStreams::new();
    let a = streams.add(1);
    streams.close(&vec![a]);
    let b = streams.add(2);
    assert_eq!(a, 0);
    assert_eq!(b, 1);
}

#[test]
fn reader_is_opened_once_and_reused() {
    let mut opened = 0;
    let mut stream = MediaStream::new(|| -> Result<Vec<u8>, DataSourceError> {
        Ok(vec![1, 2, 3])
    });
    assert!(!stream.has_reader());
    let r = stream.use_reader(false, |reader: &mut Vec<u8>| {
        opened += 1;
        Ok(reader.len())
    });
    assert_eq!(r.unwrap(), 3);
    assert!(stream.has_reader());
    let r = stream.use_reader(false, |reader: &mut Vec<u8>| {
        reader.push(4);
        Ok(reader.len())
    });
    assert_eq!(r.unwrap(), 4);
    assert_eq!(opened, 1);
}

#[test]
fn opener_counts_calls() {
    let mut calls = 0u32;
    let mut stream = MediaStream::new(move || -> Result<u32, DataSourceError> {
        calls += 1;
        Ok(calls)
    });
    assert_eq!(stream.use_reader(false, |r: &mut u32| Ok(*r)).unwrap(), 1);
    assert_eq!(stream.use_reader(false, |r: &mut u32| Ok(*r)).unwrap(), 1);
    stream.deactivate();
    assert!(!stream.has_reader());
    assert_eq!(stream.use_reader(false, |r: &mut u32| Ok(*r)).unwrap(), 2);
    // A poisoned lock drops the reader first.
    assert_eq!(stream.use_reader(true, |r: &mut u32| Ok(*r)).unwrap(), 3);
}

#[test]
fn opener_error_is_returned_and_nothing_is_open() {
    let mut stream = MediaStream::new(|| -> Result<u32, DataSourceError> {
        Err(DataSourceError::new(2005, vec!["gone".to_string()]))
    });
    let r = stream.use_reader(false, |r: &mut u32| Ok(*r));
    let err = r.unwrap_err();
    assert_eq!(err.error_code(), 2005);
    assert!(!stream.has_reader());
}

#[test]
fn error_of_the_reader_use_is_returned() {
    let mut stream = MediaStream::new(|| -> Result<u32, DataSourceError> { Ok(5) });
    let r: Result<u32, DataSourceError> =
        stream.use_reader(false, |_r: &mut u32| Err(DataSourceError::new(2004, Vec::new())));
    assert_eq!(r.unwrap_err().error_code(), 2004);
    assert!(stream.has_reader());
}

#[test]
fn poisoned_stream_runs_on_the_reopened_reader() {
    let mut n = 0u32;
    let mut stream = MediaStream::new(move || -> Result<Vec<u32>, DataSourceError> {
        n += 1;
        Ok(vec![n])
    });
    stream.use_reader(false, |r: &mut Vec<u32>| {
        r.push(99);
        Ok(())
    }).unwrap();
    // The reader keeps what the previous use left.
    assert_eq!(stream.use_reader(false, |r: &mut Vec<u32>| Ok(r.clone())).unwrap(), vec![1, 99]);
    // After poisoning, the old reader is never used.
    assert_eq!(stream.use_reader(true, |r: &mut Vec<u32>| Ok(r.clone())).unwrap(), vec![2]);
}
