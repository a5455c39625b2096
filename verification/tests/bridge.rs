use tauri_plugin_android_player::bridge::{
    buffer_range, convert_read_args, len_response, reported_len, serve_len, serve_read, serve_read_jbytes, try_into_jint,
    try_into_u64, try_into_usize,
};
use tauri_plugin_android_player::{DataSource, DataSourceError};

struct Bytes {
    data: Vec<u8>,
    reads: usize,
    len: Option<u64>,
}

impl DataSource for Bytes {
    fn read(&mut self, offset: u64, buf: &mut [u8]) -> Result<usize, DataSourceError> {
        self.reads += 1;
        let offset = offset as usize;
        if offset >= self.data.len() {
            return Ok(0);
        }
        let n = buf.len().min(self.data.len() - offset);
        buf[..n].copy_from_slice(&self.data[offset..offset + n]);
        Ok(n)
    }

    fn len(&mut self) -> Result<Option<u64>, DataSourceError> {
        Ok(self.len)
    }
}

fn bytes(data: &[u8]) -> Bytes {
    Bytes { data: data.to_vec(), reads: 0, len: Some(data.len() as u64) }
}

fn message(e: &DataSourceError) -> String {
    e.to_datasource_exception_message()
}

#[test]
fn conversions_accept_in_range_values() {
    assert_eq!(try_into_u64(5, "offset").unwrap(), 5);
    assert_eq!(try_into_usize(0, "len").unwrap(), 0);
    assert_eq!(try_into_jint(2147483647, "nread").unwrap(), i32::MAX);
}

#[test]
fn conversions_refuse_out_of_range_values() {
    let e = try_into_u64(-3, "offset").unwrap_err();
    assert_eq!(e.error_code(), 2000);
    assert_eq!(message(&e), "Data source error; illegal offset: -3");
    let e = try_into_usize(i32::MIN, "len").unwrap_err();
    assert_eq!(message(&e), "Data source error; illegal len: -2147483648");
    let e = try_into_jint(2147483648, "nread").unwrap_err();
    assert_eq!(message(&e), "Data source error; illegal nread: 2147483648");
}

#[test]
fn read_args_are_checked_in_order() {
    let a = convert_read_args(10, 20, 30).unwrap();
    assert_eq!((a.offset, a.len, a.buf_offset), (10, 20, 30));
    assert_eq!(message(&convert_read_args(-1, -1, -1).unwrap_err()), "Data source error; illegal offset: -1");
    assert_eq!(message(&convert_read_args(0, -7, -1).unwrap_err()), "Data source error; illegal len: -7");
    assert_eq!(
        message(&convert_read_args(0, 0, -9).unwrap_err()),
        "Data source error; illegal buf_offset: -9"
    );
}

#[test]
fn buffer_range_checks() {
    assert_eq!(buffer_range(2, 3, 5).unwrap(), (2, 5));
    assert_eq!(
        message(&buffer_range(2, 4, 5).unwrap_err()),
        "Data source error; buffer range is out of bounds"
    );
    assert_eq!(
        message(&buffer_range(usize::MAX, 1, 5).unwrap_err()),
        "Data source error; buffer range is too large"
    );
}

#[test]
fn reported_len_values() {
    assert_eq!(reported_len(Some(42)), 42);
    assert_eq!(reported_len(None), -1);
    assert_eq!(reported_len(Some(u64::MAX)), -1);
    assert_eq!(reported_len(Some(i64::MAX as u64)), i64::MAX);
}

#[test]
fn serve_len_reports_the_length() {
    let mut s = bytes(&[1, 2, 3]);
    assert_eq!(serve_len(&mut s).unwrap(), 3);
    s.len = None;
    assert_eq!(serve_len(&mut s).unwrap(), -1);
}

#[test]
fn serve_read_fills_only_the_target_range() {
    let mut s = bytes(&[10, 11, 12, 13, 14]);
    let mut buf = [0u8; 6];
    let n = serve_read(&mut s, 1, 3, 2, &mut buf).unwrap();
    assert_eq!(n, 3);
    assert_eq!(buf, [0, 0, 11, 12, 13, 0]);
}

#[test]
fn serve_read_answers_empty_request_without_reading() {
    let mut s = bytes(&[1]);
    let mut buf = [7u8; 2];
    assert_eq!(serve_read(&mut s, 0, 0, 2, &mut buf).unwrap(), 0);
    assert_eq!(s.reads, 0);
    assert_eq!(buf, [7, 7]);
}

#[test]
fn serve_read_refuses_bad_ranges() {
    let mut s = bytes(&[1]);
    let mut buf = [0u8; 2];
    let e = serve_read(&mut s, 0, 2, 1, &mut buf).unwrap_err();
    assert_eq!(message(&e), "Data source error; buffer range is out of bounds");
    assert_eq!(s.reads, 0);
}

#[test]
fn serve_read_at_end_reads_nothing() {
    let mut s = bytes(&[1, 2]);
    let mut buf = [0u8; 4];
    assert_eq!(serve_read(&mut s, 9, 4, 0, &mut buf).unwrap(), 0);
}

#[test]
fn serve_read_into_java_bytes() {
    let mut s = bytes(&[0x7f, 0x80, 0xff, 0x01]);
    let mut buf = [5i8; 5];
    let n = serve_read_jbytes(&mut s, 0, 4, 1, &mut buf).unwrap();
    assert_eq!(n, 4);
    assert_eq!(buf, [5, 127, -128, -1, 1]);
    let e = serve_read_jbytes(&mut s, 0, 5, 1, &mut buf).unwrap_err();
    assert_eq!(e.to_datasource_exception_message(), "Data source error; buffer range is out of bounds");
}

#[test]
fn len_response_values() {
    assert_eq!(len_response(Ok(Some(9))).unwrap(), 9);
    assert_eq!(len_response(Ok(None)).unwrap(), -1);
    assert_eq!(len_response(Ok(Some(u64::MAX))).unwrap(), -1);
    let e = len_response(Err(DataSourceError::new(2004, vec!["bad status".to_string()]))).unwrap_err();
    assert_eq!(e.error_code(), 2004);
    assert_eq!(e.to_datasource_exception_message(), "Data source error; bad status");
}

struct Failing;

impl DataSource for Failing {
    fn read(&mut self, _offset: u64, _buf: &mut [u8]) -> Result<usize, DataSourceError> {
        Err(DataSourceError::new(2002, vec!["timed out".to_string()]))
    }

    fn len(&mut self) -> Result<Option<u64>, DataSourceError> {
        Err(DataSourceError::new(2003, Vec::new()))
    }
}

#[test]
fn reader_error_is_handed_on() {
    let mut buf = [0u8; 4];
    let e = serve_read(&mut Failing, 0, 4, 0, &mut buf).unwrap_err();
    assert_eq!(e.error_code(), 2002);
    assert_eq!(message(&e), "Data source error; timed out");
    assert_eq!(serve_len(&mut Failing).unwrap_err().error_code(), 2003);
}

#[test]
fn refused_range_leaves_the_buffer_alone() {
    let mut s = bytes(&[1, 2, 3]);
    let mut buf = [9u8; 3];
    assert!(serve_read(&mut s, 0, 3, 1, &mut buf).is_err());
    assert_eq!(buf, [9, 9, 9]);
    let mut jbuf = [-1i8; 3];
    assert!(serve_read_jbytes(&mut s, 0, 4, 0, &mut jbuf).is_err());
    assert_eq!(jbuf, [-1, -1, -1]);
}

#[test]
fn offset_is_handed_to_the_reader() {
    let mut s = bytes(&[10, 20, 30, 40]);
    let mut buf = [0u8; 2];
    assert_eq!(serve_read(&mut s, 2, 2, 0, &mut buf).unwrap(), 2);
    assert_eq!(buf, [30, 40]);
}
