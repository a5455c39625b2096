use tauri_plugin_android_player::error::{error_code_for_io_kind, is_retried};
use tauri_plugin_android_player::playback_error_code;
use tauri_plugin_android_player::{DataSourceError, IoErrorKind};

fn causes(items: &[&str]) -> Vec<String> {
    items.iter().map(|s| s.to_string()).collect()
}

#[test]
fn new_keeps_code_and_source() {
    let e = DataSourceError::new(playback_error_code::CUSTOM_BASE + 7, causes(&["boom"]));
    assert_eq!(e.error_code(), 1000007);
    assert_eq!(e.to_datasource_exception_message(), "Data source error; boom");
}

#[test]
fn io_unspecified_has_code_2000() {
    let e = DataSourceError::io_unspecified(causes(&["x"]));
    assert_eq!(e.error_code(), 2000);
    assert_eq!(e.error_code(), playback_error_code::IO_UNSPECIFIED);
}

#[test]
fn exception_message_lists_the_source_chain() {
    let e = DataSourceError::new(2005, causes(&["outer", "middle", "inner"]));
    assert_eq!(
        e.to_datasource_exception_message(),
        "Data source error; outer; middle; inner"
    );
    let bare = DataSourceError::new(2000, Vec::new());
    assert_eq!(bare.to_datasource_exception_message(), "Data source error");
}

#[test]
fn display_text_shows_the_code() {
    assert_eq!(
        DataSourceError::new(2001, Vec::new()).to_string(),
        "data source error (code=2001)"
    );
    assert_eq!(
        DataSourceError::new(-42, Vec::new()).to_string(),
        "data source error (code=-42)"
    );
    assert_eq!(
        DataSourceError::new(i32::MIN, Vec::new()).to_string(),
        "data source error (code=-2147483648)"
    );
    assert_eq!(
        DataSourceError::new(0, Vec::new()).to_string(),
        "data source error (code=0)"
    );
}

#[test]
fn panic_with_text_payload() {
    let e = DataSourceError::panic(Some("index out of bounds"));
    assert_eq!(e.error_code(), 2000);
    assert_eq!(
        e.to_datasource_exception_message(),
        "Data source error; rust function panicked; index out of bounds"
    );
}

#[test]
fn panic_without_text_payload() {
    let e = DataSourceError::panic(None);
    assert_eq!(
        e.to_datasource_exception_message(),
        "Data source error; rust function panicked"
    );
}

#[test]
fn io_error_kinds_map_to_codes() {
    assert_eq!(error_code_for_io_kind(IoErrorKind::NotFound), 2005);
    assert_eq!(error_code_for_io_kind(IoErrorKind::PermissionDenied), 2006);
    for kind in [
        IoErrorKind::ConnectionRefused,
        IoErrorKind::ConnectionReset,
        IoErrorKind::ConnectionAborted,
        IoErrorKind::HostUnreachable,
        IoErrorKind::NetworkUnreachable,
        IoErrorKind::NetworkDown,
        IoErrorKind::NotConnected,
    ] {
        assert_eq!(error_code_for_io_kind(kind), 2001);
    }
    assert_eq!(error_code_for_io_kind(IoErrorKind::Other), 2000);
}

#[test]
fn from_io_error_keeps_the_source() {
    let e = DataSourceError::from_io_error(IoErrorKind::NotFound, causes(&["no such file"]));
    assert_eq!(e.error_code(), playback_error_code::IO_FILE_NOT_FOUND);
    assert_eq!(e.to_datasource_exception_message(), "Data source error; no such file");
}

#[test]
fn error_code_constants() {
    assert_eq!(playback_error_code::CUSTOM_BASE, 1000000);
    assert_eq!(playback_error_code::IO_NETWORK_CONNECTION_TIMEOUT, 2002);
    assert_eq!(playback_error_code::IO_INVALID_HTTP_CONTENT_TYPE, 2003);
    assert_eq!(playback_error_code::IO_BAD_HTTP_STATUS, 2004);
    assert_eq!(playback_error_code::IO_CLEARTEXT_NOT_PERMITTED, 2007);
}

#[test]
fn only_interrupted_operations_are_retried() {
    assert!(is_retried(IoErrorKind::Interrupted));
    assert!(!is_retried(IoErrorKind::NotFound));
    assert!(!is_retried(IoErrorKind::Other));
    assert_eq!(error_code_for_io_kind(IoErrorKind::Interrupted), 2000);
}
