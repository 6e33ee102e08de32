use myclaw::error::MyClawError;

#[test]
fn messages_name_the_kind_of_error() {
    assert_eq!(MyClawError::WebSocket("closed".to_string()).message(), "WebSocket error: closed");
    assert_eq!(MyClawError::Protocol("bad tag".to_string()).message(), "Protocol error: bad tag");
    assert_eq!(MyClawError::Config("no file".to_string()).message(), "Config error: no file");
    assert_eq!(MyClawError::Gateway("down".to_string()).message(), "Gateway error: down");
}

#[test]
fn an_io_error_is_wrapped_with_its_own_words() {
    let inner = std::io::Error::new(std::io::ErrorKind::NotFound, "config/server.toml");
    let error = MyClawError::from(inner);
    assert!(matches!(error, MyClawError::Io(_)));
    assert_eq!(error.message(), "IO error: config/server.toml");
}

#[test]
fn a_json_error_is_wrapped_with_its_own_words() {
    let inner = serde_json::from_str::<serde_json::Value>("{").expect_err("not json");
    let words = inner.to_string();
    let error = MyClawError::from(inner);
    assert!(matches!(error, MyClawError::Json(_)));
    assert_eq!(error.message(), format!("JSON error: {words}"));
}
