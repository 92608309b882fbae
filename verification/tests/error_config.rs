use event_logger::{Config, Error};

#[test]
fn end_has_its_fixed_message() {
    assert_eq!(Error::End.message(), "event stream ended");
}

#[test]
fn grpc_error_reports_the_status_text() {
    let error = Error::Grpc("status: Unavailable, message: \"down\"".to_string());
    assert_eq!(error.message(), "status: Unavailable, message: \"down\"");
}

#[test]
fn transport_error_reports_the_transport_text() {
    assert_eq!(Error::Transport("transport error".to_string()).message(), "transport error");
}

#[test]
fn sink_error_reports_the_sink_text() {
    assert_eq!(Error::Sink("store is read-only".to_string()).message(), "store is read-only");
    assert_eq!(Error::Sink(String::new()).message(), "");
}

#[test]
fn config_with_address_hands_it_out() {
    let config = Config::new(Some("postgres://localhost/events".to_string()));
    assert!(config.has_database_url());
    assert_eq!(config.database_url(), "postgres://localhost/events");
}

#[test]
fn config_without_address_says_so() {
    let config = Config::new(None);
    assert!(!config.has_database_url());
}

#[test]
fn config_keeps_an_empty_address() {
    let config = Config::new(Some(String::new()));
    assert!(config.has_database_url());
    assert_eq!(config.database_url(), "");
}
