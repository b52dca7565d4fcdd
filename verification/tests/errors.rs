use nemollm::error::{ClientError, ConfigurationFault};
use nemollm::text::to_decimal;

#[test]
fn decimal_numerals() {
    assert_eq!(to_decimal(0), "0");
    assert_eq!(to_decimal(7), "7");
    assert_eq!(to_decimal(10), "10");
    assert_eq!(to_decimal(50), "50");
    assert_eq!(to_decimal(1_024), "1024");
    assert_eq!(to_decimal(9_876_543_210), "9876543210");
    assert_eq!(to_decimal(u64::MAX), u64::MAX.to_string());
}

#[test]
fn validation_message_names_the_limit() {
    let e = ClientError::Validation { given: 51, limit: 50 };
    assert_eq!(e.message(), "Content list exceeds maximum limit of 50");
}

#[test]
fn remote_message_is_status_and_detail() {
    let e = ClientError::Remote { status: 500, detail: "boom".to_string() };
    assert_eq!(e.message(), "500 Internal Server Error: boom");
    let e = ClientError::Remote { status: 404, detail: "".to_string() };
    assert_eq!(e.message(), "404 Not Found: ");
    let e = ClientError::Remote { status: 42, detail: "odd".to_string() };
    assert_eq!(e.message(), "42: odd");
}

#[test]
fn transport_message_is_its_detail() {
    let e = ClientError::Transport { detail: "connection reset".to_string() };
    assert_eq!(e.message(), "connection reset");
}

#[test]
fn timeout_message_names_wait_and_polls() {
    let e = ClientError::PollTimeout { waited_ms: 1_500, polls: 4 };
    assert_eq!(e.message(), "polling gave up after 1500 ms and 4 polls");
}

#[test]
fn configuration_messages() {
    let of = |reason| ClientError::Configuration { reason }.message();
    assert_eq!(of(ConfigurationFault::MissingToken), "no API token was given");
    assert_eq!(of(ConfigurationFault::UnusableToken), "the API token cannot be sent in a header");
    assert_eq!(of(ConfigurationFault::InvalidPolicy), "the polling intervals do not fit together");
}
