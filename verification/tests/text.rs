use loadgen::config::{Configuration, HEADER_NAME, HEADER_VALUE};
use loadgen::dispatch::Action;
use loadgen::report::{progress_due, progress_line, report_lines, PROGRESS_INTERVAL};
use loadgen::text::{append_decimal, decimal_string};

#[test]
fn decimal_of_zero() {
    assert_eq!(decimal_string(0), "0");
}

#[test]
fn decimal_of_single_digits() {
    let digits = ["0", "1", "2", "3", "4", "5", "6", "7", "8", "9"];
    for (n, text) in digits.iter().enumerate() {
        assert_eq!(decimal_string(n), *text);
    }
}

#[test]
fn decimal_of_larger_numbers() {
    assert_eq!(decimal_string(10), "10");
    assert_eq!(decimal_string(99), "99");
    assert_eq!(decimal_string(100), "100");
    assert_eq!(decimal_string(5000), "5000");
    assert_eq!(decimal_string(1234567890), "1234567890");
    assert_eq!(decimal_string(3000000), "3000000");
}

#[test]
fn decimal_agrees_with_the_standard_library() {
    for n in 0..2000usize {
        assert_eq!(decimal_string(n), n.to_string());
    }
    assert_eq!(decimal_string(usize::MAX), usize::MAX.to_string());
    assert_eq!(decimal_string(usize::MAX - 1), (usize::MAX - 1).to_string());
}

#[test]
fn append_decimal_keeps_what_was_there() {
    let mut text = String::from("ttl=");
    append_decimal(&mut text, 5000);
    assert_eq!(text, "ttl=5000");
    append_decimal(&mut text, 0);
    assert_eq!(text, "ttl=50000");
}

#[test]
fn default_configuration() {
    let config = Configuration::default();
    assert_eq!(config.max_conn, 100);
    assert_eq!(config.count, 1000);
    assert_eq!(config.base_url, "http://localhost");
    assert_eq!(config.port, "3000");
    assert_eq!(config.ttl, 5000);
}

#[test]
fn default_target_url() {
    assert_eq!(Configuration::default().target_url(), "http://localhost:3000/push/5000");
}

#[test]
fn target_url_is_built_from_its_parts() {
    let config = Configuration {
        max_conn: 1,
        count: 1,
        base_url: String::from("https://example.org"),
        port: String::from("8443"),
        ttl: 0,
    };
    assert_eq!(config.target_url(), "https://example.org:8443/push/0");
    let config = Configuration {
        max_conn: 1,
        count: 1,
        base_url: String::new(),
        port: String::new(),
        ttl: 42,
    };
    assert_eq!(config.target_url(), ":/push/42");
}

#[test]
fn configuration_starts_its_dispatcher() {
    let config = Configuration { max_conn: 2, count: 3, ..Configuration::default() };
    let mut dispatcher = config.dispatcher();
    assert_eq!(dispatcher.count(), 3);
    assert_eq!(dispatcher.issued(), 0);
    assert_eq!(dispatcher.launch(), Some(0));
    assert_eq!(dispatcher.launch(), Some(1));
    assert_eq!(dispatcher.next_action(), Action::AwaitRelease);
}

#[test]
fn fixed_header() {
    assert_eq!(HEADER_NAME, "Content-Type");
    assert_eq!(HEADER_VALUE, "application/json");
}

#[test]
fn progress_is_due_every_ten_thousand() {
    assert_eq!(PROGRESS_INTERVAL, 10000);
    assert!(progress_due(0));
    assert!(!progress_due(1));
    assert!(!progress_due(9999));
    assert!(progress_due(10000));
    assert!(!progress_due(10001));
    assert!(progress_due(20000));
    assert!(progress_due(1230000));
    assert!(!progress_due(usize::MAX));
}

#[test]
fn progress_line_text() {
    assert_eq!(progress_line(0), "Performed 0 requests");
    assert_eq!(progress_line(10000), "Performed 10000 requests");
    assert_eq!(progress_line(250000), "Performed 250000 requests");
}

#[test]
fn report_lines_text() {
    let (successes, errors) = report_lines(1000, 0);
    assert_eq!(successes, "Successes: 1000");
    assert_eq!(errors, "Errors: 0");
    let (successes, errors) = report_lines(0, 0);
    assert_eq!(successes, "Successes: 0");
    assert_eq!(errors, "Errors: 0");
    let (successes, errors) = report_lines(37, 963);
    assert_eq!(successes, "Successes: 37");
    assert_eq!(errors, "Errors: 963");
}
