//! Tests for the application, transaction, segment and event lifecycles.

use std::sync::Arc;

use newrelic::{
    App, AppBuilder, Attribute, Daemon, Duration, Error, LogLevel, LogOutput, NewRelicConfig,
    ReferencingSegment, SegmentPointer, TracingThreshold, Transaction, TransactionType,
};

fn running_transaction() -> Transaction {
    let daemon = Daemon::responsive();
    let app = App::new(&daemon, "test app", "test license key").expect("app must build");
    app.web_transaction("test transaction").expect("transaction must start")
}

#[test]
fn app_creation_succeeds_against_reachable_daemon() {
    let daemon = Daemon::responsive();
    let app = App::new(&daemon, "my app", "0123456789").expect("valid creation must succeed");
    assert!(app.live());
    let txn = app.web_transaction("first").expect("a live app can start a transaction");
    assert!(txn.is_running());
    assert_eq!(*txn.kind(), TransactionType::Web);
}

#[test]
fn app_creation_fails_when_daemon_unreachable() {
    let daemon = Daemon::new(false, true);
    let r = App::new(&daemon, "my app", "0123456789");
    assert_eq!(r.err(), Some(Error::ConfigError));
}

#[test]
fn app_creation_rejects_nul_in_name_or_key() {
    let daemon = Daemon::responsive();
    assert!(matches!(
        App::new(&daemon, "my\0app", "key").err(),
        Some(Error::NulError(2))
    ));
    assert!(matches!(
        App::new(&daemon, "my app", "k\0ey").err(),
        Some(Error::NulError(1))
    ));
}

#[test]
fn app_destroy_releases_the_handle() {
    let daemon = Daemon::responsive();
    let mut app = App::new(&daemon, "my app", "key").expect("app must build");
    assert!(app.live());
    app.destroy();
    assert!(!app.live());
    app.destroy();
    assert!(!app.live());
}

#[test]
fn app_builder_configures_and_builds() {
    let daemon = Daemon::responsive();
    let app = AppBuilder::new("my app", "key")
        .expect("valid name and key")
        .transaction_tracing(true)
        .transaction_threshold(TracingThreshold::OverDuration(Duration::from_millis(100)))
        .expect("100 ms fits in the microsecond range")
        .stack_trace_threshold(Duration::from_millis(20))
        .expect("20 ms fits in the microsecond range")
        .datastore_reporting(true)
        .datastore_reporting_threshold(Duration::from_millis(5))
        .expect("5 ms fits in the microsecond range")
        .record_sql(newrelic::RecordSQL::Obfuscated)
        .database_name_reporting(false)
        .datastore_instance_reporting(false)
        .span_events(true)
        .distributed_tracing(true)
        .build(&daemon)
        .expect("reachable daemon");
    assert!(app.live());
}

#[test]
fn app_builder_rejects_overflowing_durations() {
    let builder = AppBuilder::new("my app", "key").expect("valid name and key");
    let r = builder.transaction_threshold(TracingThreshold::OverDuration(Duration::from_secs(
        u64::MAX,
    )));
    assert_eq!(r.err(), Some(Error::DurationOverflow));

    let builder = AppBuilder::new("my app", "key").expect("valid name and key");
    let r = builder.stack_trace_threshold(Duration::from_secs(u64::MAX));
    assert_eq!(r.err(), Some(Error::DurationOverflow));

    let builder = AppBuilder::new("my app", "key").expect("valid name and key");
    let r = builder.datastore_reporting_threshold(Duration::from_secs(u64::MAX));
    assert_eq!(r.err(), Some(Error::DurationOverflow));
}

#[test]
fn transaction_end_is_idempotent() {
    let mut txn = running_transaction();
    assert!(txn.is_running());
    txn.end();
    assert!(!txn.is_running());
    let kind_after_one = *txn.kind();
    txn.end();
    assert!(!txn.is_running());
    assert_eq!(*txn.kind(), kind_after_one);
}

#[test]
fn operations_after_end_return_defined_errors() {
    let mut txn = running_transaction();
    txn.end();
    assert_eq!(
        txn.add_attribute("answer", &Attribute::Int(42)).err(),
        Some(Error::AttributeError)
    );
    assert_eq!(txn.ignore().err(), Some(Error::IgnoreError));
    assert_eq!(
        txn.record_custom_metric("Custom/metric", Duration::from_millis(5)).err(),
        Some(Error::CustomMetricError)
    );
    // Noticing an error on an ended transaction is a defined no-op.
    assert!(txn.notice_error(1, "late", "RuntimeError").is_ok());
}

#[test]
fn add_attribute_accepts_every_value_shape() {
    let txn = running_transaction();
    assert!(txn.add_attribute("int", &Attribute::Int(-7)).is_ok());
    assert!(txn.add_attribute("long", &Attribute::Long(1 << 40)).is_ok());
    assert!(txn
        .add_attribute("float", &Attribute::Float((2.5f64).to_bits()))
        .is_ok());
    assert!(txn
        .add_attribute("string", &Attribute::Str("value".to_string()))
        .is_ok());
}

#[test]
fn add_attribute_rejects_nul_strings() {
    let txn = running_transaction();
    assert!(matches!(
        txn.add_attribute("na\0me", &Attribute::Int(1)).err(),
        Some(Error::NulError(2))
    ));
    assert!(matches!(
        txn.add_attribute("name", &Attribute::Str("va\0lue".to_string())).err(),
        Some(Error::NulError(2))
    ));
}

#[test]
fn notice_error_succeeds_while_running() {
    let txn = running_transaction();
    assert!(txn.notice_error(5, "boom", "RuntimeError").is_ok());
    assert!(txn.notice_error(-1000, "boom", "RuntimeError").is_ok());
    assert!(txn.notice_error(i32::MAX, "boom", "RuntimeError").is_ok());
}

#[test]
fn notice_error_rejects_nul_message_whatever_the_priority() {
    let txn = running_transaction();
    assert!(matches!(
        txn.notice_error(5, "bo\0om", "RuntimeError").err(),
        Some(Error::NulError(2))
    ));
    assert!(matches!(
        txn.notice_error(-5, "bo\0om", "RuntimeError").err(),
        Some(Error::NulError(2))
    ));
    assert!(matches!(
        txn.notice_error(5, "boom", "Runtime\0Error").err(),
        Some(Error::NulError(7))
    ));
}

#[test]
fn record_custom_metric_while_running() {
    let txn = running_transaction();
    assert!(txn
        .record_custom_metric("Custom/cache-hit", Duration::from_millis(12))
        .is_ok());
    assert!(matches!(
        txn.record_custom_metric("Custom/\0", Duration::from_millis(12)).err(),
        Some(Error::NulError(7))
    ));
}

#[test]
fn ignore_while_running() {
    let txn = running_transaction();
    assert!(txn.ignore().is_ok());
}

#[test]
fn custom_event_is_recorded_once() {
    let txn = running_transaction();
    let event = txn.custom_event("purchase").expect("valid event type");
    event
        .add_attribute("count", &Attribute::Int(3))
        .expect("valid attribute")
        .add_attribute("total", &Attribute::Float((9.99f64).to_bits()))
        .expect("valid attribute");
    assert!(event.record());
}

#[test]
fn custom_event_never_recorded_takes_the_discard_path() {
    let txn = running_transaction();
    let event = txn.custom_event("abandoned").expect("valid event type");
    event.discard();
    // The event value is consumed: a second discard, or a record after the
    // discard, no longer type-checks.
}

#[test]
fn custom_event_recorded_after_end_is_not_emitted() {
    let mut txn = running_transaction();
    txn.end();
    let event = txn.custom_event("late").expect("valid event type");
    assert!(!event.record());
}

#[test]
fn custom_event_rejects_nul_type_and_attributes() {
    let txn = running_transaction();
    assert!(matches!(
        txn.custom_event("pur\0chase").err(),
        Some(Error::NulError(3))
    ));
    let event = txn.custom_event("purchase").expect("valid event type");
    assert!(matches!(
        event.add_attribute("co\0unt", &Attribute::Int(1)).err(),
        Some(Error::NulError(2))
    ));
    event.discard();
}

#[test]
fn segment_pointer_strict_lifecycle() {
    let txn = running_transaction();
    let mut segment =
        SegmentPointer::custom(&txn, "compute", "business").expect("start must succeed");
    assert!(segment.live());
    let mut child = segment
        .custom_nested(&txn, "inner", "business")
        .expect("nesting under a live segment succeeds");
    assert!(child.live());
    assert!(child.distributed_trace(&txn).is_some());
    child.end(&txn);
    assert!(!child.live());
    assert!(child.distributed_trace(&txn).is_none());
    segment.end(&txn);
    assert!(!segment.live());
    segment.end(&txn);
    assert!(!segment.live());
}

#[test]
fn segment_pointer_rejects_nul_and_ended_transactions() {
    let txn = running_transaction();
    assert_eq!(
        SegmentPointer::custom(&txn, "se\0g", "cat").err(),
        Some(Error::SegmentStartError)
    );
    let mut ended = running_transaction();
    ended.end();
    assert_eq!(
        SegmentPointer::custom(&ended, "seg", "cat").err(),
        Some(Error::SegmentStartError)
    );
}

#[test]
fn segment_pointer_nesting_under_dead_segment_is_an_error() {
    let txn = running_transaction();
    let mut segment = SegmentPointer::custom(&txn, "seg", "cat").expect("start must succeed");
    segment.end(&txn);
    assert_eq!(
        segment.custom_nested(&txn, "inner", "cat").err(),
        Some(Error::SegmentStartError)
    );
}

#[test]
fn referencing_segment_borrowed_holder() {
    let txn = running_transaction();
    let mut segment = ReferencingSegment::custom(&txn, "outer", "business")
        .expect("start must succeed");
    assert!(segment.live());
    let mut child = segment
        .create_custom_nested("inner", "business")
        .expect("nesting under a live segment succeeds");
    assert!(child.live());
    child.end();
    segment.end();
    assert!(!segment.live());
}

#[test]
fn referencing_segment_scoped_nesting_forwards_the_result() {
    let txn = running_transaction();
    let segment =
        ReferencingSegment::custom(&txn, "outer", "business").expect("start must succeed");
    let value = segment
        .custom_nested("inner", "business", |mut child| {
            assert!(child.live());
            child.end();
            21
        })
        .expect("nesting under a live segment succeeds");
    assert_eq!(value, 21);
}

#[test]
fn referencing_segment_shared_ownership_holder() {
    let daemon = Daemon::responsive();
    let app = App::new(&daemon, "test app", "key").expect("app must build");
    let txn = Arc::new(app.web_transaction("shared").expect("transaction must start"));
    let mut segment = ReferencingSegment::custom(Arc::clone(&txn), "outer", "business")
        .expect("start must succeed");
    assert!(segment.live());
    let mut child = segment
        .create_custom_nested("inner", "business")
        .expect("nesting under a live segment succeeds");
    assert!(segment.distributed_trace().is_some());
    child.end();
    segment.end();
    assert!(!segment.live());
    assert!(segment.distributed_trace().is_none());
}

#[test]
fn newrelic_config_init_paths() {
    let daemon = Daemon::responsive();
    assert!(NewRelicConfig::default().init(&daemon).is_ok());
    assert!(NewRelicConfig::default()
        .socket("/tmp/.newrelic-alternative.sock")
        .timeout(Duration::from_millis(10000))
        .logging(LogLevel::Debug, LogOutput::StdErr)
        .init(&daemon)
        .is_ok());

    let unreachable = Daemon::new(false, true);
    assert_eq!(
        NewRelicConfig::default().init(&unreachable).err(),
        Some(Error::DaemonError)
    );

    let rejects_log = Daemon::new(true, false);
    assert!(NewRelicConfig::default().init(&rejects_log).is_ok());
    assert_eq!(
        NewRelicConfig::default()
            .logging(LogLevel::Info, LogOutput::File("/var/log/nr.log"))
            .init(&rejects_log)
            .err(),
        Some(Error::LoggingError)
    );

    assert!(matches!(
        NewRelicConfig::default()
            .socket("/tmp/\0bad")
            .init(&daemon)
            .err(),
        Some(Error::NulError(5))
    ));
    assert!(matches!(
        NewRelicConfig::default()
            .logging(LogLevel::Info, LogOutput::File("bad\0path"))
            .init(&daemon)
            .err(),
        Some(Error::NulError(3))
    ));
}

#[test]
fn init_attributes_each_error_to_its_cause() {
    // A NUL in the socket is reported as a NUL error even when the daemon
    // is also unreachable, and a rejected log sink is reported before the
    // handshake is considered.
    let broken = Daemon::new(false, false);
    assert_eq!(
        NewRelicConfig::default().socket("/tmp/\0bad").init(&broken).err(),
        Some(Error::NulError(5))
    );
    assert_eq!(
        NewRelicConfig::default()
            .logging(LogLevel::Info, LogOutput::File("log\0file"))
            .init(&broken)
            .err(),
        Some(Error::NulError(3))
    );
    assert_eq!(
        NewRelicConfig::default()
            .logging(LogLevel::Info, LogOutput::StdOut)
            .init(&broken)
            .err(),
        Some(Error::LoggingError)
    );
    // A NUL socket behind a rejected log sink: the sink is reported first.
    assert_eq!(
        NewRelicConfig::default()
            .logging(LogLevel::Info, LogOutput::StdOut)
            .socket("/tmp/\0bad")
            .init(&Daemon::new(true, false))
            .err(),
        Some(Error::LoggingError)
    );
    // With the sink accepted, the NUL socket is reported, not the daemon.
    assert_eq!(
        NewRelicConfig::default()
            .logging(LogLevel::Info, LogOutput::StdOut)
            .socket("/tmp/\0bad")
            .init(&Daemon::new(false, true))
            .err(),
        Some(Error::NulError(5))
    );
}

#[test]
fn log_output_names() {
    assert_eq!(LogOutput::StdErr.to_str(), Some("stderr"));
    assert_eq!(LogOutput::StdOut.to_str(), Some("stdout"));
    assert_eq!(LogOutput::File("test.txt").to_str(), Some("test.txt"));
}

#[test]
fn non_web_transactions_carry_their_kind() {
    let daemon = Daemon::responsive();
    let app = App::new(&daemon, "test app", "key").expect("app must build");
    let txn = app.non_web_transaction("batch job").expect("transaction must start");
    assert_eq!(*txn.kind(), TransactionType::NonWeb);
    assert!(matches!(
        app.non_web_transaction("batch\0job").err(),
        Some(Error::NulError(5))
    ));
}
