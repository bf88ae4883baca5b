//! Tests for the future-instrumentation adapter.

use newrelic::{App, Daemon, Datastore, DatastoreParamsBuilder, ExternalParamsBuilder, Segmented, Transaction};

#[test]
fn adapter_instruments_only_when_a_transaction_is_available() {
    let daemon = Daemon::responsive();
    let app = App::new(&daemon, "test app", "key").expect("app must build");
    let txn = app.web_transaction("async work").expect("transaction must start");

    // With a transaction available the computation is instrumented; the
    // segment is released exactly when the driver reports completion.
    let mut wrapped = 41u32.custom_segment(&txn, "poll", "async");
    *wrapped.inner_mut() += 1;
    wrapped.complete();
    assert_eq!(*wrapped.inner_mut(), 42);
    wrapped.complete();

    // With no transaction available the adapter does no instrumentation.
    let absent: Option<&Transaction> = None;
    let mut silent = 7u32.custom_segment(&absent, "poll", "async");
    assert_eq!(*silent.inner_mut(), 7);
    silent.complete();

    let params = DatastoreParamsBuilder::new(Datastore::Redis)
        .operation("get")
        .build()
        .expect("valid parameters");
    let mut wrapped = 1u8.datastore_segment(&txn, &params);
    wrapped.complete();

    let params = ExternalParamsBuilder::new("https://example.com/")
        .build()
        .expect("valid parameters");
    let mut wrapped = 1u8.external_segment(&txn, &params);
    wrapped.complete();
}

