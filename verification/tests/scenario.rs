//! End-to-end scenarios: soft-failing segments, the scoped nesting shapes,
//! and a full instrumented run.

use newrelic::{App, Daemon, Datastore, DatastoreParamsBuilder, ExternalParamsBuilder, Transaction};

fn ended_transaction() -> Transaction {
    let daemon = Daemon::responsive();
    let app = App::new(&daemon, "test app", "key").expect("app must build");
    let mut txn = app.web_transaction("ended").expect("transaction must start");
    txn.end();
    txn
}

#[test]
fn failed_segment_degrades_to_noop() {
    // Segment creation on an ended transaction fails softly: the body
    // still runs, with a no-op segment.
    let txn = ended_transaction();
    let ran = txn.custom_segment("work", "category", |segment| {
        assert!(!segment.live());
        assert_eq!(segment.distributed_trace(), "");
        true
    });
    assert!(ran);
}

#[test]
fn nested_creation_under_failed_segment_fails_softly() {
    let txn = ended_transaction();
    let datastore_params = DatastoreParamsBuilder::new(Datastore::Postgres)
        .collection("people")
        .build()
        .expect("valid parameters");
    let external_params = ExternalParamsBuilder::new("https://example.com/")
        .build()
        .expect("valid parameters");
    txn.custom_segment("work", "category", |segment| {
        assert!(!segment.live());
        let mut child = segment.create_custom_nested("inner", "category");
        assert!(!child.live());
        assert!(!segment.create_datastore_nested(&datastore_params).live());
        assert!(!segment.create_external_nested(&external_params).live());
        // The grandchild of a no-op segment is a no-op as well, and every
        // accessor returns an empty or default value.
        let grandchild = child.create_custom_nested("deeper", "category");
        assert!(!grandchild.live());
        assert_eq!(grandchild.distributed_trace(), "");
        child.end();
        assert!(!child.live());
        segment.datastore_nested(&datastore_params, |nested| {
            assert!(!nested.live());
        });
        segment.external_nested(&external_params, |nested| {
            assert!(!nested.live());
        });
    });
}

#[test]
fn scoped_nesting_ends_children_before_parents() {
    // The scoped call shapes are the intended way to nest segments: a
    // child lives only inside the body run under its parent's borrow, so
    // the parent cannot be ended first.  A shape that ends the parent
    // while the child body still runs does not type-check: inside
    // `parent.custom_nested(.., |child| ..)` the parent is borrowed, and
    // `Transaction::end` needs the transaction exclusively while every
    // segment holds its borrow.
    let daemon = Daemon::responsive();
    let app = App::new(&daemon, "test app", "key").expect("app must build");
    let txn = app.web_transaction("nesting").expect("transaction must start");
    let total = txn.custom_segment("parent", "category", |parent| {
        assert!(parent.live());
        let a = parent.custom_nested("first child", "category", |child| {
            assert!(child.live());
            3
        });
        let b = parent.custom_nested("second child", "category", |child| {
            assert!(child.live());
            2
        });
        a * b
    });
    assert_eq!(total, 6);
}

#[test]
fn full_instrumented_run_releases_every_handle() {
    // Start app, start web transaction, open a custom segment, nest a
    // datastore segment in it, end inner, end outer, end the transaction,
    // destroy the app: every step succeeds and every handle is released.
    let daemon = Daemon::responsive();
    let mut app =
        App::new(&daemon, "shop", "license key").expect("creation against a reachable daemon");
    assert!(app.live());

    let mut txn = app.web_transaction("checkout").expect("transaction must start");
    assert!(txn.is_running());

    let datastore_params = DatastoreParamsBuilder::new(Datastore::Postgres)
        .collection("orders")
        .operation("select")
        .build()
        .expect("valid parameters");

    let (outer_released, inner_released) =
        txn.custom_segment("compute-total", "business-logic", |mut outer| {
            assert!(outer.live());
            let mut inner = outer.create_datastore_nested(&datastore_params);
            assert!(inner.live());
            inner.end();
            let inner_released = !inner.live();
            outer.end();
            (!outer.live(), inner_released)
        });
    assert!(outer_released);
    assert!(inner_released);

    txn.end();
    assert!(!txn.is_running());

    app.destroy();
    assert!(!app.live());
}
