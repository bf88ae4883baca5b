//! Tests for the parameter builders, the datastore products, durations and
//! error messages.

use newrelic::{Datastore, DatastoreParamsBuilder, Duration, Error, ExternalParamsBuilder};

#[test]
fn datastore_roundtrip_postgres_people_select() {
    let params = DatastoreParamsBuilder::new(Datastore::Postgres)
        .collection("people")
        .operation("select")
        .build()
        .expect("parameters without NUL bytes must build");
    assert_eq!(params.product(), Datastore::Postgres);
    assert_eq!(params.collection(), Some("people"));
    assert_eq!(params.operation(), Some("select"));
    assert_eq!(params.host(), None);
    assert_eq!(params.port_path_or_id(), None);
    assert_eq!(params.database_name(), None);
    assert_eq!(params.query(), None);
}

#[test]
fn datastore_builder_keeps_every_field() {
    let params = DatastoreParamsBuilder::new(Datastore::MySQL)
        .collection("orders")
        .operation("insert")
        .host("db.example.com")
        .port_path_or_id("3306")
        .database_name("shop")
        .query("INSERT INTO orders VALUES (1)")
        .build()
        .expect("parameters without NUL bytes must build");
    assert_eq!(params.product(), Datastore::MySQL);
    assert_eq!(params.collection(), Some("orders"));
    assert_eq!(params.operation(), Some("insert"));
    assert_eq!(params.host(), Some("db.example.com"));
    assert_eq!(params.port_path_or_id(), Some("3306"));
    assert_eq!(params.database_name(), Some("shop"));
    assert_eq!(params.query(), Some("INSERT INTO orders VALUES (1)"));
}

#[test]
fn datastore_builder_rejects_nul_in_any_field() {
    let r = DatastoreParamsBuilder::new(Datastore::Redis)
        .operation("g\0et")
        .build();
    assert_eq!(r.err(), Some(Error::NulError(1)));

    let r = DatastoreParamsBuilder::new(Datastore::Postgres)
        .collection("people")
        .query("SELECT\0")
        .build();
    assert!(matches!(r.err(), Some(Error::NulError(_))));
}

#[test]
fn external_roundtrip() {
    let params = ExternalParamsBuilder::new("https://www.rust-lang.org/")
        .procedure("GET")
        .library("reqwest")
        .build()
        .expect("parameters without NUL bytes must build");
    assert_eq!(params.uri(), "https://www.rust-lang.org/");
    assert_eq!(params.procedure(), Some("GET"));
    assert_eq!(params.library(), Some("reqwest"));
}

#[test]
fn external_optional_fields_stay_absent() {
    let params = ExternalParamsBuilder::new("https://example.com/")
        .build()
        .expect("parameters without NUL bytes must build");
    assert_eq!(params.uri(), "https://example.com/");
    assert_eq!(params.procedure(), None);
    assert_eq!(params.library(), None);
}

#[test]
fn external_rejects_nul_in_uri() {
    let r = ExternalParamsBuilder::new("http://x\0y").build();
    assert_eq!(r.err(), Some(Error::NulError(8)));
}

#[test]
fn external_rejects_nul_in_optional_field() {
    let r = ExternalParamsBuilder::new("https://example.com/")
        .procedure("GE\0T")
        .build();
    assert_eq!(r.err(), Some(Error::NulError(2)));
}

#[test]
fn nul_at_position_zero_is_reported() {
    let r = ExternalParamsBuilder::new("\0").build();
    assert_eq!(r.err(), Some(Error::NulError(0)));
}

#[test]
fn empty_strings_are_valid() {
    let params = ExternalParamsBuilder::new("")
        .procedure("")
        .build()
        .expect("empty strings carry no NUL byte");
    assert_eq!(params.uri(), "");
    assert_eq!(params.procedure(), Some(""));
}

#[test]
fn datastore_product_names() {
    assert_eq!(Datastore::Firebird.name(), "Firebird");
    assert_eq!(Datastore::Informix.name(), "Informix");
    assert_eq!(Datastore::MSSQL.name(), "MSSQL");
    assert_eq!(Datastore::MySQL.name(), "MySQL");
    assert_eq!(Datastore::Oracle.name(), "Oracle");
    assert_eq!(Datastore::Postgres.name(), "Postgres");
    assert_eq!(Datastore::SQLite.name(), "SQLite");
    assert_eq!(Datastore::Sybase.name(), "Sybase");
    assert_eq!(Datastore::Memcached.name(), "Memcached");
    assert_eq!(Datastore::MongoDB.name(), "MongoDB");
    assert_eq!(Datastore::ODBC.name(), "ODBC");
    assert_eq!(Datastore::Redis.name(), "Redis");
    assert_eq!(Datastore::Other.name(), "Other");
}

#[test]
fn duration_conversions() {
    assert_eq!(Duration::from_micros(250).as_micros(), 250);
    assert_eq!(Duration::from_millis(3).as_micros(), 3000);
    assert_eq!(Duration::from_secs(2).as_micros(), 2_000_000);
    assert_eq!(Duration::from_millis(1500).as_millis(), 1500);
    assert_eq!(Duration::from_micros(999).as_millis(), 0);
}

#[test]
fn error_messages_name_the_failure() {
    assert_eq!(
        Error::ConfigError.message(),
        "Error configuring New Relic app; check New Relic logs for details"
    );
    assert_eq!(
        Error::DaemonError.message(),
        "Error connecting to New Relic daemon; check New Relic logs for details"
    );
    assert_eq!(
        Error::NulError(3).message(),
        "String contains an interior NUL byte"
    );
    assert_eq!(
        Error::DurationOverflow.message(),
        "Duration exceeds the representable range of microseconds"
    );
}
