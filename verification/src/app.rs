//! Applications: the top-level handle connecting one instrumented program
//! to the telemetry engine, together with its configuration.

use vstd::prelude::*;

use crate::check_nul;
use crate::daemon::Daemon;
use crate::duration::Duration;
use crate::error::Error;
use crate::has_nul;
use crate::transaction::{Transaction, TransactionType};

verus! {

/// The default timeout, in milliseconds, when connecting to the daemon upon
/// app creation.
pub const DEFAULT_APP_TIMEOUT: u16 = 10000;

/// The stack-trace threshold, in microseconds, of a freshly created
/// configuration.
pub const DEFAULT_STACK_TRACE_THRESHOLD_US: u64 = 500000;

/// The slow-datastore-query threshold, in microseconds, of a freshly
/// created configuration.
pub const DEFAULT_DATASTORE_REPORTING_THRESHOLD_US: u64 = 500000;

/// Whether to consider transactions for trace generation based on the apdex
/// configuration or a specific duration.
#[derive(Debug, Clone, Copy, PartialEq, Eq, Structural)]
pub enum TracingThreshold {
    /// Use four times the failing apdex as the minimum time a transaction
    /// must take before a trace may be generated.
    ApdexFailing,
    /// The minimum transaction time before a trace may be generated.
    OverDuration(Duration),
}

/// Controls the format of the sql put into transaction traces for supported
/// sql-like products.
#[derive(Debug, Clone, Copy, PartialEq, Eq, Structural)]
pub enum RecordSQL {
    /// Transaction traces have no sql in them.
    Off,
    /// The sql is added to the transaction trace as-is.
    Raw,
    /// Alphanumeric characters are replaced with a placeholder before the
    /// query is added to the transaction trace.
    Obfuscated,
}

/// The settings an application configuration holds, as plain values.
pub ghost struct AppConfigView {
    /// The application name reported to the engine.
    pub name: Seq<char>,
    /// The license key used to create the application.
    pub license_key: Seq<char>,
    /// Whether transaction traces are generated.
    pub transaction_tracing: bool,
    /// Whether the trace threshold follows the apdex configuration; when
    /// false, `transaction_threshold_us` applies instead.
    pub threshold_is_apdex: bool,
    /// The minimum transaction time before a trace may be generated, in
    /// microseconds.
    pub transaction_threshold_us: u64,
    /// The threshold above which a stack trace is recorded for a
    /// transaction trace, in microseconds.
    pub stack_trace_threshold_us: u64,
    /// Whether slow datastore queries are recorded.
    pub datastore_reporting: bool,
    /// The threshold above which a datastore query is considered slow, in
    /// microseconds.
    pub datastore_reporting_threshold_us: u64,
    /// The format of the sql put into transaction traces.
    pub record_sql: RecordSQL,
    /// Whether database names inside datastore segments are reported.
    pub database_name_reporting: bool,
    /// Whether host and port inside datastore segments are reported.
    pub datastore_instance_reporting: bool,
    /// Whether span events are generated.
    pub span_events: bool,
    /// Whether distributed tracing is enabled.
    pub distributed_tracing: bool,
}

impl AppConfigView {
    /// The settings a freshly created configuration carries: the given name
    /// and license key, and the engine's documented defaults for every
    /// other field.
    pub open spec fn fresh(name: Seq<char>, license_key: Seq<char>) -> AppConfigView {
        AppConfigView {
            name,
            license_key,
            transaction_tracing: true,
            threshold_is_apdex: true,
            transaction_threshold_us: 0,
            stack_trace_threshold_us: DEFAULT_STACK_TRACE_THRESHOLD_US,
            datastore_reporting: true,
            datastore_reporting_threshold_us: DEFAULT_DATASTORE_REPORTING_THRESHOLD_US,
            record_sql: RecordSQL::Obfuscated,
            database_name_reporting: true,
            datastore_instance_reporting: true,
            span_events: true,
            distributed_tracing: false,
        }
    }
}

/// Application configuration used to create an [`App`].
///
/// Construction is all-or-nothing: the name and license key are validated
/// (no embedded NUL bytes) before anything is built, and every other
/// setting starts at the engine's documented default.
pub struct AppConfig {
    name: String,
    license_key: String,
    transaction_tracing: bool,
    threshold_is_apdex: bool,
    transaction_threshold_us: u64,
    stack_trace_threshold_us: u64,
    datastore_reporting: bool,
    datastore_reporting_threshold_us: u64,
    record_sql: RecordSQL,
    database_name_reporting: bool,
    datastore_instance_reporting: bool,
    span_events: bool,
    distributed_tracing: bool,
}

impl View for AppConfig {
    type V = AppConfigView;

    closed spec fn view(&self) -> AppConfigView {
        AppConfigView {
            name: self.name@,
            license_key: self.license_key@,
            transaction_tracing: self.transaction_tracing,
            threshold_is_apdex: self.threshold_is_apdex,
            transaction_threshold_us: self.transaction_threshold_us,
            stack_trace_threshold_us: self.stack_trace_threshold_us,
            datastore_reporting: self.datastore_reporting,
            datastore_reporting_threshold_us: self.datastore_reporting_threshold_us,
            record_sql: self.record_sql,
            database_name_reporting: self.database_name_reporting,
            datastore_instance_reporting: self.datastore_instance_reporting,
            span_events: self.span_events,
            distributed_tracing: self.distributed_tracing,
        }
    }
}

impl AppConfig {
    /// Create a new configuration with the given application name and
    /// license key and every other setting at its default.
    ///
    /// Fails exactly when the name or the license key carries an embedded
    /// NUL byte.
    pub fn new(name: &str, license_key: &str) -> (r: Result<AppConfig, Error>)
        ensures
            r is Ok <==> !has_nul(name@) && !has_nul(license_key@),
            r matches Ok(c) ==> c@ == AppConfigView::fresh(name@, license_key@),
            r matches Err(e) ==> e matches Error::NulError(_),
    {
        check_nul(name)?;
        check_nul(license_key)?;
        Ok(
            AppConfig {
                name: name.to_owned(),
                license_key: license_key.to_owned(),
                transaction_tracing: true,
                threshold_is_apdex: true,
                transaction_threshold_us: 0,
                stack_trace_threshold_us: DEFAULT_STACK_TRACE_THRESHOLD_US,
                datastore_reporting: true,
                datastore_reporting_threshold_us: DEFAULT_DATASTORE_REPORTING_THRESHOLD_US,
                record_sql: RecordSQL::Obfuscated,
                database_name_reporting: true,
                datastore_instance_reporting: true,
                span_events: true,
                distributed_tracing: false,
            },
        )
    }
}

/// A builder to construct an application with non-default settings.
pub struct AppBuilder {
    config: AppConfig,
}

impl AppBuilder {
    /// The settings the builder has accumulated so far.
    pub closed spec fn spec_config(self) -> AppConfigView {
        self.config@
    }

    /// Begin creating an application with the given name and license key.
    ///
    /// Fails exactly when the name or the license key carries an embedded
    /// NUL byte.
    pub fn new(name: &str, license_key: &str) -> (r: Result<AppBuilder, Error>)
        ensures
            r is Ok <==> !has_nul(name@) && !has_nul(license_key@),
            r matches Ok(b) ==> b.spec_config() == AppConfigView::fresh(name@, license_key@),
            r matches Err(e) ==> e matches Error::NulError(_),
    {
        Ok(AppBuilder { config: AppConfig::new(name, license_key)? })
    }

    /// Whether to enable transaction traces.
    pub fn transaction_tracing(self, enabled: bool) -> (r: AppBuilder)
        ensures
            r.spec_config() == (AppConfigView { transaction_tracing: enabled, ..self.spec_config() }),
    {
        let mut config = self.config;
        config.transaction_tracing = enabled;
        AppBuilder { config }
    }

    /// Whether to consider transactions for trace generation based on the
    /// apdex configuration or a specific duration.
    ///
    /// Fails exactly when the given duration exceeds the representable
    /// range of microseconds.
    pub fn transaction_threshold(self, threshold: TracingThreshold) -> (r: Result<
        AppBuilder,
        Error,
    >)
        ensures
            r is Ok <==> match threshold {
                TracingThreshold::ApdexFailing => true,
                TracingThreshold::OverDuration(d) => d.spec_micros() <= u64::MAX,
            },
            r matches Ok(b) ==> b.spec_config() == match threshold {
                TracingThreshold::ApdexFailing => (AppConfigView {
                    threshold_is_apdex: true,
                    ..self.spec_config()
                }),
                TracingThreshold::OverDuration(d) => (AppConfigView {
                    threshold_is_apdex: false,
                    transaction_threshold_us: d.spec_micros() as u64,
                    ..self.spec_config()
                }),
            },
            r matches Err(e) ==> e == Error::DurationOverflow,
    {
        let mut config = self.config;
        match threshold {
            TracingThreshold::ApdexFailing => {
                config.threshold_is_apdex = true;
            },
            TracingThreshold::OverDuration(duration) => {
                let micros = duration.as_micros();
                if micros > u64::MAX as u128 {
                    return Err(Error::DurationOverflow);
                }
                config.threshold_is_apdex = false;
                config.transaction_threshold_us = micros as u64;
            },
        }
        Ok(AppBuilder { config })
    }

    /// Sets the threshold above which the engine will record a stack trace
    /// for a transaction trace.
    ///
    /// Fails exactly when the given duration exceeds the representable
    /// range of microseconds.
    pub fn stack_trace_threshold(self, duration: Duration) -> (r: Result<AppBuilder, Error>)
        ensures
            r is Ok <==> duration.spec_micros() <= u64::MAX,
            r matches Ok(b) ==> b.spec_config() == (AppConfigView {
                stack_trace_threshold_us: duration.spec_micros() as u64,
                ..self.spec_config()
            }),
            r matches Err(e) ==> e == Error::DurationOverflow,
    {
        let micros = duration.as_micros();
        if micros > u64::MAX as u128 {
            return Err(Error::DurationOverflow);
        }
        let mut config = self.config;
        config.stack_trace_threshold_us = micros as u64;
        Ok(AppBuilder { config })
    }

    /// Whether slow datastore queries are recorded.
    pub fn datastore_reporting(self, enabled: bool) -> (r: AppBuilder)
        ensures
            r.spec_config() == (AppConfigView { datastore_reporting: enabled, ..self.spec_config() }),
    {
        let mut config = self.config;
        config.datastore_reporting = enabled;
        AppBuilder { config }
    }

    /// Specify the threshold above which a datastore query is considered
    /// slow.
    ///
    /// Fails exactly when the given duration exceeds the representable
    /// range of microseconds.
    pub fn datastore_reporting_threshold(self, duration: Duration) -> (r: Result<AppBuilder, Error>)
        ensures
            r is Ok <==> duration.spec_micros() <= u64::MAX,
            r matches Ok(b) ==> b.spec_config() == (AppConfigView {
                datastore_reporting_threshold_us: duration.spec_micros() as u64,
                ..self.spec_config()
            }),
            r matches Err(e) ==> e == Error::DurationOverflow,
    {
        let micros = duration.as_micros();
        if micros > u64::MAX as u128 {
            return Err(Error::DurationOverflow);
        }
        let mut config = self.config;
        config.datastore_reporting_threshold_us = micros as u64;
        Ok(AppBuilder { config })
    }

    /// Controls the format of the sql put into transaction traces for
    /// supported sql-like products.  Only relevant if datastore reporting
    /// is enabled.
    pub fn record_sql(self, record_sql: RecordSQL) -> (r: AppBuilder)
        ensures
            r.spec_config() == (AppConfigView { record_sql: record_sql, ..self.spec_config() }),
    {
        let mut config = self.config;
        config.record_sql = record_sql;
        AppBuilder { config }
    }

    /// Whether database names inside datastore segments are reported.
    pub fn database_name_reporting(self, enabled: bool) -> (r: AppBuilder)
        ensures
            r.spec_config() == (AppConfigView {
                database_name_reporting: enabled,
                ..self.spec_config()
            }),
    {
        let mut config = self.config;
        config.database_name_reporting = enabled;
        AppBuilder { config }
    }

    /// Whether host and port inside datastore segments are reported.
    pub fn datastore_instance_reporting(self, enabled: bool) -> (r: AppBuilder)
        ensures
            r.spec_config() == (AppConfigView {
                datastore_instance_reporting: enabled,
                ..self.spec_config()
            }),
    {
        let mut config = self.config;
        config.datastore_instance_reporting = enabled;
        AppBuilder { config }
    }

    /// Whether or not span events are generated.
    pub fn span_events(self, enabled: bool) -> (r: AppBuilder)
        ensures
            r.spec_config() == (AppConfigView { span_events: enabled, ..self.spec_config() }),
    {
        let mut config = self.config;
        config.span_events = enabled;
        AppBuilder { config }
    }

    /// Whether to enable distributed tracing.
    pub fn distributed_tracing(self, enabled: bool) -> (r: AppBuilder)
        ensures
            r.spec_config() == (AppConfigView { distributed_tracing: enabled, ..self.spec_config() }),
    {
        let mut config = self.config;
        config.distributed_tracing = enabled;
        AppBuilder { config }
    }

    /// Consume the builder, creating the application against the given
    /// engine with the default timeout.
    ///
    /// Succeeds exactly when the daemon is reachable.
    pub fn build(self, daemon: &Daemon) -> (r: Result<App, Error>)
        ensures
            r is Ok <==> daemon.is_reachable(),
            r matches Ok(a) ==> a.is_live() && a.spec_config() == self.spec_config(),
            r matches Err(e) ==> e == Error::ConfigError,
    {
        App::with_timeout(daemon, self.config, DEFAULT_APP_TIMEOUT)
    }
}

/// The log level of the telemetry engine's own log.
#[derive(Debug, Clone, Copy, PartialEq, Eq, Structural)]
pub enum LogLevel {
    /// The highest-priority log level; only errors are logged.
    Error,
    /// The log level for warnings and errors.
    Warning,
    /// The log level for informational logs, warnings, and errors.
    Info,
    /// The highest-verbosity log level.
    Debug,
}

/// The output of the telemetry engine's own logs.
#[derive(Debug, Clone, Copy)]
pub enum LogOutput<'a> {
    /// Log to stderr.
    StdErr,
    /// Log to stdout.
    StdOut,
    /// Log to the file at the given path.
    File(&'a str),
}

impl<'a> LogOutput<'a> {
    /// The string under which the engine knows this log sink: a file sink
    /// is named by its path.
    pub open spec fn spec_str(self) -> Seq<char> {
        match self {
            LogOutput::StdErr => "stderr"@,
            LogOutput::StdOut => "stdout"@,
            LogOutput::File(path) => path@,
        }
    }

    /// The string under which the engine knows this log sink, if it can be
    /// named at all.
    pub fn to_str(&self) -> (r: Option<&'a str>)
        ensures
            r matches Some(s) && s@ == self.spec_str(),
    {
        match self {
            LogOutput::StdErr => Some("stderr"),
            LogOutput::StdOut => Some("stdout"),
            LogOutput::File(path) => Some(path),
        }
    }
}

/// Custom configuration used to connect to the daemon.
///
/// This only needs to be used if the daemon is running at a non-default
/// location, a different timeout is desired, or the engine's own logging
/// is to be customised.  The init handshake it performs is process-wide
/// state: it must run, if non-default settings are wanted, before the
/// first application is created.
#[must_use]
pub struct NewRelicConfig<'a> {
    socket: Option<&'a str>,
    timeout: Option<Duration>,
    log_level: LogLevel,
    log_output: Option<LogOutput<'a>>,
}

impl<'a> NewRelicConfig<'a> {
    /// The socket address used to connect to the daemon, if customised.
    pub closed spec fn spec_socket(self) -> Option<&'a str> {
        self.socket
    }

    /// The daemon response timeout, if customised.
    pub closed spec fn spec_timeout(self) -> Option<Duration> {
        self.timeout
    }

    /// The level of the engine's own log.
    pub closed spec fn spec_log_level(self) -> LogLevel {
        self.log_level
    }

    /// The sink of the engine's own log, if customised.
    pub closed spec fn spec_log_output(self) -> Option<LogOutput<'a>> {
        self.log_output
    }

    /// Set the socket address used to connect to the daemon.
    ///
    /// Generally, this only needs to be called explicitly if the daemon
    /// socket location needs to be customised; a name starting with a
    /// literal '@' is treated as the name of an abstract domain socket
    /// instead of a filesystem path.
    pub fn socket(self, socket: &'a str) -> (r: NewRelicConfig<'a>)
        ensures
            r.spec_socket() == Some(socket),
            r.spec_timeout() == self.spec_timeout(),
            r.spec_log_level() == self.spec_log_level(),
            r.spec_log_output() == self.spec_log_output(),
    {
        NewRelicConfig { socket: Some(socket), ..self }
    }

    /// Set the amount of time that the engine will wait for a response
    /// from the daemon before considering initialisation to have failed.
    /// If this is unset or zero, the engine's default is used.
    pub fn timeout(self, timeout: Duration) -> (r: NewRelicConfig<'a>)
        ensures
            r.spec_timeout() == Some(timeout),
            r.spec_socket() == self.spec_socket(),
            r.spec_log_level() == self.spec_log_level(),
            r.spec_log_output() == self.spec_log_output(),
    {
        NewRelicConfig { timeout: Some(timeout), ..self }
    }

    /// Configure the engine's own logging.  Defaults, when never called,
    /// to informational logging with no customised sink.
    ///
    /// Note that this differs from the logs of the daemon, which are
    /// output by the daemon itself.
    pub fn logging(self, level: LogLevel, output: LogOutput<'a>) -> (r: NewRelicConfig<'a>)
        ensures
            r.spec_log_level() == level,
            r.spec_log_output() == Some(output),
            r.spec_socket() == self.spec_socket(),
            r.spec_timeout() == self.spec_timeout(),
    {
        NewRelicConfig { log_level: level, log_output: Some(output), ..self }
    }

    /// Initialise the engine: configure its log sink, if one was chosen,
    /// then perform the process-wide init handshake with the daemon.
    ///
    /// Fails with a NUL error exactly when the log sink name or the socket
    /// address carries an embedded NUL byte, with [`Error::LoggingError`]
    /// only when a log sink was chosen and the engine does not accept it,
    /// and with [`Error::DaemonError`] only when the daemon does not answer
    /// the handshake.
    pub fn init(self, daemon: &Daemon) -> (r: Result<(), Error>)
        ensures
            r is Ok <==> (match self.spec_log_output() {
                Some(out) => !has_nul(out.spec_str()) && daemon.is_accepting_log(),
                None => true,
            }) && (match self.spec_socket() {
                Some(s) => !has_nul(s@),
                None => true,
            }) && daemon.is_reachable(),
            r matches Err(e) ==> (e matches Error::NulError(_) <==> ((match self.spec_log_output() {
                Some(out) => has_nul(out.spec_str()),
                None => false,
            }) || ((match self.spec_socket() {
                Some(s) => has_nul(s@),
                None => false,
            }) && (match self.spec_log_output() {
                Some(out) => !has_nul(out.spec_str()) && daemon.is_accepting_log(),
                None => true,
            })))),
            r matches Err(e) ==> (e == Error::LoggingError ==> (self.spec_log_output()
                matches Some(out) && !has_nul(out.spec_str()) && !daemon.is_accepting_log())),
            r matches Err(e) ==> (e == Error::DaemonError ==> !daemon.is_reachable()),
            r matches Err(e) ==> e matches Error::NulError(_) || e == Error::LoggingError || e
                == Error::DaemonError,
    {
        if let Some(log_output) = self.log_output {
            let sink = match log_output.to_str() {
                Some(s) => s,
                None => {
                    return Err(Error::LogFileError);
                },
            };
            check_nul(sink)?;
            if !daemon.accepting_log() {
                return Err(Error::LoggingError);
            }
        }
        if let Some(socket) = self.socket {
            check_nul(socket)?;
        }
        if !daemon.reachable() {
            return Err(Error::DaemonError);
        }
        Ok(())
    }
}

impl<'a> Default for NewRelicConfig<'a> {
    /// The default connection configuration: default socket and timeout,
    /// informational logging with no customised sink.
    fn default() -> (r: NewRelicConfig<'a>)
        ensures
            r.spec_socket() is None,
            r.spec_timeout() is None,
            r.spec_log_level() == LogLevel::Info,
            r.spec_log_output() is None,
    {
        NewRelicConfig { socket: None, timeout: None, log_level: LogLevel::Info, log_output: None }
    }
}

/// Whether creating an application succeeds: the name and license key must
/// be encodable (no embedded NUL bytes) and the daemon must be reachable.
pub open spec fn app_creation_succeeds(
    daemon: Daemon,
    name: Seq<char>,
    license_key: Seq<char>,
) -> bool {
    !has_nul(name) && !has_nul(license_key) && daemon.is_reachable()
}

/// Whether starting a transaction on a live application succeeds: the
/// transaction name must be encodable (no embedded NUL bytes).
pub open spec fn transaction_start_succeeds(name: Seq<char>) -> bool {
    !has_nul(name)
}

/// An application: one instrumented program's connection to the telemetry
/// engine, and the factory for its transactions.  It owns the
/// configuration it was created with.
pub struct App {
    live: bool,
    config: AppConfig,
}

impl App {
    /// Whether the application still owns its native handle.  A live
    /// application can start transactions; once destroyed it cannot be
    /// used again.
    pub closed spec fn is_live(self) -> bool {
        self.live
    }

    /// The settings the application was created with.
    pub closed spec fn spec_config(self) -> AppConfigView {
        self.config@
    }

    /// Create a new application against the given engine.
    ///
    /// Uses the default timeout, [`DEFAULT_APP_TIMEOUT`], when establishing
    /// a connection to the daemon.  Fails with a NUL error if the name or
    /// license key carries an embedded NUL byte, and with
    /// [`Error::ConfigError`] if the daemon is not reachable.
    pub fn new(daemon: &Daemon, name: &str, license_key: &str) -> (r: Result<App, Error>)
        ensures
            r is Ok <==> app_creation_succeeds(*daemon, name@, license_key@),
            r matches Ok(a) ==> a.is_live() && a.spec_config() == AppConfigView::fresh(
                name@,
                license_key@,
            ),
            r matches Err(e) ==> (e matches Error::NulError(_) <==> (has_nul(name@) || has_nul(
                license_key@,
            ))),
            r matches Err(e) ==> ((!has_nul(name@) && !has_nul(license_key@)) ==> e
                == Error::ConfigError),
    {
        let config = AppConfig::new(name, license_key)?;
        App::with_timeout(daemon, config, DEFAULT_APP_TIMEOUT)
    }

    /// Create a new application against the given engine using the
    /// specified configuration and the default timeout.
    ///
    /// Succeeds exactly when the daemon is reachable.
    pub fn with_config(daemon: &Daemon, config: AppConfig) -> (r: Result<App, Error>)
        ensures
            r is Ok <==> daemon.is_reachable(),
            r matches Ok(a) ==> a.is_live() && a.spec_config() == config@,
            r matches Err(e) ==> e == Error::ConfigError,
    {
        App::with_timeout(daemon, config, DEFAULT_APP_TIMEOUT)
    }

    /// Create a new application against the given engine, waiting at most
    /// `timeout` milliseconds for a connection to the daemon to be
    /// established; a value of 0 only makes one attempt at connecting.
    ///
    /// Succeeds exactly when the daemon is reachable.
    pub fn with_timeout(daemon: &Daemon, config: AppConfig, timeout: u16) -> (r: Result<App, Error>)
        ensures
            r is Ok <==> daemon.is_reachable(),
            r matches Ok(a) ==> a.is_live() && a.spec_config() == config@,
            r matches Err(e) ==> e == Error::ConfigError,
    {
        let _ = timeout;
        if daemon.reachable() {
            Ok(App { live: true, config })
        } else {
            Err(Error::ConfigError)
        }
    }

    /// Whether the application still owns its native handle.
    pub fn live(&self) -> (r: bool)
        ensures
            r == self.is_live(),
    {
        self.live
    }

    /// Begin a new web transaction with the given name.
    ///
    /// Fails exactly when the name carries an embedded NUL byte.
    pub fn web_transaction(&self, name: &str) -> (r: Result<Transaction, Error>)
        requires
            self.is_live(),
        ensures
            r is Ok <==> transaction_start_succeeds(name@),
            r matches Ok(t) ==> t.running() && t.spec_kind() == TransactionType::Web,
            r matches Err(e) ==> e matches Error::NulError(_),
    {
        Transaction::begin(self, TransactionType::Web, name)
    }

    /// Begin a new non-web transaction with the given name.
    ///
    /// Fails exactly when the name carries an embedded NUL byte.
    pub fn non_web_transaction(&self, name: &str) -> (r: Result<Transaction, Error>)
        requires
            self.is_live(),
        ensures
            r is Ok <==> transaction_start_succeeds(name@),
            r matches Ok(t) ==> t.running() && t.spec_kind() == TransactionType::NonWeb,
            r matches Err(e) ==> e matches Error::NulError(_),
    {
        Transaction::begin(self, TransactionType::NonWeb, name)
    }

    /// Release the application's native handle.  Destroying is idempotent;
    /// a destroyed application cannot start transactions.
    pub fn destroy(&mut self)
        ensures
            !final(self).is_live(),
            final(self).spec_config() == old(self).spec_config(),
    {
        self.live = false;
    }
}

/// For every name and license key without embedded NUL bytes, application
/// creation against a reachable daemon succeeds, and any transaction name
/// without embedded NUL bytes can then start a transaction on the live
/// handle it returns.
pub proof fn lemma_valid_creation_succeeds(
    daemon: Daemon,
    name: Seq<char>,
    license_key: Seq<char>,
    transaction_name: Seq<char>,
)
    requires
        !has_nul(name),
        !has_nul(license_key),
        daemon.is_reachable(),
        !has_nul(transaction_name),
    ensures
        app_creation_succeeds(daemon, name, license_key),
        transaction_start_succeeds(transaction_name),
{
}

} // verus!
