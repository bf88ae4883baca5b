//! The closed set of failure kinds surfaced by every fallible operation.

use vstd::prelude::*;

verus! {

/// An error caused by the telemetry layer.
///
/// The error message is provided by this library, since the native SDK does
/// not pass error messages back to callers.  Configure the SDK log level and
/// output for greater detail.
#[derive(Debug, Clone, Copy, PartialEq, Eq, Structural)]
pub enum Error {
    /// There was an error setting an attribute on a transaction or event.
    AttributeError,
    /// There was an error configuring the application.
    ///
    /// This is likely due to an invalid license key or an unreachable
    /// daemon; check the SDK logs for more details.
    ConfigError,
    /// The custom metric could not be recorded.
    CustomMetricError,
    /// There was an error connecting to the daemon.
    DaemonError,
    /// The transaction could not be ignored.
    IgnoreError,
    /// The provided log file path contained non-unicode characters.
    LogFileError,
    /// The SDK returned an error when attempting to configure logging.
    LoggingError,
    /// The segment could not be started.
    SegmentStartError,
    /// The transaction could not be started.
    TransactionStartError,
    /// A duration exceeded the representable range of microseconds.
    DurationOverflow,
    /// A string parameter contained a NUL byte at the given character
    /// position and could not be converted to a C string.
    NulError(usize),
}

impl Error {
    /// A human-readable description of the error.
    pub fn message(&self) -> (r: &'static str)
        ensures
            r@ == self.message_spec(),
    {
        match self {
            Error::AttributeError => "Error setting attribute; check New Relic logs for details",
            Error::ConfigError => "Error configuring New Relic app; check New Relic logs for details",
            Error::CustomMetricError => "Error recording custom metric; check New Relic logs for details",
            Error::DaemonError => "Error connecting to New Relic daemon; check New Relic logs for details",
            Error::IgnoreError => "Error ignoring transaction; check New Relic logs for details",
            Error::LogFileError => "Invalid log file (must be valid Unicode)",
            Error::LoggingError => "Error configuring logging; check New Relic logs for details",
            Error::SegmentStartError => "Error starting segment; check New Relic logs for details",
            Error::TransactionStartError => "Error starting transaction; check New Relic logs for details",
            Error::DurationOverflow => "Duration exceeds the representable range of microseconds",
            Error::NulError(_) => "String contains an interior NUL byte",
        }
    }

    /// The message belonging to each error kind.
    pub open spec fn message_spec(self) -> Seq<char> {
        match self {
            Error::AttributeError => "Error setting attribute; check New Relic logs for details"@,
            Error::ConfigError => "Error configuring New Relic app; check New Relic logs for details"@,
            Error::CustomMetricError => "Error recording custom metric; check New Relic logs for details"@,
            Error::DaemonError => "Error connecting to New Relic daemon; check New Relic logs for details"@,
            Error::IgnoreError => "Error ignoring transaction; check New Relic logs for details"@,
            Error::LogFileError => "Invalid log file (must be valid Unicode)"@,
            Error::LoggingError => "Error configuring logging; check New Relic logs for details"@,
            Error::SegmentStartError => "Error starting segment; check New Relic logs for details"@,
            Error::TransactionStartError => "Error starting transaction; check New Relic logs for details"@,
            Error::DurationOverflow => "Duration exceeds the representable range of microseconds"@,
            Error::NulError(_) => "String contains an interior NUL byte"@,
        }
    }
}

} // verus!
