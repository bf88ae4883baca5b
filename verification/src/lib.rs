//! A verified model of a telemetry instrumentation layer over the New Relic
//! C SDK.
//!
//! The crate models the handle-lifecycle and nesting state machine for
//! applications, transactions, segments and custom events.  The native
//! telemetry engine itself (metric aggregation, transport to the collector
//! daemon) is an external collaborator: its observable responses enter the
//! model as plain values (see [`daemon::Daemon`]), and the verified types
//! decide, for every response, which state transition happens and which
//! result is returned.

pub mod app;
pub mod daemon;
pub mod duration;
pub mod error;
pub mod event;
pub mod futures;
pub mod segment;
pub mod transaction;

pub use app::{
    App, AppBuilder, AppConfig, LogLevel, LogOutput, NewRelicConfig, RecordSQL, TracingThreshold,
};
pub use daemon::Daemon;
pub use duration::Duration;
pub use error::Error;
pub use event::CustomEvent;
pub use futures::{OptionalTransaction, Segmented, SegmentedFuture};
pub use segment::{
    Datastore, DatastoreParams, DatastoreParamsBuilder, ExternalParams, ExternalParamsBuilder,
    ReferencingSegment, Segment, SegmentPointer, TransactionHolder,
};
pub use transaction::{Attribute, Transaction, TransactionType};

use vstd::prelude::*;
use vstd::string::StrSliceExecFns;

verus! {

/// True when the character sequence contains an embedded NUL character,
/// which cannot be encoded into a NUL-terminated C string.
pub open spec fn has_nul(s: Seq<char>) -> bool {
    exists|i: int| 0 <= i < s.len() && s[i] == '\0'
}

/// Scan a string for an embedded NUL character, returning the position of
/// the first one found.  This is the check a C-string conversion performs.
pub fn find_nul(s: &str) -> (r: Option<usize>)
    ensures
        r is Some <==> has_nul(s@),
        r matches Some(i) ==> 0 <= i < s@.len() && s@[i as int] == '\0' && forall|j: int|
            0 <= j < i ==> s@[j] != '\0',
{
    let n = s.unicode_len();
    let mut i: usize = 0;
    while i < n
        invariant
            0 <= i <= n,
            n == s@.len(),
            forall|j: int| 0 <= j < i ==> s@[j] != '\0',
        decreases n - i,
    {
        if s.get_char(i) == '\0' {
            return Some(i);
        }
        i += 1;
    }
    None
}

/// Validate a caller-supplied string: it must carry no embedded NUL byte.
/// Returns the error every fallible operation surfaces for such a string.
pub fn check_nul(s: &str) -> (r: Result<(), Error>)
    ensures
        r is Ok <==> !has_nul(s@),
        r matches Err(e) ==> e matches Error::NulError(i) && s@[i as int] == '\0' && forall|j: int|
            0 <= j < i ==> s@[j] != '\0',
{
    match find_nul(s) {
        Some(i) => Err(Error::NulError(i)),
        None => Ok(()),
    }
}

} // verus!
