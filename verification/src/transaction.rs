//! Transactions: one monitored unit of work, web or non-web.
//!
//! A transaction wraps one native handle together with a kind tag and a
//! two-state lifecycle flag.  Once ended, no further native operation is
//! issued against the handle, and ending again is a no-op.

use vstd::prelude::*;

use crate::app::App;
use crate::check_nul;
use crate::duration::Duration;
use crate::error::Error;
use crate::event::CustomEvent;
use crate::has_nul;
use crate::segment::{
    custom_start_ok, segment_handoff, DatastoreParams, ExternalParams, Segment,
};

verus! {

/// A kind of transaction monitored by the telemetry engine.
#[derive(Debug, Clone, Copy, PartialEq, Eq, Structural)]
pub enum TransactionType {
    /// A web transaction.
    Web,
    /// A non-web transaction.
    NonWeb,
}

/// An attribute value to attach to a transaction or custom event.
#[derive(Debug)]
pub enum Attribute {
    /// A short (32-bit signed) integer attribute.
    Int(i32),
    /// A long (64-bit signed) integer attribute.
    Long(i64),
    /// A double-precision floating-point attribute, held as its raw
    /// bit pattern (the value `f` is written `f.to_bits()`).
    Float(u64),
    /// A string attribute.
    Str(String),
}

/// True when the attribute carries a string with an embedded NUL character.
pub open spec fn attribute_has_nul(a: Attribute) -> bool {
    match a {
        Attribute::Str(s) => has_nul(s@),
        _ => false,
    }
}

#[derive(Debug, Clone, Copy, PartialEq, Eq, Structural)]
enum State {
    Running,
    Ended,
}

/// A transaction monitored by the telemetry engine.
///
/// The transaction is created running and ends exactly once: either through
/// [`Transaction::end`], which is idempotent, or when the caller is done
/// with it.  After it has ended, every operation on it is a defined no-op
/// or error, and no further native call is issued against its handle.
#[derive(Debug)]
pub struct Transaction {
    kind: TransactionType,
    state: State,
}

impl Transaction {
    /// Whether the transaction is still running (its native handle is live).
    pub closed spec fn running(self) -> bool {
        self.state is Running
    }

    /// The kind of the transaction.
    pub closed spec fn spec_kind(self) -> TransactionType {
        self.kind
    }

    /// The transaction after its end transition: same kind, ended.
    pub closed spec fn spec_end(self) -> Transaction {
        Transaction { state: State::Ended, ..self }
    }

    pub(crate) fn begin(app: &App, kind: TransactionType, name: &str) -> (r: Result<
        Transaction,
        Error,
    >)
        requires
            app.is_live(),
        ensures
            r is Ok <==> !has_nul(name@),
            r matches Ok(t) ==> t.running() && t.spec_kind() == kind,
            r matches Err(e) ==> e matches Error::NulError(_),
    {
        check_nul(name)?;
        Ok(Transaction { kind, state: State::Running })
    }

    /// Whether the transaction is still running.
    pub fn is_running(&self) -> (r: bool)
        ensures
            r == self.running(),
    {
        matches!(self.state, State::Running)
    }

    /// Get the kind of the transaction.
    pub fn kind(&self) -> (r: &TransactionType)
        ensures
            *r == self.spec_kind(),
    {
        &self.kind
    }

    /// Add an attribute to the transaction.
    ///
    /// Fails with a NUL error if the name or a string value carries an
    /// embedded NUL byte, and with [`Error::AttributeError`] if the
    /// transaction has already ended (the native layer accepts attributes
    /// only on a running transaction).
    pub fn add_attribute(&self, name: &str, attribute: &Attribute) -> (r: Result<(), Error>)
        ensures
            r is Ok <==> self.running() && !has_nul(name@) && !attribute_has_nul(*attribute),
            r matches Err(e) ==> (e matches Error::NulError(_) <==> (has_nul(name@)
                || attribute_has_nul(*attribute))),
            r matches Err(e) ==> ((!has_nul(name@) && !attribute_has_nul(*attribute)) ==> e
                == Error::AttributeError),
    {
        check_nul(name)?;
        if let Attribute::Str(s) = attribute {
            check_nul(s.as_str())?;
        }
        if !self.is_running() {
            return Err(Error::AttributeError);
        }
        Ok(())
    }

    /// Create a custom segment scoped to `func`: the segment is handed to
    /// `func` and lives only for that call, whatever its exit path; the
    /// result of `func` is forwarded.
    ///
    /// Segment creation failure does not prevent `func` from running: on
    /// failure (an embedded NUL byte, or a transaction that has already
    /// ended) `func` receives a no-op segment instead.
    pub fn custom_segment<'a, F, V>(&'a self, name: &str, category: &str, func: F) -> (r: V) where
        F: FnOnce(Segment<'a>) -> V,

        requires
            forall|s: Segment<'a>|
                segment_handoff(s, custom_start_ok(*self, name@, category@), *self)
                    ==> call_requires(func, (s,)),
        ensures
            exists|s: Segment<'a>|
                segment_handoff(s, custom_start_ok(*self, name@, category@), *self)
                    && call_ensures(func, (s,), r),
    {
        let segment = Segment::custom(self, name, category);
        func(segment)
    }

    /// Create a datastore segment scoped to `func`: the segment is handed
    /// to `func` and lives only for that call, whatever its exit path; the
    /// result of `func` is forwarded.
    ///
    /// Segment creation failure does not prevent `func` from running: on a
    /// transaction that has already ended, `func` receives a no-op segment
    /// instead.
    pub fn datastore_segment<'a, F, V>(&'a self, params: &DatastoreParams, func: F) -> (r: V) where
        F: FnOnce(Segment<'a>) -> V,

        requires
            forall|s: Segment<'a>|
                segment_handoff(s, self.running(), *self) ==> call_requires(func, (s,)),
        ensures
            exists|s: Segment<'a>|
                segment_handoff(s, self.running(), *self) && call_ensures(func, (s,), r),
    {
        let segment = Segment::datastore(self, params);
        func(segment)
    }

    /// Create an external segment scoped to `func`: the segment is handed
    /// to `func` and lives only for that call, whatever its exit path; the
    /// result of `func` is forwarded.
    ///
    /// Segment creation failure does not prevent `func` from running: on a
    /// transaction that has already ended, `func` receives a no-op segment
    /// instead.
    pub fn external_segment<'a, F, V>(&'a self, params: &ExternalParams, func: F) -> (r: V) where
        F: FnOnce(Segment<'a>) -> V,

        requires
            forall|s: Segment<'a>|
                segment_handoff(s, self.running(), *self) ==> call_requires(func, (s,)),
        ensures
            exists|s: Segment<'a>|
                segment_handoff(s, self.running(), *self) && call_ensures(func, (s,), r),
    {
        let segment = Segment::external(self, params);
        func(segment)
    }

    /// Record an error in this transaction.
    ///
    /// `priority` is an arbitrary integer indicating the error priority;
    /// any value is accepted.  `message` is the error message and `class`
    /// the error class or type; the call fails exactly when one of them
    /// carries an embedded NUL byte.  On a transaction that has already
    /// ended the call succeeds but nothing is reported.
    pub fn notice_error(&self, priority: i32, message: &str, class: &str) -> (r: Result<(), Error>)
        ensures
            r is Ok <==> !has_nul(message@) && !has_nul(class@),
            r matches Err(e) ==> e matches Error::NulError(_),
    {
        let _ = priority;
        check_nul(message)?;
        check_nul(class)?;
        Ok(())
    }

    /// Ignore this transaction: data for it will not be sent to the
    /// collector.  Fails with [`Error::IgnoreError`] if the transaction has
    /// already ended.
    pub fn ignore(&self) -> (r: Result<(), Error>)
        ensures
            r is Ok <==> self.running(),
            r matches Err(e) ==> e == Error::IgnoreError,
    {
        if self.is_running() {
            Ok(())
        } else {
            Err(Error::IgnoreError)
        }
    }

    /// Record a custom metric for this transaction, named `metric_name`,
    /// of the given duration.
    ///
    /// Fails with a NUL error if the name carries an embedded NUL byte, and
    /// with [`Error::CustomMetricError`] if the transaction has already
    /// ended.
    pub fn record_custom_metric(&self, metric_name: &str, duration: Duration) -> (r: Result<
        (),
        Error,
    >)
        ensures
            r is Ok <==> self.running() && !has_nul(metric_name@),
            r matches Err(e) ==> (e matches Error::NulError(_) <==> has_nul(metric_name@)),
            r matches Err(e) ==> (!has_nul(metric_name@) ==> e == Error::CustomMetricError),
    {
        let _ = duration;
        check_nul(metric_name)?;
        if self.is_running() {
            Ok(())
        } else {
            Err(Error::CustomMetricError)
        }
    }

    /// Create a custom event attached to this transaction.
    ///
    /// Fails exactly when the event type carries an embedded NUL byte.
    pub fn custom_event<'a>(&'a self, event_type: &str) -> (r: Result<CustomEvent<'a>, Error>)
        ensures
            r is Ok <==> !has_nul(event_type@),
            r matches Ok(e) ==> e.spec_transaction() == *self,
            r matches Err(e) ==> e matches Error::NulError(_),
    {
        CustomEvent::new(self, event_type)
    }

    /// Explicitly end this transaction.
    ///
    /// Ending is idempotent: on a transaction that has already ended this
    /// is a no-op, and no native call is issued.
    pub fn end(&mut self)
        ensures
            *final(self) == old(self).spec_end(),
    {
        if let State::Running = self.state {
            self.state = State::Ended;
        }
    }
}

/// Ending a transaction is idempotent: the end transition maps an already
/// ended transaction to itself, so ending twice is equivalent to ending
/// once.
pub proof fn lemma_end_idempotent(t: Transaction)
    ensures
        t.spec_end().spec_end() == t.spec_end(),
        !t.running() ==> t.spec_end() == t,
        t.spec_end().spec_kind() == t.spec_kind(),
        !t.spec_end().running(),
{
}

} // verus!
