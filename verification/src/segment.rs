//! Segments: sub-spans of work nested within a transaction, and the
//! validated parameter objects used to start datastore and external
//! segments.
//!
//! Segment creation can fail softly: a segment whose creation failed
//! carries no live native handle, and every operation on it degrades to a
//! no-op, so that instrumentation trouble never aborts the business logic
//! around it.  The strict variants ([`SegmentPointer`] and
//! [`ReferencingSegment`]) surface creation failure as an explicit error
//! instead; the two policies are two entry points over the same state
//! machine.

use std::sync::Arc;

use vstd::prelude::*;

use crate::check_nul;
use crate::error::Error;
use crate::has_nul;
use crate::transaction::Transaction;

verus! {

/// Whether starting a custom segment succeeds: the owning transaction must
/// still be running and the name and category must be encodable (no
/// embedded NUL bytes).
pub open spec fn custom_start_ok(txn: Transaction, name: Seq<char>, category: Seq<char>) -> bool {
    txn.running() && !has_nul(name) && !has_nul(category)
}

/// A segment handle without a reference to its parent transaction: every
/// method takes the parent.  This allows any container able to provide a
/// transaction reference, such as a shared-ownership wrapper, to wrap this
/// and act as a segment.
///
/// As this lacks a parent transaction, the wrapping container is
/// responsible for ending the pointer.  This is the strict entry point of
/// the segment state machine: creation failure surfaces as an error.
pub struct SegmentPointer {
    live: bool,
}

impl SegmentPointer {
    /// Whether the pointer owns a live native segment handle.  A live
    /// pointer must be ended exactly once; [`SegmentPointer::end`] clears
    /// it so no double end can occur.
    pub closed spec fn is_live(self) -> bool {
        self.live
    }

    /// Whether the pointer owns a live native segment handle.
    pub fn live(&self) -> (r: bool)
        ensures
            r == self.is_live(),
    {
        self.live
    }

    /// Start a custom segment under the given transaction.
    ///
    /// Fails with [`Error::SegmentStartError`] exactly when the name or
    /// category carries an embedded NUL byte or the transaction is no
    /// longer running (the native layer rejects a segment start on an
    /// invalid transaction).
    pub fn custom(transaction: &Transaction, name: &str, category: &str) -> (r: Result<
        SegmentPointer,
        Error,
    >)
        ensures
            r is Ok <==> custom_start_ok(*transaction, name@, category@),
            r matches Ok(s) ==> s.is_live(),
            r matches Err(e) ==> e == Error::SegmentStartError,
    {
        if find_nul_pair(name, category) {
            return Err(Error::SegmentStartError);
        }
        if !transaction.is_running() {
            return Err(Error::SegmentStartError);
        }
        Ok(SegmentPointer { live: true })
    }

    /// Start a datastore segment under the given transaction.
    ///
    /// The parameters were validated when they were built, so this fails
    /// exactly when the transaction is no longer running.
    pub fn datastore(transaction: &Transaction, params: &DatastoreParams) -> (r: Result<
        SegmentPointer,
        Error,
    >)
        ensures
            r is Ok <==> transaction.running(),
            r matches Ok(s) ==> s.is_live(),
            r matches Err(e) ==> e == Error::SegmentStartError,
    {
        let _ = params;
        if !transaction.is_running() {
            return Err(Error::SegmentStartError);
        }
        Ok(SegmentPointer { live: true })
    }

    /// Start an external segment under the given transaction.
    ///
    /// The parameters were validated when they were built, so this fails
    /// exactly when the transaction is no longer running.
    pub fn external(transaction: &Transaction, params: &ExternalParams) -> (r: Result<
        SegmentPointer,
        Error,
    >)
        ensures
            r is Ok <==> transaction.running(),
            r matches Ok(s) ==> s.is_live(),
            r matches Err(e) ==> e == Error::SegmentStartError,
    {
        let _ = params;
        if !transaction.is_running() {
            return Err(Error::SegmentStartError);
        }
        Ok(SegmentPointer { live: true })
    }

    /// Start a custom segment nested under this one, in the given
    /// transaction.
    ///
    /// The parent link is recorded once, at creation, and cannot be altered
    /// afterwards.  Fails when this segment carries no live handle, and
    /// otherwise exactly as [`SegmentPointer::custom`] does.
    pub fn custom_nested(&self, transaction: &Transaction, name: &str, category: &str) -> (r:
        Result<SegmentPointer, Error>)
        ensures
            r is Ok <==> self.is_live() && custom_start_ok(*transaction, name@, category@),
            r matches Ok(s) ==> s.is_live(),
            r matches Err(e) ==> e == Error::SegmentStartError,
    {
        if !self.live {
            return Err(Error::SegmentStartError);
        }
        SegmentPointer::custom(transaction, name, category)
    }

    /// Start a datastore segment nested under this one, in the given
    /// transaction.
    ///
    /// Fails when this segment carries no live handle, and otherwise
    /// exactly as [`SegmentPointer::datastore`] does.
    pub fn datastore_nested(&self, transaction: &Transaction, params: &DatastoreParams) -> (r:
        Result<SegmentPointer, Error>)
        ensures
            r is Ok <==> self.is_live() && transaction.running(),
            r matches Ok(s) ==> s.is_live(),
            r matches Err(e) ==> e == Error::SegmentStartError,
    {
        if !self.live {
            return Err(Error::SegmentStartError);
        }
        SegmentPointer::datastore(transaction, params)
    }

    /// Start an external segment nested under this one, in the given
    /// transaction.
    ///
    /// Fails when this segment carries no live handle, and otherwise
    /// exactly as [`SegmentPointer::external`] does.
    pub fn external_nested(&self, transaction: &Transaction, params: &ExternalParams) -> (r: Result<
        SegmentPointer,
        Error,
    >)
        ensures
            r is Ok <==> self.is_live() && transaction.running(),
            r matches Ok(s) ==> s.is_live(),
            r matches Err(e) ==> e == Error::SegmentStartError,
    {
        if !self.live {
            return Err(Error::SegmentStartError);
        }
        SegmentPointer::external(transaction, params)
    }

    /// Create a distributed trace payload for this segment: an encoded
    /// string carrying the trace linkage metadata, copied into
    /// caller-owned memory.
    ///
    /// A payload exists exactly when the segment holds a live handle and
    /// the transaction is still active; what the payload encodes is
    /// supplied by the engine and not modelled here.
    pub fn distributed_trace(&self, transaction: &Transaction) -> (r: Option<String>)
        ensures
            r is Some <==> self.is_live() && transaction.running(),
    {
        if self.live && transaction.is_running() {
            Some(String::new())
        } else {
            None
        }
    }

    /// End this segment under the given transaction.
    ///
    /// Ending is idempotent: the native handle, if live, is ended and then
    /// cleared, so no double end can occur.
    pub fn end(&mut self, transaction: &Transaction)
        ensures
            !final(self).is_live(),
    {
        let _ = transaction;
        if self.live {
            self.live = false;
        }
    }
}

/// Check both strings a custom segment start encodes, reporting whether
/// either carries an embedded NUL byte.
fn find_nul_pair(name: &str, category: &str) -> (r: bool)
    ensures
        r == (has_nul(name@) || has_nul(category@)),
{
    let name_bad = matches!(crate::find_nul(name), Some(_));
    let category_bad = matches!(crate::find_nul(category), Some(_));
    name_bad || category_bad
}

/// A capability for reaching one transaction: anything that can hand out a
/// reference to the transaction it holds and duplicate itself while still
/// referring to the same transaction.  Implemented for plain borrows and
/// for shared-ownership wrappers; callers may implement it for containers
/// of their own.
pub trait TransactionHolder: Sized {
    /// The transaction the holder refers to.
    spec fn spec_txn(&self) -> Transaction;

    /// Borrow the held transaction.
    fn transaction(&self) -> (r: &Transaction)
        ensures
            *r == self.spec_txn(),
    ;

    /// Duplicate the holder; the duplicate refers to the same transaction.
    fn duplicate(&self) -> (r: Self)
        ensures
            r.spec_txn() == self.spec_txn(),
    ;
}

impl<'t> TransactionHolder for &'t Transaction {
    open spec fn spec_txn(&self) -> Transaction {
        **self
    }

    fn transaction(&self) -> (r: &Transaction) {
        *self
    }

    fn duplicate(&self) -> (r: Self) {
        *self
    }
}

/// Relies on `Arc::clone`: the returned handle is a new reference to the
/// same heap value, so it carries the same transaction.
#[verifier::external_body]
fn arc_clone(arc: &Arc<Transaction>) -> (r: Arc<Transaction>)
    ensures
        r == *arc,
{
    Arc::clone(arc)
}

impl TransactionHolder for Arc<Transaction> {
    open spec fn spec_txn(&self) -> Transaction {
        **self
    }

    fn transaction(&self) -> (r: &Transaction) {
        &**self
    }

    fn duplicate(&self) -> (r: Self) {
        arc_clone(self)
    }
}

/// A segment holding a reference to its transaction through any
/// [`TransactionHolder`].
///
/// Use segments to instrument transactions with greater granularity.  This
/// is the strict entry point: creation failure surfaces as an error.
/// Segments can be nested by calling the various `_nested` methods on an
/// existing segment.
pub struct ReferencingSegment<T: TransactionHolder> {
    transaction: T,
    segment_pointer: SegmentPointer,
}

impl<T: TransactionHolder> ReferencingSegment<T> {
    /// Whether the segment owns a live native handle.
    pub closed spec fn is_live(self) -> bool {
        self.segment_pointer.is_live()
    }

    /// The transaction the segment belongs to.
    pub closed spec fn spec_txn(self) -> Transaction {
        self.transaction.spec_txn()
    }

    /// Whether the segment owns a live native handle.
    pub fn live(&self) -> (r: bool)
        ensures
            r == self.is_live(),
    {
        self.segment_pointer.live()
    }

    /// Start a custom segment within the given transaction.
    ///
    /// Fails with [`Error::SegmentStartError`] exactly when the name or
    /// category carries an embedded NUL byte or the transaction is no
    /// longer running.
    pub fn custom(transaction: T, name: &str, category: &str) -> (r: Result<
        ReferencingSegment<T>,
        Error,
    >)
        ensures
            r is Ok <==> custom_start_ok(transaction.spec_txn(), name@, category@),
            r matches Ok(s) ==> s.is_live() && s.spec_txn() == transaction.spec_txn(),
            r matches Err(e) ==> e == Error::SegmentStartError,
    {
        let segment_pointer = SegmentPointer::custom(transaction.transaction(), name, category)?;
        Ok(ReferencingSegment { transaction, segment_pointer })
    }

    /// Start a datastore segment within the given transaction.
    ///
    /// Fails exactly when the transaction is no longer running.
    pub fn datastore(transaction: T, params: &DatastoreParams) -> (r: Result<
        ReferencingSegment<T>,
        Error,
    >)
        ensures
            r is Ok <==> transaction.spec_txn().running(),
            r matches Ok(s) ==> s.is_live() && s.spec_txn() == transaction.spec_txn(),
            r matches Err(e) ==> e == Error::SegmentStartError,
    {
        let segment_pointer = SegmentPointer::datastore(transaction.transaction(), params)?;
        Ok(ReferencingSegment { transaction, segment_pointer })
    }

    /// Start an external segment within the given transaction.
    ///
    /// Fails exactly when the transaction is no longer running.
    pub fn external(transaction: T, params: &ExternalParams) -> (r: Result<
        ReferencingSegment<T>,
        Error,
    >)
        ensures
            r is Ok <==> transaction.spec_txn().running(),
            r matches Ok(s) ==> s.is_live() && s.spec_txn() == transaction.spec_txn(),
            r matches Err(e) ==> e == Error::SegmentStartError,
    {
        let segment_pointer = SegmentPointer::external(transaction.transaction(), params)?;
        Ok(ReferencingSegment { transaction, segment_pointer })
    }

    /// Create a custom segment nested within this one and hand it to
    /// `func`; the segment lives only for that call, and the result of
    /// `func` is forwarded.
    ///
    /// Fails, without running `func`, exactly when the nested creation
    /// fails: see [`ReferencingSegment::create_custom_nested`].
    pub fn custom_nested<F, V>(&self, name: &str, category: &str, func: F) -> (r: Result<V, Error>)
        where F: FnOnce(ReferencingSegment<T>) -> V,
        requires
            forall|s: ReferencingSegment<T>|
                (s.is_live() && s.spec_txn() == self.spec_txn()) ==> call_requires(func, (s,)),
        ensures
            r is Ok <==> self.is_live() && custom_start_ok(self.spec_txn(), name@, category@),
            r matches Ok(v) ==> exists|s: ReferencingSegment<T>|
                s.is_live() && s.spec_txn() == self.spec_txn() && call_ensures(func, (s,), v),
            r matches Err(e) ==> e == Error::SegmentStartError,
    {
        Ok(func(self.create_custom_nested(name, category)?))
    }

    /// Create a datastore segment nested within this one and hand it to
    /// `func`; the segment lives only for that call, and the result of
    /// `func` is forwarded.
    ///
    /// Fails, without running `func`, exactly when the nested creation
    /// fails: see [`ReferencingSegment::create_datastore_nested`].
    pub fn datastore_nested<F, V>(&self, params: &DatastoreParams, func: F) -> (r: Result<V, Error>)
        where F: FnOnce(ReferencingSegment<T>) -> V,
        requires
            forall|s: ReferencingSegment<T>|
                (s.is_live() && s.spec_txn() == self.spec_txn()) ==> call_requires(func, (s,)),
        ensures
            r is Ok <==> self.is_live() && self.spec_txn().running(),
            r matches Ok(v) ==> exists|s: ReferencingSegment<T>|
                s.is_live() && s.spec_txn() == self.spec_txn() && call_ensures(func, (s,), v),
            r matches Err(e) ==> e == Error::SegmentStartError,
    {
        Ok(func(self.create_datastore_nested(params)?))
    }

    /// Create an external segment nested within this one and hand it to
    /// `func`; the segment lives only for that call, and the result of
    /// `func` is forwarded.
    ///
    /// Fails, without running `func`, exactly when the nested creation
    /// fails: see [`ReferencingSegment::create_external_nested`].
    pub fn external_nested<F, V>(&self, params: &ExternalParams, func: F) -> (r: Result<V, Error>)
        where F: FnOnce(ReferencingSegment<T>) -> V,
        requires
            forall|s: ReferencingSegment<T>|
                (s.is_live() && s.spec_txn() == self.spec_txn()) ==> call_requires(func, (s,)),
        ensures
            r is Ok <==> self.is_live() && self.spec_txn().running(),
            r matches Ok(v) ==> exists|s: ReferencingSegment<T>|
                s.is_live() && s.spec_txn() == self.spec_txn() && call_ensures(func, (s,), v),
            r matches Err(e) ==> e == Error::SegmentStartError,
    {
        Ok(func(self.create_external_nested(params)?))
    }

    /// Create a custom segment nested within this one, referring to the
    /// same transaction.
    ///
    /// Fails when this segment carries no live handle (nesting under a
    /// dead segment is refused here; the soft variant degrades to a no-op
    /// instead), or when the segment start itself fails.
    pub fn create_custom_nested(&self, name: &str, category: &str) -> (r: Result<
        ReferencingSegment<T>,
        Error,
    >)
        ensures
            r is Ok <==> self.is_live() && custom_start_ok(self.spec_txn(), name@, category@),
            r matches Ok(s) ==> s.is_live() && s.spec_txn() == self.spec_txn(),
            r matches Err(e) ==> e == Error::SegmentStartError,
    {
        let sp = self.segment_pointer.custom_nested(self.transaction.transaction(), name, category)?;
        Ok(ReferencingSegment { transaction: self.transaction.duplicate(), segment_pointer: sp })
    }

    /// Create a datastore segment nested within this one, referring to the
    /// same transaction.
    ///
    /// Fails when this segment carries no live handle or the transaction
    /// is no longer running.
    pub fn create_datastore_nested(&self, params: &DatastoreParams) -> (r: Result<
        ReferencingSegment<T>,
        Error,
    >)
        ensures
            r is Ok <==> self.is_live() && self.spec_txn().running(),
            r matches Ok(s) ==> s.is_live() && s.spec_txn() == self.spec_txn(),
            r matches Err(e) ==> e == Error::SegmentStartError,
    {
        let sp = self.segment_pointer.datastore_nested(self.transaction.transaction(), params)?;
        Ok(ReferencingSegment { transaction: self.transaction.duplicate(), segment_pointer: sp })
    }

    /// Create an external segment nested within this one, referring to the
    /// same transaction.
    ///
    /// Fails when this segment carries no live handle or the transaction
    /// is no longer running.
    pub fn create_external_nested(&self, params: &ExternalParams) -> (r: Result<
        ReferencingSegment<T>,
        Error,
    >)
        ensures
            r is Ok <==> self.is_live() && self.spec_txn().running(),
            r matches Ok(s) ==> s.is_live() && s.spec_txn() == self.spec_txn(),
            r matches Err(e) ==> e == Error::SegmentStartError,
    {
        let sp = self.segment_pointer.external_nested(self.transaction.transaction(), params)?;
        Ok(ReferencingSegment { transaction: self.transaction.duplicate(), segment_pointer: sp })
    }

    /// Create a distributed trace payload for this segment.
    ///
    /// A payload exists exactly when the segment holds a live handle and
    /// its transaction is still active; what the payload encodes is
    /// supplied by the engine and not modelled here.
    pub fn distributed_trace(&self) -> (r: Option<String>)
        ensures
            r is Some <==> self.is_live() && self.spec_txn().running(),
    {
        self.segment_pointer.distributed_trace(self.transaction.transaction())
    }

    /// Explicitly end this segment.
    ///
    /// Ending is idempotent, and a live handle is ended exactly once.
    pub fn end(&mut self)
        ensures
            !final(self).is_live(),
            final(self).spec_txn() == old(self).spec_txn(),
    {
        self.segment_pointer.end(self.transaction.transaction())
    }
}

/// A segment within a transaction, with the soft-failure policy.
///
/// Segments of this shape are created through the methods on
/// [`Transaction`]; creation failure is swallowed: a segment that failed to
/// start carries no live handle, every operation on it degrades to a
/// no-op, and nested creations under it yield further no-op segments, so
/// that broken instrumentation never aborts the surrounding logic.
pub struct Segment<'a> {
    inner: Option<ReferencingSegment<&'a Transaction>>,
}

/// The relation between a scoped segment body's argument and the segment
/// the library built for it: the argument is live exactly when the start
/// succeeded, and a live argument belongs to the expected transaction.
pub open spec fn segment_handoff(s: Segment<'_>, live: bool, txn: Transaction) -> bool {
    &&& s.is_live() == live
    &&& s.is_live() ==> s.spec_txn() == txn
}

impl<'a> Segment<'a> {
    /// Whether the segment owns a live native handle.
    pub closed spec fn is_live(self) -> bool {
        match self.inner {
            Some(s) => s.is_live(),
            None => false,
        }
    }

    /// The transaction a live segment belongs to.
    pub closed spec fn spec_txn(self) -> Transaction
        recommends
            self.is_live(),
    {
        match self.inner {
            Some(s) => s.spec_txn(),
            None => arbitrary(),
        }
    }

    /// The segment after its end transition: the handle, live or not, is
    /// cleared.
    pub closed spec fn spec_end(self) -> Segment<'a> {
        Segment { inner: None }
    }

    /// Whether the segment owns a live native handle; a no-op segment does
    /// not.
    pub fn live(&self) -> (r: bool)
        ensures
            r == self.is_live(),
    {
        match &self.inner {
            Some(inner) => inner.live(),
            None => false,
        }
    }

    pub(crate) fn custom(transaction: &'a Transaction, name: &str, category: &str) -> (r: Segment<
        'a,
    >)
        ensures
            segment_handoff(r, custom_start_ok(*transaction, name@, category@), *transaction),
    {
        Segment { inner: ReferencingSegment::custom(transaction, name, category).ok() }
    }

    pub(crate) fn datastore(transaction: &'a Transaction, params: &DatastoreParams) -> (r: Segment<
        'a,
    >)
        ensures
            segment_handoff(r, transaction.running(), *transaction),
    {
        Segment { inner: ReferencingSegment::datastore(transaction, params).ok() }
    }

    pub(crate) fn external(transaction: &'a Transaction, params: &ExternalParams) -> (r: Segment<
        'a,
    >)
        ensures
            segment_handoff(r, transaction.running(), *transaction),
    {
        Segment { inner: ReferencingSegment::external(transaction, params).ok() }
    }

    /// Create a custom segment nested within this one and hand it to
    /// `func`; the segment lives only for that call, and the result of
    /// `func` is forwarded.
    ///
    /// The nested segment is a no-op when this segment is itself a no-op
    /// or the start fails; `func` runs either way.
    pub fn custom_nested<F, V>(&self, name: &str, category: &str, func: F) -> (r: V) where
        F: FnOnce(Segment<'a>) -> V,

        requires
            forall|s: Segment<'a>|
                segment_handoff(
                    s,
                    self.is_live() && custom_start_ok(self.spec_txn(), name@, category@),
                    self.spec_txn(),
                ) ==> call_requires(func, (s,)),
        ensures
            exists|s: Segment<'a>|
                segment_handoff(
                    s,
                    self.is_live() && custom_start_ok(self.spec_txn(), name@, category@),
                    self.spec_txn(),
                ) && call_ensures(func, (s,), r),
    {
        func(self.create_custom_nested(name, category))
    }

    /// Create a datastore segment nested within this one and hand it to
    /// `func`; the segment lives only for that call, and the result of
    /// `func` is forwarded.
    ///
    /// The nested segment is a no-op when this segment is itself a no-op
    /// or the start fails; `func` runs either way.
    pub fn datastore_nested<F, V>(&self, params: &DatastoreParams, func: F) -> (r: V) where
        F: FnOnce(Segment<'a>) -> V,

        requires
            forall|s: Segment<'a>|
                segment_handoff(
                    s,
                    self.is_live() && self.spec_txn().running(),
                    self.spec_txn(),
                ) ==> call_requires(func, (s,)),
        ensures
            exists|s: Segment<'a>|
                segment_handoff(s, self.is_live() && self.spec_txn().running(), self.spec_txn())
                    && call_ensures(func, (s,), r),
    {
        func(self.create_datastore_nested(params))
    }

    /// Create an external segment nested within this one and hand it to
    /// `func`; the segment lives only for that call, and the result of
    /// `func` is forwarded.
    ///
    /// The nested segment is a no-op when this segment is itself a no-op
    /// or the start fails; `func` runs either way.
    pub fn external_nested<F, V>(&self, params: &ExternalParams, func: F) -> (r: V) where
        F: FnOnce(Segment<'a>) -> V,

        requires
            forall|s: Segment<'a>|
                segment_handoff(
                    s,
                    self.is_live() && self.spec_txn().running(),
                    self.spec_txn(),
                ) ==> call_requires(func, (s,)),
        ensures
            exists|s: Segment<'a>|
                segment_handoff(s, self.is_live() && self.spec_txn().running(), self.spec_txn())
                    && call_ensures(func, (s,), r),
    {
        func(self.create_external_nested(params))
    }

    /// Create a custom segment nested within this one, referring to the
    /// same transaction.
    ///
    /// A nested segment can only be live when this segment is: nesting
    /// under a no-op segment yields another no-op segment, not an error.
    pub fn create_custom_nested(&self, name: &str, category: &str) -> (r: Segment<'a>)
        ensures
            segment_handoff(
                r,
                self.is_live() && custom_start_ok(self.spec_txn(), name@, category@),
                self.spec_txn(),
            ),
    {
        let nested = match &self.inner {
            Some(inner) => inner.create_custom_nested(name, category).ok(),
            None => None,
        };
        Segment { inner: nested }
    }

    /// Create a datastore segment nested within this one, referring to the
    /// same transaction.
    ///
    /// A nested segment can only be live when this segment is: nesting
    /// under a no-op segment yields another no-op segment, not an error.
    pub fn create_datastore_nested(&self, params: &DatastoreParams) -> (r: Segment<'a>)
        ensures
            segment_handoff(r, self.is_live() && self.spec_txn().running(), self.spec_txn()),
    {
        let nested = match &self.inner {
            Some(inner) => inner.create_datastore_nested(params).ok(),
            None => None,
        };
        Segment { inner: nested }
    }

    /// Create an external segment nested within this one, referring to the
    /// same transaction.
    ///
    /// A nested segment can only be live when this segment is: nesting
    /// under a no-op segment yields another no-op segment, not an error.
    pub fn create_external_nested(&self, params: &ExternalParams) -> (r: Segment<'a>)
        ensures
            segment_handoff(r, self.is_live() && self.spec_txn().running(), self.spec_txn()),
    {
        let nested = match &self.inner {
            Some(inner) => inner.create_external_nested(params).ok(),
            None => None,
        };
        Segment { inner: nested }
    }

    /// Create a distributed trace payload for this segment.
    ///
    /// The payload is the empty string exactly when the segment is a no-op
    /// or its transaction is no longer active; otherwise its contents are
    /// supplied by the engine and not modelled here.
    pub fn distributed_trace(&self) -> (r: String)
        ensures
            !(self.is_live() && self.spec_txn().running()) ==> r@ == Seq::<char>::empty(),
    {
        let payload = match &self.inner {
            Some(inner) => inner.distributed_trace(),
            None => None,
        };
        match payload {
            Some(p) => p,
            None => String::new(),
        }
    }

    /// Explicitly end this segment.
    ///
    /// Ending is idempotent, and a live handle is ended exactly once: the
    /// handle is cleared so no double end can occur.
    pub fn end(&mut self)
        ensures
            *final(self) == old(self).spec_end(),
            !final(self).is_live(),
    {
        if let Some(inner) = &mut self.inner {
            inner.end();
        }
        self.inner = None;
    }
}

/// Ending a segment is idempotent: the end transition maps every segment,
/// live or not, to the same cleared value, so ending twice is equivalent
/// to ending once.
pub proof fn lemma_segment_end_idempotent<'a>(s: Segment<'a>)
    ensures
        s.spec_end().spec_end() == s.spec_end(),
        !s.spec_end().is_live(),
{
}

/// Soft failure propagates: every nested creation under a segment without
/// a live handle yields another segment without a live handle, whatever
/// the transaction, names or parameters were, and such a segment never
/// yields a distributed trace payload.
pub proof fn lemma_soft_fail_propagates<'a>(
    parent: Segment<'a>,
    child: Segment<'a>,
    live: bool,
    txn: Transaction,
)
    requires
        !parent.is_live(),
        segment_handoff(child, parent.is_live() && live, txn),
    ensures
        !child.is_live(),
{
}

/// Builder for parameters used to instrument external calls.
pub struct ExternalParamsBuilder<'a> {
    uri: &'a str,
    procedure: Option<&'a str>,
    library: Option<&'a str>,
}

/// The fields a set of external parameters holds, as plain values.
pub ghost struct ExternalParamsView {
    /// The URI that was requested.
    pub uri: Seq<char>,
    /// The procedure used to request the resource, if any.
    pub procedure: Option<Seq<char>>,
    /// The library used to make the request, if any.
    pub library: Option<Seq<char>>,
}

impl<'a> ExternalParamsBuilder<'a> {
    /// The fields the builder has accumulated so far.
    pub closed spec fn spec_fields(self) -> ExternalParamsView {
        ExternalParamsView {
            uri: self.uri@,
            procedure: match self.procedure {
                Some(p) => Some(p@),
                None => None,
            },
            library: match self.library {
                Some(l) => Some(l@),
                None => None,
            },
        }
    }

    /// Begin creating a new set of external parameters for the given URI.
    pub fn new(uri: &'a str) -> (r: ExternalParamsBuilder<'a>)
        ensures
            r.spec_fields() == (ExternalParamsView { uri: uri@, procedure: None, library: None }),
    {
        ExternalParamsBuilder { uri, procedure: None, library: None }
    }

    /// Set the procedure of the external segment.
    ///
    /// In HTTP contexts, this will usually be the request method (GET,
    /// POST, and so on).  For non-HTTP requests, or protocols that encode
    /// more specific semantics on top of HTTP, use a value that more
    /// precisely encodes how the resource was requested.
    pub fn procedure(self, procedure: &'a str) -> (r: ExternalParamsBuilder<'a>)
        ensures
            r.spec_fields() == (ExternalParamsView {
                procedure: Some(procedure@),
                ..self.spec_fields()
            }),
    {
        ExternalParamsBuilder { procedure: Some(procedure), ..self }
    }

    /// Set the library of the external segment.
    pub fn library(self, library: &'a str) -> (r: ExternalParamsBuilder<'a>)
        ensures
            r.spec_fields() == (ExternalParamsView {
                library: Some(library@),
                ..self.spec_fields()
            }),
    {
        ExternalParamsBuilder { library: Some(library), ..self }
    }

    /// Consume the builder, returning the set of external parameters.
    ///
    /// Fails exactly when one of the parameters contains an embedded NUL
    /// byte; no partial object is returned.  Absent optional fields stay
    /// absent (they are handed to the engine as null references, not empty
    /// strings).
    pub fn build(self) -> (r: Result<ExternalParams, Error>)
        ensures
            r is Ok <==> !has_nul(self.spec_fields().uri) && !option_has_nul(
                self.spec_fields().procedure,
            ) && !option_has_nul(self.spec_fields().library),
            r matches Ok(p) ==> p@ == self.spec_fields(),
            r matches Err(e) ==> e matches Error::NulError(_),
    {
        check_nul(self.uri)?;
        let procedure = check_optional(self.procedure)?;
        let library = check_optional(self.library)?;
        Ok(ExternalParams { uri: self.uri.to_owned(), procedure, library })
    }
}

/// True when the optional string is present and contains an embedded NUL
/// character.
pub open spec fn option_has_nul(s: Option<Seq<char>>) -> bool {
    match s {
        Some(s) => has_nul(s),
        None => false,
    }
}

/// Validate an optional caller-supplied string and take an owned copy of
/// it: present strings must carry no embedded NUL byte.
fn check_optional(s: Option<&str>) -> (r: Result<Option<String>, Error>)
    ensures
        r is Ok <==> match s {
            Some(s) => !has_nul(s@),
            None => true,
        },
        r matches Ok(o) ==> match (o, s) {
            (Some(o), Some(s)) => o@ == s@,
            (None, None) => true,
            _ => false,
        },
        r matches Err(e) ==> e matches Error::NulError(_),
{
    match s {
        Some(s) => {
            check_nul(s)?;
            Ok(Some(s.to_owned()))
        },
        None => Ok(None),
    }
}

/// Parameters used to instrument external segments.
///
/// Create this using [`ExternalParamsBuilder`].  The object owns its
/// encoded string buffers for its whole lifetime; none of them carries an
/// embedded NUL byte.
pub struct ExternalParams {
    uri: String,
    procedure: Option<String>,
    library: Option<String>,
}

impl View for ExternalParams {
    type V = ExternalParamsView;

    closed spec fn view(&self) -> ExternalParamsView {
        ExternalParamsView {
            uri: self.uri@,
            procedure: match self.procedure {
                Some(p) => Some(p@),
                None => None,
            },
            library: match self.library {
                Some(l) => Some(l@),
                None => None,
            },
        }
    }
}

impl ExternalParams {
    /// The URI that was requested.
    pub fn uri(&self) -> (r: &str)
        ensures
            r@ == self@.uri,
    {
        self.uri.as_str()
    }

    /// The procedure used to request the resource, if one was set.
    pub fn procedure(&self) -> (r: Option<&str>)
        ensures
            r is Some <==> self@.procedure is Some,
            r matches Some(p) ==> self@.procedure == Some(p@),
    {
        match &self.procedure {
            Some(p) => Some(p.as_str()),
            None => None,
        }
    }

    /// The library used to make the request, if one was set.
    pub fn library(&self) -> (r: Option<&str>)
        ensures
            r is Some <==> self@.library is Some,
            r matches Some(l) ==> self@.library == Some(l@),
    {
        match &self.library {
            Some(l) => Some(l.as_str()),
            None => None,
        }
    }
}

/// The datastore type, used when instrumenting a datastore segment.
#[derive(Debug, Clone, Copy, PartialEq, Eq, Structural)]
pub enum Datastore {
    /// Firebird. Uses query instrumentation.
    Firebird,
    /// Informix. Uses query instrumentation.
    Informix,
    /// MSSQL. Uses query instrumentation.
    MSSQL,
    /// MySQL. Uses query instrumentation.
    MySQL,
    /// Oracle. Uses query instrumentation.
    Oracle,
    /// PostgreSQL. Uses query instrumentation.
    Postgres,
    /// SQLite. Uses query instrumentation.
    SQLite,
    /// Sybase. Uses query instrumentation.
    Sybase,
    /// Memcached. Does not use query instrumentation.
    Memcached,
    /// MongoDB. Does not use query instrumentation.
    MongoDB,
    /// ODBC. Does not use query instrumentation.
    ODBC,
    /// Redis. Does not use query instrumentation.
    Redis,
    /// Other. Does not use query instrumentation.
    Other,
}

impl Datastore {
    /// The product name under which the engine knows this datastore.
    pub open spec fn spec_name(self) -> Seq<char> {
        match self {
            Datastore::Firebird => "Firebird"@,
            Datastore::Informix => "Informix"@,
            Datastore::MSSQL => "MSSQL"@,
            Datastore::MySQL => "MySQL"@,
            Datastore::Oracle => "Oracle"@,
            Datastore::Postgres => "Postgres"@,
            Datastore::SQLite => "SQLite"@,
            Datastore::Sybase => "Sybase"@,
            Datastore::Memcached => "Memcached"@,
            Datastore::MongoDB => "MongoDB"@,
            Datastore::ODBC => "ODBC"@,
            Datastore::Redis => "Redis"@,
            Datastore::Other => "Other"@,
        }
    }

    /// The product name under which the engine knows this datastore.
    pub fn name(&self) -> (r: &'static str)
        ensures
            r@ == self.spec_name(),
    {
        match self {
            Datastore::Firebird => "Firebird",
            Datastore::Informix => "Informix",
            Datastore::MSSQL => "MSSQL",
            Datastore::MySQL => "MySQL",
            Datastore::Oracle => "Oracle",
            Datastore::Postgres => "Postgres",
            Datastore::SQLite => "SQLite",
            Datastore::Sybase => "Sybase",
            Datastore::Memcached => "Memcached",
            Datastore::MongoDB => "MongoDB",
            Datastore::ODBC => "ODBC",
            Datastore::Redis => "Redis",
            Datastore::Other => "Other",
        }
    }
}

/// The fields a set of datastore parameters holds, as plain values.
pub ghost struct DatastoreParamsView {
    /// The datastore product being instrumented.
    pub product: Datastore,
    /// The table or collection being used or queried against, if any.
    pub collection: Option<Seq<char>>,
    /// The operation being performed, if any.
    pub operation: Option<Seq<char>>,
    /// The datastore host name, if any.
    pub host: Option<Seq<char>>,
    /// The port or socket used to connect to the datastore, if any.
    pub port_path_or_id: Option<Seq<char>>,
    /// The database name or number in use, if any.
    pub database_name: Option<Seq<char>>,
    /// The database query that was sent to the datastore, if any.
    pub query: Option<Seq<char>>,
}

/// Builder for parameters used to instrument datastore segments.
pub struct DatastoreParamsBuilder<'a> {
    product: Datastore,
    collection: Option<&'a str>,
    operation: Option<&'a str>,
    host: Option<&'a str>,
    port_path_or_id: Option<&'a str>,
    database_name: Option<&'a str>,
    query: Option<&'a str>,
}

impl<'a> DatastoreParamsBuilder<'a> {
    /// The fields the builder has accumulated so far.
    pub closed spec fn spec_fields(self) -> DatastoreParamsView {
        DatastoreParamsView {
            product: self.product,
            collection: spec_option_view(self.collection),
            operation: spec_option_view(self.operation),
            host: spec_option_view(self.host),
            port_path_or_id: spec_option_view(self.port_path_or_id),
            database_name: spec_option_view(self.database_name),
            query: spec_option_view(self.query),
        }
    }

    /// Begin creating a new set of datastore parameters for the given
    /// product.
    pub fn new(product: Datastore) -> (r: DatastoreParamsBuilder<'a>)
        ensures
            r.spec_fields() == (DatastoreParamsView {
                product,
                collection: None,
                operation: None,
                host: None,
                port_path_or_id: None,
                database_name: None,
                query: None,
            }),
    {
        DatastoreParamsBuilder {
            product,
            collection: None,
            operation: None,
            host: None,
            port_path_or_id: None,
            database_name: None,
            query: None,
        }
    }

    /// Set the table or collection being used or queried against.
    pub fn collection(self, collection: &'a str) -> (r: DatastoreParamsBuilder<'a>)
        ensures
            r.spec_fields() == (DatastoreParamsView {
                collection: Some(collection@),
                ..self.spec_fields()
            }),
    {
        DatastoreParamsBuilder { collection: Some(collection), ..self }
    }

    /// Set the operation being performed: for example, "select" for a SQL
    /// SELECT query, or "set" for a Memcached set operation.
    pub fn operation(self, operation: &'a str) -> (r: DatastoreParamsBuilder<'a>)
        ensures
            r.spec_fields() == (DatastoreParamsView {
                operation: Some(operation@),
                ..self.spec_fields()
            }),
    {
        DatastoreParamsBuilder { operation: Some(operation), ..self }
    }

    /// Set the datastore host name.
    pub fn host(self, host: &'a str) -> (r: DatastoreParamsBuilder<'a>)
        ensures
            r.spec_fields() == (DatastoreParamsView { host: Some(host@), ..self.spec_fields() }),
    {
        DatastoreParamsBuilder { host: Some(host), ..self }
    }

    /// Set the port or socket used to connect to the datastore.
    pub fn port_path_or_id(self, port_path_or_id: &'a str) -> (r: DatastoreParamsBuilder<'a>)
        ensures
            r.spec_fields() == (DatastoreParamsView {
                port_path_or_id: Some(port_path_or_id@),
                ..self.spec_fields()
            }),
    {
        DatastoreParamsBuilder { port_path_or_id: Some(port_path_or_id), ..self }
    }

    /// Set the database name or number in use.
    pub fn database_name(self, database_name: &'a str) -> (r: DatastoreParamsBuilder<'a>)
        ensures
            r.spec_fields() == (DatastoreParamsView {
                database_name: Some(database_name@),
                ..self.spec_fields()
            }),
    {
        DatastoreParamsBuilder { database_name: Some(database_name), ..self }
    }

    /// Set the database query that was sent to the datastore.
    ///
    /// For security reasons, the engine only honours this value when the
    /// product is a supported sql-like datastore (Firebird, MySQL,
    /// Postgres, and so on), so that it can correctly obfuscate the query;
    /// for other products no query information is reported.  That filtering
    /// happens in the engine, not here.
    pub fn query(self, query: &'a str) -> (r: DatastoreParamsBuilder<'a>)
        ensures
            r.spec_fields() == (DatastoreParamsView { query: Some(query@), ..self.spec_fields() }),
    {
        DatastoreParamsBuilder { query: Some(query), ..self }
    }

    /// Consume the builder, returning the set of datastore parameters.
    ///
    /// Fails exactly when one of the parameters contains an embedded NUL
    /// byte; no partial object is returned.
    pub fn build(self) -> (r: Result<DatastoreParams, Error>)
        ensures
            r is Ok <==> !option_has_nul(self.spec_fields().collection) && !option_has_nul(
                self.spec_fields().operation,
            ) && !option_has_nul(self.spec_fields().host) && !option_has_nul(
                self.spec_fields().port_path_or_id,
            ) && !option_has_nul(self.spec_fields().database_name) && !option_has_nul(
                self.spec_fields().query,
            ),
            r matches Ok(p) ==> p@ == self.spec_fields(),
            r matches Err(e) ==> e matches Error::NulError(_),
    {
        let collection = check_optional(self.collection)?;
        let operation = check_optional(self.operation)?;
        let host = check_optional(self.host)?;
        let port_path_or_id = check_optional(self.port_path_or_id)?;
        let database_name = check_optional(self.database_name)?;
        let query = check_optional(self.query)?;
        Ok(
            DatastoreParams {
                product: self.product,
                collection,
                operation,
                host,
                port_path_or_id,
                database_name,
                query,
            },
        )
    }
}

/// The view of an optional borrowed string.
pub open spec fn spec_option_view(s: Option<&str>) -> Option<Seq<char>> {
    match s {
        Some(s) => Some(s@),
        None => None,
    }
}

/// Parameters used to instrument datastore segments.
///
/// Create this using [`DatastoreParamsBuilder`].  The object owns its
/// encoded string buffers for its whole lifetime; none of them carries an
/// embedded NUL byte.
pub struct DatastoreParams {
    product: Datastore,
    collection: Option<String>,
    operation: Option<String>,
    host: Option<String>,
    port_path_or_id: Option<String>,
    database_name: Option<String>,
    query: Option<String>,
}

impl View for DatastoreParams {
    type V = DatastoreParamsView;

    closed spec fn view(&self) -> DatastoreParamsView {
        DatastoreParamsView {
            product: self.product,
            collection: spec_owned_option_view(self.collection),
            operation: spec_owned_option_view(self.operation),
            host: spec_owned_option_view(self.host),
            port_path_or_id: spec_owned_option_view(self.port_path_or_id),
            database_name: spec_owned_option_view(self.database_name),
            query: spec_owned_option_view(self.query),
        }
    }
}

/// The view of an optional owned string.
pub open spec fn spec_owned_option_view(s: Option<String>) -> Option<Seq<char>> {
    match s {
        Some(s) => Some(s@),
        None => None,
    }
}

impl DatastoreParams {
    /// The datastore product being instrumented.
    pub fn product(&self) -> (r: Datastore)
        ensures
            r == self@.product,
    {
        self.product
    }

    /// The table or collection being used or queried against, if one was
    /// set.
    pub fn collection(&self) -> (r: Option<&str>)
        ensures
            r is Some <==> self@.collection is Some,
            r matches Some(s) ==> self@.collection == Some(s@),
    {
        match &self.collection {
            Some(s) => Some(s.as_str()),
            None => None,
        }
    }

    /// The operation being performed, if one was set.
    pub fn operation(&self) -> (r: Option<&str>)
        ensures
            r is Some <==> self@.operation is Some,
            r matches Some(s) ==> self@.operation == Some(s@),
    {
        match &self.operation {
            Some(s) => Some(s.as_str()),
            None => None,
        }
    }

    /// The datastore host name, if one was set.
    pub fn host(&self) -> (r: Option<&str>)
        ensures
            r is Some <==> self@.host is Some,
            r matches Some(s) ==> self@.host == Some(s@),
    {
        match &self.host {
            Some(s) => Some(s.as_str()),
            None => None,
        }
    }

    /// The port or socket used to connect to the datastore, if one was set.
    pub fn port_path_or_id(&self) -> (r: Option<&str>)
        ensures
            r is Some <==> self@.port_path_or_id is Some,
            r matches Some(s) ==> self@.port_path_or_id == Some(s@),
    {
        match &self.port_path_or_id {
            Some(s) => Some(s.as_str()),
            None => None,
        }
    }

    /// The database name or number in use, if one was set.
    pub fn database_name(&self) -> (r: Option<&str>)
        ensures
            r is Some <==> self@.database_name is Some,
            r matches Some(s) ==> self@.database_name == Some(s@),
    {
        match &self.database_name {
            Some(s) => Some(s.as_str()),
            None => None,
        }
    }

    /// The database query that was sent to the datastore, if one was set.
    pub fn query(&self) -> (r: Option<&str>)
        ensures
            r is Some <==> self@.query is Some,
            r matches Some(s) ==> self@.query == Some(s@),
    {
        match &self.query {
            Some(s) => Some(s.as_str()),
            None => None,
        }
    }
}

} // verus!
