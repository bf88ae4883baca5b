//! The future-instrumentation adapter: a wrapped computation paired with
//! an optional segment whose lifetime brackets the computation's run.
//!
//! The library holds the adapter's state and decides its transitions; the
//! cooperative driver that actually polls the wrapped computation lives
//! outside the verified code.  On each resumption the driver advances the
//! inner computation through [`SegmentedFuture::inner_mut`]; the first time
//! the computation completes it calls [`SegmentedFuture::complete`], which
//! ends the segment at exactly that point and never before.  "No
//! transaction available" is a valid input and produces an adapter that
//! does no instrumentation at all.

use vstd::prelude::*;

use crate::segment::{
    custom_start_ok, segment_handoff, DatastoreParams, ExternalParams, Segment,
};
use crate::transaction::Transaction;

verus! {

/// A capability for optionally reaching a transaction, so that one call
/// shape covers both "instrument inside this transaction" and "no
/// transaction available, do not instrument".  Callers may implement it
/// for containers of their own.
pub trait OptionalTransaction<'a> {
    /// The transaction the value can hand out, if any.
    spec fn spec_transaction(&'a self) -> Option<Transaction>;

    /// Return the transaction to instrument under, if one is available.
    fn get_transaction(&'a self) -> (r: Option<&'a Transaction>)
        ensures
            match (r, self.spec_transaction()) {
                (Some(t), Some(s)) => *t == s,
                (None, None) => true,
                _ => false,
            },
    ;
}

impl<'a> OptionalTransaction<'a> for Transaction {
    open spec fn spec_transaction(&'a self) -> Option<Transaction> {
        Some(*self)
    }

    fn get_transaction(&'a self) -> (r: Option<&'a Transaction>) {
        Some(self)
    }
}

impl<'a> OptionalTransaction<'a> for Option<&'a Transaction> {
    open spec fn spec_transaction(&'a self) -> Option<Transaction> {
        match *self {
            Some(t) => Some(*t),
            None => None,
        }
    }

    fn get_transaction(&'a self) -> (r: Option<&'a Transaction>) {
        *self
    }
}

/// The relation between an adapter and the inputs it was built from: the
/// wrapped computation is kept, no segment is held when no transaction was
/// available, and otherwise the held segment is the one the start
/// produced.
pub open spec fn adapter_handoff<'a, T>(
    r: SegmentedFuture<'a, T>,
    inner: T,
    txn: Option<Transaction>,
    live: bool,
) -> bool {
    &&& r.spec_inner() == inner
    &&& match (r.spec_segment(), txn) {
        (Some(s), Some(t)) => segment_handoff(s, live, t),
        (None, None) => true,
        _ => false,
    }
}

/// Extension trait allowing a wrapped computation to be instrumented
/// inside a segment.
pub trait Segmented: Sized {
    /// Instrument this computation inside a custom segment of the given
    /// transaction, or not at all if no transaction is available.
    fn custom_segment<'a, T>(self, to_trans: &'a T, name: &str, category: &str) -> (r:
        SegmentedFuture<'a, Self>) where T: OptionalTransaction<'a>
        ensures
            adapter_handoff(
                r,
                self,
                to_trans.spec_transaction(),
                match to_trans.spec_transaction() {
                    Some(t) => custom_start_ok(t, name@, category@),
                    None => false,
                },
            ),
    {
        let segment = match to_trans.get_transaction() {
            Some(transaction) => Some(Segment::custom(transaction, name, category)),
            None => None,
        };
        SegmentedFuture { inner: self, segment }
    }

    /// Instrument this computation inside a datastore segment of the given
    /// transaction, or not at all if no transaction is available.
    fn datastore_segment<'a, T>(self, to_trans: &'a T, params: &DatastoreParams) -> (r:
        SegmentedFuture<'a, Self>) where T: OptionalTransaction<'a>
        ensures
            adapter_handoff(
                r,
                self,
                to_trans.spec_transaction(),
                match to_trans.spec_transaction() {
                    Some(t) => t.running(),
                    None => false,
                },
            ),
    {
        let segment = match to_trans.get_transaction() {
            Some(transaction) => Some(Segment::datastore(transaction, params)),
            None => None,
        };
        SegmentedFuture { inner: self, segment }
    }

    /// Instrument this computation inside an external segment of the given
    /// transaction, or not at all if no transaction is available.
    fn external_segment<'a, T>(self, to_trans: &'a T, params: &ExternalParams) -> (r:
        SegmentedFuture<'a, Self>) where T: OptionalTransaction<'a>
        ensures
            adapter_handoff(
                r,
                self,
                to_trans.spec_transaction(),
                match to_trans.spec_transaction() {
                    Some(t) => t.running(),
                    None => false,
                },
            ),
    {
        let segment = match to_trans.get_transaction() {
            Some(transaction) => Some(Segment::external(transaction, params)),
            None => None,
        };
        SegmentedFuture { inner: self, segment }
    }
}

impl<T: Sized> Segmented for T {

}

/// A computation that has been instrumented inside a segment.
///
/// The segment stays open across every suspension of the computation; it
/// is ended exactly when the driver reports the computation's first
/// transition into its completed state, through
/// [`SegmentedFuture::complete`].
pub struct SegmentedFuture<'a, T> {
    inner: T,
    segment: Option<Segment<'a>>,
}

impl<'a, T> SegmentedFuture<'a, T> {
    /// The wrapped computation.
    pub closed spec fn spec_inner(self) -> T {
        self.inner
    }

    /// The held segment, if the adapter instruments at all.
    pub closed spec fn spec_segment(self) -> Option<Segment<'a>> {
        self.segment
    }

    /// Borrow the wrapped computation mutably, so the driver can advance
    /// it; the held segment is untouched.
    pub fn inner_mut(&mut self) -> (r: &mut T)
        ensures
            *r == old(self).spec_inner(),
            final(self).spec_inner() == *final(r),
            final(self).spec_segment() == old(self).spec_segment(),
    {
        &mut self.inner
    }

    /// Record that the wrapped computation has completed: the held
    /// segment, if any, is ended and released at exactly this point.
    /// Completing again is a no-op.
    pub fn complete(&mut self)
        ensures
            final(self).spec_segment() is None,
            final(self).spec_inner() == old(self).spec_inner(),
    {
        if let Some(segment) = &mut self.segment {
            segment.end();
        }
        self.segment = None;
    }
}

} // verus!
