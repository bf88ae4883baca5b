//! Custom events: one-shot structured records attached to a transaction.
//!
//! An event is created against a transaction, accumulates named attributes,
//! and is then consumed exactly once: either by [`CustomEvent::record`],
//! which hands it to the native layer for emission, or by
//! [`CustomEvent::discard`], which releases it without emitting anything.
//! Consuming the value makes a second record or discard unwritable, so the
//! exactly-once obligation is enforced by ownership.

use vstd::prelude::*;

use crate::check_nul;
use crate::error::Error;
use crate::has_nul;
use crate::transaction::{attribute_has_nul, Attribute, Transaction};

verus! {

/// A custom event to be added to a transaction.
#[must_use]
pub struct CustomEvent<'a> {
    transaction: &'a Transaction,
}

impl<'a> CustomEvent<'a> {
    /// The transaction the event is attached to.
    pub closed spec fn spec_transaction(self) -> Transaction {
        *self.transaction
    }

    pub(crate) fn new(transaction: &'a Transaction, event_type: &str) -> (r: Result<
        CustomEvent<'a>,
        Error,
    >)
        ensures
            r is Ok <==> !has_nul(event_type@),
            r matches Ok(e) ==> e.spec_transaction() == *transaction,
            r matches Err(e) ==> e matches Error::NulError(_),
    {
        check_nul(event_type)?;
        Ok(CustomEvent { transaction })
    }

    /// Add an attribute to this custom event, returning the event again so
    /// that additions can be chained.
    ///
    /// Fails exactly when the name or a string value carries an embedded
    /// NUL byte.
    pub fn add_attribute(&self, name: &str, attribute: &Attribute) -> (r: Result<
        &CustomEvent<'a>,
        Error,
    >)
        ensures
            r is Ok <==> !has_nul(name@) && !attribute_has_nul(*attribute),
            r matches Ok(e) ==> *e == *self,
            r matches Err(e) ==> e matches Error::NulError(_),
    {
        check_nul(name)?;
        if let Attribute::Str(s) = attribute {
            check_nul(s.as_str())?;
        }
        Ok(self)
    }

    /// Record this custom event, consuming it.
    ///
    /// Ownership of the event's native handle passes to the native layer,
    /// which emits the event if the transaction is still running; the
    /// handle is released either way, and the consumed value can be
    /// neither recorded nor discarded a second time.
    pub fn record(self) -> (emitted: bool)
        ensures
            emitted == self.spec_transaction().running(),
    {
        self.transaction.is_running()
    }

    /// Discard this custom event without recording it, consuming it.
    ///
    /// This is the path an event that was never recorded must take: its
    /// native handle is released and nothing is emitted.
    pub fn discard(self) {
    }
}

} // verus!
