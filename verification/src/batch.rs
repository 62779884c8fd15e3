//! The batch persistence coordinator's decision.
//!
//! Storage receives each entity type's prepared rows as one bulk
//! operation, and an empty batch must short-circuit: no bulk call is made
//! for it at all. The decision is taken here; executing a submitted batch
//! (and reporting its single aggregate outcome) is the storage driver's
//! part. The folder batch and the cipher batch of one import are two
//! independent invocations, never one cross-entity unit of work.

use vstd::prelude::*;

verus! {

/// What the storage driver is to do with one prepared batch.
pub enum BatchAction<R> {
    /// Nothing: the batch was empty, no bulk call may be made.
    Skip,
    /// Submit these rows as one bulk operation with one aggregate outcome.
    Submit(Vec<R>),
}

/// Decides the bulk submission for one entity type's prepared rows: an
/// empty set short-circuits, anything else is submitted whole and in
/// order.
pub fn coordinate_batch<R>(rows: Vec<R>) -> (a: BatchAction<R>)
    ensures
        rows@.len() == 0 ==> a == BatchAction::<R>::Skip,
        rows@.len() != 0 ==> a == BatchAction::Submit(rows),
{
    if rows.is_empty() {
        BatchAction::Skip
    } else {
        BatchAction::Submit(rows)
    }
}

} // verus!
