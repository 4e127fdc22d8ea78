//! Copies that keep the model: the copy of a value that owns vectors or
//! strings is another value with the same model.

use vstd::prelude::*;
use std::sync::Arc;
use crate::hash::models;

verus! {

/// A value that can be copied part by part.
pub trait Replicate: View + Sized {
    /// A copy with the same model.
    fn replicate(&self) -> (r: Self)
        ensures
            r@ == self@,
    ;
}

/// Copies a sequence, item by item.
pub fn replicate_all<T: Replicate>(values: &Vec<T>) -> (r: Vec<T>)
    ensures
        models(r@) == models(values@),
{
    let mut r: Vec<T> = Vec::new();
    let mut i: usize = 0;
    while i < values.len()
        invariant
            i <= values.len(),
            r.len() == i,
            forall|j: int| 0 <= j < i ==> r@[j]@ == values@[j]@,
        decreases values.len() - i,
    {
        r.push(values[i].replicate());
        i = i + 1;
    }
    assert(models(r@) =~= models(values@));
    r
}

/// Makes another holder of a shared value, with `Arc::clone` of the standard
/// library: the new pointer points to the allocation of the old one, so both
/// hold the same value. Nothing is copied.
#[verifier::external_body]
pub(crate) fn share<T>(shared: &Arc<T>) -> (r: Arc<T>)
    ensures
        r == *shared,
{
    Arc::clone(shared)
}

} // verus!
