//! Upcast nodes: nodes without inputs of their own that put a plain value
//! into a graph as a type-erased result.

use vstd::prelude::*;
use std::marker::PhantomData;
use crate::erased::{ErasedModel, ErasedValue};
use crate::memo::{hash_of, MemoHash};
use crate::value::ValueModel;

verus! {

/// A node that holds one value with its hash and, whenever it is evaluated,
/// gives that value in a type-erased container.
#[derive(Debug, PartialEq, Eq)]
pub struct UpcastNode {
    value: MemoHash,
}

impl View for UpcastNode {
    type V = ValueModel;

    closed spec fn view(&self) -> ValueModel {
        self.value@
    }
}

impl UpcastNode {
    /// The node of a value. The hash that the value comes with is kept.
    pub fn new(value: MemoHash) -> (r: UpcastNode)
        ensures
            r@ == value@,
    {
        UpcastNode { value }
    }

    /// Evaluates the node: whatever the input, the result is the value of the
    /// node, erased. The value stays in the node, and nothing is hashed.
    pub fn eval(&self, input: ErasedValue) -> (r: ErasedValue)
        ensures
            r@ == ErasedModel::of(self@),
    {
        self.value.clone().into_inner().to_dynany()
    }

    /// The hash of the value of the node, as it was computed when the value
    /// was put together with it.
    pub fn hash_code(&self) -> (r: u64)
        ensures
            r == hash_of(self@),
    {
        self.value.hash_code()
    }
}

/// A node that owns a value of type `T` and, whenever it is evaluated, gives
/// a reference into it, as a `U`. Nothing is copied and nothing changes
/// hands.
#[derive(Default, Debug)]
pub struct UpcastAsRefNode<T: Sync + Send, U: Sync + Send>(pub T, PhantomData<U>);

impl<T: Sync + Send, U: Sync + Send> UpcastAsRefNode<T, U> {
    /// The value that the node owns.
    pub closed spec fn held(self) -> T {
        self.0
    }

    /// The node of a value.
    pub fn new(value: T) -> (r: UpcastAsRefNode<T, U>)
        ensures
            r.held() == value,
    {
        UpcastAsRefNode(value, PhantomData)
    }

    /// Evaluates the node: the result borrows the value that the node owns.
    pub fn eval(&self) -> (r: &T)
        ensures
            *r == self.held(),
    {
        &self.0
    }
}

} // verus!
