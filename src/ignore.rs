use std::marker::PhantomData;
use vstd::prelude::*;

use crate::de::{MapAccess, SeqAccess, Visitor, VisitorError};

verus! {

/// The discard visitor: accepts any value of any shape and depth and keeps
/// nothing of it. It holds no data; the error type is a tag for the
/// interfaces alone, so every value of it is the same zero-sized value.
pub struct Ignore<E> {
    tag: PhantomData<E>,
}

impl<E> Ignore<E> {
    pub fn new() -> (r: Self)
        ensures
            r.total(),
    {
        Ignore { tag: PhantomData }
    }

    /// Every discard visitor accepts everything.
    pub open spec fn total(&self) -> bool {
        true
    }
}

/// There is one discard visitor for each error type: any two are the same
/// value, so which one a caller is handed makes no difference.
pub proof fn lemma_one_instance<E>(a: Ignore<E>, b: Ignore<E>)
    ensures
        a == b,
{
}

/// A discard visitor for error type `E`. It is zero-sized, so handing one out
/// allocates nothing, at any depth of nesting.
pub fn ignore<E>() -> (r: Ignore<E>)
    ensures
        r.total(),
{
    Ignore::new()
}

impl<E: VisitorError> Visitor for Ignore<E> {
    type Error = E;

    open spec fn total(&self) -> bool {
        true
    }

    /// Swallows the error: the visitor is left as it was.
    fn raise(&mut self, err: E)
        ensures
            *final(self) == *old(self),
    {
    }

    fn null(&mut self)
        ensures
            *final(self) == *old(self),
    {
    }

    fn boolean(&mut self, b: bool)
        ensures
            *final(self) == *old(self),
    {
    }

    fn string(&mut self, s: &str)
        ensures
            *final(self) == *old(self),
    {
    }

    fn negative(&mut self, n: i64)
        ensures
            *final(self) == *old(self),
    {
    }

    fn nonnegative(&mut self, n: u64)
        ensures
            *final(self) == *old(self),
    {
    }

    fn float_bits(&mut self, bits: u64)
        ensures
            *final(self) == *old(self),
    {
    }

    fn seq(&mut self) -> (r: Option<Ignore<E>>)
        ensures
            r is Some,
            *final(self) == *old(self),
    {
        Some(Ignore::new())
    }

    fn map(&mut self) -> (r: Option<Ignore<E>>)
        ensures
            r is Some,
            *final(self) == *old(self),
    {
        Some(Ignore::new())
    }
}

impl<E: VisitorError> SeqAccess for Ignore<E> {
    fn element(&mut self) -> (r: Result<Ignore<E>, E>)
        ensures
            r is Ok,
            *final(self) == *old(self),
    {
        Ok(ignore())
    }

    /// Always succeeds: a discard cursor is total.
    fn finish(&mut self) -> (r: Result<(), E>) {
        Ok(())
    }
}

impl<E: VisitorError> MapAccess for Ignore<E> {
    /// Every key is taken, whatever its text: its value goes to a discard
    /// visitor.
    fn key(&mut self, k: &str) -> (r: Result<Ignore<E>, E>)
        ensures
            r is Ok,
            *final(self) == *old(self),
    {
        Ok(ignore())
    }

    /// Always succeeds: a discard cursor is total.
    fn finish(&mut self) -> (r: Result<(), E>) {
        Ok(())
    }
}

} // verus!
