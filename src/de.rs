use vstd::prelude::*;

verus! {

/// What an error type must offer to be a visitor's error channel: a way to
/// say that the value at hand was not expected there.
pub trait VisitorError: Sized {
    fn unexpected() -> Self;
}

/// The sink for one decoded value.
///
/// A compound value is taken apart through cursors of the visitor's own
/// type: `seq` and `map` hand out a cursor, and the cursor hands out, for
/// each element or entry, the visitor that receives it.
///
/// A visitor is *total* when it accepts every value of every shape: it grants
/// every sequence and mapping, and what it hands out is total too.
pub trait Visitor: Sized {
    type Error;

    /// This visitor accepts any value whatever. No claim is made of a
    /// visitor that does not say so of itself.
    open spec fn total(&self) -> bool {
        false
    }

    /// Records an error against this visitor.
    fn raise(&mut self, err: Self::Error)
        ensures
            old(self).total() ==> final(self).total(),
    ;

    fn null(&mut self)
        ensures
            old(self).total() ==> final(self).total(),
    ;

    fn boolean(&mut self, b: bool)
        ensures
            old(self).total() ==> final(self).total(),
    ;

    fn string(&mut self, s: &str)
        ensures
            old(self).total() ==> final(self).total(),
    ;

    fn negative(&mut self, n: i64)
        ensures
            old(self).total() ==> final(self).total(),
    ;

    fn nonnegative(&mut self, n: u64)
        ensures
            old(self).total() ==> final(self).total(),
    ;

    /// Receives a 64-bit floating-point number, given by its IEEE 754 bits.
    fn float_bits(&mut self, bits: u64)
        ensures
            old(self).total() ==> final(self).total(),
    ;

    /// Asks to decode the value at hand as a sequence: the cursor over its
    /// elements, or `None` when this visitor takes no sequence here.
    fn seq(&mut self) -> (r: Option<Self>)
        ensures
            old(self).total() ==> r is Some && r->0.total(),
    ;

    /// Asks to decode the value at hand as a mapping: the cursor over its
    /// entries, or `None` when this visitor takes no mapping here.
    fn map(&mut self) -> (r: Option<Self>)
        ensures
            old(self).total() ==> r is Some && r->0.total(),
    ;
}

/// The cursor over the elements of one sequence, in order.
pub trait SeqAccess: Visitor {
    /// The visitor for the next element, or the error when no further
    /// element is taken.
    fn element(&mut self) -> (r: Result<Self, Self::Error>)
        ensures
            old(self).total() ==> final(self).total() && r is Ok && r->Ok_0.total(),
    ;

    /// Called once after the last element.
    fn finish(&mut self) -> (r: Result<(), Self::Error>)
        ensures
            old(self).total() ==> r is Ok,
    ;
}

/// The cursor over the entries of one mapping, in order of arrival; keys
/// may repeat.
pub trait MapAccess: Visitor {
    /// The visitor for the value paired with key `k`, or the error when that
    /// key is not allowed.
    fn key(&mut self, k: &str) -> (r: Result<Self, Self::Error>)
        ensures
            old(self).total() ==> final(self).total() && r is Ok && r->Ok_0.total(),
    ;

    /// Called once after the last entry.
    fn finish(&mut self) -> (r: Result<(), Self::Error>)
        ensures
            old(self).total() ==> r is Ok,
    ;
}

} // verus!
