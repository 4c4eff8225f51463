//! Parsing of items one after the other from a slice of bytes.

use crate::errors::PcapError;
use vstd::prelude::*;

verus! {

/// A parser's result with the bytes after the item given as a sequence.
pub open spec fn rest_view<'a, X>(r: Result<(&'a [u8], X), PcapError>) -> Result<(Seq<u8>, X), PcapError> {
    match r {
        Ok((rem, x)) => Ok((rem@, x)),
        Err(e) => Err(e),
    }
}

/// A parser of items of type `T` from slices of bytes, with a state of type `S`
/// that the items read so far determine.
pub trait Parser<'a, T, S>: Sized {
    /// Whether `r` (the bytes after the item and the item, or the error) is a
    /// possible result of `next_item` on the bytes `src`.
    spec fn next_item_outcome(&self, src: Seq<u8>, r: Result<(Seq<u8>, T), PcapError>) -> bool;

    /// Whether `after` and `r` are a possible parser after `update_state` with
    /// `item`, and its result.
    spec fn update_state_outcome(&self, item: T, after: Self, r: Result<(), PcapError>) -> bool;

    /// The state that `state` returns.
    spec fn spec_state(&self) -> S;

    /// Parses the next item from `src`, and returns the bytes after it with the item.
    fn next_item(&self, src: &'a [u8]) -> (r: Result<(&'a [u8], T), PcapError>)
        ensures
            self.next_item_outcome(src@, rest_view(r)),
    ;

    /// Updates the state from an item that `next_item` returned.
    fn update_state(&mut self, item: &T) -> (r: Result<(), PcapError>)
        ensures
            old(self).update_state_outcome(*item, *final(self), r),
    ;

    /// The state.
    fn state(&self) -> (r: &S)
        ensures
            *r == self.spec_state(),
    ;
}

} // verus!
