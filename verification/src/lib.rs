//! Typed accessors for volatile memory.
//!
//! Volatile memory is memory that something besides the program may observe
//! or change, most often a memory-mapped device register. Every access to it
//! has to reach the memory as written: none may be dropped, repeated, merged
//! with a neighbour or moved past another volatile access.
//!
//! The crate is built in layers:
//!
//! - [`ReadWrite`], [`ReadOnly`] and [`WriteOnly`] are compile-time markers
//!   that fix, for the whole life of an accessor, which accesses it offers.
//! - [`VolatileRead`] and [`VolatileWrite`] are the single-element accesses.
//!   [`Volatile`] is a cell that offers them according to its marker, and
//!   [`VolatileArray`] is a run of such cells that is reached element by
//!   element.
//! - [`VolatileReadSlice`] and [`VolatileWriteSlice`] fill, copy into and copy
//!   out of any slice of accessors, one element after the other in ascending
//!   order of index.
//!
//! # What the contracts describe
//!
//! An accessor is described by the value that its memory holds,
//! [`VolatileData::value`]. The contracts say what the accesses made through
//! this crate do to that value. A change that a device makes on its own
//! between two accesses is outside of what they describe, and so is a race
//! with another thread: volatile accesses are not atomic.
//!
//! Of a bulk operation the contracts also say that each element went through
//! the single-element access: a clause `call_ensures(f, args, out)` says that
//! a call of `f` on `args` came back with `out`. They do not say in which
//! order the elements were taken; that it is the ascending order of index is
//! how the loops are written. [`laws`] holds what follows from the contracts
//! when accesses are combined.
//!
//! Nothing here touches a raw address. A type that overlays an accessor onto
//! memory it was handed by address implements [`VolatileRead`] and
//! [`VolatileWrite`] for itself and gets the bulk operations from this crate.
use vstd::prelude::*;

pub mod laws;
mod volatile;

pub use volatile::{
    Read, ReadOnly, ReadWrite, Volatile, VolatileArray, VolatileReadOnly, VolatileWriteOnly,
    Write, WriteOnly,
};

verus! {

/// Volatile memory that holds a `T`.
///
/// This has to be implemented before [`VolatileRead`] or [`VolatileWrite`]
/// can be.
pub trait VolatileData<T> {
    /// The value that the memory holds, whether or not the accessor may read
    /// it.
    spec fn value(&self) -> T;
}

/// Volatile memory that can be read.
///
/// An implementation is held to the contract of [`read`](Self::read); for one
/// that Verus does not see, whoever writes it vouches for that.
pub trait VolatileRead<T>: VolatileData<T> where T: Copy {
    /// Loads the value from the memory, which stays as it is.
    ///
    /// The load is not atomic: a write to the same memory from elsewhere
    /// while it runs is a data race.
    fn read(&self) -> (val: T)
        ensures
            val == self.value(),
    ;
}

/// Volatile memory that can be written.
///
/// An implementation is held to the contract of [`write`](Self::write); for
/// one that Verus does not see, whoever writes it vouches for that.
pub trait VolatileWrite<T>: VolatileData<T> where T: Copy {
    /// Stores `val` into the memory without looking at what was there.
    ///
    /// The store is not atomic: any other access to the same memory from
    /// elsewhere while it runs is a data race.
    fn write(&mut self, val: T)
        ensures
            final(self).value() == val,
    ;
}

/// The accessors `cells` hold the values `vals`, one each and in the same
/// order.
pub open spec fn holds<T: VolatileData<U>, U>(cells: Seq<T>, vals: Seq<U>) -> bool {
    &&& cells.len() == vals.len()
    &&& forall|i: int|
        #![trigger cells[i]]
        #![trigger vals[i]]
        0 <= i < cells.len() ==> cells[i].value() == vals[i]
}

/// A sequence of readable volatile elements.
///
/// Implemented for slices, and so reached from everything that dereferences
/// to one: arrays, vectors and [`VolatileArray`].
pub trait VolatileReadSlice<T, U>: View<V = Seq<T>> where T: VolatileRead<U>, U: Copy {
    /// Reads every element in ascending order of index and puts what element
    /// `i` held at `dst[i]`. The elements stay as they are.
    ///
    /// `dst` must be as long as `self`.
    ///
    /// Afterwards `dst` holds the values of the elements, and `dst[i]` is
    /// what [`read`](VolatileRead::read) gave for element `i`.
    fn read_slice_volatile(&self, dst: &mut [U])
        requires
            self@.len() == old(dst)@.len(),
        ensures
            holds(self@, final(dst)@),
            forall|i: int|
                #![trigger final(dst)@[i]]
                0 <= i < self@.len() ==> call_ensures(T::read, (&self@[i],), final(dst)@[i]),
    ;
}

impl<T, U> VolatileReadSlice<T, U> for [T] where T: VolatileRead<U>, U: Copy {
    fn read_slice_volatile(&self, dst: &mut [U]) {
        let len: usize = self.len();
        let mut i: usize = 0;
        while i < len
            invariant
                i <= len,
                len == self@.len(),
                len == dst@.len(),
                forall|j: int|
                    #![trigger dst@[j]]
                    0 <= j < i ==> self@[j].value() == dst@[j]
                        && call_ensures(T::read, (&self@[j],), dst@[j]),
            decreases len - i,
        {
            dst[i] = self[i].read();
            i += 1;
        }
    }
}

/// A sequence of writable volatile elements.
///
/// Implemented for slices, and so reached from everything that dereferences
/// to one: arrays, vectors and [`VolatileArray`].
pub trait VolatileWriteSlice<T, U>: View<V = Seq<T>> where T: VolatileWrite<U>, U: Copy {
    /// Writes `val` to every element in ascending order of index, without
    /// reading any of them.
    ///
    /// Afterwards there are as many elements as before, each holds `val`,
    /// and each is what one [`write`](VolatileWrite::write) of `val` made of
    /// the element that was there.
    fn fill_volatile(&mut self, val: U)
        ensures
            final(self)@.len() == old(self)@.len(),
            forall|i: int|
                #![trigger final(self)@[i]]
                0 <= i < final(self)@.len() ==> final(self)@[i].value() == val
                    && exists|cell: &mut T|
                        *cell == old(self)@[i] && *final(cell) == final(self)@[i]
                            && #[trigger] call_ensures(T::write, (cell, val), ()),
    ;

    /// Writes `src[i]` to element `i` for every index in ascending order,
    /// without reading any element.
    ///
    /// `src` must be as long as `self`.
    ///
    /// Afterwards the elements hold the values of `src`, and element `i` is
    /// what one [`write`](VolatileWrite::write) of `src[i]` made of the
    /// element that was there.
    fn write_slice_volatile(&mut self, src: &[U])
        requires
            old(self)@.len() == src@.len(),
        ensures
            holds(final(self)@, src@),
            forall|i: int|
                #![trigger final(self)@[i]]
                0 <= i < final(self)@.len() ==> final(self)@[i].value() == src@[i]
                    && exists|cell: &mut T|
                        *cell == old(self)@[i] && *final(cell) == final(self)@[i]
                            && #[trigger] call_ensures(T::write, (cell, src@[i]), ()),
    ;
}

impl<T, U> VolatileWriteSlice<T, U> for [T] where T: VolatileWrite<U>, U: Copy {
    fn fill_volatile(&mut self, val: U) {
        let len: usize = self.len();
        let mut i: usize = 0;
        while i < len
            invariant
                i <= len,
                len == self@.len(),
                len == old(self)@.len(),
                forall|j: int| i <= j < len ==> #[trigger] self@[j] == old(self)@[j],
                forall|j: int|
                    #![trigger self@[j]]
                    0 <= j < i ==> self@[j].value() == val
                        && exists|cell: &mut T|
                            *cell == old(self)@[j] && *final(cell) == self@[j]
                                && #[trigger] call_ensures(T::write, (cell, val), ()),
            decreases len - i,
        {
            self[i].write(val);
            i += 1;
        }
    }

    fn write_slice_volatile(&mut self, src: &[U]) {
        let len: usize = self.len();
        let mut i: usize = 0;
        while i < len
            invariant
                i <= len,
                len == self@.len(),
                len == src@.len(),
                len == old(self)@.len(),
                forall|j: int| i <= j < len ==> #[trigger] self@[j] == old(self)@[j],
                forall|j: int|
                    #![trigger self@[j]]
                    0 <= j < i ==> self@[j].value() == src@[j]
                        && exists|cell: &mut T|
                            *cell == old(self)@[j] && *final(cell) == self@[j]
                                && #[trigger] call_ensures(T::write, (cell, src@[j]), ()),
            decreases len - i,
        {
            self[i].write(src[i]);
            i += 1;
        }
    }
}

} // verus!
