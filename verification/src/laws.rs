//! What holds of every accessor, proved from the contracts of the accesses.
//!
//! Each law takes the accesses as [`VolatileRead`], [`VolatileWrite`],
//! [`VolatileReadSlice`] and [`VolatileWriteSlice`] promise them: a premise
//! `call_ensures(f, args, out)` says that a call of `f` on `args` came back
//! with `out`. For a `&mut` argument, the argument itself is the accessor
//! before the call and `final` of it is the accessor after the call.
use crate::{
    holds, VolatileData, VolatileRead, VolatileReadSlice, VolatileWrite, VolatileWriteSlice,
};
use vstd::prelude::*;

verus! {

/// A read that follows a write returns what was written: when `val` is
/// written through `cell` and the cell is then read, the read gives `val`.
pub proof fn lemma_read_after_write<A, T>(cell: &mut A, val: T, got: T) where
    A: VolatileRead<T> + VolatileWrite<T>,
    T: Copy,

    requires
        call_ensures(A::write, (cell, val), ()),
        call_ensures(A::read, (final(cell),), got),
    ensures
        final(cell).value() == val,
        got == val,
{
}

/// Reading leaves the memory alone: two reads of one accessor with nothing
/// in between give the same value, the one that the memory holds.
pub proof fn lemma_reads_agree<A, T>(cell: A, first: T, second: T) where
    A: VolatileRead<T>,
    T: Copy,

    requires
        call_ensures(A::read, (&cell,), first),
        call_ensures(A::read, (&cell,), second),
    ensures
        first == cell.value(),
        first == second,
{
}

/// Accessors hold one sequence of values and no other.
pub proof fn lemma_holds_one<T: VolatileData<U>, U>(cells: Seq<T>, a: Seq<U>, b: Seq<U>)
    requires
        holds(cells, a),
        holds(cells, b),
    ensures
        a == b,
{
    assert(a =~= b);
}

/// Copying in and copying out again gives the source back: when `src` is
/// written to `cells` and `cells` is then read into `dst`, `dst` ends up
/// equal to `src`, element for element and in order.
pub proof fn lemma_read_slice_after_write_slice<S, T, U>(cells: &mut S, src: &[U], dst: &mut [U]) where
    S: VolatileReadSlice<T, U> + VolatileWriteSlice<T, U> + ?Sized,
    T: VolatileRead<U> + VolatileWrite<U>,
    U: Copy,

    requires
        call_ensures(<S as VolatileWriteSlice<T, U>>::write_slice_volatile, (cells, src), ()),
        call_ensures(
            <S as VolatileReadSlice<T, U>>::read_slice_volatile,
            (final(cells), dst),
            (),
        ),
    ensures
        holds(final(cells)@, src@),
        final(dst)@ == src@,
{
    lemma_holds_one(final(cells)@, src@, final(dst)@);
}

/// Reading back what was filled gives the fill value everywhere: when `val`
/// is filled into `cells` and `cells` is then read into `dst`, `dst` ends up
/// as long as `cells` with `val` at every index.
pub proof fn lemma_read_slice_after_fill<S, T, U>(cells: &mut S, val: U, dst: &mut [U]) where
    S: VolatileReadSlice<T, U> + VolatileWriteSlice<T, U> + ?Sized,
    T: VolatileRead<U> + VolatileWrite<U>,
    U: Copy,

    requires
        call_ensures(<S as VolatileWriteSlice<T, U>>::fill_volatile, (cells, val), ()),
        call_ensures(
            <S as VolatileReadSlice<T, U>>::read_slice_volatile,
            (final(cells), dst),
            (),
        ),
    ensures
        final(dst)@ == Seq::new(old(cells)@.len(), |i: int| val),
{
}

} // verus!
