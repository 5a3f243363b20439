//! Permission markers, the volatile cell and the run of cells.
use crate::{VolatileData, VolatileRead, VolatileWrite};
use core::borrow::{Borrow, BorrowMut};
use core::marker::PhantomData;
use core::ops::{Deref, DerefMut};
use vstd::prelude::*;

verus! {

/// Marks an accessor that may be read and written.
#[derive(Debug)]
pub struct ReadWrite;

/// Marks an accessor that may only be read.
#[derive(Debug)]
pub struct ReadOnly;

/// Marks an accessor that may only be written.
#[derive(Debug)]
pub struct WriteOnly;

/// Permissions that allow reading.
pub trait Read {}

impl Read for ReadWrite {}

impl Read for ReadOnly {}

/// Permissions that allow writing.
pub trait Write {}

impl Write for ReadWrite {}

impl Write for WriteOnly {}

/// One element of volatile memory, reached only through [`VolatileRead`] and
/// [`VolatileWrite`].
///
/// The cell is the memory itself, not a pointer to it. The permission `P` is
/// part of the type and decides once and for all which of the two accesses
/// exist: reading for [`ReadWrite`] and [`ReadOnly`], writing for
/// [`ReadWrite`] and [`WriteOnly`]. A cell cannot be duplicated.
///
/// The memory of a cell belongs to the program. Such a cell stands in for a
/// device register wherever code written against the traits has to run
/// without the device; its accesses are ordinary loads and stores.
pub struct Volatile<T: Copy, P = ReadWrite> {
    data: T,
    perm: PhantomData<P>,
}

/// A volatile cell that can only be read.
pub type VolatileReadOnly<T> = Volatile<T, ReadOnly>;

/// A volatile cell that can only be written.
pub type VolatileWriteOnly<T> = Volatile<T, WriteOnly>;

impl<T: Copy, P> Volatile<T, P> {
    /// A cell whose memory starts out holding `val`.
    pub fn new(val: T) -> (cell: Self)
        ensures
            cell.value() == val,
    {
        Volatile { data: val, perm: PhantomData }
    }
}

impl<T: Copy, P> VolatileData<T> for Volatile<T, P> {
    closed spec fn value(&self) -> T {
        self.data
    }
}

impl<T: Copy, P: Read> VolatileRead<T> for Volatile<T, P> {
    fn read(&self) -> (val: T) {
        self.data
    }
}

impl<T: Copy, P: Write> VolatileWrite<T> for Volatile<T, P> {
    fn write(&mut self, val: T) {
        self.data = val;
    }
}

/// `N` volatile elements in a row, reached one element at a time.
///
/// The run hands out its elements as a slice of `N` cells that share its
/// permission. It never hands out the `N` values as one array, so a run that
/// can only be written is never read as a whole.
pub struct VolatileArray<T: Copy, const N: usize, P = ReadWrite> {
    cells: [Volatile<T, P>; N],
}

impl<T: Copy, const N: usize, P> View for VolatileArray<T, N, P> {
    type V = Seq<Volatile<T, P>>;

    /// The `N` cells of the run, in order.
    closed spec fn view(&self) -> Seq<Volatile<T, P>> {
        self.cells@
    }
}

impl<T: Copy, const N: usize, P> VolatileArray<T, N, P> {
    /// The run made of `cells`, in their order.
    pub fn new(cells: [Volatile<T, P>; N]) -> (run: Self)
        ensures
            run@ == cells@,
            run@.len() == N,
    {
        VolatileArray { cells }
    }
}

impl<T: Copy, const N: usize, P> Deref for VolatileArray<T, N, P> {
    type Target = [Volatile<T, P>];

    /// The elements of the run: exactly `N` cells, in order.
    fn deref(&self) -> (cells: &[Volatile<T, P>])
        ensures
            cells@ == self@,
            cells@.len() == N,
    {
        &self.cells
    }
}

impl<T: Copy, const N: usize, P> DerefMut for VolatileArray<T, N, P> {
    /// The elements of the run, for writing: exactly `N` cells, in order.
    /// What is done to them is done to the run.
    fn deref_mut(&mut self) -> (cells: &mut [Volatile<T, P>])
        ensures
            cells@ == old(self)@,
            cells@.len() == N,
            final(self)@ == final(cells)@,
    {
        &mut self.cells
    }
}

// `Borrow` and `BorrowMut` leave the type of their result to be inferred, so
// the contracts below name the view of a slice in full.
impl<T: Copy, const N: usize, P> Borrow<[Volatile<T, P>]> for VolatileArray<T, N, P> {
    /// The same cells as [`deref`](Deref::deref) gives.
    fn borrow(&self) -> (cells: &[Volatile<T, P>])
        ensures
            <[Volatile<T, P>]>::view(cells) == self@,
            <[Volatile<T, P>]>::view(cells).len() == N,
    {
        &self.cells
    }
}

impl<T: Copy, const N: usize, P> BorrowMut<[Volatile<T, P>]> for VolatileArray<T, N, P> {
    /// The same cells as [`deref_mut`](DerefMut::deref_mut) gives.
    fn borrow_mut(&mut self) -> (cells: &mut [Volatile<T, P>])
        ensures
            <[Volatile<T, P>]>::view(cells) == old(self)@,
            <[Volatile<T, P>]>::view(cells).len() == N,
            final(self)@ == <[Volatile<T, P>]>::view(final(cells)),
    {
        &mut self.cells
    }
}

impl<T: Copy, const N: usize, P> AsRef<[Volatile<T, P>]> for VolatileArray<T, N, P> {
    /// The same cells as [`deref`](Deref::deref) gives.
    fn as_ref(&self) -> (cells: &[Volatile<T, P>])
        ensures
            cells@ == self@,
            cells@.len() == N,
    {
        &self.cells
    }
}

impl<T: Copy, const N: usize, P> AsMut<[Volatile<T, P>]> for VolatileArray<T, N, P> {
    /// The same cells as [`deref_mut`](DerefMut::deref_mut) gives.
    fn as_mut(&mut self) -> (cells: &mut [Volatile<T, P>])
        ensures
            cells@ == old(self)@,
            cells@.len() == N,
            final(self)@ == final(cells)@,
    {
        &mut self.cells
    }
}

} // verus!
