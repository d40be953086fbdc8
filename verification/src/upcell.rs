//! A single-core interior-access cell.
//!
//! On the machine this wraps interior mutability that is sound only because
//! exactly one hart runs; in the model exclusive access is what `&mut`
//! already grants, so the cell is a plain owner around its value.

use vstd::prelude::*;

verus! {

/// A cell owning a value that a uniprocessor may freely borrow mutably.
pub struct UniProcessorCell<T> {
    value: T,
}

/// The short name the kernel uses for the cell.
pub type UPCell<T> = UniProcessorCell<T>;

impl<T> UniProcessorCell<T> {
    /// What the cell holds.
    pub closed spec fn contents(&self) -> T {
        self.value
    }

    /// Wraps a value.  On the machine this carries the caller's promise
    /// that only one hart will ever touch the cell.
    pub fn new(value: T) -> (c: Self)
        ensures
            c.contents() == value,
    {
        UniProcessorCell { value }
    }

    /// Borrows the value mutably.
    pub fn borrow_mut(&mut self) -> (r: &mut T)
        ensures
            *r == old(self).contents(),
            final(self).contents() == *final(r),
    {
        &mut self.value
    }
}

} // verus!
