use vstd::prelude::*;

verus! {

/// Backing storage for the fixed-capacity containers.
///
/// A storage value is a contiguous region holding a fixed number of elements;
/// the containers index into it but never allocate, free or resize it. The
/// region's contents are abstracted as a `Seq<T>` through the `View` trait,
/// and every operation below preserves the region's length, so the capacity a
/// container derives from its storage is fixed for the container's lifetime.
///
/// Elements must be plain copyable values: the containers move them in and out
/// by value and never run any per-element cleanup.
pub trait Storage<T: Copy>: View<V = Seq<T>> + Sized {
    /// The fixed number of slots in this storage region.
    fn length(&self) -> (n: usize)
        ensures
            n == self@.len(),
    ;

    /// Copies the element out of slot `i`.
    fn read(&self, i: usize) -> (r: T)
        requires
            i < self@.len(),
        ensures
            r == self@[i as int],
    ;

    /// Overwrites slot `i` with `v`, leaving every other slot unchanged.
    fn write(&mut self, i: usize, v: T)
        requires
            i < old(self)@.len(),
        ensures
            final(self)@ == old(self)@.update(i as int, v),
    ;

    /// A read-only view of the whole region.
    fn borrow_slice(&self) -> (s: &[T])
        ensures
            s@ == self@,
    ;
}

impl<T: Copy, const N: usize> Storage<T> for [T; N] {
    fn length(&self) -> (n: usize) {
        self.as_slice().len()
    }

    fn read(&self, i: usize) -> (r: T) {
        *vstd::array::array_index_get(self, i)
    }

    fn write(&mut self, i: usize, v: T) {
        self[i] = v;
    }

    fn borrow_slice(&self) -> (s: &[T]) {
        self.as_slice()
    }
}

impl<T: Copy> Storage<T> for std::vec::Vec<T> {
    fn length(&self) -> (n: usize) {
        self.len()
    }

    fn read(&self, i: usize) -> (r: T) {
        self[i]
    }

    fn write(&mut self, i: usize, v: T) {
        VecAdditionalExecFns::set(self, i, v);
    }

    fn borrow_slice(&self) -> (s: &[T]) {
        self.as_slice()
    }
}

} // verus!
