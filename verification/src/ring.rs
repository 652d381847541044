use vstd::prelude::*;

use crate::storage::Storage;
use core::marker::PhantomData;

verus! {

/// A circular (ring) buffer over caller-provided backing storage.
///
/// The buffer's capacity is the length of its storage and is fixed for the
/// buffer's lifetime. A push never fails: once the buffer is full, each
/// further push overwrites the slot at the current write index, discarding
/// the oldest retained element. A zero-length storage region yields a
/// degenerate buffer on which push is a guaranteed no-op.
///
/// The read view exposes the `len` valid elements in storage order. Until
/// the buffer first fills, that is exactly insertion order (writes start at
/// slot zero and move forward); once the buffer has wrapped around, storage
/// order is no longer oldest-first. Callers needing strict chronological
/// order after wraparound must track the write index themselves.
pub struct CircularBuffer<T: Copy, A: Storage<T>> {
    _marker: PhantomData<T>,
    array: A,
    index: usize,
    len: usize,
}

impl<T: Copy, A: Storage<T>> View for CircularBuffer<T, A> {
    type V = Seq<T>;

    /// The read view: the `len` valid elements, in storage order.
    closed spec fn view(&self) -> Seq<T> {
        self.array@.take(self.len as int)
    }
}

impl<T: Copy, A: Storage<T>> CircularBuffer<T, A> {
    /// The contents of every storage slot, the stale ones included.
    pub closed spec fn storage(&self) -> Seq<T> {
        self.array@
    }

    /// The fixed number of slots in the backing storage.
    pub closed spec fn spec_capacity(&self) -> nat {
        self.array@.len()
    }

    /// How many elements have been retained (saturates at the capacity).
    pub closed spec fn spec_len(&self) -> nat {
        self.len as nat
    }

    /// The slot the next push will write into.
    pub closed spec fn write_index(&self) -> nat {
        self.index as nat
    }

    /// Structural invariant: the length never exceeds the capacity, and the
    /// write index stays in range; until the buffer first fills, the write
    /// index equals the length, so pushes fill slots zero onward in order.
    pub open spec fn wf(&self) -> bool {
        &&& self.spec_len() <= self.spec_capacity()
        &&& self.spec_len() < self.spec_capacity() ==> self.write_index() == self.spec_len()
        &&& self.spec_capacity() == 0 ==> self.write_index() == 0
        &&& self.spec_capacity() > 0 ==> self.write_index() < self.spec_capacity()
    }

    /// Creates a new empty circular buffer using `array` as backing storage.
    pub fn new(array: A) -> (buf: Self)
        ensures
            buf.wf(),
            buf@ == Seq::<T>::empty(),
            buf.spec_len() == 0,
            buf.write_index() == 0,
            buf.spec_capacity() == array@.len(),
            buf.storage() == array@,
    {
        let buf = CircularBuffer { _marker: PhantomData, array, index: 0, len: 0 };
        proof {
            assert(buf@ =~= Seq::<T>::empty());
        }
        buf
    }

    /// Returns the capacity of this buffer.
    pub fn capacity(&self) -> (c: usize)
        ensures
            c == self.spec_capacity(),
    {
        self.array.length()
    }

    /// Pushes `elem` into the buffer.
    ///
    /// This never fails: it writes `elem` into the slot at the current write
    /// index, overwriting whatever was there, advances the write index
    /// modulo the capacity, and increments the length unless the buffer is
    /// already full. On a zero-capacity buffer it is a no-op.
    pub fn push(&mut self, elem: T)
        requires
            old(self).wf(),
        ensures
            final(self).wf(),
            final(self).spec_capacity() == old(self).spec_capacity(),
            old(self).spec_capacity() == 0 ==> *final(self) == *old(self),
            old(self).spec_capacity() > 0 ==> {
                &&& final(self).storage() == old(self).storage().update(
                    old(self).write_index() as int,
                    elem,
                )
                &&& final(self).write_index() as int == (old(self).write_index() + 1) as int % (
                old(self).spec_capacity() as int)
                &&& final(self).spec_len() == if old(self).spec_len() < old(
                    self,
                ).spec_capacity() {
                    old(self).spec_len() + 1
                } else {
                    old(self).spec_len()
                }
            },
            old(self).spec_len() < old(self).spec_capacity() ==> final(self)@ == old(
                self,
            )@.push(elem),
            (old(self).spec_capacity() > 0 && old(self).spec_len() == old(self).spec_capacity())
                ==> final(self)@ == old(self)@.update(old(self).write_index() as int, elem),
    {
        let cap = self.array.length();
        if cap == 0 {
            return;
        }
        if self.len < cap {
            self.len = self.len + 1;
        }
        self.array.write(self.index, elem);
        proof {
            if old(self).index + 1 < cap {
                vstd::arithmetic::div_mod::lemma_small_mod((old(self).index + 1) as nat, cap as nat);
            }
        }
        self.index = (self.index + 1) % cap;
        proof {
            if old(self).spec_len() < old(self).spec_capacity() {
                assert(self@ =~= old(self)@.push(elem));
            } else {
                assert(self@ =~= old(self)@.update(old(self).write_index() as int, elem));
            }
        }
    }

    /// The read view: the valid elements, in storage order (see the type's
    /// documentation for how that relates to insertion order).
    pub fn as_slice(&self) -> (s: &[T])
        requires
            self.wf(),
        ensures
            s@ == self@,
    {
        let whole = self.array.borrow_slice();
        vstd::slice::slice_subrange(whole, 0, self.len)
    }
}

/// Overwriting one slot of a sequence changes exactly that slot: the length
/// is kept, the chosen slot holds the new element, and every other slot is
/// untouched. Together with the contract of `push`, this says a push into a
/// full buffer overwrites exactly the slot at the pre-push write index and
/// leaves the view length at the capacity.
pub proof fn lemma_update_changes_one_slot<T>(s: Seq<T>, i: int, x: T)
    requires
        0 <= i < s.len(),
    ensures
        s.update(i, x).len() == s.len(),
        s.update(i, x)[i] == x,
        forall|j: int| 0 <= j < s.len() && j != i ==> s.update(i, x)[j] == s[j],
{
}

} // verus!
