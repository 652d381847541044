use vstd::prelude::*;

use crate::storage::Storage;
use core::marker::PhantomData;

verus! {

/// A contiguous, growable but bounded vector over caller-provided backing
/// storage.
///
/// The vector's capacity is the length of its storage and is fixed for the
/// vector's lifetime. Unlike the circular buffer it never overwrites: a push
/// into a full vector fails with a capacity-exceeded signal and leaves the
/// vector unchanged. Elements at positions below the length are the valid
/// ones, in insertion order; the slots beyond hold stale data that no read
/// view ever exposes.
pub struct Vec<T: Copy, A: Storage<T>> {
    _marker: PhantomData<T>,
    array: A,
    len: usize,
}

impl<T: Copy, A: Storage<T>> View for Vec<T, A> {
    type V = Seq<T>;

    /// The read view: the first `len` elements, in insertion order.
    closed spec fn view(&self) -> Seq<T> {
        self.array@.take(self.len as int)
    }
}

impl<T: Copy, A: Storage<T>> Vec<T, A> {
    /// The contents of every storage slot, the stale ones included.
    pub closed spec fn storage(&self) -> Seq<T> {
        self.array@
    }

    /// The fixed number of slots in the backing storage.
    pub closed spec fn spec_capacity(&self) -> nat {
        self.array@.len()
    }

    /// The number of valid elements.
    pub closed spec fn spec_len(&self) -> nat {
        self.len as nat
    }

    /// Structural invariant: the length never exceeds the capacity.
    pub open spec fn wf(&self) -> bool {
        self.spec_len() <= self.spec_capacity()
    }

    /// Creates a new empty vector using `array` as backing storage.
    pub fn new(array: A) -> (v: Self)
        ensures
            v.wf(),
            v@ == Seq::<T>::empty(),
            v.spec_len() == 0,
            v.spec_capacity() == array@.len(),
            v.storage() == array@,
    {
        let v = Vec { _marker: PhantomData, array, len: 0 };
        proof {
            assert(v@ =~= Seq::<T>::empty());
        }
        v
    }

    /// Returns the capacity of this vector.
    pub fn capacity(&self) -> (c: usize)
        ensures
            c == self.spec_capacity(),
    {
        self.array.length()
    }

    /// Appends `elem` to the back of the vector.
    ///
    /// Fails with a capacity-exceeded signal, leaving the vector unchanged,
    /// exactly when the vector is already full; otherwise the element lands
    /// at the end of the read view and the length grows by one.
    pub fn push(&mut self, elem: T) -> (r: Result<(), ()>)
        requires
            old(self).wf(),
        ensures
            final(self).wf(),
            final(self).spec_capacity() == old(self).spec_capacity(),
            r is Ok <==> old(self).spec_len() < old(self).spec_capacity(),
            r is Err ==> *final(self) == *old(self),
            r is Ok ==> final(self)@ == old(self)@.push(elem) && final(self).spec_len() == old(
                self,
            ).spec_len() + 1,
    {
        let cap = self.array.length();
        if self.len == cap {
            Err(())
        } else {
            self.array.write(self.len, elem);
            self.len = self.len + 1;
            proof {
                assert(self@ =~= old(self)@.push(elem));
            }
            Ok(())
        }
    }

    /// Removes the last element from this vector and returns it, or `None`
    /// if it is empty.
    ///
    /// Popping from an empty vector is a routine outcome, not an error: the
    /// vector is left unchanged. Otherwise the length shrinks by one and the
    /// former last element is returned; its storage slot keeps its old bit
    /// pattern but is no longer exposed by any read view.
    pub fn pop(&mut self) -> (r: Option<T>)
        requires
            old(self).wf(),
        ensures
            final(self).wf(),
            final(self).spec_capacity() == old(self).spec_capacity(),
            final(self).storage() == old(self).storage(),
            r is Some <==> old(self).spec_len() > 0,
            old(self).spec_len() == 0 ==> *final(self) == *old(self),
            old(self).spec_len() > 0 ==> r == Some(old(self)@.last()) && final(self)@ == old(
                self,
            )@.drop_last() && final(self).spec_len() == old(self).spec_len() - 1,
    {
        if self.len == 0 {
            None
        } else {
            self.len = self.len - 1;
            let r = self.array.read(self.len);
            proof {
                assert(self@ =~= old(self)@.drop_last());
            }
            Some(r)
        }
    }

    /// The read view: the valid elements, oldest first, in insertion order.
    pub fn as_slice(&self) -> (s: &[T])
        requires
            self.wf(),
        ensures
            s@ == self@,
    {
        let whole = self.array.borrow_slice();
        vstd::slice::slice_subrange(whole, 0, self.len)
    }
}

/// LIFO round trip: appending an element to a sequence and then dropping the
/// last element restores the sequence, and the last element of the extended
/// sequence is the one appended. Together with the contracts of `push` and
/// `pop`, this says a successful push followed by a pop returns the pushed
/// element and brings the read view and length back to their prior values.
pub proof fn lemma_push_pop_round_trip<T>(s: Seq<T>, x: T)
    ensures
        s.push(x).last() == x,
        s.push(x).drop_last() == s,
{
    assert(s.push(x).drop_last() =~= s);
}

} // verus!
