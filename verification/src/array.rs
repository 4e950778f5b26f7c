//! Bulk value containers at the binding boundary: the native integer
//! array with its borrowed slice views, the native vector of reals, and
//! the ABI-sensitive real-number alias.
#![allow(unused_imports)]
use vstd::prelude::*;

use crate::runtime::{NativeLib, RawHandle};

verus! {

/// One number of the precision the native library was built with,
/// carried across the boundary as its raw bit pattern.  The binding
/// never computes with it; it only threads it through, so the
/// ABI-relevant precision option decides its meaning, not this crate.
#[derive(Clone, Copy, Debug, PartialEq, Eq, Structural)]
pub struct Real {
    pub bits: u64,
}

impl Real {
    /// Wraps a raw bit pattern.
    pub fn from_bits(bits: u64) -> (r: Real)
        ensures
            r.bits == bits,
    {
        Real { bits }
    }

    /// The raw bit pattern.
    pub fn bits(&self) -> (r: u64)
        ensures
            r == self.bits,
    {
        self.bits
    }
}

/// An owning handle to a native vector of reals.  The binding tracks
/// its identity, its length, and how many times a native call has
/// overwritten it.
pub struct Vector {
    pub raw: RawHandle,
    pub len: usize,
    pub writes: u64,
}

impl Vector {
    /// Constructs an empty native vector, owned exclusively by the
    /// returned handle.
    pub fn new(lib: &mut NativeLib) -> (r: Vector)
        requires
            old(lib).next_id < u64::MAX,
        ensures
            r.raw.id == old(lib).next_id,
            r.len == 0,
            r.writes == 0,
            final(lib).next_id == old(lib).next_id + 1,
            final(lib).destroy_log == old(lib).destroy_log,
    {
        let raw = lib.fresh_handle();
        Vector { raw, len: 0, writes: 0 }
    }

    /// Destroys the native vector: consumes the one owning handle and
    /// records exactly one destruction of its identity.
    pub fn destroy(self, lib: &mut NativeLib)
        ensures
            final(lib).destroy_log@ == old(lib).destroy_log@.push(self.raw.id),
            final(lib).next_id == old(lib).next_id,
    {
        let Vector { raw, len: _, writes: _ } = self;
        lib.record_destroy(raw);
    }
}

/// An owning handle to a native array of integers, with its contents
/// mirrored as plain values.
pub struct ArrayInt {
    pub raw: RawHandle,
    pub data: Vec<i32>,
}

impl ArrayInt {
    /// Constructs an empty native integer array.
    pub fn new(lib: &mut NativeLib) -> (r: ArrayInt)
        requires
            old(lib).next_id < u64::MAX,
        ensures
            r.raw.id == old(lib).next_id,
            r.data@ == Seq::<i32>::empty(),
            final(lib).next_id == old(lib).next_id + 1,
            final(lib).destroy_log == old(lib).destroy_log,
    {
        let raw = lib.fresh_handle();
        let data: Vec<i32> = Vec::new();
        proof {
            assert(data@ =~= Seq::<i32>::empty());
        }
        ArrayInt { raw, data }
    }

    /// Constructs a native integer array of `len` zero-initialized
    /// entries.
    pub fn with_len(lib: &mut NativeLib, len: usize) -> (r: ArrayInt)
        requires
            old(lib).next_id < u64::MAX,
        ensures
            r.raw.id == old(lib).next_id,
            r.data@ == Seq::new(len as nat, |i: int| 0i32),
            final(lib).next_id == old(lib).next_id + 1,
            final(lib).destroy_log == old(lib).destroy_log,
    {
        let raw = lib.fresh_handle();
        let data: Vec<i32> = vec![0i32; len];
        proof {
            assert(data@ =~= Seq::new(len as nat, |i: int| 0i32));
        }
        ArrayInt { raw, data }
    }

    /// Overwrites every entry with `value`, as one bulk write.
    pub fn set_all(&mut self, value: i32)
        ensures
            final(self).data@ == Seq::new(old(self).data@.len(), |i: int| value),
            final(self).raw == old(self).raw,
    {
        let n = self.data.len();
        let mut i: usize = 0;
        while i < n
            invariant
                n == self.data@.len(),
                0 <= i <= n,
                self.raw == old(self).raw,
                forall|j: int| 0 <= j < i ==> self.data@[j] == value,
                forall|j: int| i <= j < n ==> self.data@[j] == old(self).data@[j],
            decreases n - i,
        {
            self.data[i] = value;
            i += 1;
        }
        proof {
            assert(self.data@ =~= Seq::new(old(self).data@.len(), |i: int| value));
        }
    }

    /// The whole contents, as a mutable slice: bulk write access.
    pub fn as_slice_mut(&mut self) -> (r: &mut [i32])
        ensures
            r@ == old(self).data@,
            final(self).data@ == final(r)@,
            final(self).raw == old(self).raw,
    {
        self.data.as_mut_slice()
    }

    /// A borrowed, non-owning view of this array.
    pub fn as_array_ref(&self) -> (r: ArrayIntRef<'_>)
        ensures
            r.inner == self,
    {
        ArrayIntRef { inner: self }
    }

    /// Destroys the native array: consumes the one owning handle and
    /// records exactly one destruction of its identity.
    pub fn destroy(self, lib: &mut NativeLib)
        ensures
            final(lib).destroy_log@ == old(lib).destroy_log@.push(self.raw.id),
            final(lib).next_id == old(lib).next_id,
    {
        let ArrayInt { raw, data: _ } = self;
        lib.record_destroy(raw);
    }
}

/// A borrowed reference to a native integer array: never destroys, and
/// never outlives the owning handle it was derived from.
pub struct ArrayIntRef<'a> {
    pub inner: &'a ArrayInt,
}

impl<'a> ArrayIntRef<'a> {
    /// The whole contents, as a read-only slice: bulk read access.
    pub fn as_slice(&self) -> (r: &[i32])
        ensures
            r@ == self.inner.data@,
    {
        self.inner.data.as_slice()
    }

    /// A by-value snapshot of the contents, in order, for iteration.
    pub fn iter(&self) -> (r: Vec<i32>)
        ensures
            r@ == self.inner.data@,
    {
        let mut out: Vec<i32> = Vec::new();
        let mut i: usize = 0;
        while i < self.inner.data.len()
            invariant
                0 <= i <= self.inner.data@.len(),
                out@ == self.inner.data@.take(i as int),
            decreases self.inner.data@.len() - i,
        {
            out.push(self.inner.data[i]);
            proof {
                assert(out@ =~= self.inner.data@.take(i + 1));
            }
            i += 1;
        }
        proof {
            assert(self.inner.data@.take(self.inner.data@.len() as int) =~= self.inner.data@);
        }
        out
    }
}

} // verus!
