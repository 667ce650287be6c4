//! Access to native values: the dynamic array that the native library hands
//! out, and the two capabilities by which a wrapper type gives access to the
//! native value that it stands for.

use vstd::prelude::*;

verus! {

/// A dynamic array of the native library, seen from this side: the number of
/// elements in use, the number of slots allocated, and the buffer.
///
/// `data` stands for the pointer to the first element. `None` is the null
/// pointer; `Some` borrows the elements that can be read at the pointer, the
/// first of them first. The vector does not own its buffer and is only read.
pub struct ImVector<'a, T> {
    pub size: i32,
    pub capacity: i32,
    pub data: Option<&'a [T]>,
}

impl<'a, T> View for ImVector<'a, T> {
    type V = Seq<T>;

    /// The elements of the vector: the first `size` elements of its buffer, and
    /// none where the pointer is null.
    open spec fn view(&self) -> Seq<T> {
        match self.data {
            Some(buffer) => buffer@.take(self.size as int),
            None => Seq::empty(),
        }
    }
}

impl<'a, T> ImVector<'a, T> {
    /// Whether the vector describes a buffer that can be viewed: the size is
    /// not negative and not above the capacity, the pointer is null only in a
    /// vector without elements, and the buffer holds the elements in use.
    pub open spec fn well_formed(&self) -> bool {
        &&& 0 <= self.size <= self.capacity
        &&& match self.data {
            Some(buffer) => self.size <= buffer@.len(),
            None => self.size == 0,
        }
    }

    /// Tells whether the vector is well formed.
    pub fn is_well_formed(&self) -> (ok: bool)
        ensures
            ok == self.well_formed(),
    {
        0 <= self.size && self.size <= self.capacity && match self.data {
            Some(buffer) => self.size as usize <= buffer.len(),
            None => self.size == 0,
        }
    }

    /// Returns the elements of the vector as a slice of its buffer, without
    /// copying them.
    ///
    /// A vector of size 0 with a null pointer gives the empty slice.
    pub fn as_slice(&self) -> (elements: &'a [T])
        requires
            self.well_formed(),
        ensures
            elements@ == self@,
            elements@.len() == self.size,
    {
        match self.data {
            Some(buffer) => &buffer[0..self.size as usize],
            None => &[],
        }
    }
}

/// Marks a type as a transparent wrapper over a raw type
///
/// The wrapper holds a raw value and lends it out. A mutable loan goes past
/// whatever the wrapper would otherwise keep true of the value.
pub trait RawWrapper {
    /// Wrapped raw type
    type Raw;

    /// The raw value that the wrapper holds.
    ///
    /// A verified implementation says which value that is. The default says
    /// nothing: it is there so that an implementation in plain Rust has only
    /// the two methods to write.
    open spec fn spec_raw(&self) -> Self::Raw {
        arbitrary()
    }

    /// Returns an immutable reference to the wrapped raw value
    fn raw(&self) -> (raw: &Self::Raw)
        ensures
            *raw == self.spec_raw(),
    ;

    /// Returns a mutable reference to the wrapped raw value
    ///
    /// What is written through the reference is the raw value that the wrapper
    /// holds afterwards.
    fn raw_mut(&mut self) -> (raw: &mut Self::Raw)
        ensures
            *raw == old(self).spec_raw(),
            final(self).spec_raw() == *final(raw),
    ;
}

/// Casting from/to a raw type that has the same layout and alignment as the target type
///
/// A value of the implementing type and a value of `T` are two readings of the
/// same memory, and the implementing type adds nothing to it: a value is known
/// by its raw reading, so that the casts to the raw type and from it undo each
/// other. The methods say what each reading is in terms of the other; that the
/// two types do have the same layout is the promise of the implementation,
/// which nothing here can test.
pub trait RawCast<T>: Sized {
    /// The raw value that this value is when read as a `T`.
    ///
    /// A verified implementation says which value that is. The default says
    /// nothing: it is there so that an implementation in plain Rust has only
    /// the four methods to write.
    open spec fn spec_raw(&self) -> T {
        arbitrary()
    }

    /// Reads a raw value as a `Self`: the one value of `Self` whose raw reading
    /// is `raw`.
    fn from_raw(raw: &T) -> (wrapper: &Self)
        ensures
            wrapper.spec_raw() == *raw,
            forall|other: Self| #[trigger] other.spec_raw() == *raw ==> other == *wrapper,
    ;

    /// Reads a raw value as a `Self`, for writing: the result is the one value
    /// of `Self` whose raw reading is `raw`, and what is written through it is
    /// written to the raw value.
    fn from_raw_mut(raw: &mut T) -> (wrapper: &mut Self)
        ensures
            wrapper.spec_raw() == *old(raw),
            forall|other: Self| #[trigger] other.spec_raw() == *old(raw) ==> other == *wrapper,
            *final(raw) == final(wrapper).spec_raw(),
    ;

    /// Reads this value as a `T`. No other value of `Self` has that reading.
    fn raw(&self) -> (raw: &T)
        ensures
            *raw == self.spec_raw(),
            forall|other: Self| #[trigger] other.spec_raw() == *raw ==> other == *self,
    ;

    /// Reads this value as a `T`, for writing: what is written through the
    /// result is written to this value, which is afterwards the one value of
    /// `Self` whose raw reading is what was written.
    fn raw_mut(&mut self) -> (raw: &mut T)
        ensures
            *raw == old(self).spec_raw(),
            final(self).spec_raw() == *final(raw),
            forall|other: Self| #[trigger] other.spec_raw() == *final(raw) ==> other == *final(self),
    ;
}

/// A raw value that is cast to a wrapper type and back is the raw value it was:
/// whatever `from_raw` gives for `raw`, and whatever `raw` then gives for that
/// wrapper, the last is equal to the first.
pub proof fn lemma_raw_cast_round_trip<T, W: RawCast<T>>(raw: &T, wrapper: &W, back: &T)
    requires
        call_ensures(W::from_raw, (raw,), wrapper),
        call_ensures(W::raw, (wrapper,), back),
    ensures
        *back == *raw,
{
}

/// A wrapper that is cast to its raw type and back is the wrapper it was:
/// whatever `raw` gives for `wrapper`, and whatever `from_raw` then gives for
/// that raw value, the last is equal to the first.
pub proof fn lemma_raw_cast_round_trip_back<T, W: RawCast<T>>(wrapper: &W, raw: &T, back: &W)
    requires
        call_ensures(W::raw, (wrapper,), raw),
        call_ensures(W::from_raw, (raw,), back),
    ensures
        *back == *wrapper,
{
}

} // verus!
