//! DDS sequences: an owned run of elements, unbounded or with a bound that
//! is part of the type.
use vstd::prelude::*;
use vstd::std_specs::iter::IteratorSpec;
use crate::bigint::{ascii_chars, decimal_bytes, u64_to_decimal_str};
use crate::error::{DdsError, DdsResult};
use crate::topic::{
    OP_FLAG_SGN, SUBTYPE_1BY, SUBTYPE_2BY, SUBTYPE_4BY, SUBTYPE_8BY, TYPE_SEQ,
};

verus! {

/// An element type of a DDS sequence, with the typecode of the sequence
/// member that holds it.
pub trait DdsSequenceElement: Clone + Sized {
    fn sequence_typecode() -> u32;
}

impl DdsSequenceElement for i8 {
    fn sequence_typecode() -> (r: u32)
        ensures
            r == TYPE_SEQ | SUBTYPE_1BY | OP_FLAG_SGN,
    {
        TYPE_SEQ | SUBTYPE_1BY | OP_FLAG_SGN
    }
}

impl DdsSequenceElement for u8 {
    fn sequence_typecode() -> (r: u32)
        ensures
            r == TYPE_SEQ | SUBTYPE_1BY,
    {
        TYPE_SEQ | SUBTYPE_1BY
    }
}

impl DdsSequenceElement for i16 {
    fn sequence_typecode() -> (r: u32)
        ensures
            r == TYPE_SEQ | SUBTYPE_2BY | OP_FLAG_SGN,
    {
        TYPE_SEQ | SUBTYPE_2BY | OP_FLAG_SGN
    }
}

impl DdsSequenceElement for u16 {
    fn sequence_typecode() -> (r: u32)
        ensures
            r == TYPE_SEQ | SUBTYPE_2BY,
    {
        TYPE_SEQ | SUBTYPE_2BY
    }
}

impl DdsSequenceElement for i32 {
    fn sequence_typecode() -> (r: u32)
        ensures
            r == TYPE_SEQ | SUBTYPE_4BY | OP_FLAG_SGN,
    {
        TYPE_SEQ | SUBTYPE_4BY | OP_FLAG_SGN
    }
}

impl DdsSequenceElement for u32 {
    fn sequence_typecode() -> (r: u32)
        ensures
            r == TYPE_SEQ | SUBTYPE_4BY,
    {
        TYPE_SEQ | SUBTYPE_4BY
    }
}

impl DdsSequenceElement for i64 {
    fn sequence_typecode() -> (r: u32)
        ensures
            r == TYPE_SEQ | SUBTYPE_8BY | OP_FLAG_SGN,
    {
        TYPE_SEQ | SUBTYPE_8BY | OP_FLAG_SGN
    }
}

impl DdsSequenceElement for u64 {
    fn sequence_typecode() -> (r: u32)
        ensures
            r == TYPE_SEQ | SUBTYPE_8BY,
    {
        TYPE_SEQ | SUBTYPE_8BY
    }
}

impl DdsSequenceElement for bool {
    fn sequence_typecode() -> (r: u32)
        ensures
            r == TYPE_SEQ | SUBTYPE_1BY,
    {
        TYPE_SEQ | SUBTYPE_1BY
    }
}

/// Element-wise copies: each element of `b` is a clone of the element of
/// `a` at the same position.
pub open spec fn all_cloned<T: Clone>(a: Seq<T>, b: Seq<T>) -> bool {
    &&& b.len() == a.len()
    &&& forall|i: int| 0 <= i < a.len() ==> cloned(a[i], #[trigger] b[i])
}

/// Where cloning a `T` gives back an equal value (as for the integer and
/// `bool` element types), element-wise copies are exact: a sequence made by
/// `from_slice` holds exactly the slice's elements, in order, and `to_vec`
/// (or `clone`) of it gives them back.
pub proof fn law_exact_clones_round_trip<T: Clone>(v: Seq<T>, s: Seq<T>, r: Seq<T>)
    requires
        forall|a: T, b: T| #[trigger] cloned(a, b) ==> a == b,
        all_cloned(v, s),
        all_cloned(s, r),
    ensures
        s == v,
        r == v,
{
    assert forall|i: int| 0 <= i < v.len() implies s[i] == v[i] by {
        assert(cloned(v[i], s[i]));
    }
    assert(s =~= v);
    assert forall|i: int| 0 <= i < s.len() implies r[i] == s[i] by {
        assert(cloned(s[i], r[i]));
    }
    assert(r =~= s);
}

/// Clones the elements of a slice into a new vector.
fn clone_elements<T: Clone>(values: &[T]) -> (r: Vec<T>)
    ensures
        all_cloned(values@, r@),
{
    let mut r: Vec<T> = Vec::new();
    let mut i: usize = 0;
    while i < values.len()
        invariant
            0 <= i <= values@.len(),
            r@.len() == i,
            forall|j: int| 0 <= j < i ==> cloned(values@[j], #[trigger] r@[j]),
        decreases values@.len() - i,
    {
        let x = values[i].clone();
        r.push(x);
        i += 1;
    }
    r
}

/// An unbounded DDS sequence.
#[derive(Debug, PartialEq, Eq)]
pub struct DdsSequence<T> {
    items: Vec<T>,
}

impl<T> View for DdsSequence<T> {
    type V = Seq<T>;

    closed spec fn view(&self) -> Seq<T> {
        self.items@
    }
}

impl<T> DdsSequence<T> {
    /// The empty sequence.
    pub fn new() -> (r: Self)
        ensures
            r@ == Seq::<T>::empty(),
    {
        DdsSequence { items: Vec::new() }
    }

    pub fn len(&self) -> (r: usize)
        ensures
            r == self@.len(),
    {
        self.items.len()
    }

    pub fn is_empty(&self) -> (r: bool)
        ensures
            r == (self@.len() == 0),
    {
        self.items.len() == 0
    }

    /// The elements, in order.
    pub fn as_slice(&self) -> (r: &[T])
        ensures
            r@ == self@,
    {
        self.items.as_slice()
    }

    /// An iterator over the elements, in order.
    pub fn iter(&self) -> (r: std::slice::Iter<'_, T>)
        ensures
            r.remaining() == self@.as_ref(),
    {
        let s = self.items.as_slice();
        let it = s.iter();
        proof {
            vstd::std_specs::slice::axiom_spec_slice_iter(s);
        }
        it
    }
}

impl<T: Clone> DdsSequence<T> {
    /// A sequence holding clones of the given values.
    pub fn from_slice(values: &[T]) -> (r: DdsResult<Self>)
        requires
            values@.len() <= u32::MAX,
        ensures
            r matches Ok(s) && all_cloned(values@, s@),
    {
        Ok(DdsSequence { items: clone_elements(values) })
    }

    /// Clones of the elements, in order.
    pub fn to_vec(&self) -> (r: Vec<T>)
        ensures
            all_cloned(self@, r@),
    {
        clone_elements(self.items.as_slice())
    }
}

impl<T> Default for DdsSequence<T> {
    fn default() -> (r: Self)
        ensures
            r@ == Seq::<T>::empty(),
    {
        DdsSequence::new()
    }
}

impl<T: Clone> Clone for DdsSequence<T> {
    fn clone(&self) -> (r: Self)
        ensures
            all_cloned(self@, r@),
    {
        DdsSequence { items: clone_elements(self.items.as_slice()) }
    }
}

/// The message of a refused bounded sequence:
/// `bounded DDS sequence capacity exceeded: len=<len> bound=<bound>`.
pub open spec fn capacity_exceeded_text(len: nat, bound: nat) -> Seq<char> {
    "bounded DDS sequence capacity exceeded: len="@ + ascii_chars(decimal_bytes(len))
        + " bound="@ + ascii_chars(decimal_bytes(bound))
}

/// A DDS sequence of at most `N` elements.
#[derive(Debug, PartialEq, Eq)]
pub struct DdsBoundedSequence<T, const N: usize> {
    items: Vec<T>,
}

impl<T, const N: usize> View for DdsBoundedSequence<T, N> {
    type V = Seq<T>;

    closed spec fn view(&self) -> Seq<T> {
        self.items@
    }
}

impl<T, const N: usize> DdsBoundedSequence<T, N> {
    /// The empty sequence.
    pub fn new() -> (r: Self)
        ensures
            r@ == Seq::<T>::empty(),
    {
        DdsBoundedSequence { items: Vec::new() }
    }

    pub fn len(&self) -> (r: usize)
        ensures
            r == self@.len(),
    {
        self.items.len()
    }

    pub fn is_empty(&self) -> (r: bool)
        ensures
            r == (self@.len() == 0),
    {
        self.items.len() == 0
    }

    /// The elements, in order.
    pub fn as_slice(&self) -> (r: &[T])
        ensures
            r@ == self@,
    {
        self.items.as_slice()
    }

    /// An iterator over the elements, in order.
    pub fn iter(&self) -> (r: std::slice::Iter<'_, T>)
        ensures
            r.remaining() == self@.as_ref(),
    {
        let s = self.items.as_slice();
        let it = s.iter();
        proof {
            vstd::std_specs::slice::axiom_spec_slice_iter(s);
        }
        it
    }
}

impl<T: Clone, const N: usize> DdsBoundedSequence<T, N> {
    /// A sequence holding clones of the given values; refused with
    /// `BadParameter` when there are more than `N` of them.
    pub fn from_slice(values: &[T]) -> (r: DdsResult<Self>)
        ensures
            values@.len() <= N ==> (r matches Ok(s) && all_cloned(values@, s@)),
            values@.len() > N ==> (r matches Err(DdsError::BadParameter(m)) && m@
                == capacity_exceeded_text(values@.len(), N as nat)),
    {
        if values.len() > N {
            let mut m = "bounded DDS sequence capacity exceeded: len=".to_owned();
            m.append(u64_to_decimal_str(values.len() as u64).as_str());
            m.append(" bound=");
            m.append(u64_to_decimal_str(N as u64).as_str());
            return Err(DdsError::BadParameter(m));
        }
        Ok(DdsBoundedSequence { items: clone_elements(values) })
    }

    /// Clones of the elements, in order.
    pub fn to_vec(&self) -> (r: Vec<T>)
        ensures
            all_cloned(self@, r@),
    {
        clone_elements(self.items.as_slice())
    }
}

impl<T, const N: usize> Default for DdsBoundedSequence<T, N> {
    fn default() -> (r: Self)
        ensures
            r@ == Seq::<T>::empty(),
    {
        DdsBoundedSequence::new()
    }
}

impl<T: Clone, const N: usize> Clone for DdsBoundedSequence<T, N> {
    fn clone(&self) -> (r: Self)
        ensures
            all_cloned(self@, r@),
    {
        DdsBoundedSequence { items: clone_elements(self.items.as_slice()) }
    }
}

} // verus!
