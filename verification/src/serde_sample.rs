//! A DDS sample that carries a serialized payload as a byte sequence.
//!
//! The payload is produced and read by a serializer outside this module;
//! here the sample is the bytes, their wire form, and the type's op stream.
use vstd::prelude::*;
use std::marker::PhantomData;
use crate::sequence::{all_cloned, DdsSequence};
use crate::topic::{DdsType, OP_ADR, OP_RTS, SUBTYPE_1BY, TYPE_SEQ};

verus! {

/// The DDS type name that a payload type announces. Peers match topics on
/// it, so it is chosen by hand (scoped, and versioned where the shape may
/// change), not derived from the Rust type.
pub trait SerdeTypeName {
    const TYPE_NAME: &'static str;
}

/// A DDS sample holding the serialized form of a `T`.
#[derive(Debug, PartialEq, Eq)]
pub struct SerdeSample<T> {
    payload: Vec<u8>,
    _marker: PhantomData<T>,
}

impl<T> View for SerdeSample<T> {
    type V = Seq<u8>;

    closed spec fn view(&self) -> Seq<u8> {
        self.payload@
    }
}

/// The wire form of a [`SerdeSample`]: one DDS byte sequence.
pub struct SerdeSampleNative {
    pub payload: DdsSequence<u8>,
}

impl<T> SerdeSample<T> {
    /// A sample holding an already serialized payload.
    pub fn from_payload(payload: Vec<u8>) -> (r: Self)
        ensures
            r@ == payload@,
    {
        SerdeSample { payload, _marker: PhantomData }
    }

    /// The serialized payload.
    pub fn as_bytes(&self) -> (r: &[u8])
        ensures
            r@ == self@,
    {
        self.payload.as_slice()
    }

    /// The wire form of this sample.
    pub fn to_native(&self) -> (r: SerdeSampleNative)
        requires
            self@.len() <= u32::MAX,
        ensures
            r.payload@ == self@,
    {
        let seq = DdsSequence::from_slice(self.payload.as_slice());
        match seq {
            Ok(s) => {
                assert(s@ =~= self@);
                SerdeSampleNative { payload: s }
            },
            Err(_) => SerdeSampleNative { payload: DdsSequence::new() },
        }
    }

    /// The sample that a wire form holds.
    pub fn from_native(native: &SerdeSampleNative) -> (r: Self)
        ensures
            r@ == native.payload@,
    {
        let bytes = native.payload.to_vec();
        assert(bytes@ =~= native.payload@);
        SerdeSample { payload: bytes, _marker: PhantomData }
    }
}

impl<T> Clone for SerdeSample<T> {
    fn clone(&self) -> (r: Self)
        ensures
            r@ == self@,
    {
        SerdeSample { payload: self.payload.clone(), _marker: PhantomData }
    }
}

/// The op stream of a serialized sample: one byte sequence at offset 0.
pub fn serde_sample_ops() -> (r: Vec<u32>)
    ensures
        r@ == seq![OP_ADR | TYPE_SEQ | SUBTYPE_1BY, 0u32, OP_RTS],
{
    let mut r: Vec<u32> = Vec::new();
    r.push(OP_ADR | TYPE_SEQ | SUBTYPE_1BY);
    r.push(0);
    r.push(OP_RTS);
    r
}

impl<T: SerdeTypeName> DdsType for SerdeSample<T> {
    fn dds_type_name() -> (r: &'static str)
        ensures
            r@ == T::TYPE_NAME@,
    {
        T::TYPE_NAME
    }

    fn ops() -> (r: Vec<u32>)
        ensures
            r@ == seq![OP_ADR | TYPE_SEQ | SUBTYPE_1BY, 0u32, OP_RTS],
    {
        serde_sample_ops()
    }
}

} // verus!
