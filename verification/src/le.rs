//! Integers that were stored little-endian, held as native values.

use vstd::prelude::*;

verus! {

/// A 64-bit value taken from a little-endian source.
#[derive(Clone, Copy, Debug, PartialEq, Eq, PartialOrd, Ord, Hash)]
pub struct U64(u64);

/// A 32-bit value taken from a little-endian source.
#[derive(Clone, Copy, Debug, PartialEq, Eq, PartialOrd, Ord, Hash)]
pub struct U32(u32);

/// A 16-bit value taken from a little-endian source.
#[derive(Clone, Copy, Debug, PartialEq, Eq, PartialOrd, Ord, Hash)]
pub struct U16(u16);

impl View for U64 {
    type V = u64;

    /// The native value that the wrapper stands for.
    closed spec fn view(&self) -> u64 {
        self.0
    }
}

impl View for U32 {
    type V = u32;

    /// The native value that the wrapper stands for.
    closed spec fn view(&self) -> u32 {
        self.0
    }
}

impl View for U16 {
    type V = u16;

    /// The native value that the wrapper stands for.
    closed spec fn view(&self) -> u16 {
        self.0
    }
}

impl U64 {
    /// The wrapper that stands for `i`.
    pub closed spec fn spec_new(i: u64) -> Self {
        U64(i)
    }

    /// Wraps a native value.
    #[verifier::when_used_as_spec(spec_new)]
    pub fn new(i: u64) -> (r: Self)
        ensures
            r == Self::spec_new(i),
            r@ == i,
    {
        U64(i)
    }

    /// The native value.
    pub fn get(self) -> (r: u64)
        ensures
            r == self@,
    {
        self.0
    }
}

impl U32 {
    /// The wrapper that stands for `i`.
    pub closed spec fn spec_new(i: u32) -> Self {
        U32(i)
    }

    /// Wraps a native value.
    #[verifier::when_used_as_spec(spec_new)]
    pub fn new(i: u32) -> (r: Self)
        ensures
            r == Self::spec_new(i),
            r@ == i,
    {
        U32(i)
    }

    /// The native value.
    pub fn get(self) -> (r: u32)
        ensures
            r == self@,
    {
        self.0
    }
}

impl U16 {
    /// The wrapper that stands for `i`.
    pub closed spec fn spec_new(i: u16) -> Self {
        U16(i)
    }

    /// Wraps a native value.
    #[verifier::when_used_as_spec(spec_new)]
    pub fn new(i: u16) -> (r: Self)
        ensures
            r == Self::spec_new(i),
            r@ == i,
    {
        U16(i)
    }

    /// The native value.
    pub fn get(self) -> (r: u16)
        ensures
            r == self@,
    {
        self.0
    }
}

/// Reading back what was wrapped gives the value that went in.
pub broadcast proof fn lemma_u64_get_new(i: u64)
    ensures
        (#[trigger] U64::spec_new(i))@ == i,
{
}

/// A wrapper is determined by the value it stands for.
pub broadcast proof fn lemma_u64_new_get(x: U64)
    ensures
        U64::spec_new(#[trigger] x@) == x,
{
}

/// Reading back what was wrapped gives the value that went in.
pub broadcast proof fn lemma_u32_get_new(i: u32)
    ensures
        (#[trigger] U32::spec_new(i))@ == i,
{
}

/// A wrapper is determined by the value it stands for.
pub broadcast proof fn lemma_u32_new_get(x: U32)
    ensures
        U32::spec_new(#[trigger] x@) == x,
{
}

/// Reading back what was wrapped gives the value that went in.
pub broadcast proof fn lemma_u16_get_new(i: u16)
    ensures
        (#[trigger] U16::spec_new(i))@ == i,
{
}

/// A wrapper is determined by the value it stands for.
pub broadcast proof fn lemma_u16_new_get(x: U16)
    ensures
        U16::spec_new(#[trigger] x@) == x,
{
}

pub broadcast group group_le {
    lemma_u64_get_new,
    lemma_u64_new_get,
    lemma_u32_get_new,
    lemma_u32_new_get,
    lemma_u16_get_new,
    lemma_u16_new_get,
}

} // verus!
