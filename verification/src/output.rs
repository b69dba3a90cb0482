//! The structured result of decoding a textual hash.

use vstd::prelude::*;

use crate::config::Variant;
use crate::config::Version;

verus! {

/// The mathematical content of a [`HashRaw`]: every parameter as a plain
/// value and the two blobs as byte sequences.
pub ghost struct HashRawSpec {
    pub variant: Variant,
    pub version: Version,
    pub memory_size: u32,
    pub iterations: u32,
    pub lanes: u32,
    pub raw_salt_bytes: Seq<u8>,
    pub raw_hash_bytes: Seq<u8>,
}

/// A decoded hash record: variant, version, the three numeric costs, and
/// the raw salt and hash bytes. Immutable once constructed.
#[derive(Clone, Debug, PartialEq, Eq)]
pub struct HashRaw {
    pub iterations: u32,
    pub lanes: u32,
    pub memory_size: u32,
    pub raw_hash_bytes: Vec<u8>,
    pub raw_salt_bytes: Vec<u8>,
    pub variant: Variant,
    pub version: Version,
}

impl View for HashRaw {
    type V = HashRawSpec;

    open spec fn view(&self) -> HashRawSpec {
        HashRawSpec {
            variant: self.variant,
            version: self.version,
            memory_size: self.memory_size,
            iterations: self.iterations,
            lanes: self.lanes,
            raw_salt_bytes: self.raw_salt_bytes@,
            raw_hash_bytes: self.raw_hash_bytes@,
        }
    }
}

impl HashRaw {
    pub fn new(
        iterations: u32,
        lanes: u32,
        memory_size: u32,
        raw_hash_bytes: Vec<u8>,
        raw_salt_bytes: Vec<u8>,
        variant: Variant,
        version: Version,
    ) -> (r: HashRaw)
        ensures
            r@ == (HashRawSpec {
                variant,
                version,
                memory_size,
                iterations,
                lanes,
                raw_salt_bytes: raw_salt_bytes@,
                raw_hash_bytes: raw_hash_bytes@,
            }),
    {
        HashRaw { iterations, lanes, memory_size, raw_hash_bytes, raw_salt_bytes, variant, version }
    }

    pub fn iterations(&self) -> (r: u32)
        ensures
            r == self@.iterations,
    {
        self.iterations
    }

    pub fn lanes(&self) -> (r: u32)
        ensures
            r == self@.lanes,
    {
        self.lanes
    }

    pub fn memory_size(&self) -> (r: u32)
        ensures
            r == self@.memory_size,
    {
        self.memory_size
    }

    pub fn raw_hash_bytes(&self) -> (r: &[u8])
        ensures
            r@ == self@.raw_hash_bytes,
    {
        self.raw_hash_bytes.as_slice()
    }

    pub fn raw_salt_bytes(&self) -> (r: &[u8])
        ensures
            r@ == self@.raw_salt_bytes,
    {
        self.raw_salt_bytes.as_slice()
    }

    pub fn variant(&self) -> (r: Variant)
        ensures
            r == self@.variant,
    {
        self.variant
    }

    pub fn version(&self) -> (r: Version)
        ensures
            r == self@.version,
    {
        self.version
    }
}

} // verus!
