//! The parameter set of the hashing algorithm and its validation rules.
//!
//! Setters assign unconditionally; nothing is rejected while a caller is
//! still composing a configuration. [`HasherConfig::validate`] is the one
//! gate: it re-runs every validator over the assembled state and returns
//! the first violated invariant as a typed error.

use vstd::prelude::*;

use crate::errors::ConfigurationError;
use crate::pool::logical_core_count;
use futures_cpupool::CpuPool;

verus! {

/// The execution path used to run the memory-hard function.
#[derive(Clone, Copy, Debug, PartialEq, Eq, Structural)]
pub enum Backend {
    C,
    Rust,
}

/// The three hashing modes of the algorithm family.
#[derive(Clone, Copy, Debug, PartialEq, Eq, Structural)]
pub enum Variant {
    Argon2d,
    Argon2i,
    Argon2id,
}

/// The two legal algorithm revisions.
#[derive(Clone, Copy, Debug, PartialEq, Eq, Structural)]
pub enum Version {
    _0x10,
    _0x13,
}

pub const DEFAULT_HASH_LENGTH: u32 = 32;

pub const DEFAULT_ITERATIONS: u32 = 192;

pub const DEFAULT_MEMORY_SIZE: u32 = 4096;

pub const DEFAULT_PASSWORD_CLEARING: bool = false;

pub const DEFAULT_SECRET_KEY_CLEARING: bool = false;

pub const MAX_LANES: u32 = 0x00ff_ffff;

pub const MAX_THREADS: u32 = 0x00ff_ffff;

impl Version {
    /// The numeric value of this algorithm revision.
    pub fn as_u32(&self) -> (r: u32)
        ensures
            r == version_num(*self),
    {
        match *self {
            Version::_0x10 => 16,
            Version::_0x13 => 19,
        }
    }
}

/// The textual tag of a variant inside the canonical hash encoding.
pub open spec fn variant_tag(v: Variant) -> Seq<char> {
    match v {
        Variant::Argon2d => seq!['a', 'r', 'g', 'o', 'n', '2', 'd'],
        Variant::Argon2i => seq!['a', 'r', 'g', 'o', 'n', '2', 'i'],
        Variant::Argon2id => seq!['a', 'r', 'g', 'o', 'n', '2', 'i', 'd'],
    }
}

/// Which variant a textual tag names, if any.
pub open spec fn spec_variant_from_tag(s: Seq<char>) -> Option<Variant> {
    if s == variant_tag(Variant::Argon2d) {
        Some(Variant::Argon2d)
    } else if s == variant_tag(Variant::Argon2i) {
        Some(Variant::Argon2i)
    } else if s == variant_tag(Variant::Argon2id) {
        Some(Variant::Argon2id)
    } else {
        None
    }
}

/// The textual form of a version inside the canonical hash encoding.
pub open spec fn version_str(v: Version) -> Seq<char> {
    match v {
        Version::_0x10 => seq!['1', '6'],
        Version::_0x13 => seq!['1', '9'],
    }
}

/// No character of a variant tag is a `$`, so a tag never swallows the
/// delimiter that ends it.
pub proof fn lemma_variant_tag_chars(v: Variant)
    ensures
        forall|i: int| 0 <= i < variant_tag(v).len() ==> #[trigger] variant_tag(v)[i] != '$',
{
    let t = variant_tag(v);
    assert forall|i: int| 0 <= i < t.len() implies #[trigger] t[i] != '$' by {
        match v {
            Variant::Argon2d => {
                assert(t =~= seq!['a', 'r', 'g', 'o', 'n', '2', 'd']);
            },
            Variant::Argon2i => {
                assert(t =~= seq!['a', 'r', 'g', 'o', 'n', '2', 'i']);
            },
            Variant::Argon2id => {
                assert(t =~= seq!['a', 'r', 'g', 'o', 'n', '2', 'i', 'd']);
            },
        }
    }
}

/// The three tags are pairwise distinct, so a tag names its own variant.
pub proof fn lemma_variant_tag_roundtrip(v: Variant)
    ensures
        spec_variant_from_tag(variant_tag(v)) == Some(v),
{
    assert(variant_tag(Variant::Argon2d).len() == 7);
    assert(variant_tag(Variant::Argon2i).len() == 7);
    assert(variant_tag(Variant::Argon2id).len() == 8);
    assert(variant_tag(Variant::Argon2d)[6] == 'd');
    assert(variant_tag(Variant::Argon2i)[6] == 'i');
}

pub open spec fn version_num(v: Version) -> u32 {
    match v {
        Version::_0x10 => 16u32,
        Version::_0x13 => 19u32,
    }
}

/// Which revision a decoded number names, if any.
pub open spec fn spec_version_from_num(n: u32) -> Option<Version> {
    if n == 16 {
        Some(Version::_0x10)
    } else if n == 19 {
        Some(Version::_0x13)
    } else {
        None
    }
}

/// Maps a decoded number onto a [`Version`].
pub fn version_from_num(n: u32) -> (r: Option<Version>)
    ensures
        r == spec_version_from_num(n),
{
    if n == 16 {
        Some(Version::_0x10)
    } else if n == 19 {
        Some(Version::_0x13)
    } else {
        None
    }
}

pub open spec fn backend_ok(backend: Backend) -> bool {
    backend == Backend::C
}

pub open spec fn hash_length_ok(hash_length: u32) -> bool {
    hash_length >= 4
}

pub open spec fn iterations_ok(iterations: u32) -> bool {
    iterations >= 1
}

pub open spec fn lanes_ok(lanes: u32) -> bool {
    1 <= lanes <= MAX_LANES
}

pub open spec fn is_power_of_two(n: int) -> bool
    decreases n,
{
    if n <= 0 {
        false
    } else if n == 1 {
        true
    } else {
        n % 2 == 0 && is_power_of_two(n / 2)
    }
}

pub open spec fn memory_size_ok(lanes: u32, memory_size: u32) -> bool {
    memory_size >= 8 * lanes && is_power_of_two(memory_size as int)
}

pub open spec fn threads_ok(threads: u32) -> bool {
    1 <= threads <= MAX_THREADS
}

pub open spec fn spec_validate_backend(backend: Backend) -> Result<(), ConfigurationError> {
    if backend == Backend::C {
        Ok(())
    } else {
        Err(ConfigurationError::BackendUnsupportedError)
    }
}

pub open spec fn spec_validate_hash_length(hash_length: u32) -> Result<(), ConfigurationError> {
    if hash_length < 4 {
        Err(ConfigurationError::HashLengthTooShortError { hash_length })
    } else {
        Ok(())
    }
}

pub open spec fn spec_validate_iterations(iterations: u32) -> Result<(), ConfigurationError> {
    if iterations == 0 {
        Err(ConfigurationError::IterationsTooFewError { iterations })
    } else {
        Ok(())
    }
}

pub open spec fn spec_validate_lanes(lanes: u32) -> Result<(), ConfigurationError> {
    if lanes == 0 {
        Err(ConfigurationError::LanesTooFewError { lanes })
    } else if lanes > MAX_LANES {
        Err(ConfigurationError::LanesTooManyError { lanes })
    } else {
        Ok(())
    }
}

/// The "too small" check comes first on purpose: a memory size that is both
/// below `8 * lanes` and not a power of two reports "too small".
pub open spec fn spec_validate_memory_size(lanes: u32, memory_size: u32) -> Result<
    (),
    ConfigurationError,
> {
    if memory_size < 8 * lanes {
        Err(ConfigurationError::MemorySizeTooSmallError { lanes, memory_size })
    } else if !is_power_of_two(memory_size as int) {
        Err(ConfigurationError::MemorySizeInvalidError { memory_size })
    } else {
        Ok(())
    }
}

pub open spec fn spec_validate_threads(threads: u32) -> Result<(), ConfigurationError> {
    if threads == 0 {
        Err(ConfigurationError::ThreadsTooFewError { threads })
    } else if threads > MAX_THREADS {
        Err(ConfigurationError::ThreadsTooManyError { threads })
    } else {
        Ok(())
    }
}

/// Only the natively compiled backend is currently supported; the portable
/// one is rejected explicitly rather than silently substituted.
pub fn validate_backend(backend: Backend) -> (r: Result<(), ConfigurationError>)
    ensures
        r == spec_validate_backend(backend),
        r is Ok <==> backend_ok(backend),
{
    match backend {
        Backend::C => Ok(()),
        Backend::Rust => Err(ConfigurationError::BackendUnsupportedError),
    }
}

pub fn validate_hash_length(hash_length: u32) -> (r: Result<(), ConfigurationError>)
    ensures
        r == spec_validate_hash_length(hash_length),
        r is Ok <==> hash_length_ok(hash_length),
{
    if hash_length < 4 {
        Err(ConfigurationError::HashLengthTooShortError { hash_length })
    } else {
        Ok(())
    }
}

pub fn validate_iterations(iterations: u32) -> (r: Result<(), ConfigurationError>)
    ensures
        r == spec_validate_iterations(iterations),
        r is Ok <==> iterations_ok(iterations),
{
    if iterations == 0 {
        Err(ConfigurationError::IterationsTooFewError { iterations })
    } else {
        Ok(())
    }
}

pub fn validate_lanes(lanes: u32) -> (r: Result<(), ConfigurationError>)
    ensures
        r == spec_validate_lanes(lanes),
        r is Ok <==> lanes_ok(lanes),
{
    if lanes == 0 {
        Err(ConfigurationError::LanesTooFewError { lanes })
    } else if lanes > MAX_LANES {
        Err(ConfigurationError::LanesTooManyError { lanes })
    } else {
        Ok(())
    }
}

/// Decides whether `n` is a power of two by repeated halving.
fn check_power_of_two(n: u32) -> (r: bool)
    ensures
        r == is_power_of_two(n as int),
{
    if n == 0 {
        return false;
    }
    let mut m: u32 = n;
    while m > 1
        invariant
            m >= 1,
            is_power_of_two(n as int) == is_power_of_two(m as int),
        decreases m,
    {
        if m % 2 == 1 {
            return false;
        }
        m = m / 2;
    }
    true
}

pub fn validate_memory_size(lanes: u32, memory_size: u32) -> (r: Result<(), ConfigurationError>)
    ensures
        r == spec_validate_memory_size(lanes, memory_size),
        r is Ok <==> memory_size_ok(lanes, memory_size),
{
    if (memory_size as u64) < 8u64 * (lanes as u64) {
        return Err(ConfigurationError::MemorySizeTooSmallError { lanes, memory_size });
    }
    if !check_power_of_two(memory_size) {
        return Err(ConfigurationError::MemorySizeInvalidError { memory_size });
    }
    Ok(())
}

pub fn validate_threads(threads: u32) -> (r: Result<(), ConfigurationError>)
    ensures
        r == spec_validate_threads(threads),
        r is Ok <==> threads_ok(threads),
{
    if threads == 0 {
        Err(ConfigurationError::ThreadsTooFewError { threads })
    } else if threads > MAX_THREADS {
        Err(ConfigurationError::ThreadsTooManyError { threads })
    } else {
        Ok(())
    }
}

/// A memory size of zero is rejected as too small for every positive lane
/// count, before the power-of-two rule is even considered.
pub proof fn lemma_memory_size_zero_too_small(lanes: u32)
    requires
        lanes >= 1,
    ensures
        spec_validate_memory_size(lanes, 0) == Err::<(), ConfigurationError>(
            ConfigurationError::MemorySizeTooSmallError { lanes, memory_size: 0 },
        ),
{
}

/// The bitflag set handed to the hashing engine, derived from the two
/// clearing booleans.
#[derive(Clone, Copy, Debug, PartialEq, Eq, Structural)]
pub struct Flags {
    pub bits: u32,
}

pub const CLEAR_PASSWORD_BIT: u32 = 1;

pub const CLEAR_SECRET_KEY_BIT: u32 = 2;

/// The exact bit pattern `flags()` derives from the two clearing booleans.
pub open spec fn spec_flags_bits(password_clearing: bool, secret_key_clearing: bool) -> u32 {
    if password_clearing && secret_key_clearing {
        3u32
    } else if password_clearing {
        1u32
    } else if secret_key_clearing {
        2u32
    } else {
        0u32
    }
}

impl Flags {
    pub fn empty() -> (r: Flags)
        ensures
            r.bits == 0,
    {
        Flags { bits: 0 }
    }

    pub fn clear_password() -> (r: Flags)
        ensures
            r.bits == CLEAR_PASSWORD_BIT,
    {
        Flags { bits: CLEAR_PASSWORD_BIT }
    }

    pub fn clear_secret_key() -> (r: Flags)
        ensures
            r.bits == CLEAR_SECRET_KEY_BIT,
    {
        Flags { bits: CLEAR_SECRET_KEY_BIT }
    }

    pub fn union(self, other: Flags) -> (r: Flags)
        ensures
            r.bits == (self.bits | other.bits),
    {
        Flags { bits: self.bits | other.bits }
    }

    pub fn bits(&self) -> (r: u32)
        ensures
            r == self.bits,
    {
        self.bits
    }
}

/// A validated, read-accessible bag of algorithm parameters plus the
/// execution-backend choice and an optional shared worker-pool handle.
#[derive(Clone)]
pub struct HasherConfig {
    pub backend: Backend,
    pub cpu_pool: Option<CpuPool>,
    pub hash_length: u32,
    pub iterations: u32,
    pub lanes: u32,
    pub memory_size: u32,
    pub password_clearing: bool,
    pub secret_key_clearing: bool,
    pub threads: u32,
    pub variant: Variant,
    pub version: Version,
}

impl HasherConfig {
    /// All individual invariants hold at once.
    pub open spec fn valid(self) -> bool {
        &&& backend_ok(self.backend)
        &&& hash_length_ok(self.hash_length)
        &&& iterations_ok(self.iterations)
        &&& lanes_ok(self.lanes)
        &&& memory_size_ok(self.lanes, self.memory_size)
        &&& threads_ok(self.threads)
    }

    /// The first violated invariant, in the fixed validation order.
    pub open spec fn spec_validate(self) -> Result<(), ConfigurationError> {
        if spec_validate_backend(self.backend) is Err {
            spec_validate_backend(self.backend)
        } else if spec_validate_hash_length(self.hash_length) is Err {
            spec_validate_hash_length(self.hash_length)
        } else if spec_validate_iterations(self.iterations) is Err {
            spec_validate_iterations(self.iterations)
        } else if spec_validate_lanes(self.lanes) is Err {
            spec_validate_lanes(self.lanes)
        } else if spec_validate_memory_size(self.lanes, self.memory_size) is Err {
            spec_validate_memory_size(self.lanes, self.memory_size)
        } else if spec_validate_threads(self.threads) is Err {
            spec_validate_threads(self.threads)
        } else {
            Ok(())
        }
    }

    /// The documented defaults. Lanes and threads both default to the number
    /// of physical cores, capped at the 24-bit maximum the algorithm accepts.
    pub fn default() -> (r: HasherConfig)
        ensures
            r.backend == Backend::C,
            r.cpu_pool is None,
            r.hash_length == DEFAULT_HASH_LENGTH,
            r.iterations == DEFAULT_ITERATIONS,
            r.memory_size == DEFAULT_MEMORY_SIZE,
            r.password_clearing == DEFAULT_PASSWORD_CLEARING,
            r.secret_key_clearing == DEFAULT_SECRET_KEY_CLEARING,
            r.variant == Variant::Argon2id,
            r.version == Version::_0x13,
            r.lanes == r.threads,
            lanes_ok(r.lanes),
    {
        let cores = logical_core_count();
        let lanes: u32 = if cores > MAX_LANES as usize {
            MAX_LANES
        } else {
            cores as u32
        };
        HasherConfig {
            backend: Backend::C,
            cpu_pool: None,
            hash_length: DEFAULT_HASH_LENGTH,
            iterations: DEFAULT_ITERATIONS,
            lanes,
            memory_size: DEFAULT_MEMORY_SIZE,
            password_clearing: DEFAULT_PASSWORD_CLEARING,
            secret_key_clearing: DEFAULT_SECRET_KEY_CLEARING,
            threads: lanes,
            variant: Variant::Argon2id,
            version: Version::_0x13,
        }
    }

    pub fn backend(&self) -> (r: Backend)
        ensures
            r == self.backend,
    {
        self.backend
    }

    /// A fresh handle to the shared worker pool, if one was configured.
    /// Cloning only adds a reference; the pool itself is shared.
    pub fn cpu_pool(&self) -> (r: Option<CpuPool>)
        ensures
            r is Some <==> self.cpu_pool is Some,
    {
        match self.cpu_pool {
            Some(ref cpu_pool) => Some(cpu_pool.clone()),
            None => None,
        }
    }

    pub fn hash_length(&self) -> (r: u32)
        ensures
            r == self.hash_length,
    {
        self.hash_length
    }

    pub fn iterations(&self) -> (r: u32)
        ensures
            r == self.iterations,
    {
        self.iterations
    }

    pub fn lanes(&self) -> (r: u32)
        ensures
            r == self.lanes,
    {
        self.lanes
    }

    pub fn memory_size(&self) -> (r: u32)
        ensures
            r == self.memory_size,
    {
        self.memory_size
    }

    pub fn password_clearing(&self) -> (r: bool)
        ensures
            r == self.password_clearing,
    {
        self.password_clearing
    }

    pub fn secret_key_clearing(&self) -> (r: bool)
        ensures
            r == self.secret_key_clearing,
    {
        self.secret_key_clearing
    }

    pub fn threads(&self) -> (r: u32)
        ensures
            r == self.threads,
    {
        self.threads
    }

    pub fn variant(&self) -> (r: Variant)
        ensures
            r == self.variant,
    {
        self.variant
    }

    pub fn version(&self) -> (r: Version)
        ensures
            r == self.version,
    {
        self.version
    }

    /// Derives the bitflag set for the hashing engine from the two clearing
    /// booleans. Pure and deterministic.
    pub fn flags(&self) -> (r: Flags)
        ensures
            r.bits == spec_flags_bits(self.password_clearing, self.secret_key_clearing),
    {
        let mut flags = Flags::empty();
        if self.password_clearing {
            flags = flags.union(Flags::clear_password());
        }
        if self.secret_key_clearing {
            flags = flags.union(Flags::clear_secret_key());
        }
        proof {
            assert(0u32 | 1u32 == 1u32) by (bit_vector);
            assert(0u32 | 2u32 == 2u32) by (bit_vector);
            assert(1u32 | 2u32 == 3u32) by (bit_vector);
        }
        flags
    }

    pub fn set_backend(&mut self, backend: Backend)
        ensures
            *final(self) == (HasherConfig { backend, ..*old(self) }),
    {
        self.backend = backend;
    }

    pub fn set_cpu_pool(&mut self, cpu_pool: CpuPool)
        ensures
            final(self).cpu_pool is Some,
            *final(self) == (HasherConfig { cpu_pool: final(self).cpu_pool, ..*old(self) }),
    {
        self.cpu_pool = Some(cpu_pool);
    }

    pub fn set_hash_length(&mut self, hash_length: u32)
        ensures
            *final(self) == (HasherConfig { hash_length, ..*old(self) }),
    {
        self.hash_length = hash_length;
    }

    pub fn set_iterations(&mut self, iterations: u32)
        ensures
            *final(self) == (HasherConfig { iterations, ..*old(self) }),
    {
        self.iterations = iterations;
    }

    pub fn set_lanes(&mut self, lanes: u32)
        ensures
            *final(self) == (HasherConfig { lanes, ..*old(self) }),
    {
        self.lanes = lanes;
    }

    pub fn set_memory_size(&mut self, memory_size: u32)
        ensures
            *final(self) == (HasherConfig { memory_size, ..*old(self) }),
    {
        self.memory_size = memory_size;
    }

    pub fn set_password_clearing(&mut self, boolean: bool)
        ensures
            *final(self) == (HasherConfig { password_clearing: boolean, ..*old(self) }),
    {
        self.password_clearing = boolean;
    }

    pub fn set_secret_key_clearing(&mut self, boolean: bool)
        ensures
            *final(self) == (HasherConfig { secret_key_clearing: boolean, ..*old(self) }),
    {
        self.secret_key_clearing = boolean;
    }

    pub fn set_threads(&mut self, threads: u32)
        ensures
            *final(self) == (HasherConfig { threads, ..*old(self) }),
    {
        self.threads = threads;
    }

    pub fn set_variant(&mut self, variant: Variant)
        ensures
            *final(self) == (HasherConfig { variant, ..*old(self) }),
    {
        self.variant = variant;
    }

    pub fn set_version(&mut self, version: Version)
        ensures
            *final(self) == (HasherConfig { version, ..*old(self) }),
    {
        self.version = version;
    }

    /// The single enforcement gate: succeeds exactly on a fully legal
    /// parameter set, and otherwise returns the first violated invariant
    /// in the fixed validation order.
    pub fn validate(&self) -> (r: Result<(), ConfigurationError>)
        ensures
            r == self.spec_validate(),
            r is Ok <==> self.valid(),
    {
        match validate_backend(self.backend) {
            Err(e) => return Err(e),
            Ok(()) => {},
        }
        match validate_hash_length(self.hash_length) {
            Err(e) => return Err(e),
            Ok(()) => {},
        }
        match validate_iterations(self.iterations) {
            Err(e) => return Err(e),
            Ok(()) => {},
        }
        match validate_lanes(self.lanes) {
            Err(e) => return Err(e),
            Ok(()) => {},
        }
        match validate_memory_size(self.lanes, self.memory_size) {
            Err(e) => return Err(e),
            Ok(()) => {},
        }
        match validate_threads(self.threads) {
            Err(e) => return Err(e),
            Ok(()) => {},
        }
        Ok(())
    }
}

/// Every fully legal parameter set passes the aggregate validation gate.
pub proof fn lemma_validate_accepts_valid(c: HasherConfig)
    requires
        backend_ok(c.backend),
        hash_length_ok(c.hash_length),
        iterations_ok(c.iterations),
        lanes_ok(c.lanes),
        memory_size_ok(c.lanes, c.memory_size),
        threads_ok(c.threads),
    ensures
        c.spec_validate() == Ok::<(), ConfigurationError>(()),
{
}

} // verus!
