use argonautica::config::validate_backend;
use argonautica::config::validate_hash_length;
use argonautica::config::validate_iterations;
use argonautica::config::validate_lanes;
use argonautica::config::validate_memory_size;
use argonautica::config::validate_threads;
use argonautica::config::Backend;
use argonautica::config::Variant;
use argonautica::config::Version;
use argonautica::errors::ConfigurationError;
use argonautica::HasherConfig;
use futures_cpupool::CpuPool;

fn assert_send<T: Send>() {}

fn assert_sync<T: Sync>() {}

#[test]
fn test_send() {
    assert_send::<HasherConfig>();
}

#[test]
fn test_sync() {
    assert_sync::<HasherConfig>();
}

#[test]
fn test_validate_backend() {
    assert_eq!(validate_backend(Backend::C), Ok(()));
    assert_eq!(
        validate_backend(Backend::Rust),
        Err(ConfigurationError::BackendUnsupportedError)
    );
}

#[test]
fn test_validate_hash_length() {
    assert_eq!(
        validate_hash_length(3),
        Err(ConfigurationError::HashLengthTooShortError { hash_length: 3 })
    );
    assert_eq!(
        validate_hash_length(0),
        Err(ConfigurationError::HashLengthTooShortError { hash_length: 0 })
    );
    assert_eq!(validate_hash_length(4), Ok(()));
    assert_eq!(validate_hash_length(32), Ok(()));
}

#[test]
fn test_validate_iterations() {
    assert_eq!(
        validate_iterations(0),
        Err(ConfigurationError::IterationsTooFewError { iterations: 0 })
    );
    assert_eq!(validate_iterations(1), Ok(()));
    assert_eq!(validate_iterations(u32::MAX), Ok(()));
}

#[test]
fn test_validate_lanes() {
    assert_eq!(
        validate_lanes(0),
        Err(ConfigurationError::LanesTooFewError { lanes: 0 })
    );
    assert_eq!(
        validate_lanes(0x0100_0000),
        Err(ConfigurationError::LanesTooManyError { lanes: 0x0100_0000 })
    );
    assert_eq!(validate_lanes(1), Ok(()));
    assert_eq!(validate_lanes(0x00ff_ffff), Ok(()));
}

#[test]
fn test_validate_memory_size_too_small_before_power_of_two() {
    // Zero is both too small and not a power of two: "too small" wins.
    assert_eq!(
        validate_memory_size(1, 0),
        Err(ConfigurationError::MemorySizeTooSmallError {
            lanes: 1,
            memory_size: 0
        })
    );
    // Six is a non-power of two but also below 8 * 1: still "too small".
    assert_eq!(
        validate_memory_size(1, 6),
        Err(ConfigurationError::MemorySizeTooSmallError {
            lanes: 1,
            memory_size: 6
        })
    );
}

#[test]
fn test_validate_memory_size_power_of_two() {
    // Nine is large enough for one lane but not a power of two.
    assert_eq!(
        validate_memory_size(1, 9),
        Err(ConfigurationError::MemorySizeInvalidError { memory_size: 9 })
    );
    assert_eq!(validate_memory_size(1, 8), Ok(()));
    assert_eq!(validate_memory_size(2, 16), Ok(()));
    assert_eq!(validate_memory_size(1, 4096), Ok(()));
    assert_eq!(
        validate_memory_size(2, 8),
        Err(ConfigurationError::MemorySizeTooSmallError {
            lanes: 2,
            memory_size: 8
        })
    );
}

#[test]
fn test_validate_memory_size_wide_arithmetic() {
    // The comparison against 8 * lanes does not wrap at 32 bits.
    assert_eq!(
        validate_memory_size(u32::MAX, u32::MAX),
        Err(ConfigurationError::MemorySizeTooSmallError {
            lanes: u32::MAX,
            memory_size: u32::MAX
        })
    );
    assert_eq!(validate_memory_size(0x00ff_ffff, 0x8000_0000), Ok(()));
}

#[test]
fn test_version_as_u32() {
    assert_eq!(Version::_0x10.as_u32(), 16);
    assert_eq!(Version::_0x13.as_u32(), 19);
}

#[test]
fn test_validate_threads() {
    assert_eq!(
        validate_threads(0),
        Err(ConfigurationError::ThreadsTooFewError { threads: 0 })
    );
    assert_eq!(
        validate_threads(0x0100_0000),
        Err(ConfigurationError::ThreadsTooManyError { threads: 0x0100_0000 })
    );
    assert_eq!(validate_threads(1), Ok(()));
    assert_eq!(validate_threads(0x00ff_ffff), Ok(()));
}

#[test]
fn test_default_config() {
    let config = HasherConfig::default();
    assert_eq!(config.backend(), Backend::C);
    assert!(config.cpu_pool().is_none());
    assert_eq!(config.hash_length(), 32);
    assert_eq!(config.iterations(), 192);
    assert_eq!(config.memory_size(), 4096);
    assert!(!config.password_clearing());
    assert!(!config.secret_key_clearing());
    assert_eq!(config.variant(), Variant::Argon2id);
    assert_eq!(config.version(), Version::_0x13);
    assert_eq!(config.lanes(), config.threads());
    assert!(config.lanes() >= 1);
}

fn small_valid_config() -> HasherConfig {
    let mut config = HasherConfig::default();
    config.set_lanes(1);
    config.set_threads(1);
    config
}

#[test]
fn test_validate_accepts_valid() {
    let config = small_valid_config();
    assert_eq!(config.validate(), Ok(()));

    let mut config = small_valid_config();
    config.set_lanes(4);
    config.set_threads(3);
    config.set_memory_size(64);
    config.set_iterations(1);
    config.set_hash_length(4);
    config.set_variant(Variant::Argon2d);
    config.set_version(Version::_0x10);
    assert_eq!(config.validate(), Ok(()));
}

#[test]
fn test_validate_reports_first_violation() {
    // An unsupported backend is reported before anything else.
    let mut config = small_valid_config();
    config.set_backend(Backend::Rust);
    config.set_hash_length(1);
    assert_eq!(
        config.validate(),
        Err(ConfigurationError::BackendUnsupportedError)
    );

    // A short hash length is reported before the bad memory size.
    let mut config = small_valid_config();
    config.set_hash_length(2);
    config.set_memory_size(0);
    assert_eq!(
        config.validate(),
        Err(ConfigurationError::HashLengthTooShortError { hash_length: 2 })
    );

    // Setters never reject: the invalid values were stored as given.
    assert_eq!(config.hash_length(), 2);
    assert_eq!(config.memory_size(), 0);
}

#[test]
fn test_validate_memory_size_zero_whenever_lanes_positive() {
    for lanes in [1u32, 2, 100, 0x00ff_ffff] {
        let mut config = small_valid_config();
        config.set_lanes(lanes);
        config.set_memory_size(0);
        assert_eq!(
            config.validate(),
            Err(ConfigurationError::MemorySizeTooSmallError {
                lanes,
                memory_size: 0
            })
        );
    }
}

#[test]
fn test_flags() {
    let mut config = HasherConfig::default();
    assert_eq!(config.flags().bits(), 0);
    config.set_password_clearing(true);
    assert_eq!(config.flags().bits(), 1);
    config.set_secret_key_clearing(true);
    assert_eq!(config.flags().bits(), 3);
    config.set_password_clearing(false);
    assert_eq!(config.flags().bits(), 2);
}

#[test]
fn test_setters_store_values() {
    let mut config = HasherConfig::default();
    config.set_backend(Backend::Rust);
    config.set_hash_length(7);
    config.set_iterations(11);
    config.set_lanes(5);
    config.set_memory_size(13);
    config.set_threads(6);
    config.set_variant(Variant::Argon2i);
    config.set_version(Version::_0x10);
    assert_eq!(config.backend(), Backend::Rust);
    assert_eq!(config.hash_length(), 7);
    assert_eq!(config.iterations(), 11);
    assert_eq!(config.lanes(), 5);
    assert_eq!(config.memory_size(), 13);
    assert_eq!(config.threads(), 6);
    assert_eq!(config.variant(), Variant::Argon2i);
    assert_eq!(config.version(), Version::_0x10);
}

#[test]
fn test_cpu_pool_handle() {
    let mut config = HasherConfig::default();
    assert!(config.cpu_pool().is_none());
    config.set_cpu_pool(CpuPool::new(1));
    assert!(config.cpu_pool().is_some());
    // The handle is cloned on read, so it can be taken more than once.
    assert!(config.cpu_pool().is_some());
}
