//! The engine factory: one configuration, shared by all executions, with
//! every source of nondeterminism that the runtime offers switched off.

use crate::error::DeeError;
use vstd::prelude::*;
use wasmtime::{Config, Engine};

verus! {

#[verifier::external_type_specification]
#[verifier::external_body]
pub struct ExConfig(Config);

#[verifier::external_type_specification]
#[verifier::external_body]
pub struct ExEngine(Engine);

#[verifier::external_type_specification]
#[verifier::external_body]
pub struct ExRuntimeError(wasmtime::Error);

/// The settings of a configuration that bear on determinism.
pub struct DeterminismSettings {
    /// NaN results of floating-point arithmetic are replaced by one fixed
    /// bit pattern.
    pub nan_canonicalization: bool,
    /// Relaxed SIMD instructions behave the same on every host.
    pub relaxed_simd_deterministic: bool,
    /// The size, in bytes, up to which a linear memory is reserved up front.
    /// At zero nothing is reserved: every memory is laid out by its own
    /// declared limits and grows within them, whatever address space the
    /// host could have set aside.
    pub static_memory_maximum_size: u64,
    /// Guest code can be interrupted when the engine's epoch advances.
    pub epoch_interruption: bool,
}

/// The settings that a deterministic engine runs with.
pub open spec fn deterministic_settings() -> DeterminismSettings {
    DeterminismSettings {
        nan_canonicalization: true,
        relaxed_simd_deterministic: true,
        static_memory_maximum_size: 0,
        epoch_interruption: false,
    }
}

/// The determinism settings that a configuration asks for.
pub uninterp spec fn config_settings(config: Config) -> DeterminismSettings;

/// The determinism settings that an engine was built with.
pub uninterp spec fn engine_settings(engine: Engine) -> DeterminismSettings;

/// `Config::new`: a configuration with the runtime's defaults.
#[verifier::external_body]
fn default_config() -> Config {
    Config::new()
}

/// `Config::cranelift_nan_canonicalization`: sets that setting and leaves the
/// other three alone.
#[verifier::external_body]
fn set_nan_canonicalization(config: &mut Config, enable: bool)
    ensures
        config_settings(*final(config)) == (DeterminismSettings {
            nan_canonicalization: enable,
            ..config_settings(*old(config))
        }),
{
    config.cranelift_nan_canonicalization(enable);
}

/// `Config::relaxed_simd_deterministic`: sets that setting and leaves the
/// other three alone.
#[verifier::external_body]
fn set_relaxed_simd_deterministic(config: &mut Config, enable: bool)
    ensures
        config_settings(*final(config)) == (DeterminismSettings {
            relaxed_simd_deterministic: enable,
            ..config_settings(*old(config))
        }),
{
    config.relaxed_simd_deterministic(enable);
}

/// `Config::static_memory_maximum_size`: sets that setting and leaves the
/// other three alone.
#[verifier::external_body]
fn set_static_memory_maximum_size(config: &mut Config, max_size: u64)
    ensures
        config_settings(*final(config)) == (DeterminismSettings {
            static_memory_maximum_size: max_size,
            ..config_settings(*old(config))
        }),
{
    config.static_memory_maximum_size(max_size);
}

/// `Config::epoch_interruption`: sets that setting and leaves the other
/// three alone.
#[verifier::external_body]
fn set_epoch_interruption(config: &mut Config, enable: bool)
    ensures
        config_settings(*final(config)) == (DeterminismSettings {
            epoch_interruption: enable,
            ..config_settings(*old(config))
        }),
{
    config.epoch_interruption(enable);
}

/// `Engine::new`: an engine, when there is one, is built with the settings
/// of the configuration. That the configuration is accepted is not promised.
#[verifier::external_body]
fn build_engine(config: &Config) -> (r: Result<Engine, wasmtime::Error>)
    ensures
        r matches Ok(engine) ==> engine_settings(engine) == config_settings(*config),
{
    Engine::new(config)
}

/// Builds the engine configuration that all executions share: NaN bit
/// patterns canonical, relaxed SIMD deterministic, no up-front reservation of
/// linear memory, no epoch-based interruption.
///
/// The reservation is set to zero so that the size a memory may reach is
/// fixed by the module's own declaration and by nothing of the host. The
/// runtime then treats every memory as one that may move as it grows; it
/// sets no further limit of its own.
///
/// Fails with `EngineConfig` where the runtime refuses the configuration;
/// that points to a defect of the build, not of any one execution.
pub fn create_deterministic_engine() -> (r: Result<Engine, DeeError>)
    ensures
        r matches Ok(engine) ==> engine_settings(engine) == deterministic_settings(),
        r matches Err(e) ==> e == DeeError::EngineConfig,
{
    let mut config = default_config();
    set_nan_canonicalization(&mut config, true);
    set_relaxed_simd_deterministic(&mut config, true);
    set_static_memory_maximum_size(&mut config, 0);
    set_epoch_interruption(&mut config, false);
    match build_engine(&config) {
        Ok(engine) => Ok(engine),
        Err(_) => Err(DeeError::EngineConfig),
    }
}

} // verus!
