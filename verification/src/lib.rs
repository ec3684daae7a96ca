//! Harness core for coverage-guided fuzzing of an on-chip bootloader
//! running inside an instrumented CPU/memory emulation backend.
//!
//! The crate owns the state-reset and crash-oracle engine: multi-fidelity
//! snapshot/restore of the emulated machine, input injection, hook
//! decisions, and classification of run exits into Ok or Crash. The
//! emulation backend itself is an external collaborator; every decision
//! the harness takes is a function from plain values to plain values and
//! is verified here.
#![verifier::loop_isolation(false)]

pub mod crash_oracle;
pub mod exception_handler;
pub mod gen_metadata;
pub mod harness;
pub mod initial_inputs;
pub mod reset_state;
pub mod tunneling;
pub mod util;
pub mod yaml_conf;

pub use crash_oracle::HookCounters;
pub use crash_oracle::ProtectedRange;
pub use crash_oracle::exec_block_hook;
pub use crash_oracle::exec_writes_hook;
pub use crash_oracle::exec_writes_hook_n;
pub use gen_metadata::CustomMetadata;
pub use initial_inputs::InitialInput;
pub use harness::ExitKind;
pub use harness::HarnessState;
pub use harness::build_input_buffer;
pub use harness::bytes_to_words;
pub use harness::inject_input;
pub use harness::write_flash_mem;
pub use exception_handler::ExceptionFeedback;
pub use exception_handler::ExceptionHandler;
pub use exception_handler::ExceptionType;
pub use tunneling::Regs;
pub use tunneling::TUNNEL_OVERRIDE_REG;
pub use tunneling::TunnelRule;
pub use tunneling::TunnelSource;
pub use tunneling::add_tunnels_cmp;
pub use tunneling::str_reg_to_regs;
pub use tunneling::tunnel_override_value;
pub use tunneling::tunnels_cmp_hook;
pub use yaml_conf::ConfigError;
pub use yaml_conf::zen_machine_name;
pub use yaml_conf::zen_sram_size;
pub use yaml_conf::RawConfig;
pub use yaml_conf::TunnelValue;
pub use yaml_conf::YAMLConfig;
pub use reset_state::LoadEffects;
pub use reset_state::MachineState;
pub use reset_state::ResetLevel;
pub use reset_state::ResetState;
