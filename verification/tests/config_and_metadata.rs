use libasp::exception_handler::{ExceptionFeedback, ExceptionHandler, ExceptionType};
use libasp::gen_metadata::{hex32, CustomMetadata};
use libasp::initial_inputs::InitialInput;
use libasp::reset_state::ResetLevel;
use libasp::tunneling::{Regs, TunnelSource};
use libasp::yaml_conf::{zen_machine_name, zen_sram_size, ConfigError, RawConfig, TunnelValue, YAMLConfig};

fn raw() -> RawConfig {
    RawConfig {
        config_file: String::from("config.yaml"),
        qemu_zen: String::from("Zen1"),
        qemu_on_chip_bl_path: String::from("bins/on-chip-bl"),
        flash_start_smn: 0x0a00_0000,
        flash_size: 0x100_0000,
        flash_start_cpu: 0x0200_0000,
        flash_base: String::from("bins/image.rom"),
        input_initial: vec![String::from("bins/image.rom")],
        input_mem: vec![(0x1000, 16)],
        input_fixed: vec![(0x2000, 0x1234_5678)],
        harness_start: 0xffff_4be4,
        harness_sinks: vec![0x2000],
        tunnels_cmps: vec![(0x4000, TunnelValue::Text(String::from("R2")))],
        crashes_breakpoints: vec![0x5000],
        crashes_mmap_no_exec: vec![(0x100, 0x200)],
        crashes_mmap_flash_read_fn: 0x9000,
        crashes_mmap_no_write_flash_fn: vec![(0x1000, 0x1fff, vec![0x42])],
        crashes_mmap_no_write_hooks: vec![(0x3000, 0x3fff, vec![0x500])],
        snapshot_default: String::from("Lazy"),
        snapshot_on_crash: String::from("HardReset"),
        snapshot_periodically: String::from("RustSnapshot"),
        snapshot_period: 1000,
    }
}

#[test]
fn valid_config_builds_and_derives() {
    let c = YAMLConfig::build(raw()).unwrap();
    // The memory size is derived from the machine variant.
    assert_eq!(c.qemu_sram_size, 0x4_0000);
    // The byte budget is the sum of the window sizes.
    assert_eq!(c.input_total_size, 16);
    assert_eq!(c.snapshot_default, ResetLevel::Lazy);
    assert_eq!(c.snapshot_on_crash, ResetLevel::HardReset);
    assert_eq!(c.snapshot_periodically, ResetLevel::RustSnapshot);
    assert_eq!(c.tunnels_cmps.len(), 1);
    assert_eq!(c.tunnels_cmps[0].addr, 0x4000);
    assert_eq!(c.tunnels_cmps[0].source, TunnelSource::Register(Regs::R2));
    assert_eq!(c.harness_sinks, vec![0x2000]);
    assert_eq!(c.crashes_mmap_no_write_hooks, vec![(0x3000, 0x3fff, vec![0x500])]);
}

#[test]
fn zen_variants_map_to_memory_sizes() {
    assert_eq!(zen_sram_size("Zen1"), Some(0x4_0000));
    assert_eq!(zen_sram_size("Zen+"), Some(0x4_0000));
    assert_eq!(zen_sram_size("ZenTesla"), Some(0x4_0000));
    assert_eq!(zen_sram_size("Zen2"), Some(0x5_0000));
    assert_eq!(zen_sram_size("Zen3"), Some(0x5_0000));
    assert_eq!(zen_sram_size("Zen4"), None);
    assert_eq!(zen_sram_size(""), None);
}

#[test]
fn unsupported_variant_is_rejected() {
    let mut r = raw();
    r.qemu_zen = String::from("Zen4");
    assert_eq!(YAMLConfig::build(r).err(), Some(ConfigError::UnsupportedZen));
}

#[test]
fn window_outside_flash_is_rejected() {
    let mut r = raw();
    r.input_mem = vec![(0xffff_ff00, 0x200)];
    assert_eq!(YAMLConfig::build(r).err(), Some(ConfigError::WindowOutOfBounds));
}

#[test]
fn budget_over_flash_size_is_rejected() {
    let mut r = raw();
    // Each window fits, but their sizes sum to more than the flash.
    r.flash_size = 0x1000;
    r.input_mem = vec![(0, 0xc00), (0x800, 0x800)];
    assert_eq!(YAMLConfig::build(r).err(), Some(ConfigError::InputBudgetTooLarge));
}

#[test]
fn fixed_injection_outside_flash_is_rejected() {
    let mut r = raw();
    r.input_fixed = vec![(0xffff_fffd, 1)];
    assert_eq!(YAMLConfig::build(r).err(), Some(ConfigError::FixedOutOfBounds));
}

#[test]
fn bad_tunnel_source_is_rejected() {
    let mut r = raw();
    r.tunnels_cmps = vec![(0x4000, TunnelValue::Text(String::from("R99")))];
    assert_eq!(YAMLConfig::build(r).err(), Some(ConfigError::BadTunnel));
}

#[test]
fn bad_level_name_is_rejected() {
    let mut r = raw();
    r.snapshot_on_crash = String::from("Eager");
    assert_eq!(YAMLConfig::build(r).err(), Some(ConfigError::BadLevel));
}

const DOC: &str = "
qemu:
  zen: Zen2
  on_chip_bl_path: bins/on-chip-bl
flash:
  start_smn: 0x0a000000
  size: 0x1000000
  start_cpu: 0x02000000
  base: bins/image.rom
input:
  initial:
    - bins/image.rom
  mem:
    - {addr: 0x1000, size: 16}
  fixed:
    - {addr: 0x2000, val: 0x12345678}
harness:
  start: 0xffff4be4
  sinks:
    - 0x2000
tunnels:
  cmps:
    - {addr: 0x4000, r0: R2}
    - {addr: 0x4100, r0: 77}
crashes:
  breakpoints:
    - 0x5000
  mmap:
    flash_read_fn: 0x9000
    no_exec:
      - {begin: 0x100, end: 0x200}
    no_write_flash_fn:
      - {begin: 0x1000, end: 0x1fff, no_hook: [0x42]}
    no_write_hooks:
      - {begin: 0x3000, end: 0x3fff, no_ldr: [0x500]}
snapshot:
  default: Lazy
  on_crash: HardReset
  periodically: RustSnapshot
  period: 1000
";

#[test]
fn yaml_document_parses_into_validated_config() {
    let c = YAMLConfig::from_yaml_str("config.yaml", DOC).unwrap();
    assert_eq!(c.config_file, "config.yaml");
    assert_eq!(c.qemu_zen, "Zen2");
    assert_eq!(c.qemu_sram_size, 0x5_0000);
    assert_eq!(c.flash_start_smn, 0x0a00_0000);
    assert_eq!(c.flash_size, 0x100_0000);
    assert_eq!(c.flash_start_cpu, 0x0200_0000);
    assert_eq!(c.input_initial, vec![String::from("bins/image.rom")]);
    assert_eq!(c.input_mem, vec![(0x1000, 16)]);
    assert_eq!(c.input_fixed, vec![(0x2000, 0x1234_5678)]);
    assert_eq!(c.input_total_size, 16);
    assert_eq!(c.harness_start, 0xffff_4be4);
    assert_eq!(c.harness_sinks, vec![0x2000]);
    assert_eq!(c.tunnels_cmps.len(), 2);
    assert_eq!(c.tunnels_cmps[0].source, TunnelSource::Register(Regs::R2));
    assert_eq!(c.tunnels_cmps[1].source, TunnelSource::Literal(77));
    assert_eq!(c.crashes_breakpoints, vec![0x5000]);
    assert_eq!(c.crashes_mmap_no_exec, vec![(0x100, 0x200)]);
    assert_eq!(c.crashes_mmap_flash_read_fn, 0x9000);
    assert_eq!(c.crashes_mmap_no_write_flash_fn, vec![(0x1000, 0x1fff, vec![0x42])]);
    assert_eq!(c.crashes_mmap_no_write_hooks, vec![(0x3000, 0x3fff, vec![0x500])]);
    assert_eq!(c.snapshot_default, ResetLevel::Lazy);
    assert_eq!(c.snapshot_period, 1000);
}

#[test]
fn missing_mandatory_key_fails_fast() {
    let doc = "
qemu:
  zen: Zen1
";
    assert_eq!(YAMLConfig::from_yaml_str("c", doc).err(), Some(ConfigError::MissingKey));
}

#[test]
fn unparseable_document_fails_fast() {
    assert_eq!(YAMLConfig::from_yaml_str("c", ": ::\n\t-").err(), Some(ConfigError::Malformed));
}

#[test]
fn hex_formatting_is_fixed_width() {
    assert_eq!(hex32(0), "0x00000000");
    assert_eq!(hex32(0x1234_abcd), "0x1234abcd");
    assert_eq!(hex32(0xffff_ffff), "0xffffffff");
    assert_eq!(hex32(0x2c), "0x0000002c");
}

#[test]
fn crash_metadata_formats_all_registers() {
    let regs: Vec<u64> = (0..17).map(|i| 0x1000 + i).collect();
    let md = CustomMetadata::new(regs);
    assert_eq!(md.r0, "0x00001000");
    assert_eq!(md.r12, "0x0000100c");
    assert_eq!(md.sp, "0x0000100d");
    assert_eq!(md.lr, "0x0000100e");
    assert_eq!(md.pc, "0x0000100f");
    assert_eq!(md.cpsr, "0x00001010");
}

#[test]
fn exception_classes_from_vector_offsets() {
    let base = 0xffff_0000u32;
    let mut fb = ExceptionFeedback::new();
    assert_eq!(fb.record(base + 4, base) as u32, ExceptionType::UNDEF as u32);
    assert_eq!(fb.record(base + 8, base) as u32, ExceptionType::SVC as u32);
    assert_ne!(fb.triggered, 0);
    // Read-and-clear exactly once.
    assert!(fb.is_interesting());
    assert!(!fb.is_interesting());
}

#[test]
fn data_abort_and_unknown_do_not_signal() {
    let base = 0xffff_0000u32;
    let mut fb = ExceptionFeedback::new();
    // Data aborts are expected firmware behaviour: logged, not signalled.
    assert_eq!(fb.record(base + 16, base) as u32, ExceptionType::DATAB as u32);
    assert_eq!(fb.triggered, 0);
    // An out-of-range vector index is unknown: logged, not signalled.
    assert_eq!(fb.record(base + 400, base) as u32, ExceptionType::UNKNOWN as u32);
    assert_eq!(fb.triggered, 0);
    assert!(!fb.is_interesting());
}

#[test]
fn exception_handler_hooks_all_vectors_but_reset() {
    let base = 0xffff_0000u32;
    let h = ExceptionHandler::new(base);
    let addrs = h.hook_addresses();
    assert_eq!(
        addrs,
        vec![base + 4, base + 8, base + 12, base + 16, base + 20, base + 24, base + 28]
    );
    assert!(!addrs.contains(&base));
}

#[test]
fn seed_extraction_concatenates_window_slices() {
    let image: Vec<u8> = (0..=255u8).cycle().take(0x3000).collect();
    let windows = vec![(0x0a00_1000u32, 4usize), (0x0a00_2000u32, 2usize)];
    let seed = InitialInput::new().extract_seed_image(&image, &windows, 0x0b00_0000, 6);
    let mut expected = image[0x1000..0x1004].to_vec();
    expected.extend_from_slice(&image[0x2000..0x2002]);
    assert_eq!(seed, expected);
    assert_eq!(seed.len(), 6);
}

#[test]
fn zen_variants_map_to_machine_names() {
    assert_eq!(zen_machine_name("Zen1"), Some("amd-psp-zen"));
    assert_eq!(zen_machine_name("Zen+"), Some("amd-psp-zen+"));
    assert_eq!(zen_machine_name("Zen2"), Some("amd-psp-zen2"));
    assert_eq!(zen_machine_name("Zen3"), Some("amd-psp-zen3"));
    assert_eq!(zen_machine_name("ZenTesla"), Some("amd-psp-zentesla"));
    assert_eq!(zen_machine_name("Zen4"), None);
}

#[test]
fn reset_class_signals_when_its_vector_fires() {
    let base = 0xffff_0000u32;
    let mut fb = ExceptionFeedback::new();
    assert_eq!(fb.record(base, base) as u32, ExceptionType::RESET as u32);
    assert_eq!(fb.triggered, 1);
    assert!(fb.is_interesting());
}

#[test]
fn negative_size_is_malformed() {
    let doc = DOC.replace("size: 0x1000000", "size: -5");
    assert_eq!(YAMLConfig::from_yaml_str("c", &doc).err(), Some(ConfigError::Malformed));
}

#[test]
fn unknown_register_name_in_document_is_bad_tunnel() {
    let doc = DOC.replace("r0: R2", "r0: R99");
    assert_eq!(YAMLConfig::from_yaml_str("c", &doc).err(), Some(ConfigError::BadTunnel));
}
