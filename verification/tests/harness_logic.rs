use libasp::harness::{
    build_input_buffer, inject_input, u32_le_bytes, write_flash_mem, ExitKind, HarnessState,
    ON_CHIP_ADDR,
};
use libasp::reset_state::ResetLevel;
use libasp::harness::bytes_to_words;
use libasp::gen_metadata::CustomMetadata;
use libasp::reset_state::{MachineState, ResetState, NUM_REGS, SMN_SLOT_COUNT};
use libasp::yaml_conf::{RawConfig, TunnelValue, YAMLConfig};

#[test]
fn short_input_is_zero_padded_on_the_right() {
    let buf = build_input_buffer(&[1, 2, 3], 8);
    assert_eq!(buf, vec![1, 2, 3, 0, 0, 0, 0, 0]);
}

#[test]
fn long_input_is_truncated_to_the_budget() {
    let buf = build_input_buffer(&[9, 8, 7, 6, 5], 3);
    assert_eq!(buf, vec![9, 8, 7]);
}

#[test]
fn empty_input_becomes_all_zeros() {
    let buf = build_input_buffer(&[], 4);
    assert_eq!(buf, vec![0, 0, 0, 0]);
}

#[test]
fn le_bytes_least_significant_first() {
    assert_eq!(u32_le_bytes(0x1234_5678), vec![0x78, 0x56, 0x34, 0x12]);
    assert_eq!(u32_le_bytes(0), vec![0, 0, 0, 0]);
}

#[test]
fn write_flash_mem_writes_in_place() {
    let mut flash = vec![0xffu8; 16];
    write_flash_mem(&mut flash, 4, &[1, 2, 3]);
    assert_eq!(&flash[..4], &[0xff; 4]);
    assert_eq!(&flash[4..7], &[1, 2, 3]);
    assert_eq!(&flash[7..], &[0xff; 9]);
}

#[test]
fn injection_scatters_across_windows_in_order() {
    let mut flash = vec![0u8; 64];
    let windows = vec![(0u32, 4usize), (16u32, 4usize)];
    let fixed: Vec<(u32, u32)> = vec![];
    inject_input(&mut flash, &windows, &fixed, 8, &[1, 2, 3, 4, 5, 6, 7, 8]);
    assert_eq!(&flash[0..4], &[1, 2, 3, 4]);
    assert_eq!(&flash[16..20], &[5, 6, 7, 8]);
    assert!(flash[4..16].iter().all(|&b| b == 0));
}

#[test]
fn injection_pads_short_input_before_scattering() {
    let mut flash = vec![0xaau8; 32];
    let windows = vec![(8u32, 6usize)];
    let fixed: Vec<(u32, u32)> = vec![];
    inject_input(&mut flash, &windows, &fixed, 6, &[0x55, 0x66]);
    assert_eq!(&flash[8..14], &[0x55, 0x66, 0, 0, 0, 0]);
}

#[test]
fn fixed_values_overwrite_scattered_input() {
    let mut flash = vec![0u8; 32];
    let windows = vec![(0u32, 8usize)];
    let fixed = vec![(2u32, 0xdead_beefu32)];
    inject_input(&mut flash, &windows, &fixed, 8, &[9, 9, 9, 9, 9, 9, 9, 9]);
    // The window wrote 9s everywhere, but the fixed value always wins.
    assert_eq!(&flash[0..2], &[9, 9]);
    assert_eq!(&flash[2..6], &[0xef, 0xbe, 0xad, 0xde]);
    assert_eq!(&flash[6..8], &[9, 9]);
}

#[test]
fn classification_sink_is_benign() {
    let mut s = HarnessState::new();
    let sinks = vec![0x2000u32, 0x3000];
    assert_eq!(s.classify_exit(&sinks, ON_CHIP_ADDR, 0x3000), ExitKind::Benign);
    assert!(!s.crash_snapshot);
    assert_eq!(s.counter_snapshot, 1);
}

#[test]
fn classification_vector_window_is_benign() {
    let mut s = HarnessState::new();
    let sinks = vec![0x2000u32];
    // Anywhere in [vector_base, vector_base + 4*9) is still benign.
    assert_eq!(s.classify_exit(&sinks, ON_CHIP_ADDR, ON_CHIP_ADDR), ExitKind::Benign);
    assert_eq!(s.classify_exit(&sinks, ON_CHIP_ADDR, ON_CHIP_ADDR + 35), ExitKind::Benign);
    assert_eq!(s.classify_exit(&sinks, ON_CHIP_ADDR, ON_CHIP_ADDR + 36), ExitKind::Crash);
}

#[test]
fn classification_crash_forces_on_crash_level() {
    let mut s = HarnessState::new();
    let sinks = vec![0x2000u32];
    assert_eq!(s.classify_exit(&sinks, ON_CHIP_ADDR, 0x1234), ExitKind::Crash);
    assert!(s.crash_snapshot);
    assert_eq!(s.counter_snapshot, 0);
    // The very next reset must use the on-crash fidelity and clear the flag.
    let level = s.choose_reset_level(
        ResetLevel::Lazy,
        ResetLevel::HardReset,
        ResetLevel::RustSnapshot,
        100,
    );
    assert_eq!(level, ResetLevel::HardReset);
    assert!(!s.crash_snapshot);
    // After that, back to the default level.
    let level = s.choose_reset_level(
        ResetLevel::Lazy,
        ResetLevel::HardReset,
        ResetLevel::RustSnapshot,
        100,
    );
    assert_eq!(level, ResetLevel::Lazy);
}

#[test]
fn periodic_counter_selects_periodic_level() {
    let mut s = HarnessState::new();
    let sinks = vec![0x2000u32];
    for _ in 0..3 {
        assert_eq!(s.classify_exit(&sinks, ON_CHIP_ADDR, 0x2000), ExitKind::Benign);
    }
    assert_eq!(s.counter_snapshot, 3);
    let level = s.choose_reset_level(
        ResetLevel::Lazy,
        ResetLevel::HardReset,
        ResetLevel::RustSnapshot,
        3,
    );
    assert_eq!(level, ResetLevel::RustSnapshot);
    assert_eq!(s.counter_snapshot, 0);
}

#[test]
fn end_to_end_iteration_ok_and_crash() {
    // Config: one input window {address: 0x1000, size: 16}, one sink at
    // 0x2000, default snapshot level Lazy.
    let raw = RawConfig {
        config_file: String::from("config.yaml"),
        qemu_zen: String::from("Zen1"),
        qemu_on_chip_bl_path: String::from("bins/on-chip-bl"),
        flash_start_smn: 0x0a00_0000,
        flash_size: 0x1_0000,
        flash_start_cpu: 0x0200_0000,
        flash_base: String::from("bins/image.rom"),
        input_initial: vec![],
        input_mem: vec![(0x1000, 16)],
        input_fixed: vec![],
        harness_start: 0xffff_4be4,
        harness_sinks: vec![0x2000],
        tunnels_cmps: Vec::<(u32, TunnelValue)>::new(),
        crashes_breakpoints: vec![],
        crashes_mmap_no_exec: vec![(0x100, 0x200)],
        crashes_mmap_flash_read_fn: 0,
        crashes_mmap_no_write_flash_fn: vec![],
        crashes_mmap_no_write_hooks: vec![],
        snapshot_default: String::from("Lazy"),
        snapshot_on_crash: String::from("HardReset"),
        snapshot_periodically: String::from("RustSnapshot"),
        snapshot_period: 1000,
    };
    let conf = YAMLConfig::build(raw).unwrap();

    // Baseline: run to the harness entry happened; capture the state.
    let mut machine = MachineState {
        regs: vec![0x1111; NUM_REGS],
        sram: vec![0u8; conf.qemu_sram_size as usize],
        timer_count_0: 0,
        timer_count_1: 0,
        timer_control_0: 0,
        timer_control_1: 0,
        smn_slots: vec![0; SMN_SLOT_COUNT],
    };
    let mut rs = ResetState::new(conf.qemu_sram_size);
    rs.save(&machine, &ResetLevel::RustSnapshot);
    let mut flash = vec![0u8; conf.flash_size];
    let mut state = HarnessState::new();

    // Iteration one: reset at the default level, inject 16 zero bytes, run
    // to the sink. The exit is benign.
    let level = state.choose_reset_level(
        conf.snapshot_default,
        conf.snapshot_on_crash,
        conf.snapshot_periodically,
        conf.snapshot_period,
    );
    assert_eq!(level, ResetLevel::Lazy);
    rs.load(&mut machine, &level);
    inject_input(&mut flash, &conf.input_mem, &conf.input_fixed, conf.input_total_size, &[0; 16]);
    assert!(flash[0x1000..0x1010].iter().all(|&b| b == 0));
    let exit_pc = 0x2000;
    assert_eq!(state.classify_exit(&conf.harness_sinks, ON_CHIP_ADDR, exit_pc), ExitKind::Benign);

    // Iteration two: an input diverts execution into a non-executable
    // range; the block hook stops the run there, and the exit classifies as
    // a crash with a metadata record of the registers at the diversion.
    let level = state.choose_reset_level(
        conf.snapshot_default,
        conf.snapshot_on_crash,
        conf.snapshot_periodically,
        conf.snapshot_period,
    );
    assert_eq!(level, ResetLevel::Lazy);
    rs.load(&mut machine, &level);
    inject_input(&mut flash, &conf.input_mem, &conf.input_fixed, conf.input_total_size, &[0xff; 16]);
    let mut counters = libasp::crash_oracle::HookCounters::new();
    let diverted_pc = 0x180;
    let (id, stop) = counters.gen_block_hook(
        &conf.crashes_mmap_no_exec,
        &conf.crashes_mmap_no_write_flash_fn,
        conf.crashes_mmap_flash_read_fn,
        diverted_pc,
    );
    assert!(id.is_some());
    assert!(stop);
    assert_eq!(state.classify_exit(&conf.harness_sinks, ON_CHIP_ADDR, diverted_pc), ExitKind::Crash);
    assert!(state.crash_snapshot);
    let mut crash_regs = vec![0x2222u64; NUM_REGS];
    crash_regs[15] = diverted_pc as u64;
    let md = CustomMetadata::new(crash_regs);
    assert_eq!(md.pc, "0x00000180");

    // The crash forces the on-crash fidelity on the very next iteration.
    let level = state.choose_reset_level(
        conf.snapshot_default,
        conf.snapshot_on_crash,
        conf.snapshot_periodically,
        conf.snapshot_period,
    );
    assert_eq!(level, ResetLevel::HardReset);
}

#[test]
fn words_are_little_endian_and_zero_padded() {
    assert_eq!(bytes_to_words(&[0x78, 0x56, 0x34, 0x12]), vec![0x1234_5678]);
    assert_eq!(bytes_to_words(&[0x78, 0x56, 0x34, 0x12, 0xaa]), vec![0x1234_5678, 0xaa]);
    assert_eq!(bytes_to_words(&[]), Vec::<u32>::new());
    assert_eq!(bytes_to_words(&[1, 2]), vec![0x0201]);
}

#[test]
fn overlapping_windows_later_window_wins() {
    let mut flash = vec![0u8; 16];
    let windows = vec![(0u32, 4usize), (2u32, 4usize)];
    let fixed: Vec<(u32, u32)> = vec![];
    inject_input(&mut flash, &windows, &fixed, 8, &[1, 2, 3, 4, 5, 6, 7, 8]);
    // The second window consumes the next four buffer bytes and overwrites
    // the overlap.
    assert_eq!(&flash[0..6], &[1, 2, 5, 6, 7, 8]);
}
