use libasp::reset_state::{MachineState, ResetLevel, ResetState, LAZY_SRAM_SIZE, NUM_REGS, REG_PC, SMN_SLOT_COUNT};

fn machine(sram_size: usize, fill: u8) -> MachineState {
    MachineState {
        regs: (0..NUM_REGS as u64).map(|i| 0x1000 + i).collect(),
        sram: vec![fill; sram_size],
        timer_count_0: 11,
        timer_count_1: 22,
        timer_control_0: 33,
        timer_control_1: 44,
        smn_slots: (0..SMN_SLOT_COUNT as u32).collect(),
    }
}

const SRAM: usize = 0x2000;

#[test]
fn save_captures_everything_once() {
    let m = machine(SRAM, 7);
    let mut rs = ResetState::new(SRAM as u32);
    rs.save(&m, &ResetLevel::SuperLazy);
    assert!(rs.saved);
    assert_eq!(rs.regs, m.regs);
    assert_eq!(rs.sram, m.sram);
    assert_eq!(rs.timer_count_0, 11);
    assert_eq!(rs.timer_control_1, 44);
    assert_eq!(rs.smn_slots, m.smn_slots);

    // A second save is a no-op, never a fatal condition.
    let other = machine(SRAM, 9);
    rs.save(&other, &ResetLevel::HardReset);
    assert_eq!(rs.sram, vec![7u8; SRAM]);
}

#[test]
fn super_lazy_restores_registers_only() {
    let m0 = machine(SRAM, 7);
    let mut rs = ResetState::new(SRAM as u32);
    rs.save(&m0, &ResetLevel::SuperLazy);

    let mut live = machine(SRAM, 9);
    live.regs = vec![0xdead; NUM_REGS];
    live.timer_count_0 = 99;
    let eff = rs.load(&mut live, &ResetLevel::SuperLazy);
    assert_eq!(live.regs, m0.regs);
    // Fields outside the level's coverage keep their live values.
    assert_eq!(live.sram, vec![9u8; SRAM]);
    assert_eq!(live.timer_count_0, 99);
    assert!(eff.notified_slots.is_empty());
    assert!(eff.timer_writes.is_empty());
    assert!(!eff.cpu_reset);
    assert!(eff.run_to.is_none());
    assert_eq!(rs.num_loads, 1);
}

#[test]
fn lazy_restores_registers_and_trailing_slice() {
    let m0 = machine(SRAM, 7);
    let mut rs = ResetState::new(SRAM as u32);
    rs.save(&m0, &ResetLevel::Lazy);

    let mut live = machine(SRAM, 9);
    rs.load(&mut live, &ResetLevel::Lazy);
    assert_eq!(live.regs, m0.regs);
    let start = SRAM - LAZY_SRAM_SIZE as usize;
    // The front of memory keeps its live bytes, the trailing slice is restored.
    assert!(live.sram[..start].iter().all(|&b| b == 9));
    assert!(live.sram[start..].iter().all(|&b| b == 7));
    assert_eq!(live.timer_count_0, 11);
}

#[test]
fn snapshot_restores_all_and_notifies_changed_slots_only() {
    let m0 = machine(SRAM, 7);
    let mut rs = ResetState::new(SRAM as u32);
    rs.save(&m0, &ResetLevel::RustSnapshot);

    let mut live = machine(SRAM, 9);
    live.smn_slots[3] = 333;
    live.smn_slots[17] = 777;
    live.timer_count_1 = 5;
    let eff = rs.load(&mut live, &ResetLevel::RustSnapshot);
    assert_eq!(live.regs, m0.regs);
    assert_eq!(live.sram, m0.sram);
    assert_eq!(live.timer_count_1, 22);
    assert_eq!(live.smn_slots, m0.smn_slots);
    // A notification for index i exactly when live[i] differed from captured[i].
    assert_eq!(eff.notified_slots, vec![3, 17]);
    // Only the timer whose live value differed is written back.
    assert_eq!(eff.timer_writes, vec![(1, 22)]);
    assert!(!eff.cpu_reset);
    assert!(eff.run_to.is_none());
}

#[test]
fn snapshot_no_differences_no_notifications() {
    let m0 = machine(SRAM, 7);
    let mut rs = ResetState::new(SRAM as u32);
    rs.save(&m0, &ResetLevel::RustSnapshot);
    let mut live = machine(SRAM, 7);
    let eff = rs.load(&mut live, &ResetLevel::RustSnapshot);
    assert!(eff.notified_slots.is_empty());
    assert!(eff.timer_writes.is_empty());
}

#[test]
fn hard_reset_zeroes_and_runs_to_captured_pc() {
    let m0 = machine(SRAM, 7);
    let mut rs = ResetState::new(SRAM as u32);
    rs.save(&m0, &ResetLevel::HardReset);

    let mut live = machine(SRAM, 9);
    let eff = rs.load(&mut live, &ResetLevel::HardReset);
    assert!(live.sram.iter().all(|&b| b == 0));
    assert_eq!(live.timer_count_0, 0);
    assert_eq!(live.timer_count_1, 0);
    assert_eq!(live.timer_control_0, 0);
    assert_eq!(live.timer_control_1, 0);
    assert!(live.smn_slots.iter().all(|&s| s == 0));
    // Every slot index is notified, unconditionally and in order, and all
    // four timers are written back to zero unconditionally.
    assert_eq!(eff.notified_slots, (0..SMN_SLOT_COUNT as u32).collect::<Vec<u32>>());
    assert_eq!(eff.timer_writes, vec![(0, 0), (1, 0), (2, 0), (3, 0)]);
    assert!(eff.cpu_reset);
    // The run breakpoint is the exact program counter captured at save time.
    assert_eq!(eff.run_to, Some(m0.regs[REG_PC]));

    // The machine observed when that run stops carries the captured pc.
    let mut observed = machine(SRAM, 1);
    observed.regs[REG_PC] = m0.regs[REG_PC];
    rs.finish_hard_reset(&mut live, observed);
    assert_eq!(live.regs[REG_PC], m0.regs[REG_PC]);
    assert_eq!(live.sram, vec![1u8; SRAM]);
}

#[test]
fn load_counter_increments_per_load() {
    let m0 = machine(SRAM, 7);
    let mut rs = ResetState::new(SRAM as u32);
    rs.save(&m0, &ResetLevel::Lazy);
    let mut live = machine(SRAM, 9);
    rs.load(&mut live, &ResetLevel::SuperLazy);
    rs.load(&mut live, &ResetLevel::Lazy);
    rs.load(&mut live, &ResetLevel::RustSnapshot);
    assert_eq!(rs.num_loads, 3);
}

#[test]
fn level_names_round_trip() {
    for name in ["SuperLazy", "Lazy", "RustSnapshot", "QemuSnapshot", "HardReset"] {
        let level = ResetLevel::from_str(name).unwrap();
        assert_eq!(level.name(), name);
    }
    assert!(ResetLevel::from_str("Eager").is_err());
    assert!(ResetLevel::from_str("").is_err());
    assert_eq!(ResetLevel::default(), ResetLevel::Lazy);
}

#[test]
fn sram_diagnostics_count_and_first_nonzero() {
    let mut m = machine(SRAM, 0);
    m.sram[5] = 3;
    m.sram[9] = 1;
    let mut rs = ResetState::new(SRAM as u32);
    rs.save(&m, &ResetLevel::Lazy);
    assert_eq!(rs.sram_nonzero_count(), 2);
    assert_eq!(rs.sram_first_nonzero(), 5);
    let all_zero = ResetState::new(SRAM as u32);
    assert_eq!(all_zero.sram_nonzero_count(), 0);
    assert_eq!(all_zero.sram_first_nonzero(), 0);
}
