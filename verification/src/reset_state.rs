//! Multi-fidelity snapshot/restore of the emulated machine state.
//!
//! One `ResetState` per worker captures the machine once (`save`) and
//! restores it many times (`load`) at a chosen fidelity level, so that the
//! harness does not pay for a full machine reset between test cases. The
//! machine itself lives in the emulation backend; the engine works on the
//! plain-value mirror [`MachineState`] and reports the effects the backend
//! must perform (slot-update notifications, a CPU reset, a run to a
//! breakpoint).

use vstd::prelude::*;

use crate::util::copy_vec;

verus! {

/// Number of CPU registers captured in a snapshot: R0-R12, Sp, Lr, Pc, Cpsr.
pub const NUM_REGS: usize = 17;

/// Index of the program counter within a register snapshot.
pub const REG_PC: usize = 15;

/// Number of peripheral interconnect ("SMN") mapping slots.
pub const SMN_SLOT_COUNT: usize = 32;

/// Size in bytes of the trailing working-memory slice restored by `ResetLevel::Lazy`:
/// the slice most frequently mutated by the firmware's hot path.
pub const LAZY_SRAM_SIZE: u32 = 0x1300;

/// Plain-value mirror of the emulated machine state touched by the reset
/// engine: CPU registers, working memory ("SRAM"), the two timers, and the
/// SMN slot table. The surrounding loop keeps it in step with the backend
/// by performing every effect the engine reports.
pub struct MachineState {
    pub regs: Vec<u64>,
    pub sram: Vec<u8>,
    pub timer_count_0: u64,
    pub timer_count_1: u64,
    pub timer_control_0: u64,
    pub timer_control_1: u64,
    pub smn_slots: Vec<u32>,
}

impl MachineState {
    /// Shape required of any machine state handled by the reset engine.
    pub open spec fn wf(&self, sram_size: u32) -> bool {
        &&& self.regs.len() == NUM_REGS
        &&& self.sram.len() == sram_size
        &&& self.smn_slots.len() == SMN_SLOT_COUNT
    }
}

/// Fidelity levels for restoring machine state, ordered from cheapest and
/// least complete to most expensive and most complete.
#[derive(Clone, Copy, PartialEq, Eq, Structural, Debug)]
pub enum ResetLevel {
    /// Registers only.
    SuperLazy,
    /// Registers plus the trailing `LAZY_SRAM_SIZE` bytes of working memory.
    Lazy,
    /// Registers, all working memory, both timers, all SMN slots, with
    /// differential slot updates.
    RustSnapshot,
    /// Reserved slot for a backend-native full-machine snapshot; invoking it
    /// is a fatal condition, not a recoverable error.
    QemuSnapshot,
    /// Reset the CPU, zero memory and peripherals, and re-run from true
    /// reset up to the captured program counter.
    HardReset,
}

impl Default for ResetLevel {
    fn default() -> (r: Self)
        ensures
            r == ResetLevel::Lazy,
    {
        ResetLevel::Lazy
    }
}

/// Which level a well-formed level name denotes.
pub open spec fn spec_level_from_name(s: Seq<char>) -> Result<ResetLevel, ()> {
    if s == "SuperLazy"@ {
        Ok(ResetLevel::SuperLazy)
    } else if s == "Lazy"@ {
        Ok(ResetLevel::Lazy)
    } else if s == "RustSnapshot"@ {
        Ok(ResetLevel::RustSnapshot)
    } else if s == "QemuSnapshot"@ {
        Ok(ResetLevel::QemuSnapshot)
    } else if s == "HardReset"@ {
        Ok(ResetLevel::HardReset)
    } else {
        Err(())
    }
}

impl ResetLevel {
    /// Parses a level name as written in the configuration file.
    pub fn from_str(input: &str) -> (r: Result<ResetLevel, ()>)
        ensures
            r == spec_level_from_name(input@),
    {
        if crate::util::str_eq(input, "SuperLazy") {
            Ok(ResetLevel::SuperLazy)
        } else if crate::util::str_eq(input, "Lazy") {
            Ok(ResetLevel::Lazy)
        } else if crate::util::str_eq(input, "RustSnapshot") {
            Ok(ResetLevel::RustSnapshot)
        } else if crate::util::str_eq(input, "QemuSnapshot") {
            Ok(ResetLevel::QemuSnapshot)
        } else if crate::util::str_eq(input, "HardReset") {
            Ok(ResetLevel::HardReset)
        } else {
            Err(())
        }
    }

    /// The level's name, as written in the configuration file.
    pub fn name(&self) -> (s: &'static str)
        ensures
            spec_level_from_name(s@) == Ok::<ResetLevel, ()>(*self),
    {
        proof {
            reveal_strlit("SuperLazy");
            reveal_strlit("Lazy");
            reveal_strlit("RustSnapshot");
            reveal_strlit("QemuSnapshot");
            reveal_strlit("HardReset");
            // Names of equal length are told apart by their first character.
            assert("SuperLazy"@[0] != "HardReset"@[0]);
            assert("RustSnapshot"@[0] != "QemuSnapshot"@[0]);
        }
        match self {
            ResetLevel::SuperLazy => "SuperLazy",
            ResetLevel::Lazy => "Lazy",
            ResetLevel::RustSnapshot => "RustSnapshot",
            ResetLevel::QemuSnapshot => "QemuSnapshot",
            ResetLevel::HardReset => "HardReset",
        }
    }
}

/// Number of nonzero bytes in a byte sequence.
pub open spec fn spec_count_nonzero(s: Seq<u8>) -> int
    decreases s.len(),
{
    if s.len() == 0 {
        0
    } else {
        spec_count_nonzero(s.drop_last()) + if s.last() != 0 {
            1int
        } else {
            0int
        }
    }
}

/// What the backend must do to finish a restore, beyond the plain register,
/// memory and peripheral values already folded into the machine mirror.
pub struct LoadEffects {
    /// SMN slot indices whose values changed and need an update notification.
    pub notified_slots: Vec<u32>,
    /// Timer registers to write back, as (timer index, value) in index
    /// order: count 0, count 1, control 0, control 1. A snapshot restore
    /// lists only the timers whose live value differed; a hard reset lists
    /// all four, zeroed.
    pub timer_writes: Vec<(u32, u64)>,
    /// Whether the backend CPU must be power-on reset first.
    pub cpu_reset: bool,
    /// Breakpoint address the backend must set, run to, and remove.
    pub run_to: Option<u64>,
}

/// One worker's machine snapshot: captured at most once, restored any number
/// of times at a chosen fidelity level.
pub struct ResetState {
    pub saved: bool,
    pub sram_size: u32,
    pub num_loads: usize,
    pub regs: Vec<u64>,
    pub sram: Vec<u8>,
    pub timer_count_0: u64,
    pub timer_count_1: u64,
    pub timer_control_0: u64,
    pub timer_control_1: u64,
    pub smn_slots: Vec<u32>,
}

impl ResetState {
    /// Internal shape invariant: the snapshot buffers match the configured
    /// memory size and slot count, and registers are present once saved.
    pub open spec fn wf(&self) -> bool {
        &&& self.sram.len() == self.sram_size
        &&& self.smn_slots.len() == SMN_SLOT_COUNT
        &&& self.sram_size >= LAZY_SRAM_SIZE
        &&& self.saved ==> self.regs.len() == NUM_REGS
    }

    /// The captured state fields equal the given machine state's fields.
    pub open spec fn captured(&self, m: MachineState) -> bool {
        &&& self.regs@ == m.regs@
        &&& self.sram@ == m.sram@
        &&& self.timer_count_0 == m.timer_count_0
        &&& self.timer_count_1 == m.timer_count_1
        &&& self.timer_control_0 == m.timer_control_0
        &&& self.timer_control_1 == m.timer_control_1
        &&& self.smn_slots@ == m.smn_slots@
    }

    /// `SuperLazy` restore: registers come from the snapshot, everything
    /// else keeps its live (pre-load) value.
    pub open spec fn spec_super_lazy(self, pre: MachineState, post: MachineState) -> bool {
        &&& post.regs@ == self.regs@
        &&& post.sram@ == pre.sram@
        &&& post.timer_count_0 == pre.timer_count_0
        &&& post.timer_count_1 == pre.timer_count_1
        &&& post.timer_control_0 == pre.timer_control_0
        &&& post.timer_control_1 == pre.timer_control_1
        &&& post.smn_slots@ == pre.smn_slots@
    }

    /// `Lazy` restore: registers plus the trailing memory slice come from
    /// the snapshot; the front of memory, timers and slots keep their live
    /// values.
    pub open spec fn spec_lazy(self, pre: MachineState, post: MachineState) -> bool {
        &&& post.regs@ == self.regs@
        &&& post.sram@ == pre.sram@.take(self.sram_size - LAZY_SRAM_SIZE) + self.sram@.skip(
            self.sram_size - LAZY_SRAM_SIZE,
        )
        &&& post.timer_count_0 == pre.timer_count_0
        &&& post.timer_count_1 == pre.timer_count_1
        &&& post.timer_control_0 == pre.timer_control_0
        &&& post.timer_control_1 == pre.timer_control_1
        &&& post.smn_slots@ == pre.smn_slots@
    }

    /// `RustSnapshot` restore: every covered field comes from the snapshot.
    pub open spec fn spec_rust_snapshot(self, post: MachineState) -> bool {
        &&& post.regs@ == self.regs@
        &&& post.sram@ == self.sram@
        &&& post.timer_count_0 == self.timer_count_0
        &&& post.timer_count_1 == self.timer_count_1
        &&& post.timer_control_0 == self.timer_control_0
        &&& post.timer_control_1 == self.timer_control_1
        &&& post.smn_slots@ == self.smn_slots@
    }

    /// `HardReset` preparation: memory, timers and slots are zeroed; the
    /// registers of the mirror are untouched because the backend
    /// re-establishes them by running from true reset (see
    /// [`ResetState::finish_hard_reset`]).
    pub open spec fn spec_hard_reset(self, pre: MachineState, post: MachineState) -> bool {
        &&& post.regs@ == pre.regs@
        &&& post.sram@ == Seq::new(self.sram_size as nat, |i: int| 0u8)
        &&& post.timer_count_0 == 0
        &&& post.timer_count_1 == 0
        &&& post.timer_control_0 == 0
        &&& post.timer_control_1 == 0
        &&& post.smn_slots@ == Seq::new(SMN_SLOT_COUNT as nat, |i: int| 0u32)
    }

    /// The timer write-back list of a `RustSnapshot` restore: in index
    /// order (count 0, count 1, control 0, control 1), exactly the timers
    /// whose live value differed from the captured one, with the captured
    /// value.
    pub open spec fn spec_timer_writes(self, pre: MachineState) -> Seq<(u32, u64)> {
        (if pre.timer_count_0 != self.timer_count_0 {
            seq![(0u32, self.timer_count_0)]
        } else {
            Seq::empty()
        }) + (if pre.timer_count_1 != self.timer_count_1 {
            seq![(1u32, self.timer_count_1)]
        } else {
            Seq::empty()
        }) + (if pre.timer_control_0 != self.timer_control_0 {
            seq![(2u32, self.timer_control_0)]
        } else {
            Seq::empty()
        }) + (if pre.timer_control_1 != self.timer_control_1 {
            seq![(3u32, self.timer_control_1)]
        } else {
            Seq::empty()
        })
    }

    /// The notification list of a `RustSnapshot` restore: strictly
    /// increasing slot indices, holding exactly the indices whose live value
    /// differed from the captured one.
    pub open spec fn snapshot_notifications(self, pre: MachineState, notified: Seq<u32>) -> bool {
        &&& forall|j: int|
            0 <= j < notified.len() ==> notified[j] < SMN_SLOT_COUNT
                && pre.smn_slots@[notified[j] as int] != self.smn_slots@[notified[j] as int]
        &&& forall|i: int|
            0 <= i < SMN_SLOT_COUNT && pre.smn_slots@[i] != self.smn_slots@[i]
                ==> notified.contains(i as u32)
        &&& forall|j1: int, j2: int|
            0 <= j1 < j2 < notified.len() ==> notified[j1] < notified[j2]
    }

    /// Constructs an empty engine: no registers captured, zeroed memory,
    /// timer and slot buffers; nothing is saved yet.
    pub fn new(sram_size: u32) -> (r: Self)
        requires
            sram_size >= LAZY_SRAM_SIZE,
        ensures
            r.wf(),
            !r.saved,
            r.sram_size == sram_size,
            r.num_loads == 0,
            r.regs@.len() == 0,
            r.sram@ == Seq::new(sram_size as nat, |i: int| 0u8),
            r.timer_count_0 == 0,
            r.timer_count_1 == 0,
            r.timer_control_0 == 0,
            r.timer_control_1 == 0,
            r.smn_slots@ == Seq::new(SMN_SLOT_COUNT as nat, |i: int| 0u32),
    {
        let r = ResetState {
            saved: false,
            sram_size,
            num_loads: 0,
            regs: Vec::new(),
            sram: vec![0u8; sram_size as usize],
            timer_count_0: 0,
            timer_count_1: 0,
            timer_control_0: 0,
            timer_control_1: 0,
            smn_slots: vec![0u32; SMN_SLOT_COUNT],
        };
        proof {
            assert(r.sram@ =~= Seq::new(sram_size as nat, |i: int| 0u8));
            assert(r.smn_slots@ =~= Seq::new(SMN_SLOT_COUNT as nat, |i: int| 0u32));
        }
        r
    }

    /// Captures the full machine state, whatever level is requested: only
    /// `load` is level-selective. A second call is a logged no-op, never a
    /// fatal condition.
    pub fn save(&mut self, m: &MachineState, _level: &ResetLevel)
        requires
            old(self).wf(),
            m.wf(old(self).sram_size),
        ensures
            final(self).wf(),
            final(self).sram_size == old(self).sram_size,
            final(self).num_loads == old(self).num_loads,
            final(self).saved,
            old(self).saved ==> *final(self) == *old(self),
            !old(self).saved ==> final(self).captured(*m),
    {
        if self.saved {
            return ;
        }
        self.regs = copy_vec(&m.regs);
        self.sram = copy_vec(&m.sram);
        self.timer_count_0 = m.timer_count_0;
        self.timer_count_1 = m.timer_count_1;
        self.timer_control_0 = m.timer_control_0;
        self.timer_control_1 = m.timer_control_1;
        self.smn_slots = copy_vec(&m.smn_slots);
        self.saved = true;
    }

    /// Restores the captured registers; nothing else is touched.
    fn load_super_lazy(&self, m: &mut MachineState)
        requires
            self.wf(),
            self.saved,
            old(m).wf(self.sram_size),
        ensures
            final(m).wf(self.sram_size),
            self.spec_super_lazy(*old(m), *final(m)),
    {
        m.regs = copy_vec(&self.regs);
    }

    /// Restores the captured registers and the trailing memory slice.
    fn load_lazy(&self, m: &mut MachineState)
        requires
            self.wf(),
            self.saved,
            old(m).wf(self.sram_size),
        ensures
            final(m).wf(self.sram_size),
            self.spec_lazy(*old(m), *final(m)),
    {
        m.regs = copy_vec(&self.regs);
        let start = (self.sram_size - LAZY_SRAM_SIZE) as usize;
        let end = self.sram_size as usize;
        let mut i: usize = start;
        while i < end
            invariant
                start <= i <= end,
                m.sram.len() == self.sram_size,
                end == self.sram_size,
                start == self.sram_size - LAZY_SRAM_SIZE,
                self.wf(),
                forall|j: int| 0 <= j < start ==> m.sram@[j] == old(m).sram@[j],
                forall|j: int| start <= j < i ==> m.sram@[j] == self.sram@[j],
                forall|j: int| i <= j < end ==> m.sram@[j] == old(m).sram@[j],
                m.regs@ == self.regs@,
                m.timer_count_0 == old(m).timer_count_0,
                m.timer_count_1 == old(m).timer_count_1,
                m.timer_control_0 == old(m).timer_control_0,
                m.timer_control_1 == old(m).timer_control_1,
                m.smn_slots@ == old(m).smn_slots@,
            decreases end - i,
        {
            m.sram[i] = self.sram[i];
            i = i + 1;
        }
        proof {
            assert(m.sram@ =~= old(m).sram@.take(self.sram_size - LAZY_SRAM_SIZE) + self.sram@.skip(
                self.sram_size - LAZY_SRAM_SIZE,
            ));
        }
    }

    /// Restores everything the snapshot covers, writing timers and SMN slots
    /// back only where the live value differs, and collects the timer writes
    /// and the indices of the slots that changed. The update cost is
    /// proportional to the number of changed slots, not the table size.
    fn load_rust_snapshot(&self, m: &mut MachineState) -> (r: (Vec<u32>, Vec<(u32, u64)>))
        requires
            self.wf(),
            self.saved,
            old(m).wf(self.sram_size),
        ensures
            final(m).wf(self.sram_size),
            self.spec_rust_snapshot(*final(m)),
            self.snapshot_notifications(*old(m), r.0@),
            r.1@ == self.spec_timer_writes(*old(m)),
    {
        m.regs = copy_vec(&self.regs);
        m.sram = copy_vec(&self.sram);
        let mut timer_writes: Vec<(u32, u64)> = Vec::new();
        if m.timer_count_0 != self.timer_count_0 {
            m.timer_count_0 = self.timer_count_0;
            timer_writes.push((0, self.timer_count_0));
        }
        if m.timer_count_1 != self.timer_count_1 {
            m.timer_count_1 = self.timer_count_1;
            timer_writes.push((1, self.timer_count_1));
        }
        if m.timer_control_0 != self.timer_control_0 {
            m.timer_control_0 = self.timer_control_0;
            timer_writes.push((2, self.timer_control_0));
        }
        if m.timer_control_1 != self.timer_control_1 {
            m.timer_control_1 = self.timer_control_1;
            timer_writes.push((3, self.timer_control_1));
        }
        proof {
            assert(timer_writes@ =~= self.spec_timer_writes(*old(m)));
        }
        let mut notified: Vec<u32> = Vec::new();
        let mut i: usize = 0;
        while i < SMN_SLOT_COUNT
            invariant
                i <= SMN_SLOT_COUNT,
                self.wf(),
                m.smn_slots.len() == SMN_SLOT_COUNT,
                forall|j: int| 0 <= j < i ==> m.smn_slots@[j] == self.smn_slots@[j],
                forall|j: int| i <= j < SMN_SLOT_COUNT ==> m.smn_slots@[j] == old(m).smn_slots@[j],
                forall|j: int|
                    0 <= j < notified@.len() ==> notified@[j] < i
                        && old(m).smn_slots@[notified@[j] as int]
                        != self.smn_slots@[notified@[j] as int],
                forall|k: int|
                    0 <= k < i && old(m).smn_slots@[k] != self.smn_slots@[k] ==> notified@.contains(
                        k as u32,
                    ),
                forall|j1: int, j2: int|
                    0 <= j1 < j2 < notified@.len() ==> notified@[j1] < notified@[j2],
                m.regs@ == self.regs@,
                m.sram@ == self.sram@,
                m.timer_count_0 == self.timer_count_0,
                m.timer_count_1 == self.timer_count_1,
                m.timer_control_0 == self.timer_control_0,
                m.timer_control_1 == self.timer_control_1,
            decreases SMN_SLOT_COUNT - i,
        {
            if m.smn_slots[i] != self.smn_slots[i] {
                let ghost pre = notified@;
                m.smn_slots[i] = self.smn_slots[i];
                notified.push(i as u32);
                proof {
                    assert(notified@.contains(i as u32)) by {
                        assert(notified@[pre.len() as int] == i as u32);
                    }
                    assert forall|k: int|
                        0 <= k < i + 1 && old(m).smn_slots@[k] != self.smn_slots@[k]
                            implies notified@.contains(k as u32) by {
                        if k < i {
                            let j = choose|j: int| 0 <= j < pre.len() && pre[j] == k as u32;
                            assert(notified@[j] == k as u32);
                        }
                    }
                }
            }
            i = i + 1;
        }
        proof {
            assert(m.smn_slots@ =~= self.smn_slots@);
        }
        (notified, timer_writes)
    }

    /// Prepares a hard reset: zeroes memory, timers and all SMN slots in the
    /// mirror and asks for an update notification on every slot index,
    /// unconditionally. The backend must then reset the CPU and run from
    /// true reset to the captured program counter.
    fn load_hard_reset(&self, m: &mut MachineState) -> (notified: Vec<u32>)
        requires
            self.wf(),
            self.saved,
            old(m).wf(self.sram_size),
        ensures
            final(m).wf(self.sram_size),
            self.spec_hard_reset(*old(m), *final(m)),
            notified@.len() == SMN_SLOT_COUNT,
            forall|j: int| 0 <= j < notified@.len() ==> notified@[j] == j,
    {
        m.sram = vec![0u8; self.sram_size as usize];
        m.timer_count_0 = 0;
        m.timer_count_1 = 0;
        m.timer_control_0 = 0;
        m.timer_control_1 = 0;
        m.smn_slots = vec![0u32; SMN_SLOT_COUNT];
        let mut notified: Vec<u32> = Vec::new();
        let mut i: usize = 0;
        while i < SMN_SLOT_COUNT
            invariant
                i <= SMN_SLOT_COUNT,
                notified@.len() == i,
                forall|j: int| 0 <= j < i ==> notified@[j] == j,
            decreases SMN_SLOT_COUNT - i,
        {
            notified.push(i as u32);
            i = i + 1;
        }
        proof {
            assert(m.sram@ =~= Seq::new(self.sram_size as nat, |i: int| 0u8));
            assert(m.smn_slots@ =~= Seq::new(SMN_SLOT_COUNT as nat, |i: int| 0u32));
        }
        notified
    }

    /// Restores the machine at the requested fidelity level. Covered fields
    /// are restored bit-identically to the captured values; fields outside
    /// the level's coverage keep their live values. `HardReset` additionally
    /// asks the backend to reset the CPU and run to the captured program
    /// counter. The reserved `QemuSnapshot` level is a fatal condition and
    /// is excluded here.
    pub fn load(&mut self, m: &mut MachineState, level: &ResetLevel) -> (eff: LoadEffects)
        requires
            old(self).wf(),
            old(self).saved,
            old(m).wf(old(self).sram_size),
            *level != ResetLevel::QemuSnapshot,
            old(self).num_loads < usize::MAX,
        ensures
            final(self).wf(),
            final(self).saved,
            final(self).num_loads == old(self).num_loads + 1,
            final(self).sram_size == old(self).sram_size,
            final(self).regs@ == old(self).regs@,
            final(self).sram@ == old(self).sram@,
            final(self).timer_count_0 == old(self).timer_count_0,
            final(self).timer_count_1 == old(self).timer_count_1,
            final(self).timer_control_0 == old(self).timer_control_0,
            final(self).timer_control_1 == old(self).timer_control_1,
            final(self).smn_slots@ == old(self).smn_slots@,
            final(m).wf(old(self).sram_size),
            match *level {
                ResetLevel::SuperLazy => old(self).spec_super_lazy(*old(m), *final(m))
                    && eff.notified_slots@.len() == 0 && eff.timer_writes@.len() == 0
                    && !eff.cpu_reset && eff.run_to is None,
                ResetLevel::Lazy => old(self).spec_lazy(*old(m), *final(m))
                    && eff.notified_slots@.len() == 0 && eff.timer_writes@.len() == 0
                    && !eff.cpu_reset && eff.run_to is None,
                ResetLevel::RustSnapshot => old(self).spec_rust_snapshot(*final(m)) && old(
                    self,
                ).snapshot_notifications(*old(m), eff.notified_slots@) && eff.timer_writes@
                    == old(self).spec_timer_writes(*old(m)) && !eff.cpu_reset
                    && eff.run_to is None,
                ResetLevel::QemuSnapshot => false,
                ResetLevel::HardReset => old(self).spec_hard_reset(*old(m), *final(m))
                    && eff.notified_slots@.len() == SMN_SLOT_COUNT && (forall|j: int|
                    0 <= j < eff.notified_slots@.len() ==> eff.notified_slots@[j] == j)
                    && eff.timer_writes@ == seq![(0u32, 0u64), (1u32, 0u64), (2u32, 0u64), (3u32, 0u64)]
                    && eff.cpu_reset && eff.run_to == Some(old(self).regs@[REG_PC as int]),
            },
    {
        let eff: LoadEffects = match level {
            ResetLevel::SuperLazy => {
                self.load_super_lazy(m);
                LoadEffects {
                    notified_slots: Vec::new(),
                    timer_writes: Vec::new(),
                    cpu_reset: false,
                    run_to: None,
                }
            },
            ResetLevel::Lazy => {
                self.load_lazy(m);
                LoadEffects {
                    notified_slots: Vec::new(),
                    timer_writes: Vec::new(),
                    cpu_reset: false,
                    run_to: None,
                }
            },
            ResetLevel::RustSnapshot => {
                let (notified, timer_writes) = self.load_rust_snapshot(m);
                LoadEffects { notified_slots: notified, timer_writes, cpu_reset: false, run_to: None }
            },
            ResetLevel::QemuSnapshot => {
                // Excluded by the precondition.
                proof {
                    assert(false);
                }
                LoadEffects {
                    notified_slots: Vec::new(),
                    timer_writes: Vec::new(),
                    cpu_reset: false,
                    run_to: None,
                }
            },
            ResetLevel::HardReset => {
                let notified = self.load_hard_reset(m);
                let mut timer_writes: Vec<(u32, u64)> = Vec::new();
                timer_writes.push((0, 0));
                timer_writes.push((1, 0));
                timer_writes.push((2, 0));
                timer_writes.push((3, 0));
                proof {
                    assert(timer_writes@ =~= seq![
                        (0u32, 0u64),
                        (1u32, 0u64),
                        (2u32, 0u64),
                        (3u32, 0u64),
                    ]);
                }
                let pc = self.regs[REG_PC];
                LoadEffects { notified_slots: notified, timer_writes, cpu_reset: true, run_to: Some(pc) }
            },
        };
        self.num_loads = self.num_loads + 1;
        eff
    }

    /// Diagnostic: how many bytes of the captured memory are nonzero.
    pub fn sram_nonzero_count(&self) -> (n: usize)
        ensures
            n == spec_count_nonzero(self.sram@),
    {
        let mut n: usize = 0;
        let mut i: usize = 0;
        proof {
            assert(self.sram@.take(0) =~= Seq::<u8>::empty());
        }
        while i < self.sram.len()
            invariant
                0 <= i <= self.sram@.len(),
                n == spec_count_nonzero(self.sram@.take(i as int)),
                n <= i,
            decreases self.sram@.len() - i,
        {
            proof {
                assert(self.sram@.take(i + 1).drop_last() =~= self.sram@.take(i as int));
                assert(self.sram@.take(i + 1).last() == self.sram@[i as int]);
            }
            if self.sram[i] != 0 {
                n = n + 1;
            }
            i = i + 1;
        }
        proof {
            assert(self.sram@.take(self.sram@.len() as int) =~= self.sram@);
        }
        n
    }

    /// Diagnostic: the index of the first nonzero captured byte; zero when
    /// every byte is zero.
    pub fn sram_first_nonzero(&self) -> (idx: usize)
        ensures
            (exists|j: int| 0 <= j < self.sram@.len() && self.sram@[j] != 0) ==> idx
                < self.sram@.len() && self.sram@[idx as int] != 0 && (forall|j: int|
                0 <= j < idx ==> self.sram@[j] == 0),
            !(exists|j: int| 0 <= j < self.sram@.len() && self.sram@[j] != 0) ==> idx == 0,
    {
        let mut i: usize = 0;
        while i < self.sram.len()
            invariant
                0 <= i <= self.sram@.len(),
                forall|j: int| 0 <= j < i ==> self.sram@[j] == 0,
            decreases self.sram@.len() - i,
        {
            if self.sram[i] != 0 {
                return i;
            }
            i = i + 1;
        }
        0
    }

    /// Folds the machine state observed after the backend ran from true
    /// reset to the breakpoint reported by `load(HardReset)` back into the
    /// mirror. The run stops only at that breakpoint, so the observed
    /// program counter equals the captured one; the caller must check this
    /// before calling.
    pub fn finish_hard_reset(&self, m: &mut MachineState, observed: MachineState)
        requires
            self.wf(),
            self.saved,
            observed.wf(self.sram_size),
            observed.regs@[REG_PC as int] == self.regs@[REG_PC as int],
        ensures
            *final(m) == observed,
            final(m).regs@[REG_PC as int] == self.regs@[REG_PC as int],
    {
        *m = observed;
    }
}

} // verus!
