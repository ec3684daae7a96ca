//! Per-iteration harness logic: input injection into the emulated flash,
//! exit classification, and the crash/periodic bookkeeping that picks the
//! snapshot fidelity of the next reset.
//!
//! Each iteration restores machine state, scatters the candidate input
//! across the configured flash windows (zero-padded or truncated to the
//! total byte budget), writes the fixed-value injections on top, runs the
//! emulator, and classifies the exit program counter as Ok or Crash.

use vstd::prelude::*;

use crate::exception_handler::EXCEPTION_SLOT_COUNT;
use crate::reset_state::ResetLevel;

verus! {

/// Base address of the on-chip bootloader image and of its exception
/// vector table.
pub const ON_CHIP_ADDR: u32 = 0xffff_0000;

/// Outcome of one iteration: a benign exit, or a crash.
#[derive(Copy, Clone, PartialEq, Eq, Structural, Debug)]
pub enum ExitKind {
    Benign,
    Crash,
}

/// The candidate input, zero-padded on the right and truncated to exactly
/// the total byte budget.
pub open spec fn spec_padded(input: Seq<u8>, total: int) -> Seq<u8> {
    Seq::new(total as nat, |k: int| if k < input.len() { input[k] } else { 0u8 })
}

/// One contiguous write of `data` at `addr`, applied to a flash image.
pub open spec fn spec_apply_write(flash: Seq<u8>, addr: int, data: Seq<u8>) -> Seq<u8> {
    Seq::new(flash.len(), |k: int| if addr <= k < addr + data.len() { data[k - addr] } else { flash[k] })
}

/// Total size in bytes of a list of input windows.
pub open spec fn spec_sum_sizes(mem: Seq<(u32, usize)>) -> int
    decreases mem.len(),
{
    if mem.len() == 0 {
        0
    } else {
        spec_sum_sizes(mem.drop_last()) + mem.last().1
    }
}

/// The flash image after scattering the padded input buffer across the
/// windows in declared order, each consuming exactly its size of the
/// buffer.
pub open spec fn spec_apply_windows(flash: Seq<u8>, mem: Seq<(u32, usize)>, buf: Seq<u8>) -> Seq<u8>
    decreases mem.len(),
{
    if mem.len() == 0 {
        flash
    } else {
        spec_apply_write(
            spec_apply_windows(flash, mem.drop_last(), buf),
            mem.last().0 as int,
            buf.subrange(
                spec_sum_sizes(mem.drop_last()),
                spec_sum_sizes(mem.drop_last()) + mem.last().1,
            ),
        )
    }
}

/// A 32-bit value as the four bytes written to memory, least significant
/// byte first.
pub open spec fn spec_le_bytes(v: u32) -> Seq<u8> {
    seq![
        (v & 0xff) as u8,
        ((v >> 8) & 0xff) as u8,
        ((v >> 16) & 0xff) as u8,
        ((v >> 24) & 0xff) as u8,
    ]
}

/// The flash image after writing every fixed-value injection, in declared
/// order.
pub open spec fn spec_apply_fixed(flash: Seq<u8>, fixed: Seq<(u32, u32)>) -> Seq<u8>
    decreases fixed.len(),
{
    if fixed.len() == 0 {
        flash
    } else {
        spec_apply_write(
            spec_apply_fixed(flash, fixed.drop_last()),
            fixed.last().0 as int,
            spec_le_bytes(fixed.last().1),
        )
    }
}

/// The flash image after one full injection: padded input scattered across
/// the windows, then every fixed value written unconditionally on top.
pub open spec fn spec_injected(
    flash: Seq<u8>,
    mem: Seq<(u32, usize)>,
    fixed: Seq<(u32, u32)>,
    buf: Seq<u8>,
) -> Seq<u8> {
    spec_apply_fixed(spec_apply_windows(flash, mem, buf), fixed)
}

/// Scattering never changes the image size.
pub proof fn lemma_apply_windows_len(flash: Seq<u8>, mem: Seq<(u32, usize)>, buf: Seq<u8>)
    ensures
        spec_apply_windows(flash, mem, buf).len() == flash.len(),
    decreases mem.len(),
{
    if mem.len() > 0 {
        lemma_apply_windows_len(flash, mem.drop_last(), buf);
    }
}

/// Fixed-value injection never changes the image size.
pub proof fn lemma_apply_fixed_len(flash: Seq<u8>, fixed: Seq<(u32, u32)>)
    ensures
        spec_apply_fixed(flash, fixed).len() == flash.len(),
    decreases fixed.len(),
{
    if fixed.len() > 0 {
        lemma_apply_fixed_len(flash, fixed.drop_last());
    }
}

/// Fixed-value injections always overwrite any input bytes at the same
/// address: whatever the windows wrote at byte `k`, the last fixed entry
/// covering `k` decides that byte of the injected image.
pub proof fn lemma_fixed_wins(
    flash: Seq<u8>,
    mem: Seq<(u32, usize)>,
    fixed: Seq<(u32, u32)>,
    buf: Seq<u8>,
    i: int,
    k: int,
)
    requires
        0 <= i < fixed.len(),
        0 <= k < flash.len(),
        fixed[i].0 <= k < fixed[i].0 + 4,
        forall|j: int| #![trigger fixed[j]] i < j < fixed.len() ==> !(fixed[j].0 <= k < fixed[j].0 + 4),
    ensures
        spec_injected(flash, mem, fixed, buf)[k] == spec_le_bytes(fixed[i].1)[k - fixed[i].0],
    decreases fixed.len(),
{
    let scattered = spec_apply_windows(flash, mem, buf);
    lemma_apply_windows_len(flash, mem, buf);
    lemma_apply_fixed_len(scattered, fixed.drop_last());
    if i == fixed.len() - 1 {
    } else {
        assert(fixed.drop_last()[i] == fixed[i]);
        lemma_fixed_wins(flash, mem, fixed.drop_last(), buf, i, k);
    }
}

/// Writes a byte buffer into the flash image at the given address (as seen
/// by the on-chip DMA controller, relative to the flash base).
pub fn write_flash_mem(flash: &mut Vec<u8>, addr: u32, buf: &[u8])
    requires
        addr + buf@.len() <= old(flash)@.len(),
    ensures
        final(flash)@ == spec_apply_write(old(flash)@, addr as int, buf@),
{
    let mut k: usize = 0;
    while k < buf.len()
        invariant
            0 <= k <= buf@.len(),
            addr + buf@.len() <= flash@.len(),
            flash@.len() == old(flash)@.len(),
            forall|j: int| 0 <= j < k ==> flash@[addr + j] == buf@[j],
            forall|j: int|
                0 <= j < flash@.len() && !(addr <= j < addr + k) ==> flash@[j] == old(flash)@[j],
        decreases buf@.len() - k,
    {
        let n = flash.len();
        proof {
            assert(addr + k < n);
        }
        flash[addr as usize + k] = buf[k];
        k = k + 1;
    }
    proof {
        assert(flash@ =~= spec_apply_write(old(flash)@, addr as int, buf@));
    }
}

/// Copies `len` bytes of a buffer starting at `start`.
fn vec_slice(buf: &Vec<u8>, start: usize, len: usize) -> (r: Vec<u8>)
    requires
        start + len <= buf@.len(),
    ensures
        r@ == buf@.subrange(start as int, start + len),
{
    let mut r: Vec<u8> = Vec::new();
    let mut k: usize = 0;
    while k < len
        invariant
            0 <= k <= len,
            start + len <= buf@.len(),
            r@ == buf@.subrange(start as int, start + k),
        decreases len - k,
    {
        let n = buf.len();
        proof {
            assert(start + k < n);
        }
        r.push(buf[start + k]);
        proof {
            assert(buf@.subrange(start as int, start + k + 1) =~= buf@.subrange(
                start as int,
                start + k,
            ).push(buf@[start + k]));
        }
        k = k + 1;
    }
    r
}

/// The four bytes of a 32-bit value, least significant first. The explicit
/// byte order is part of the contract.
pub fn u32_le_bytes(v: u32) -> (r: Vec<u8>)
    ensures
        r@ == spec_le_bytes(v),
{
    let mut r: Vec<u8> = Vec::new();
    r.push((v & 0xff) as u8);
    r.push(((v >> 8) & 0xff) as u8);
    r.push(((v >> 16) & 0xff) as u8);
    r.push(((v >> 24) & 0xff) as u8);
    proof {
        assert(r@ =~= spec_le_bytes(v));
    }
    r
}

/// The candidate input brought to exactly the total byte budget: truncated
/// when longer, zero-padded on the right when shorter.
pub fn build_input_buffer(input: &[u8], total: usize) -> (buf: Vec<u8>)
    ensures
        buf@ == spec_padded(input@, total as int),
{
    let mut buf: Vec<u8> = Vec::new();
    let mut k: usize = 0;
    while k < total
        invariant
            0 <= k <= total,
            buf@.len() == k,
            forall|j: int| 0 <= j < k ==> buf@[j] == spec_padded(input@, total as int)[j],
        decreases total - k,
    {
        if k < input.len() {
            let b = input[k];
            buf.push(b);
        } else {
            buf.push(0);
        }
        k = k + 1;
    }
    proof {
        assert(buf@ =~= spec_padded(input@, total as int));
    }
    buf
}

/// Prefix sums of window sizes never exceed the full sum.
pub proof fn lemma_sum_sizes_monotone(mem: Seq<(u32, usize)>, i: int, j: int)
    requires
        0 <= i <= j <= mem.len(),
    ensures
        spec_sum_sizes(mem.take(i)) <= spec_sum_sizes(mem.take(j)),
    decreases j - i,
{
    if i < j {
        lemma_sum_sizes_monotone(mem, i, j - 1);
        assert(mem.take(j).drop_last() =~= mem.take(j - 1));
        lemma_sum_sizes_nonneg(mem.take(j - 1));
    }
}

/// A sum of window sizes is nonnegative.
pub proof fn lemma_sum_sizes_nonneg(mem: Seq<(u32, usize)>)
    ensures
        spec_sum_sizes(mem) >= 0,
    decreases mem.len(),
{
    if mem.len() > 0 {
        lemma_sum_sizes_nonneg(mem.drop_last());
    }
}

/// One full input injection: the candidate input is padded or truncated to
/// the total byte budget, scattered across the input windows in declared
/// order, and then every fixed-value injection is written unconditionally,
/// in declared order, on top of whatever the scatter placed there.
pub fn inject_input(
    flash: &mut Vec<u8>,
    input_mem: &Vec<(u32, usize)>,
    input_fixed: &Vec<(u32, u32)>,
    input_total_size: usize,
    input: &[u8],
)
    requires
        spec_sum_sizes(input_mem@) == input_total_size,
        forall|i: int|
            #![trigger input_mem@[i]]
            0 <= i < input_mem@.len() ==> input_mem@[i].0 + input_mem@[i].1 <= old(flash)@.len(),
        forall|i: int|
            #![trigger input_fixed@[i]]
            0 <= i < input_fixed@.len() ==> input_fixed@[i].0 + 4 <= old(flash)@.len(),
    ensures
        final(flash)@ == spec_injected(
            old(flash)@,
            input_mem@,
            input_fixed@,
            spec_padded(input@, input_total_size as int),
        ),
        final(flash)@.len() == old(flash)@.len(),
{
    let buffer = build_input_buffer(input, input_total_size);
    let ghost buf = buffer@;
    let ghost flash0 = flash@;
    let mut off: usize = 0;
    let mut i: usize = 0;
    proof {
        assert(input_mem@.take(0) =~= Seq::<(u32, usize)>::empty());
    }
    while i < input_mem.len()
        invariant
            0 <= i <= input_mem@.len(),
            off == spec_sum_sizes(input_mem@.take(i as int)),
            off <= input_total_size,
            buffer@ == buf,
            buf.len() == input_total_size,
            flash@ == spec_apply_windows(flash0, input_mem@.take(i as int), buf),
            flash@.len() == flash0.len(),
        decreases input_mem@.len() - i,
    {
        let (addr, size) = input_mem[i];
        proof {
            assert(input_mem@.take(i + 1).drop_last() =~= input_mem@.take(i as int));
            assert(input_mem@.take(i + 1).last() == input_mem@[i as int]);
            lemma_sum_sizes_monotone(input_mem@, i + 1, input_mem@.len() as int);
            assert(input_mem@.take(input_mem@.len() as int) =~= input_mem@);
        }
        let piece = vec_slice(&buffer, off, size);
        write_flash_mem(flash, addr, piece.as_slice());
        off = off + size;
        i = i + 1;
    }
    proof {
        assert(input_mem@.take(input_mem@.len() as int) =~= input_mem@);
        assert(input_fixed@.take(0) =~= Seq::<(u32, u32)>::empty());
    }
    let ghost scattered = flash@;
    let mut f: usize = 0;
    while f < input_fixed.len()
        invariant
            0 <= f <= input_fixed@.len(),
            flash@ == spec_apply_fixed(scattered, input_fixed@.take(f as int)),
            flash@.len() == flash0.len(),
            scattered == spec_apply_windows(flash0, input_mem@, buf),
        decreases input_fixed@.len() - f,
    {
        let (addr, val) = input_fixed[f];
        proof {
            assert(input_fixed@.take(f + 1).drop_last() =~= input_fixed@.take(f as int));
            assert(input_fixed@.take(f + 1).last() == input_fixed@[f as int]);
        }
        let bytes = u32_le_bytes(val);
        write_flash_mem(flash, addr, bytes.as_slice());
        f = f + 1;
    }
    proof {
        assert(input_fixed@.take(input_fixed@.len() as int) =~= input_fixed@);
    }
}

/// Byte `j` of the padded tail view of an input: the byte itself inside
/// the input, zero beyond its end.
pub open spec fn spec_byte_or_zero(s: Seq<u8>, j: int) -> u8 {
    if 0 <= j < s.len() {
        s[j]
    } else {
        0u8
    }
}

/// The 32-bit word formed from four consecutive input bytes starting at
/// `4 * k`, least significant byte first; missing trailing bytes read as
/// zero.
pub open spec fn spec_word_at(s: Seq<u8>, k: int) -> u32 {
    (spec_byte_or_zero(s, 4 * k) as u32) | ((spec_byte_or_zero(s, 4 * k + 1) as u32) << 8u32) | (
    (spec_byte_or_zero(s, 4 * k + 2) as u32) << 16u32) | ((spec_byte_or_zero(s, 4 * k + 3) as u32)
        << 24u32)
}

/// Groups an input into 32-bit words for inspection, least significant
/// byte first, the last word zero-padded. The byte order is explicit and
/// part of the contract.
pub fn bytes_to_words(input: &[u8]) -> (words: Vec<u32>)
    ensures
        words@.len() == (input@.len() + 3) / 4,
        forall|k: int| 0 <= k < words@.len() ==> words@[k] == spec_word_at(input@, k),
{
    let mut words: Vec<u32> = Vec::new();
    let n = input.len();
    let total = n / 4 + if n % 4 == 0 { 0 } else { 1 };
    let mut k: usize = 0;
    while k < total
        invariant
            0 <= k <= total,
            n == input@.len(),
            total == (n + 3) / 4,
            words@.len() == k,
            forall|j: int| 0 <= j < k ==> words@[j] == spec_word_at(input@, j),
        decreases total - k,
    {
        let b0 = if 4 * k < n { input[4 * k] } else { 0 };
        let b1 = if 4 * k + 1 < n { input[4 * k + 1] } else { 0 };
        let b2 = if 4 * k + 2 < n { input[4 * k + 2] } else { 0 };
        let b3 = if 4 * k + 3 < n { input[4 * k + 3] } else { 0 };
        let w = (b0 as u32) | ((b1 as u32) << 8u32) | ((b2 as u32) << 16u32) | ((b3 as u32)
            << 24u32);
        words.push(w);
        k = k + 1;
    }
    words
}

/// Whether the exit program counter equals one of the configured sinks.
pub open spec fn spec_is_sink(sinks: Seq<u32>, pc: u32) -> bool {
    exists|i: int| 0 <= i < sinks.len() && sinks[i] == pc
}

/// Exit classification: a sink is Ok; an address inside the
/// exception-vector dispatch window is still Ok, because a monitored
/// exception in flight is not itself a crash at this layer; anything else
/// is a Crash.
pub open spec fn spec_classify(sinks: Seq<u32>, vector_base: u32, pc: u32) -> ExitKind {
    if spec_is_sink(sinks, pc) {
        ExitKind::Benign
    } else if vector_base <= pc < vector_base + 4 * (EXCEPTION_SLOT_COUNT as int) {
        ExitKind::Benign
    } else {
        ExitKind::Crash
    }
}

/// Per-worker iteration bookkeeping: the periodic-restore counter and the
/// crash flag that forces the on-crash fidelity on the next reset.
pub struct HarnessState {
    pub counter_snapshot: usize,
    pub crash_snapshot: bool,
}

/// The bookkeeping after one exit was classified: a crash resets the
/// periodic counter and raises the crash flag; a benign exit only advances
/// the counter.
pub open spec fn spec_after_classify(s: HarnessState, r: ExitKind) -> HarnessState {
    if r == ExitKind::Crash {
        HarnessState { counter_snapshot: 0, crash_snapshot: true }
    } else {
        HarnessState {
            counter_snapshot: (s.counter_snapshot + 1) as usize,
            crash_snapshot: s.crash_snapshot,
        }
    }
}

/// The fidelity of the next reset and the bookkeeping after choosing it:
/// the on-crash level right after a crash (clearing the flag), the periodic
/// level when the counter reached the period (resetting the counter), the
/// default level otherwise.
pub open spec fn spec_choose_level(
    s: HarnessState,
    snapshot_default: ResetLevel,
    snapshot_on_crash: ResetLevel,
    snapshot_periodically: ResetLevel,
    snapshot_period: usize,
) -> (ResetLevel, HarnessState) {
    if s.crash_snapshot {
        (snapshot_on_crash, HarnessState { crash_snapshot: false, ..s })
    } else if s.counter_snapshot >= snapshot_period {
        (snapshot_periodically, HarnessState { counter_snapshot: 0, ..s })
    } else {
        (snapshot_default, s)
    }
}

impl HarnessState {
    /// Fresh bookkeeping: counter at zero, no crash seen.
    pub fn new() -> (r: Self)
        ensures
            r.counter_snapshot == 0,
            !r.crash_snapshot,
    {
        HarnessState { counter_snapshot: 0, crash_snapshot: false }
    }

    /// Chooses the fidelity level for the next state restore.
    pub fn choose_reset_level(
        &mut self,
        snapshot_default: ResetLevel,
        snapshot_on_crash: ResetLevel,
        snapshot_periodically: ResetLevel,
        snapshot_period: usize,
    ) -> (level: ResetLevel)
        ensures
            (level, *final(self)) == spec_choose_level(
                *old(self),
                snapshot_default,
                snapshot_on_crash,
                snapshot_periodically,
                snapshot_period,
            ),
    {
        if self.crash_snapshot {
            self.crash_snapshot = false;
            snapshot_on_crash
        } else if self.counter_snapshot >= snapshot_period {
            self.counter_snapshot = 0;
            snapshot_periodically
        } else {
            snapshot_default
        }
    }

    /// Classifies the exit program counter of a finished run and updates
    /// the bookkeeping: a sink, or an address inside the exception-vector
    /// dispatch window, is Ok; anything else is a Crash, which resets the
    /// periodic counter and forces the on-crash fidelity next time.
    pub fn classify_exit(&mut self, sinks: &Vec<u32>, vector_base: u32, pc: u32) -> (r: ExitKind)
        requires
            vector_base + 4 * EXCEPTION_SLOT_COUNT <= u32::MAX,
            old(self).counter_snapshot < usize::MAX,
        ensures
            r == spec_classify(sinks@, vector_base, pc),
            *final(self) == spec_after_classify(*old(self), r),
    {
        let mut is_sink = false;
        let mut i: usize = 0;
        while i < sinks.len()
            invariant
                0 <= i <= sinks@.len(),
                *self == *old(self),
                is_sink == exists|j: int| 0 <= j < i && sinks@[j] == pc,
            decreases sinks@.len() - i,
        {
            if sinks[i] == pc {
                is_sink = true;
            }
            i = i + 1;
        }
        if is_sink {
            self.counter_snapshot = self.counter_snapshot + 1;
            return ExitKind::Benign;
        }
        if pc >= vector_base && pc < vector_base + 4 * EXCEPTION_SLOT_COUNT {
            self.counter_snapshot = self.counter_snapshot + 1;
            return ExitKind::Benign;
        }
        self.counter_snapshot = 0;
        self.crash_snapshot = true;
        ExitKind::Crash
    }
}

/// Classification law: after a crash verdict, the very next reset always
/// uses the on-crash fidelity, whatever the counter held and whatever the
/// configured period is.
pub proof fn lemma_crash_forces_on_crash_level(
    s: HarnessState,
    snapshot_default: ResetLevel,
    snapshot_on_crash: ResetLevel,
    snapshot_periodically: ResetLevel,
    snapshot_period: usize,
)
    ensures
        spec_choose_level(
            spec_after_classify(s, ExitKind::Crash),
            snapshot_default,
            snapshot_on_crash,
            snapshot_periodically,
            snapshot_period,
        ).0 == snapshot_on_crash,
{
}

} // verus!
