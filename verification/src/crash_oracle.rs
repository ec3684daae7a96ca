//! Crash oracle: hook decisions that turn semantically meaningful emulator
//! events into forced stops of the current run.
//!
//! Two independent hook families, both configuration-driven. Execution
//! hooks instrument every distinct instruction address inside a
//! non-executable range, and special-case the firmware's trusted flash-read
//! routine to catch copies that overwrite protected memory from an
//! unexpected call site. Write hooks instrument every distinct writing
//! instruction except the configured allow-listed ones, and stop the run on
//! any write into a protected range. A forced stop only terminates the run;
//! the verdict is decided afterwards by the harness classification.

use vstd::prelude::*;

verus! {

/// A protected range `[begin, end]` with an allow-list of addresses
/// (call sites, or originating instructions) that may touch it.
pub type ProtectedRange = (u32, u32, Vec<u32>);

/// Whether `a` lies in the half-open range `[begin, end)` of some entry.
pub open spec fn spec_in_ranges(ranges: Seq<(u32, u32)>, a: u32) -> bool {
    exists|i: int| #![trigger ranges[i]] 0 <= i < ranges.len() && ranges[i].0 <= a < ranges[i].1
}

/// Whether a copy of `len` bytes to `dest` reaches the protected range
/// `[begin, end]` (endpoints inclusive, as configured).
pub open spec fn spec_dest_overlaps(begin: u32, end: u32, dest: u32, len: u32) -> bool {
    len > 0 && begin < dest + len && dest <= end
}

/// Whether a copy to `dest` of `len` bytes must stop the run: it reaches
/// some protected range whose allow-list does not hold the call site `lr`.
pub open spec fn spec_flash_copy_stops(
    areas: Seq<ProtectedRange>,
    dest: u32,
    len: u32,
    lr: u32,
) -> bool {
    exists|i: int|
        #![trigger areas[i]]
        0 <= i < areas.len() && spec_dest_overlaps(areas[i].0, areas[i].1, dest, len)
            && !areas[i].2@.contains(lr)
}

/// Whether the writing instruction at `src` is allow-listed by some
/// write-monitored range, so that it is never instrumented at all.
pub open spec fn spec_write_gen_skipped(hooks: Seq<ProtectedRange>, src: u32) -> bool {
    exists|i: int| #![trigger hooks[i]] 0 <= i < hooks.len() && hooks[i].2@.contains(src)
}

/// Whether a write to `addr` lands in some write-monitored range
/// `[begin, end)`.
pub open spec fn spec_write_stops(hooks: Seq<ProtectedRange>, addr: u32) -> bool {
    exists|i: int| #![trigger hooks[i]] 0 <= i < hooks.len() && hooks[i].0 <= addr < hooks[i].1
}

/// The per-worker hook-id allocators and the reserved id of the flash-read
/// hook. Owned by one worker's execution context and threaded explicitly
/// into every generation step; id 0 is never allocated, so a zero
/// `flash_read_hook_id` means the flash-read hook does not exist yet.
pub struct HookCounters {
    pub counter_edge_hooks: usize,
    pub counter_write_hooks: usize,
    pub flash_read_hook_id: usize,
}

impl HookCounters {
    /// Fresh allocators; no hook ids handed out yet.
    pub fn new() -> (r: Self)
        ensures
            r.counter_edge_hooks == 0,
            r.counter_write_hooks == 0,
            r.flash_read_hook_id == 0,
    {
        HookCounters { counter_edge_hooks: 0, counter_write_hooks: 0, flash_read_hook_id: 0 }
    }

    /// Generation step for a reached instruction address: decides once
    /// whether `src` needs instrumentation. An address inside a configured
    /// non-executable range gets a fresh hook id and stops the run at once;
    /// the flash-read function address gets a fresh id remembered as the
    /// flash-read hook (when protected destination ranges are configured at
    /// all); any other address stays uninstrumented.
    pub fn gen_block_hook(
        &mut self,
        no_exec: &Vec<(u32, u32)>,
        no_write_flash_fn: &Vec<ProtectedRange>,
        flash_read_fn: u32,
        src: u32,
    ) -> (r: (Option<u64>, bool))
        requires
            old(self).counter_edge_hooks < usize::MAX,
        ensures
            final(self).counter_write_hooks == old(self).counter_write_hooks,
            if spec_in_ranges(no_exec@, src) {
                &&& r == (Some((old(self).counter_edge_hooks + 1) as u64), true)
                &&& final(self).counter_edge_hooks == old(self).counter_edge_hooks + 1
                &&& final(self).flash_read_hook_id == old(self).flash_read_hook_id
            } else if no_write_flash_fn@.len() != 0 && src == flash_read_fn {
                &&& r == (Some((old(self).counter_edge_hooks + 1) as u64), false)
                &&& final(self).counter_edge_hooks == old(self).counter_edge_hooks + 1
                &&& final(self).flash_read_hook_id == old(self).counter_edge_hooks + 1
            } else {
                &&& r == (None::<u64>, false)
                &&& final(self).counter_edge_hooks == old(self).counter_edge_hooks
                &&& final(self).flash_read_hook_id == old(self).flash_read_hook_id
            },
    {
        let mut i: usize = 0;
        while i < no_exec.len()
            invariant
                0 <= i <= no_exec.len(),
                *self == *old(self),
                forall|j: int| #![trigger no_exec@[j]] 0 <= j < i ==> !(no_exec@[j].0 <= src < no_exec@[j].1),
            decreases no_exec.len() - i,
        {
            let range = no_exec[i];
            if src >= range.0 && src < range.1 {
                self.counter_edge_hooks = self.counter_edge_hooks + 1;
                return (Some(self.counter_edge_hooks as u64), true);
            }
            i = i + 1;
        }
        if no_write_flash_fn.len() != 0 && src == flash_read_fn {
            self.counter_edge_hooks = self.counter_edge_hooks + 1;
            self.flash_read_hook_id = self.counter_edge_hooks;
            return (Some(self.counter_edge_hooks as u64), false);
        }
        (None, false)
    }

    /// Generation step for a writing instruction address: an address present
    /// in some write-monitored range's allow-list is never instrumented;
    /// every other writing instruction gets a fresh hook id.
    pub fn gen_writes_hook(
        &mut self,
        no_write_hooks: &Vec<ProtectedRange>,
        src: u32,
        _size: usize,
    ) -> (r: Option<u64>)
        requires
            old(self).counter_write_hooks < usize::MAX,
        ensures
            final(self).counter_edge_hooks == old(self).counter_edge_hooks,
            final(self).flash_read_hook_id == old(self).flash_read_hook_id,
            if spec_write_gen_skipped(no_write_hooks@, src) {
                r == None::<u64>
                    && final(self).counter_write_hooks == old(self).counter_write_hooks
            } else {
                r == Some((old(self).counter_write_hooks + 1) as u64)
                    && final(self).counter_write_hooks == old(self).counter_write_hooks + 1
            },
    {
        let mut i: usize = 0;
        while i < no_write_hooks.len()
            invariant
                0 <= i <= no_write_hooks.len(),
                *self == *old(self),
                forall|j: int| #![trigger no_write_hooks@[j]] 0 <= j < i ==> !no_write_hooks@[j].2@.contains(src),
            decreases no_write_hooks.len() - i,
        {
            let allow = &no_write_hooks[i].2;
            let mut k: usize = 0;
            while k < allow.len()
                invariant
                    0 <= k <= allow.len(),
                    *self == *old(self),
                    allow == &no_write_hooks@[i as int].2,
                    i < no_write_hooks.len(),
                    forall|j: int| 0 <= j < k ==> allow@[j] != src,
                decreases allow.len() - k,
            {
                if allow[k] == src {
                    return None;
                }
                k = k + 1;
            }
            i = i + 1;
        }
        self.counter_write_hooks = self.counter_write_hooks + 1;
        Some(self.counter_write_hooks as u64)
    }
}

/// Execution step for a block hook firing with hook id `id`. For the
/// flash-read hook, the copy arguments conventionally sit in the first
/// three general-purpose registers (source, destination, length) and the
/// call site in the link register: the run stops exactly when the
/// destination interval reaches a protected range whose allow-list does not
/// hold the call site. Any other execution hook id marks an instruction in
/// a non-executable range and stops the run unconditionally.
pub fn exec_block_hook(
    no_write_flash_fn: &Vec<ProtectedRange>,
    flash_read_fn: u32,
    flash_read_hook_id: usize,
    id: u64,
    pc: u32,
    cpy_dest_start: u32,
    cpy_len: u32,
    cpy_lr: u32,
) -> (stop: bool)
    ensures
        stop == if id == flash_read_hook_id as u64 {
            pc == flash_read_fn && spec_flash_copy_stops(
                no_write_flash_fn@,
                cpy_dest_start,
                cpy_len,
                cpy_lr,
            )
        } else {
            true
        },
{
    if id != flash_read_hook_id as u64 {
        return true;
    }
    if pc != flash_read_fn {
        return false;
    }
    if cpy_len == 0 {
        return false;
    }
    let dest_end: u64 = cpy_dest_start as u64 + cpy_len as u64;
    let mut i: usize = 0;
    while i < no_write_flash_fn.len()
        invariant
            0 <= i <= no_write_flash_fn.len(),
            cpy_len > 0,
            dest_end == cpy_dest_start + cpy_len,
            forall|j: int|
                #![trigger no_write_flash_fn@[j]]
                0 <= j < i ==> !(spec_dest_overlaps(
                    no_write_flash_fn@[j].0,
                    no_write_flash_fn@[j].1,
                    cpy_dest_start,
                    cpy_len,
                ) && !no_write_flash_fn@[j].2@.contains(cpy_lr)),
        decreases no_write_flash_fn.len() - i,
    {
        let area = &no_write_flash_fn[i];
        if (area.0 as u64) < dest_end && cpy_dest_start <= area.1 {
            let allow = &area.2;
            let mut k: usize = 0;
            let mut allowed = false;
            while k < allow.len()
                invariant
                    0 <= k <= allow.len(),
                    allow == &no_write_flash_fn@[i as int].2,
                    i < no_write_flash_fn.len(),
                    allowed == exists|j: int| 0 <= j < k && allow@[j] == cpy_lr,
                decreases allow.len() - k,
            {
                if allow[k] == cpy_lr {
                    allowed = true;
                }
                k = k + 1;
            }
            if !allowed {
                return true;
            }
            proof {
                let j = choose|j: int| 0 <= j < allow@.len() && allow@[j] == cpy_lr;
                assert(allow@.contains(cpy_lr));
            }
        }
        i = i + 1;
    }
    false
}

/// Execution step for a fixed-size write hook: the run stops exactly when
/// the written address lands in some write-monitored range. The hook id
/// plays no part in the decision.
pub fn exec_writes_hook(no_write_hooks: &Vec<ProtectedRange>, _id: u64, addr: u32) -> (stop: bool)
    ensures
        stop == spec_write_stops(no_write_hooks@, addr),
{
    let mut i: usize = 0;
    while i < no_write_hooks.len()
        invariant
            0 <= i <= no_write_hooks.len(),
            forall|j: int| #![trigger no_write_hooks@[j]] 0 <= j < i ==> !(no_write_hooks@[j].0 <= addr < no_write_hooks@[j].1),
        decreases no_write_hooks.len() - i,
    {
        let range = &no_write_hooks[i];
        if addr >= range.0 && addr < range.1 {
            return true;
        }
        i = i + 1;
    }
    false
}

/// Execution step for an arbitrary-size write hook: the write size plays no
/// part, the range-membership logic is the fixed-size one.
pub fn exec_writes_hook_n(
    no_write_hooks: &Vec<ProtectedRange>,
    id: u64,
    addr: u32,
    _size: usize,
) -> (stop: bool)
    ensures
        stop == spec_write_stops(no_write_hooks@, addr),
{
    exec_writes_hook(no_write_hooks, id, addr)
}

} // verus!
