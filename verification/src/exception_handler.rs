//! Catching and classifying CPU exceptions raised while a test case runs.
//!
//! The monitor hooks every exception-vector slot except RESET; a firing hook
//! classifies the exception from its vector address, aggregates the class
//! into a bitmask signal, and always forces the run to stop. The signal is
//! read and cleared exactly once per classification step.

use vstd::prelude::*;

verus! {

/// Number of exception-vector slots, the reserved unknown slot included.
pub const EXCEPTION_SLOT_COUNT: u32 = 9;

/// CPU exception classes, in vector-table order; `UNKNOWN` stands for any
/// out-of-range vector index.
#[derive(Copy, Clone, PartialEq, Eq, Structural, Debug)]
pub enum ExceptionType {
    RESET,
    UNDEF,
    SVC,
    PREAB,
    DATAB,
    HYP,
    IRQ,
    FIQ,
    UNKNOWN,
}

/// The exception class of a vector slot index.
pub open spec fn spec_exception_from(v: u32) -> ExceptionType {
    if v == 0 {
        ExceptionType::RESET
    } else if v == 1 {
        ExceptionType::UNDEF
    } else if v == 2 {
        ExceptionType::SVC
    } else if v == 3 {
        ExceptionType::PREAB
    } else if v == 4 {
        ExceptionType::DATAB
    } else if v == 5 {
        ExceptionType::HYP
    } else if v == 6 {
        ExceptionType::IRQ
    } else if v == 7 {
        ExceptionType::FIQ
    } else {
        ExceptionType::UNKNOWN
    }
}

impl ExceptionType {
    /// Index of the class's slot in the exception vector table.
    pub open spec fn spec_index(self) -> u32 {
        match self {
            ExceptionType::RESET => 0,
            ExceptionType::UNDEF => 1,
            ExceptionType::SVC => 2,
            ExceptionType::PREAB => 3,
            ExceptionType::DATAB => 4,
            ExceptionType::HYP => 5,
            ExceptionType::IRQ => 6,
            ExceptionType::FIQ => 7,
            ExceptionType::UNKNOWN => 8,
        }
    }

    /// Whether the class contributes to the aggregate signal. Data aborts
    /// are expected firmware behaviour and unknown classes are logged only,
    /// so neither sets a bit.
    pub open spec fn spec_signals(self) -> bool {
        self != ExceptionType::DATAB && self != ExceptionType::UNKNOWN
    }

    /// Index of the class's slot in the exception vector table.
    pub fn index(&self) -> (r: u32)
        ensures
            r == self.spec_index(),
    {
        match self {
            ExceptionType::RESET => 0,
            ExceptionType::UNDEF => 1,
            ExceptionType::SVC => 2,
            ExceptionType::PREAB => 3,
            ExceptionType::DATAB => 4,
            ExceptionType::HYP => 5,
            ExceptionType::IRQ => 6,
            ExceptionType::FIQ => 7,
            ExceptionType::UNKNOWN => 8,
        }
    }
}

impl core::convert::From<u32> for ExceptionType {
    /// Classifies a vector slot index.
    fn from(orig: u32) -> (r: Self) {
        if orig == 0 {
            ExceptionType::RESET
        } else if orig == 1 {
            ExceptionType::UNDEF
        } else if orig == 2 {
            ExceptionType::SVC
        } else if orig == 3 {
            ExceptionType::PREAB
        } else if orig == 4 {
            ExceptionType::DATAB
        } else if orig == 5 {
            ExceptionType::HYP
        } else if orig == 6 {
            ExceptionType::IRQ
        } else if orig == 7 {
            ExceptionType::FIQ
        } else {
            ExceptionType::UNKNOWN
        }
    }
}

impl vstd::std_specs::convert::FromSpecImpl<u32> for ExceptionType {
    open spec fn obeys_from_spec() -> bool {
        true
    }

    open spec fn from_spec(v: u32) -> Self {
        spec_exception_from(v)
    }
}

/// One hook address per exception-vector slot. RESET is deliberately not
/// hooked: the reset vector is the one used to catch the other classes.
pub struct ExceptionHandler {
    pub exception_vector_base: u32,
    pub exception_addr_reset: u32,
    pub exception_addr_undef: u32,
    pub exception_addr_svc: u32,
    pub exception_addr_preab: u32,
    pub exception_addr_datab: u32,
    pub exception_addr_hyp: u32,
    pub exception_addr_irq: u32,
    pub exception_addr_fiq: u32,
}

impl ExceptionHandler {
    /// Each slot address sits at its class's offset over the vector base.
    pub open spec fn wf(&self) -> bool {
        &&& self.exception_vector_base + 4 * 8 <= u32::MAX
        &&& self.exception_addr_reset == self.exception_vector_base
        &&& self.exception_addr_undef == self.exception_vector_base + 4
        &&& self.exception_addr_svc == self.exception_vector_base + 8
        &&& self.exception_addr_preab == self.exception_vector_base + 12
        &&& self.exception_addr_datab == self.exception_vector_base + 16
        &&& self.exception_addr_hyp == self.exception_vector_base + 20
        &&& self.exception_addr_irq == self.exception_vector_base + 24
        &&& self.exception_addr_fiq == self.exception_vector_base + 28
    }

    /// Lays out the per-class vector addresses over the given base.
    pub fn new(exception_vector_base: u32) -> (r: Self)
        requires
            exception_vector_base + 4 * 8 <= u32::MAX,
        ensures
            r.wf(),
            r.exception_vector_base == exception_vector_base,
    {
        ExceptionHandler {
            exception_vector_base,
            exception_addr_reset: exception_vector_base,
            exception_addr_undef: exception_vector_base + 4,
            exception_addr_svc: exception_vector_base + 8,
            exception_addr_preab: exception_vector_base + 12,
            exception_addr_datab: exception_vector_base + 16,
            exception_addr_hyp: exception_vector_base + 20,
            exception_addr_irq: exception_vector_base + 24,
            exception_addr_fiq: exception_vector_base + 28,
        }
    }

    /// The addresses at which the backend installs (and later removes) the
    /// monitor's hooks: every vector slot except RESET, in table order.
    pub fn hook_addresses(&self) -> (addrs: Vec<u32>)
        requires
            self.wf(),
        ensures
            addrs@.len() == 7,
            forall|j: int|
                0 <= j < 7 ==> addrs@[j] == self.exception_vector_base + 4 * (j + 1),
    {
        let mut addrs: Vec<u32> = Vec::new();
        addrs.push(self.exception_addr_undef);
        addrs.push(self.exception_addr_svc);
        addrs.push(self.exception_addr_preab);
        addrs.push(self.exception_addr_datab);
        addrs.push(self.exception_addr_hyp);
        addrs.push(self.exception_addr_irq);
        addrs.push(self.exception_addr_fiq);
        addrs
    }
}

/// Aggregate exception signal of one iteration: a bitmask keyed by
/// exception class, consumed and cleared exactly once per classification
/// step.
pub struct ExceptionFeedback {
    pub triggered: u64,
}

impl ExceptionFeedback {
    /// Creates an empty signal.
    pub fn new() -> (r: Self)
        ensures
            r.triggered == 0,
    {
        ExceptionFeedback { triggered: 0 }
    }

    /// A firing exception hook reports the faulting vector address here.
    /// The class is computed from the offset within the vector table; every
    /// class except data-abort and unknown ORs its bit into the signal.
    /// The caller must always force the current run to stop afterwards,
    /// whatever the class.
    pub fn record(&mut self, pc: u32, vector_base: u32) -> (ty: ExceptionType)
        requires
            vector_base <= pc,
        ensures
            ty == spec_exception_from((((pc - vector_base) as u32) / 4) as u32),
            final(self).triggered == if ty.spec_signals() {
                old(self).triggered | (1u64 << ty.spec_index())
            } else {
                old(self).triggered
            },
    {
        let ty = ExceptionType::from((pc - vector_base) / 4);
        let idx = ty.index();
        match ty {
            ExceptionType::DATAB => (),
            ExceptionType::UNKNOWN => (),
            _ => {
                self.triggered = self.triggered | (1u64 << idx);
            },
        }
        ty
    }

    /// Reads and clears the signal: true exactly when at least one
    /// monitored exception fired since the last read.
    pub fn is_interesting(&mut self) -> (r: bool)
        ensures
            r == (old(self).triggered != 0),
            final(self).triggered == 0,
    {
        let r = self.triggered != 0;
        self.triggered = 0;
        r
    }
}

impl Default for ExceptionFeedback {
    fn default() -> (r: Self)
        ensures
            r.triggered == 0,
    {
        ExceptionFeedback { triggered: 0 }
    }
}

} // verus!
