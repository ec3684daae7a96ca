//! Crash metadata: the full CPU register set at the time of a crash,
//! formatted as fixed-width hexadecimal strings and persisted alongside the
//! triggering input.

use vstd::prelude::*;

verus! {

use vstd::string::StringExecFns;

/// The character for one hexadecimal digit value.
pub open spec fn spec_hex_digit(n: u64) -> char {
    if n == 0 {
        '0'
    } else if n == 1 {
        '1'
    } else if n == 2 {
        '2'
    } else if n == 3 {
        '3'
    } else if n == 4 {
        '4'
    } else if n == 5 {
        '5'
    } else if n == 6 {
        '6'
    } else if n == 7 {
        '7'
    } else if n == 8 {
        '8'
    } else if n == 9 {
        '9'
    } else if n == 10 {
        'a'
    } else if n == 11 {
        'b'
    } else if n == 12 {
        'c'
    } else if n == 13 {
        'd'
    } else if n == 14 {
        'e'
    } else {
        'f'
    }
}

/// A 32-bit register value rendered as `0x` followed by exactly eight
/// hexadecimal digits, most significant first.
pub open spec fn spec_hex32(v: u64) -> Seq<char> {
    seq!['0', 'x'] + Seq::new(8, |i: int| spec_hex_digit((v >> ((4 * (7 - i)) as u64)) & 0xf))
}

/// Appends the character of one hexadecimal digit value.
fn push_hex_digit(s: &mut String, d: u64)
    requires
        d < 16,
    ensures
        final(s)@ == old(s)@.push(spec_hex_digit(d)),
{
    proof {
        reveal_strlit("0");
        reveal_strlit("1");
        reveal_strlit("2");
        reveal_strlit("3");
        reveal_strlit("4");
        reveal_strlit("5");
        reveal_strlit("6");
        reveal_strlit("7");
        reveal_strlit("8");
        reveal_strlit("9");
        reveal_strlit("a");
        reveal_strlit("b");
        reveal_strlit("c");
        reveal_strlit("d");
        reveal_strlit("e");
        reveal_strlit("f");
    }
    if d == 0 {
        s.append("0");
    } else if d == 1 {
        s.append("1");
    } else if d == 2 {
        s.append("2");
    } else if d == 3 {
        s.append("3");
    } else if d == 4 {
        s.append("4");
    } else if d == 5 {
        s.append("5");
    } else if d == 6 {
        s.append("6");
    } else if d == 7 {
        s.append("7");
    } else if d == 8 {
        s.append("8");
    } else if d == 9 {
        s.append("9");
    } else if d == 10 {
        s.append("a");
    } else if d == 11 {
        s.append("b");
    } else if d == 12 {
        s.append("c");
    } else if d == 13 {
        s.append("d");
    } else if d == 14 {
        s.append("e");
    } else {
        s.append("f");
    }
    proof {
        assert(s@ =~= old(s)@.push(spec_hex_digit(d)));
    }
}

/// Formats a 32-bit register value as `0x` and eight hexadecimal digits.
/// Register values of the emulated 32-bit machine always fit.
pub fn hex32(v: u64) -> (s: String)
    requires
        v <= 0xffff_ffff,
    ensures
        s@ == spec_hex32(v),
{
    proof {
        reveal_strlit("0x");
    }
    let mut s = String::new();
    s.append("0x");
    let mut i: usize = 0;
    while i < 8
        invariant
            0 <= i <= 8,
            s@ == seq!['0', 'x'] + Seq::new(
                i as nat,
                |j: int| spec_hex_digit((v >> ((4 * (7 - j)) as u64)) & 0xf),
            ),
        decreases 8 - i,
    {
        let sh: u64 = (4 * (7 - i)) as u64;
        let d: u64 = (v >> sh) & 0xf;
        proof {
            assert((v >> sh) & 0xf < 16) by (bit_vector);
        }
        push_hex_digit(&mut s, d);
        proof {
            assert(s@ =~= seq!['0', 'x'] + Seq::new(
                (i + 1) as nat,
                |j: int| spec_hex_digit((v >> ((4 * (7 - j)) as u64)) & 0xf),
            ));
        }
        i = i + 1;
    }
    proof {
        assert(s@ =~= spec_hex32(v));
    }
    s
}

/// Per-solution crash metadata: every captured register, hex-formatted.
pub struct CustomMetadata {
    pub r0: String,
    pub r1: String,
    pub r2: String,
    pub r3: String,
    pub r4: String,
    pub r5: String,
    pub r6: String,
    pub r7: String,
    pub r8: String,
    pub r9: String,
    pub r10: String,
    pub r11: String,
    pub r12: String,
    pub sp: String,
    pub pc: String,
    pub lr: String,
    pub cpsr: String,
}

impl CustomMetadata {
    /// Formats a register snapshot taken at crash time, in the canonical
    /// order (R0-R12, Sp, Lr, Pc, Cpsr): each field names the register it
    /// holds. The emulated machine's registers are 32 bits wide.
    pub fn new(regs: Vec<u64>) -> (r: Self)
        requires
            regs@.len() >= 17,
            forall|i: int| 0 <= i < 17 ==> regs@[i] <= 0xffff_ffff,
        ensures
            r.r0@ == spec_hex32(regs@[0]),
            r.r1@ == spec_hex32(regs@[1]),
            r.r2@ == spec_hex32(regs@[2]),
            r.r3@ == spec_hex32(regs@[3]),
            r.r4@ == spec_hex32(regs@[4]),
            r.r5@ == spec_hex32(regs@[5]),
            r.r6@ == spec_hex32(regs@[6]),
            r.r7@ == spec_hex32(regs@[7]),
            r.r8@ == spec_hex32(regs@[8]),
            r.r9@ == spec_hex32(regs@[9]),
            r.r10@ == spec_hex32(regs@[10]),
            r.r11@ == spec_hex32(regs@[11]),
            r.r12@ == spec_hex32(regs@[12]),
            r.sp@ == spec_hex32(regs@[13]),
            r.lr@ == spec_hex32(regs@[14]),
            r.pc@ == spec_hex32(regs@[15]),
            r.cpsr@ == spec_hex32(regs@[16]),
    {
        CustomMetadata {
            r0: hex32(regs[0]),
            r1: hex32(regs[1]),
            r2: hex32(regs[2]),
            r3: hex32(regs[3]),
            r4: hex32(regs[4]),
            r5: hex32(regs[5]),
            r6: hex32(regs[6]),
            r7: hex32(regs[7]),
            r8: hex32(regs[8]),
            r9: hex32(regs[9]),
            r10: hex32(regs[10]),
            r11: hex32(regs[11]),
            r12: hex32(regs[12]),
            sp: hex32(regs[13]),
            lr: hex32(regs[14]),
            pc: hex32(regs[15]),
            cpsr: hex32(regs[16]),
        }
    }
}

} // verus!
