//! Operand sizes, the status word, arithmetic flag rules, and the
//! condition-code table.
//!
//! The status word keeps carry, overflow, zero, negative and extend in its
//! low five bits, with a supervisor bit and a trace bit in the high byte.
//! Extend is treated as a strict alias of carry: every instruction that sets
//! carry sets extend to the same value, and compare leaves extend alone.

use vstd::prelude::*;

verus! {

/// Carry flag bit.
pub const FLAG_C: u16 = 0x0001;

/// Overflow flag bit.
pub const FLAG_V: u16 = 0x0002;

/// Zero flag bit.
pub const FLAG_Z: u16 = 0x0004;

/// Negative flag bit.
pub const FLAG_N: u16 = 0x0008;

/// Extend flag bit.
pub const FLAG_X: u16 = 0x0010;

/// Supervisor mode bit.
pub const FLAG_S: u16 = 0x2000;

/// Trace mode bit.
pub const FLAG_T: u16 = 0x8000;

/// Operand width: byte, word or longword.
#[derive(Clone, Copy, PartialEq, Eq, Structural, Debug)]
pub enum Size {
    Byte,
    Word,
    Long,
}

/// Number of bytes an operand of size `s` occupies.
pub open spec fn size_bytes(s: Size) -> u32 {
    match s {
        Size::Byte => 1,
        Size::Word => 2,
        Size::Long => 4,
    }
}

/// Exclusive upper bound of the unsigned value range at size `s`.
pub open spec fn size_mod(s: Size) -> int {
    match s {
        Size::Byte => 0x100,
        Size::Word => 0x10000,
        Size::Long => 0x1_0000_0000,
    }
}

/// Smallest value of size `s` whose most significant bit is set.
pub open spec fn size_half(s: Size) -> u32 {
    match s {
        Size::Byte => 0x80,
        Size::Word => 0x8000,
        Size::Long => 0x8000_0000,
    }
}

/// `v` truncated to size `s`.
pub open spec fn lo(v: u32, s: Size) -> u32 {
    match s {
        Size::Byte => (v as int % 0x100) as u32,
        Size::Word => (v as int % 0x10000) as u32,
        Size::Long => v,
    }
}

/// The low `s` bytes taken from `v`, the remaining high bytes from `prev`:
/// how a write of size `s` lands in a 32-bit data register.
pub open spec fn merge(v: u32, prev: u32, s: Size) -> u32 {
    match s {
        Size::Byte => ((prev as int / 0x100) * 0x100 + (v as int % 0x100)) as u32,
        Size::Word => ((prev as int / 0x10000) * 0x10000 + (v as int % 0x10000)) as u32,
        Size::Long => v,
    }
}

/// Whether the most significant bit of `v` at size `s` is set.
pub open spec fn is_neg(v: u32, s: Size) -> bool {
    lo(v, s) >= size_half(s)
}

/// Whether the carry flag is set.
pub open spec fn flag_c(sr: u16) -> bool {
    sr & FLAG_C != 0
}

/// Whether the overflow flag is set.
pub open spec fn flag_v(sr: u16) -> bool {
    sr & FLAG_V != 0
}

/// Whether the zero flag is set.
pub open spec fn flag_z(sr: u16) -> bool {
    sr & FLAG_Z != 0
}

/// Whether the negative flag is set.
pub open spec fn flag_n(sr: u16) -> bool {
    sr & FLAG_N != 0
}

/// Whether the extend flag is set.
pub open spec fn flag_x(sr: u16) -> bool {
    sr & FLAG_X != 0
}

/// Whether the machine is in supervisor mode.
pub open spec fn flag_s(sr: u16) -> bool {
    sr & FLAG_S != 0
}

/// The status word with carry, overflow, zero and negative replaced by the
/// given values and extend duplicated from carry; all other bits keep their
/// prior value.
pub open spec fn with_flags_cx(sr: u16, c: bool, v: bool, z: bool, n: bool) -> u16 {
    (sr & 0xffe0) | (if c {
        FLAG_C | FLAG_X
    } else {
        0
    }) | (if v {
        FLAG_V
    } else {
        0
    }) | (if z {
        FLAG_Z
    } else {
        0
    }) | (if n {
        FLAG_N
    } else {
        0
    })
}

/// The status word after a compare: as [`with_flags_cx`] but extend keeps
/// its prior value.
pub open spec fn with_flags_cmp(sr: u16, c: bool, v: bool, z: bool, n: bool) -> u16 {
    (sr & 0xfff0) | (if c {
        FLAG_C
    } else {
        0
    }) | (if v {
        FLAG_V
    } else {
        0
    }) | (if z {
        FLAG_Z
    } else {
        0
    }) | (if n {
        FLAG_N
    } else {
        0
    })
}

/// The status word after a logical operation: zero and negative replaced,
/// carry and overflow cleared, extend and all other bits kept.
pub open spec fn with_flags_logic(sr: u16, z: bool, n: bool) -> u16 {
    (sr & 0xfff0) | (if z {
        FLAG_Z
    } else {
        0
    }) | (if n {
        FLAG_N
    } else {
        0
    })
}

/// The status word with only the zero flag replaced (bit-test instructions).
pub open spec fn with_flag_z(sr: u16, z: bool) -> u16 {
    if z {
        sr | FLAG_Z
    } else {
        sr & !FLAG_Z
    }
}

/// Truncated sum of `dst` and `src` at size `s`.
pub open spec fn add_val(dst: u32, src: u32, s: Size) -> u32 {
    if lo(dst, s) + lo(src, s) >= size_mod(s) {
        (lo(dst, s) + lo(src, s) - size_mod(s)) as u32
    } else {
        (lo(dst, s) + lo(src, s)) as u32
    }
}

/// Carry out of an addition at size `s`: unsigned overflow out of the
/// operand width.
pub open spec fn add_carry(dst: u32, src: u32, s: Size) -> bool {
    lo(dst, s) + lo(src, s) >= size_mod(s)
}

/// Signed overflow of an addition at size `s`: both operands have the same
/// sign and the truncated result has the other one.
pub open spec fn add_overflow(dst: u32, src: u32, s: Size) -> bool {
    is_neg(dst, s) == is_neg(src, s) && is_neg(add_val(dst, src, s), s) != is_neg(dst, s)
}

/// Truncated difference `dst - src` at size `s`.
pub open spec fn sub_val(dst: u32, src: u32, s: Size) -> u32 {
    if lo(dst, s) >= lo(src, s) {
        (lo(dst, s) - lo(src, s)) as u32
    } else {
        (lo(dst, s) - lo(src, s) + size_mod(s)) as u32
    }
}

/// Borrow of a subtraction `dst - src` at size `s`: the subtrahend exceeds
/// the minuend as unsigned values of the operand width.
pub open spec fn sub_carry(dst: u32, src: u32, s: Size) -> bool {
    lo(src, s) > lo(dst, s)
}

/// Signed overflow of a subtraction `dst - src` at size `s`: the operands
/// have different signs and the truncated result has the sign of `src`.
pub open spec fn sub_overflow(dst: u32, src: u32, s: Size) -> bool {
    is_neg(dst, s) != is_neg(src, s) && is_neg(sub_val(dst, src, s), s) != is_neg(dst, s)
}

/// Status word update [`with_flag_z`], executably.
pub fn set_flag_z(sr: u16, z: bool) -> (r: u16)
    ensures
        r == with_flag_z(sr, z),
{
    if z {
        sr | FLAG_Z
    } else {
        sr & !FLAG_Z
    }
}

/// The binary operations the arithmetic/logical instructions share.
#[derive(Clone, Copy, PartialEq, Eq, Structural, Debug)]
pub enum AluOp {
    Or,
    And,
    Eor,
    Add,
    Sub,
    Cmp,
}

/// Result value and new status word of an arithmetic or logical operation
/// `dst (op) src` at size `s`. Logical operations clear carry and overflow
/// and leave extend alone; add and subtract set all five flags with extend
/// duplicating carry; compare computes as subtract but leaves extend
/// alone. Zero and negative always describe the result truncated to the
/// operand width.
pub open spec fn spec_alu(sr: u16, dst: u32, src: u32, s: Size, k: AluOp) -> (u32, u16) {
    match k {
        AluOp::Or => {
            let v = dst | src;
            (v, with_flags_logic(sr, lo(v, s) == 0, is_neg(v, s)))
        },
        AluOp::And => {
            let v = dst & src;
            (v, with_flags_logic(sr, lo(v, s) == 0, is_neg(v, s)))
        },
        AluOp::Eor => {
            let v = dst ^ src;
            (v, with_flags_logic(sr, lo(v, s) == 0, is_neg(v, s)))
        },
        AluOp::Add => {
            let v = add_val(dst, src, s);
            (
                v,
                with_flags_cx(
                    sr,
                    add_carry(dst, src, s),
                    add_overflow(dst, src, s),
                    v == 0,
                    is_neg(v, s),
                ),
            )
        },
        AluOp::Sub => {
            let v = sub_val(dst, src, s);
            (
                v,
                with_flags_cx(
                    sr,
                    sub_carry(dst, src, s),
                    sub_overflow(dst, src, s),
                    v == 0,
                    is_neg(v, s),
                ),
            )
        },
        AluOp::Cmp => {
            let v = sub_val(dst, src, s);
            (
                v,
                with_flags_cmp(
                    sr,
                    sub_carry(dst, src, s),
                    sub_overflow(dst, src, s),
                    v == 0,
                    is_neg(v, s),
                ),
            )
        },
    }
}

/// A logical operation applied directly to the status word by the
/// immediate instructions' status-word form. The byte form keeps the high
/// byte of the status word untouched.
pub open spec fn apply_sr(k: AluOp, sr: u16, v: u16, byte: bool) -> u16 {
    match k {
        AluOp::Or => sr | v,
        AluOp::Eor => sr ^ v,
        AluOp::And => if byte {
            sr & (0xff00 | v)
        } else {
            sr & v
        },
        _ => sr,
    }
}

/// Status word update [`with_flags_cx`], executably.
pub fn set_flags_cx(sr: u16, c: bool, v: bool, z: bool, n: bool) -> (r: u16)
    ensures
        r == with_flags_cx(sr, c, v, z, n),
{
    (sr & 0xffe0) | (if c {
        FLAG_C | FLAG_X
    } else {
        0
    }) | (if v {
        FLAG_V
    } else {
        0
    }) | (if z {
        FLAG_Z
    } else {
        0
    }) | (if n {
        FLAG_N
    } else {
        0
    })
}

/// Status word update [`with_flags_cmp`], executably.
pub fn set_flags_cmp(sr: u16, c: bool, v: bool, z: bool, n: bool) -> (r: u16)
    ensures
        r == with_flags_cmp(sr, c, v, z, n),
{
    (sr & 0xfff0) | (if c {
        FLAG_C
    } else {
        0
    }) | (if v {
        FLAG_V
    } else {
        0
    }) | (if z {
        FLAG_Z
    } else {
        0
    }) | (if n {
        FLAG_N
    } else {
        0
    })
}

/// Status word update [`with_flags_logic`], executably.
pub fn set_flags_logic(sr: u16, z: bool, n: bool) -> (r: u16)
    ensures
        r == with_flags_logic(sr, z, n),
{
    (sr & 0xfff0) | (if z {
        FLAG_Z
    } else {
        0
    }) | (if n {
        FLAG_N
    } else {
        0
    })
}

/// The arithmetic/logical core, executably: the result value and the new
/// status word per [`spec_alu`].
pub fn alu_exec(sr: u16, dst: u32, src: u32, s: Size, k: AluOp) -> (r: (u32, u16))
    ensures
        r.0 == spec_alu(sr, dst, src, s, k).0,
        r.1 == spec_alu(sr, dst, src, s, k).1,
{
    match k {
        AluOp::Or => {
            let v = dst | src;
            (v, set_flags_logic(sr, lo_exec(v, s) == 0, is_neg_exec(v, s)))
        },
        AluOp::And => {
            let v = dst & src;
            (v, set_flags_logic(sr, lo_exec(v, s) == 0, is_neg_exec(v, s)))
        },
        AluOp::Eor => {
            let v = dst ^ src;
            (v, set_flags_logic(sr, lo_exec(v, s) == 0, is_neg_exec(v, s)))
        },
        AluOp::Add => {
            let a = lo_exec(dst, s) as u64;
            let b = lo_exec(src, s) as u64;
            let md = size_mod_exec(s);
            let sum = a + b;
            let v = if sum >= md {
                (sum - md) as u32
            } else {
                sum as u32
            };
            let c = sum >= md;
            let n = is_neg_exec(v, s);
            let ovf = (is_neg_exec(dst, s) == is_neg_exec(src, s)) && n != is_neg_exec(dst, s);
            (v, set_flags_cx(sr, c, ovf, v == 0, n))
        },
        AluOp::Sub => {
            let a = lo_exec(dst, s) as u64;
            let b = lo_exec(src, s) as u64;
            let md = size_mod_exec(s);
            let v = if a >= b {
                (a - b) as u32
            } else {
                (a + md - b) as u32
            };
            let c = b > a;
            let n = is_neg_exec(v, s);
            let ovf = (is_neg_exec(dst, s) != is_neg_exec(src, s)) && n != is_neg_exec(dst, s);
            (v, set_flags_cx(sr, c, ovf, v == 0, n))
        },
        AluOp::Cmp => {
            let a = lo_exec(dst, s) as u64;
            let b = lo_exec(src, s) as u64;
            let md = size_mod_exec(s);
            let v = if a >= b {
                (a - b) as u32
            } else {
                (a + md - b) as u32
            };
            let c = b > a;
            let n = is_neg_exec(v, s);
            let ovf = (is_neg_exec(dst, s) != is_neg_exec(src, s)) && n != is_neg_exec(dst, s);
            (v, set_flags_cmp(sr, c, ovf, v == 0, n))
        },
    }
}

/// The status-word form of the logical immediate instructions, executably.
pub fn apply_sr_exec(k: AluOp, sr: u16, v: u16, byte: bool) -> (r: u16)
    ensures
        r == apply_sr(k, sr, v, byte),
{
    match k {
        AluOp::Or => sr | v,
        AluOp::Eor => sr ^ v,
        AluOp::And => if byte {
            sr & (0xff00 | v)
        } else {
            sr & v
        },
        _ => sr,
    }
}

/// The condition table: what a 4-bit condition code asks of the status
/// word. Codes 0 and 1 are "always" and "never"; the rest are boolean
/// combinations of carry, zero, negative and overflow.
pub open spec fn cond_holds(code: u16, sr: u16) -> bool {
    let c = flag_c(sr);
    let v = flag_v(sr);
    let z = flag_z(sr);
    let n = flag_n(sr);
    if code == 0 {
        true  // always
    } else if code == 1 {
        false  // never
    } else if code == 2 {
        !c && !z  // higher
    } else if code == 3 {
        c || z  // lower or same
    } else if code == 4 {
        !c  // carry clear
    } else if code == 5 {
        c  // carry set
    } else if code == 6 {
        !z  // not equal
    } else if code == 7 {
        z  // equal
    } else if code == 8 {
        !v  // overflow clear
    } else if code == 9 {
        v  // overflow set
    } else if code == 10 {
        !n  // plus
    } else if code == 11 {
        n  // minus
    } else if code == 12 {
        n == v  // greater or equal
    } else if code == 13 {
        n != v  // less than
    } else if code == 14 {
        n == v && !z  // greater than
    } else if code == 15 {
        z || n != v  // less or equal
    } else {
        true
    }
}

/// Evaluates a 4-bit condition code against a status word, per the
/// condition table.
pub fn condition(code: u16, status: u16) -> (r: bool)
    ensures
        r == cond_holds(code, status),
{
    let c = status & FLAG_C != 0;
    let v = status & FLAG_V != 0;
    let z = status & FLAG_Z != 0;
    let n = status & FLAG_N != 0;
    if code == 0 {
        true
    } else if code == 1 {
        false
    } else if code == 2 {
        !c && !z
    } else if code == 3 {
        c || z
    } else if code == 4 {
        !c
    } else if code == 5 {
        c
    } else if code == 6 {
        !z
    } else if code == 7 {
        z
    } else if code == 8 {
        !v
    } else if code == 9 {
        v
    } else if code == 10 {
        !n
    } else if code == 11 {
        n
    } else if code == 12 {
        n == v
    } else if code == 13 {
        n != v
    } else if code == 14 {
        n == v && !z
    } else if code == 15 {
        z || n != v
    } else {
        true
    }
}

/// `v` truncated to size `s`, executably.
pub fn lo_exec(v: u32, s: Size) -> (r: u32)
    ensures
        r == lo(v, s),
{
    match s {
        Size::Byte => v % 0x100,
        Size::Word => v % 0x10000,
        Size::Long => v,
    }
}

/// Whether the most significant bit of `v` at size `s` is set, executably.
pub fn is_neg_exec(v: u32, s: Size) -> (r: bool)
    ensures
        r == is_neg(v, s),
{
    match s {
        Size::Byte => v % 0x100 >= 0x80,
        Size::Word => v % 0x10000 >= 0x8000,
        Size::Long => v >= 0x8000_0000,
    }
}

/// The low `s` bytes taken from `v`, the remaining high bytes from `prev`,
/// executably.
pub fn merge_exec(v: u32, prev: u32, s: Size) -> (r: u32)
    ensures
        r == merge(v, prev, s),
{
    match s {
        Size::Byte => {
            proof {
                assert((prev / 0x100) * 0x100 + v % 0x100 <= 0xffffffffu32) by (bit_vector);
            }
            (prev / 0x100) * 0x100 + v % 0x100
        },
        Size::Word => {
            proof {
                assert((prev / 0x10000) * 0x10000 + v % 0x10000 <= 0xffffffffu32) by (bit_vector);
            }
            (prev / 0x10000) * 0x10000 + v % 0x10000
        },
        Size::Long => v,
    }
}

/// The operand size a 2-bit size field selects, when it selects one
/// (the fourth encoding is invalid).
pub open spec fn size_from_bits(b: u16) -> Size {
    if b == 0 {
        Size::Byte
    } else if b == 1 {
        Size::Word
    } else {
        Size::Long
    }
}

/// The operand size a 2-bit size field selects, executably.
pub fn size_from_bits_exec(b: u16) -> (r: Size)
    ensures
        r == size_from_bits(b),
{
    if b == 0 {
        Size::Byte
    } else if b == 1 {
        Size::Word
    } else {
        Size::Long
    }
}

/// Exclusive upper bound of the unsigned value range at size `s`,
/// executably.
pub fn size_mod_exec(s: Size) -> (r: u64)
    ensures
        r == size_mod(s),
{
    match s {
        Size::Byte => 0x100,
        Size::Word => 0x10000,
        Size::Long => 0x1_0000_0000,
    }
}

/// Number of bytes of size `s`, executably.
pub fn size_bytes_exec(s: Size) -> (r: u32)
    ensures
        r == size_bytes(s),
{
    match s {
        Size::Byte => 1,
        Size::Word => 2,
        Size::Long => 4,
    }
}

} // verus!
