//! Laws of the machine model that hold for every input, stated and proved
//! once over the spec functions the contracts use. The round-trip law of
//! the byte store lives beside the store itself, in [`crate::mem`].

use vstd::prelude::*;

use crate::ea::Place;
use crate::ea::spec_resolve;
use crate::ea::sign_ext_8;
use crate::ea::sign_ext_16;
use crate::ea::wadd32;
use crate::ea::wsub32;
use crate::flags::FLAG_T;
use crate::flags::Size;
use crate::flags::cond_holds;
use crate::flags::flag_c;
use crate::flags::flag_n;
use crate::flags::flag_s;
use crate::flags::flag_v;
use crate::flags::flag_x;
use crate::flags::flag_z;
use crate::flags::size_bytes;
use crate::flags::with_flags_cx;
use crate::instr::bit_mask_mem;
use crate::instr::bit_mask_reg;
use crate::instr::spec_bcc;
use crate::instr::spec_branch_go;
use crate::machine::Machine;
use crate::machine::can_fetch;
use crate::mem::be16;

verus! {

/// Post-increment addressing: resolution moves the address register up by
/// exactly the operand width, every other register is untouched, and the
/// effective address of the access is the register's value from *before*
/// the increment.
pub proof fn lemma_post_increment(m: Machine, reg: u16, s: Size, iaddr: u32, op: u16)
    requires
        m.wf(),
        reg < 8,
    ensures
        ({
            let (m1, p) = spec_resolve(m, 3, reg, s, iaddr, op);
            &&& p == Some(Place::MemLoc { at: m.a[reg as int] })
            &&& m1.a[reg as int] == wadd32(m.a[reg as int], size_bytes(s))
            &&& forall|j: int| 0 <= j < 8 && j != reg ==> m1.a[j] == m.a[j]
            &&& m1 == Machine { a: m1.a, ..m }
        }),
{
}

/// Pre-decrement addressing: resolution moves the address register down
/// by exactly the operand width, every other register is untouched, and
/// the effective address of the access is the register's value from
/// *after* the decrement.
pub proof fn lemma_pre_decrement(m: Machine, reg: u16, s: Size, iaddr: u32, op: u16)
    requires
        m.wf(),
        reg < 8,
    ensures
        ({
            let (m1, p) = spec_resolve(m, 4, reg, s, iaddr, op);
            &&& m1.a[reg as int] == wsub32(m.a[reg as int], size_bytes(s))
            &&& p == Some(Place::MemLoc { at: m1.a[reg as int] })
            &&& forall|j: int| 0 <= j < 8 && j != reg ==> m1.a[j] == m.a[j]
            &&& m1 == Machine { a: m1.a, ..m }
        }),
{
}

/// A branch whose embedded 8-bit displacement field is nonzero consumes
/// no extension word: the field itself, sign-extended, is the
/// displacement, counted from the address just after the instruction
/// word.
pub proof fn lemma_branch_disp_8(m: Machine, op: u16, iaddr: u32)
    requires
        op % 0x100 != 0,
    ensures
        spec_bcc(m, op, iaddr) == spec_branch_go(m, (op / 0x100) % 0x10, m.pc, sign_ext_8(
            op % 0x100,
        )),
{
}

/// A branch whose embedded 8-bit displacement field is zero consumes one
/// 16-bit extension word as the real displacement: the word is
/// sign-extended and counted from the address just after the instruction
/// word, not from the extension word's own end.
pub proof fn lemma_branch_disp_0(m: Machine, op: u16, iaddr: u32)
    requires
        op % 0x100 == 0,
        can_fetch(m),
    ensures
        spec_bcc(m, op, iaddr) == spec_branch_go(
            Machine { pc: (m.pc + 2) as u32, ..m },
            (op / 0x100) % 0x10,
            m.pc,
            sign_ext_16(be16(m.prog, m.pc as int)),
        ),
{
}

/// A taken conditional branch (any condition but subroutine call) lands
/// on the displacement added to the address just after the instruction
/// word; an untaken one changes nothing.
pub proof fn lemma_branch_target(m: Machine, cond: u16, base: u32, disp: u32)
    requires
        cond != 1,
    ensures
        cond_holds(cond, m.sr) ==> spec_branch_go(m, cond, base, disp) == (Machine {
            pc: wadd32(base, disp),
            ..m
        }),
        !cond_holds(cond, m.sr) ==> spec_branch_go(m, cond, base, disp) == m,
{
}

/// The bit-number modulus: a register operand tests bit `bn % 32`, a
/// memory byte operand bit `bn % 8`, so any bit number reduces to its
/// remainder — testing bit 40 of a memory byte is testing bit 0, and
/// testing bit 40 of a register is testing bit 8.
pub proof fn lemma_bit_modulus(bn: u16)
    ensures
        bit_mask_reg(bn) == bit_mask_reg(bn % 32),
        bit_mask_mem(bn) == bit_mask_mem(bn % 8),
{
}

/// Reading flags back after an arithmetic update: each of carry,
/// overflow, zero and negative is exactly the value it was set to, extend
/// duplicates carry, and the supervisor and trace bits keep their prior
/// values.
pub proof fn lemma_flags_readback(sr: u16, c: bool, v: bool, z: bool, n: bool)
    ensures
        flag_c(with_flags_cx(sr, c, v, z, n)) == c,
        flag_v(with_flags_cx(sr, c, v, z, n)) == v,
        flag_z(with_flags_cx(sr, c, v, z, n)) == z,
        flag_n(with_flags_cx(sr, c, v, z, n)) == n,
        flag_x(with_flags_cx(sr, c, v, z, n)) == c,
        flag_s(with_flags_cx(sr, c, v, z, n)) == flag_s(sr),
        with_flags_cx(sr, c, v, z, n) & FLAG_T == sr & FLAG_T,
{
    assert(flag_c(with_flags_cx(sr, c, v, z, n)) == c && flag_v(with_flags_cx(sr, c, v, z, n)) == v
        && flag_z(with_flags_cx(sr, c, v, z, n)) == z && flag_n(with_flags_cx(sr, c, v, z, n)) == n
        && flag_x(with_flags_cx(sr, c, v, z, n)) == c && flag_s(with_flags_cx(sr, c, v, z, n))
        == flag_s(sr) && with_flags_cx(sr, c, v, z, n) & FLAG_T == sr & FLAG_T) by (bit_vector);
}

} // verus!
