//! Instruction semantics and the fetch-decode-execute driver.
//!
//! Each instruction family has a spec function giving its complete effect
//! on the ghost machine, and an executable handler proved to follow it.
//! The decoder classifies an instruction word by its top four bits and a
//! family-specific sub-decode; every pattern outside the implemented set
//! halts with a decode fault rather than falling through as a no-op.

use vstd::prelude::*;

use crate::ea::Place;
use crate::ea::sign_ext_8;
use crate::ea::sign_ext_8_exec;
use crate::ea::sign_ext_16;
use crate::ea::sign_ext_16_exec;
use crate::ea::spec_place_read;
use crate::ea::spec_place_write;
use crate::ea::spec_resolve;
use crate::ea::wadd;
use crate::ea::wadd32;
use crate::ea::wsub;
use crate::ea::wsub32;
use crate::flags::AluOp;
use crate::flags::Size;
use crate::flags::size_from_bits;
use crate::flags::size_from_bits_exec;
use crate::flags::spec_alu;
use crate::flags::alu_exec;
use crate::flags::apply_sr;
use crate::flags::apply_sr_exec;
use crate::machine::HaltCause;
use crate::machine::M68k;
use crate::machine::Machine;
use crate::machine::Status;
use crate::machine::halted;
use crate::machine::spec_next_l;
use crate::machine::spec_next_op;
use crate::machine::spec_read_mem;
use crate::machine::spec_write_mem;

verus! {

/// Fetching an immediate operand of size `s` from the instruction stream:
/// byte and word immediates occupy one extension word (a byte immediate is
/// its low byte), a longword immediate two, most significant first.
pub open spec fn spec_fetch_imm(m: Machine, s: Size) -> (Machine, Option<u32>) {
    match s {
        Size::Long => spec_next_l(m),
        Size::Word => {
            let (m1, w) = spec_next_op(m);
            match w {
                None => (m1, None),
                Some(v) => (m1, Some(v as u32)),
            }
        },
        Size::Byte => {
            let (m1, w) = spec_next_op(m);
            match w {
                None => (m1, None),
                Some(v) => (m1, Some((v % 0x100) as u32)),
            }
        },
    }
}

/// Pushing a longword: the stack pointer pre-decremented by four, then the
/// value written at the new stack top.
pub open spec fn spec_push32(m: Machine, v: u32) -> (Machine, bool) {
    let sp = wsub32(m.a[7], 4);
    let m1 = Machine { a: m.a.update(7, sp), ..m };
    spec_write_mem(m1, sp, v, Size::Long)
}

/// Popping a longword: the value read at the stack top, then the stack
/// pointer incremented by four.
pub open spec fn spec_pop32(m: Machine) -> (Machine, Option<u32>) {
    let sp = m.a[7];
    let (m1, vo) = spec_read_mem(m, sp, Size::Long);
    match vo {
        None => (m1, None),
        Some(v) => (Machine { a: m1.a.update(7, wadd32(sp, 4)), ..m1 }, Some(v)),
    }
}

/// An immediate-operand instruction (`or`, `and`, `sub`, `add`, `xor` or
/// `compare` with immediate). The size field is bits 7-6 of the word; the
/// invalid fourth size halts with a decode fault. When the destination
/// field holds the status-word encoding (mode 7, register 4), the logical
/// operations modify the status word directly: the word form the whole
/// word, the byte form its low byte. Otherwise the immediate is fetched
/// first, then the destination resolved, read, combined, written back, and
/// the flags updated last; a compare writes nothing back.
pub open spec fn spec_imm_op(m: Machine, op: u16, iaddr: u32, k: AluOp) -> Machine {
    let szbits = (op / 0x40) % 4;
    let mode = (op / 8) % 8;
    let reg = op % 8;
    if szbits == 3 {
        halted(m, HaltCause::DecodeFault { op, at: iaddr })
    } else {
        let s = size_from_bits(szbits);
        if mode == 7 && reg == 4 {
            if (k is Or || k is And || k is Eor) && szbits != 2 {
                let (m1, w) = spec_next_op(m);
                match w {
                    None => m1,
                    Some(imm) => {
                        let v = if szbits == 0 {
                            imm % 0x100
                        } else {
                            imm
                        };
                        Machine { sr: apply_sr(k, m1.sr, v, szbits == 0), ..m1 }
                    },
                }
            } else {
                halted(m, HaltCause::DecodeFault { op, at: iaddr })
            }
        } else if mode == 1 {
            halted(m, HaltCause::DecodeFault { op, at: iaddr })
        } else {
            let (m1, io) = spec_fetch_imm(m, s);
            match io {
                None => m1,
                Some(imm) => {
                    let (m2, po) = spec_resolve(m1, mode, reg, s, iaddr, op);
                    match po {
                        None => m2,
                        Some(p) => {
                            let (m3, vo) = spec_place_read(m2, p, s);
                            match vo {
                                None => m3,
                                Some(dstv) => {
                                    let r = spec_alu(m3.sr, dstv, imm, s, k);
                                    if k is Cmp {
                                        Machine { sr: r.1, ..m3 }
                                    } else {
                                        let (m4, ok) = spec_place_write(m3, p, s, r.0);
                                        if ok {
                                            Machine { sr: r.1, ..m4 }
                                        } else {
                                            m4
                                        }
                                    }
                                },
                            }
                        },
                    }
                },
            }
        }
    }
}

/// The four single-bit instructions.
#[derive(Clone, Copy, PartialEq, Eq, Structural, Debug)]
pub enum BitKind {
    Test,
    Change,
    Clear,
    SetBit,
}

/// The single-bit mask a bit instruction tests on a 32-bit register
/// operand: the bit number reduced modulo 32.
pub open spec fn bit_mask_reg(bn: u16) -> u32 {
    1u32 << ((bn % 32) as u32)
}

/// The single-bit mask a bit instruction tests on a memory byte operand:
/// the bit number reduced modulo 8.
pub open spec fn bit_mask_mem(bn: u16) -> u32 {
    1u32 << ((bn % 8) as u32)
}

/// The register-operand bit mask, executably.
pub fn bit_mask_reg_exec(bn: u16) -> (r: u32)
    ensures
        r == bit_mask_reg(bn),
{
    1u32 << ((bn % 32) as u32)
}

/// The memory-operand bit mask, executably.
pub fn bit_mask_mem_exec(bn: u16) -> (r: u32)
    ensures
        r == bit_mask_mem(bn),
{
    1u32 << ((bn % 8) as u32)
}

/// A bit-test/change/clear/set instruction with the bit number in an
/// extension word. A register operand is 32 bits wide and the bit number
/// is reduced modulo 32; a memory operand is a single byte and the bit
/// number is reduced modulo 8. The zero flag records whether the tested
/// bit was originally clear; the mutating variants then update the bit.
pub open spec fn spec_bit_op(m: Machine, op: u16, iaddr: u32, k: BitKind) -> Machine {
    let mode = (op / 8) % 8;
    let reg = op % 8;
    let (m1, w) = spec_next_op(m);
    match w {
        None => m1,
        Some(bn) => {
            if mode == 0 || mode == 1 {
                let regv = if mode == 0 {
                    m1.d[reg as int]
                } else {
                    m1.a[reg as int]
                };
                let mask = bit_mask_reg(bn);
                let z = regv & mask == 0;
                let m2 = Machine { sr: crate::flags::with_flag_z(m1.sr, z), ..m1 };
                let nv = match k {
                    BitKind::Test => regv,
                    BitKind::Change => regv ^ mask,
                    BitKind::Clear => regv & !mask,
                    BitKind::SetBit => regv | mask,
                };
                if k is Test {
                    m2
                } else if mode == 0 {
                    Machine { d: m2.d.update(reg as int, nv), ..m2 }
                } else {
                    Machine { a: m2.a.update(reg as int, nv), ..m2 }
                }
            } else {
                let (m2, po) = spec_resolve(m1, mode, reg, Size::Byte, iaddr, op);
                match po {
                    None => m2,
                    Some(p) => {
                        if p is Imm {
                            halted(m2, HaltCause::DecodeFault { op, at: iaddr })
                        } else {
                            let (m3, vo) = spec_place_read(m2, p, Size::Byte);
                            match vo {
                                None => m3,
                                Some(b) => {
                                    let mask = bit_mask_mem(bn);
                                    let z = b & mask == 0;
                                    let m4 = Machine {
                                        sr: crate::flags::with_flag_z(m3.sr, z),
                                        ..m3
                                    };
                                    if k is Test {
                                        m4
                                    } else {
                                        let nb = match k {
                                            BitKind::Test => b,
                                            BitKind::Change => b ^ mask,
                                            BitKind::Clear => b & !mask,
                                            BitKind::SetBit => b | mask,
                                        };
                                        spec_place_write(m4, p, Size::Byte, nb).0
                                    }
                                },
                            }
                        }
                    },
                }
            }
        },
    }
}

/// A move: the source resolved and read at the operand size, then the
/// destination resolved and written at the same size. A byte or word
/// write to a data register keeps the register's high bytes; an address
/// register destination is replaced whole; the flags are unaffected. A
/// program-counter-relative or immediate destination field halts with a
/// decode fault before anything is consumed.
pub open spec fn spec_move(m: Machine, op: u16, iaddr: u32) -> Machine {
    let szbits = (op / 0x1000) % 4;
    let s = if szbits == 1 {
        Size::Byte
    } else if szbits == 3 {
        Size::Word
    } else {
        Size::Long
    };
    let smode = (op / 8) % 8;
    let sreg = op % 8;
    let dmode = (op / 0x40) % 8;
    let dreg = (op / 0x200) % 8;
    if dmode == 7 && dreg != 0 && dreg != 1 {
        halted(m, HaltCause::DecodeFault { op, at: iaddr })
    } else {
        let (m1, po) = spec_resolve(m, smode, sreg, s, iaddr, op);
        match po {
            None => m1,
            Some(sp) => {
                let (m2, vo) = spec_place_read(m1, sp, s);
                match vo {
                    None => m2,
                    Some(v) => {
                        let (m3, dpo) = spec_resolve(m2, dmode, dreg, s, iaddr, op);
                        match dpo {
                            None => m3,
                            Some(dp) => spec_place_write(m3, dp, s, v).0,
                        }
                    },
                }
            },
        }
    }
}

/// The quick load: the low byte of the instruction word, zero-extended,
/// replaces the named data register whole; the flags are unaffected. The
/// encodings of this family with bit 8 set are undefined.
pub open spec fn spec_moveq(m: Machine, op: u16, iaddr: u32) -> Machine {
    if (op / 0x100) % 2 == 1 {
        halted(m, HaltCause::DecodeFault { op, at: iaddr })
    } else {
        Machine { d: m.d.update(((op / 0x200) % 8) as int, (op % 0x100) as u32), ..m }
    }
}

/// Resolving and taking a conditional branch. `base` is the address just
/// after the instruction word and `disp` the sign-extended displacement in
/// bytes. Condition 1 is branch-to-subroutine: the address after the full
/// encoding is pushed, then the branch is taken unconditionally. Any other
/// condition code branches when the condition table grants it.
pub open spec fn spec_branch_go(m: Machine, cond: u16, base: u32, disp: u32) -> Machine {
    let target = wadd32(base, disp);
    if cond == 1 {
        let (m1, ok) = spec_push32(m, m.pc);
        if ok {
            Machine { pc: target, ..m1 }
        } else {
            m1
        }
    } else if crate::flags::cond_holds(cond, m.sr) {
        Machine { pc: target, ..m }
    } else {
        m
    }
}

/// A conditional branch: an 8-bit displacement embedded in the word, or,
/// when that field is zero, a 16-bit displacement read as an extension
/// word; either is sign-extended and counted in bytes from the address
/// just after the instruction word.
pub open spec fn spec_bcc(m: Machine, op: u16, iaddr: u32) -> Machine {
    let cond = (op / 0x100) % 0x10;
    let d8 = op % 0x100;
    let base = m.pc;
    if d8 == 0 {
        let (m1, w) = spec_next_op(m);
        match w {
            None => m1,
            Some(d16) => spec_branch_go(m1, cond, base, sign_ext_16(d16)),
        }
    } else {
        spec_branch_go(m, cond, base, sign_ext_8(d8))
    }
}

/// Allocating a stack frame: the named address register is pushed, then
/// aliased to the new stack top, then the stack pointer moves by a signed
/// 16-bit extension word to reserve space.
pub open spec fn spec_link(m: Machine, op: u16) -> Machine {
    let reg = op % 8;
    let (m1, w) = spec_next_op(m);
    match w {
        None => m1,
        Some(d16) => {
            let (m2, ok) = spec_push32(m1, m1.a[reg as int]);
            if !ok {
                m2
            } else {
                let sp = m2.a[7];
                let m3 = Machine { a: m2.a.update(reg as int, sp), ..m2 };
                Machine { a: m3.a.update(7, wadd32(sp, sign_ext_16(d16))), ..m3 }
            }
        },
    }
}

/// Releasing a stack frame: the stack pointer is restored from the named
/// register, then the saved value is popped back into that register.
pub open spec fn spec_unlk(m: Machine, op: u16) -> Machine {
    let reg = op % 8;
    let m1 = Machine { a: m.a.update(7, m.a[reg as int]), ..m };
    let (m2, vo) = spec_pop32(m1);
    match vo {
        None => m2,
        Some(v) => Machine { a: m2.a.update(reg as int, v), ..m2 },
    }
}

/// Pushing the minimal exception frame — the saved program counter, then
/// the saved status word, each as a longword — and halting with the given
/// cause. No vectored handlers exist in this core, so reaching a trap
/// always halts the machine.
pub open spec fn spec_frame_then(m: Machine, cause: HaltCause) -> Machine {
    let (m1, ok1) = spec_push32(m, m.pc);
    if !ok1 {
        m1
    } else {
        let (m2, ok2) = spec_push32(m1, m1.sr as u32);
        if ok2 {
            halted(m2, cause)
        } else {
            m2
        }
    }
}

/// A trap instruction: its 4-bit vector field reported in the halt cause,
/// after the exception frame is pushed.
pub open spec fn spec_trap(m: Machine, op: u16) -> Machine {
    spec_frame_then(m, HaltCause::Trap { vector: op % 0x10 })
}

/// The dedicated illegal-instruction encoding: frame pushed, machine
/// halted.
pub open spec fn spec_illegal(m: Machine, iaddr: u32) -> Machine {
    spec_frame_then(m, HaltCause::IllegalTrap { at: iaddr })
}

/// Stop: in supervisor mode the next extension word becomes the status
/// word and the machine halts; outside supervisor mode the instruction is
/// redirected to a privilege-violation trap.
pub open spec fn spec_stop(m: Machine, iaddr: u32) -> Machine {
    if crate::flags::flag_s(m.sr) {
        let (m1, w) = spec_next_op(m);
        match w {
            None => m1,
            Some(w) => halted(Machine { sr: w, ..m1 }, HaltCause::Stopped),
        }
    } else {
        spec_frame_then(m, HaltCause::PrivilegeTrap { at: iaddr })
    }
}

/// The control address of a jump target: the effective address must name
/// a memory location without side effects, so register-direct and the
/// post-increment and pre-decrement modes halt with a decode fault, as
/// does an immediate.
pub open spec fn spec_control_ea(m: Machine, op: u16, iaddr: u32) -> (Machine, Option<u32>) {
    let mode = (op / 8) % 8;
    let reg = op % 8;
    if mode == 0 || mode == 1 || mode == 3 || mode == 4 {
        (halted(m, HaltCause::DecodeFault { op, at: iaddr }), None)
    } else {
        let (m1, po) = spec_resolve(m, mode, reg, Size::Long, iaddr, op);
        match po {
            None => (m1, None),
            Some(p) => match p {
                Place::MemLoc { at } => (m1, Some(at)),
                _ => (halted(m1, HaltCause::DecodeFault { op, at: iaddr }), None),
            },
        }
    }
}

/// A jump: control transfers to the resolved control address.
pub open spec fn spec_jmp(m: Machine, op: u16, iaddr: u32) -> Machine {
    let (m1, t) = spec_control_ea(m, op, iaddr);
    match t {
        None => m1,
        Some(t) => Machine { pc: t, ..m1 },
    }
}

/// Jump to subroutine: the address just after the full instruction
/// encoding is pushed as the return address, then control transfers as a
/// jump would.
pub open spec fn spec_jsr(m: Machine, op: u16, iaddr: u32) -> Machine {
    let (m1, t) = spec_control_ea(m, op, iaddr);
    match t {
        None => m1,
        Some(t) => {
            let (m2, ok) = spec_push32(m1, m1.pc);
            if ok {
                Machine { pc: t, ..m2 }
            } else {
                m2
            }
        },
    }
}

/// Return from subroutine: a longword popped from the stack becomes the
/// program counter.
pub open spec fn spec_rts(m: Machine) -> Machine {
    let (m1, vo) = spec_pop32(m);
    match vo {
        None => m1,
        Some(v) => Machine { pc: v, ..m1 },
    }
}

/// The decode table, applied to a fetched instruction word with the
/// program counter already past it; `iaddr` is the word's own address.
/// The all-zero word, every encoding outside the implemented subset, and
/// every undefined pattern within a family halt with a decode fault
/// rather than passing as a no-op.
pub open spec fn spec_exec_op(m: Machine, op: u16, iaddr: u32) -> Machine {
    if op == 0 {
        halted(m, HaltCause::DecodeFault { op, at: iaddr })
    } else if op == 0x4afc {
        spec_illegal(m, iaddr)
    } else if op == 0x4e71 {
        m  // no operation
    } else if op == 0x4e72 {
        spec_stop(m, iaddr)
    } else if op == 0x4e75 {
        spec_rts(m)
    } else {
        let fam = (op / 0x1000) % 0x10;
        if fam == 0 {
            let row = (op / 0x100) % 0x10;
            if row == 0 {
                spec_imm_op(m, op, iaddr, AluOp::Or)
            } else if row == 2 {
                spec_imm_op(m, op, iaddr, AluOp::And)
            } else if row == 4 {
                spec_imm_op(m, op, iaddr, AluOp::Sub)
            } else if row == 6 {
                spec_imm_op(m, op, iaddr, AluOp::Add)
            } else if row == 10 {
                spec_imm_op(m, op, iaddr, AluOp::Eor)
            } else if row == 12 {
                spec_imm_op(m, op, iaddr, AluOp::Cmp)
            } else if row == 8 {
                let t = (op / 0x40) % 4;
                if t == 0 {
                    spec_bit_op(m, op, iaddr, BitKind::Test)
                } else if t == 1 {
                    spec_bit_op(m, op, iaddr, BitKind::Change)
                } else if t == 2 {
                    spec_bit_op(m, op, iaddr, BitKind::Clear)
                } else {
                    spec_bit_op(m, op, iaddr, BitKind::SetBit)
                }
            } else {
                halted(m, HaltCause::DecodeFault { op, at: iaddr })
            }
        } else if fam == 1 || fam == 2 || fam == 3 {
            spec_move(m, op, iaddr)
        } else if fam == 4 {
            if op / 0x10 == 0x4e4 {
                spec_trap(m, op)
            } else if op / 8 == 0x9ca {
                spec_link(m, op)
            } else if op / 8 == 0x9cb {
                spec_unlk(m, op)
            } else if op / 0x40 == 0x13a {
                spec_jsr(m, op, iaddr)
            } else if op / 0x40 == 0x13b {
                spec_jmp(m, op, iaddr)
            } else {
                halted(m, HaltCause::DecodeFault { op, at: iaddr })
            }
        } else if fam == 6 {
            spec_bcc(m, op, iaddr)
        } else if fam == 7 {
            spec_moveq(m, op, iaddr)
        } else {
            halted(m, HaltCause::DecodeFault { op, at: iaddr })
        }
    }
}

/// One step of the driver: nothing happens on a halted machine; otherwise
/// one instruction word is fetched (halting at the end of the image) and
/// executed per the decode table.
#[verifier::opaque]
pub open spec fn spec_step(m: Machine) -> Machine {
    if !(m.status is Running) {
        m
    } else {
        let (m1, w) = spec_next_op(m);
        match w {
            None => m1,
            Some(op) => spec_exec_op(m1, op, m.pc),
        }
    }
}

/// Up to `fuel` driver steps; stops early once the machine halts.
pub open spec fn spec_run(m: Machine, fuel: nat) -> Machine
    decreases fuel,
{
    if fuel == 0 || !(m.status is Running) {
        m
    } else {
        spec_run(spec_step(m), (fuel - 1) as nat)
    }
}

/// Taking one more step extends a run by one, as long as the run has not
/// halted.
#[verifier::rlimit(100)]
pub proof fn lemma_run_extend(m: Machine, i: nat)
    requires
        spec_run(m, i).status is Running,
    ensures
        spec_run(m, i + 1) == spec_step(spec_run(m, i)),
    decreases i,
{
    if i == 0 {
        assert(spec_run(m, 1) == spec_run(spec_step(m), 0));
        assert(spec_run(spec_step(m), 0) == spec_step(m));
    } else if m.status is Running {
        lemma_run_extend(spec_step(m), (i - 1) as nat);
        assert(spec_run(m, i + 1) == spec_run(spec_step(m), i));
        assert(spec_run(m, i) == spec_run(spec_step(m), (i - 1) as nat));
    }
}

/// Once a run has halted, any longer run reaches the same state: Halted
/// is terminal.
#[verifier::rlimit(100)]
pub proof fn lemma_run_absorb(m: Machine, i: nat, j: nat)
    requires
        i <= j,
        !(spec_run(m, i).status is Running),
    ensures
        spec_run(m, j) == spec_run(m, i),
    decreases i,
{
    if i > 0 && m.status is Running {
        lemma_run_absorb(spec_step(m), (i - 1) as nat, (j - 1) as nat);
        assert(spec_run(m, i) == spec_run(spec_step(m), (i - 1) as nat));
        assert(spec_run(m, j) == spec_run(spec_step(m), (j - 1) as nat));
    }
}

impl M68k {
    /// Fetches an immediate operand of size `s`.
    pub(crate) fn fetch_imm(&mut self, s: Size) -> (r: Option<u32>)
        requires
            old(self)@.wf(),
        ensures
            final(self)@.wf(),
            final(self)@ == spec_fetch_imm(old(self)@, s).0,
            r == spec_fetch_imm(old(self)@, s).1,
    {
        match s {
            Size::Long => self.next_l(),
            Size::Word => match self.next_op() {
                None => None,
                Some(v) => Some(v as u32),
            },
            Size::Byte => match self.next_op() {
                None => None,
                Some(v) => Some((v % 0x100) as u32),
            },
        }
    }

    /// Pushes a longword onto the stack.
    pub(crate) fn push32(&mut self, v: u32) -> (ok: bool)
        requires
            old(self)@.wf(),
        ensures
            final(self)@.wf(),
            final(self)@ == spec_push32(old(self)@, v).0,
            ok == spec_push32(old(self)@, v).1,
    {
        let sp = wsub(self.a[7], 4);
        self.a[7] = sp;
        self.write_mem(sp, v, Size::Long)
    }

    /// Pops a longword from the stack.
    pub(crate) fn pop32(&mut self) -> (r: Option<u32>)
        requires
            old(self)@.wf(),
        ensures
            final(self)@.wf(),
            final(self)@ == spec_pop32(old(self)@).0,
            r == spec_pop32(old(self)@).1,
    {
        let sp = self.a[7];
        match self.read_mem(sp, Size::Long) {
            None => None,
            Some(v) => {
                self.a[7] = wadd(sp, 4);
                proof {
                    assert(self@ =~= spec_pop32(old(self)@).0);
                }
                Some(v)
            },
        }
    }

    /// Shared body of the immediate-operand instructions.
    pub(crate) fn imm_op(&mut self, op: u16, iaddr: u32, k: AluOp)
        requires
            old(self)@.wf(),
        ensures
            final(self)@.wf(),
            final(self)@ == spec_imm_op(old(self)@, op, iaddr, k),
    {
        let szbits = (op / 0x40) % 4;
        let mode = (op / 8) % 8;
        let reg = op % 8;
        if szbits == 3 {
            self.halt_with(HaltCause::DecodeFault { op, at: iaddr });
            return ;
        }
        let s = size_from_bits_exec(szbits);
        if mode == 7 && reg == 4 {
            let logical = match k {
                AluOp::Or => true,
                AluOp::And => true,
                AluOp::Eor => true,
                _ => false,
            };
            if logical && szbits != 2 {
                let imm = match self.next_op() {
                    None => {
                        return ;
                    },
                    Some(w) => w,
                };
                let v = if szbits == 0 {
                    imm % 0x100
                } else {
                    imm
                };
                self.sr = apply_sr_exec(k, self.sr, v, szbits == 0);
                proof {
                    assert(self@ =~= spec_imm_op(old(self)@, op, iaddr, k));
                }
            } else {
                self.halt_with(HaltCause::DecodeFault { op, at: iaddr });
            }
            return ;
        }
        if mode == 1 {
            self.halt_with(HaltCause::DecodeFault { op, at: iaddr });
            return ;
        }
        let imm = match self.fetch_imm(s) {
            None => {
                return ;
            },
            Some(v) => v,
        };
        let p = match self.resolve_ea(mode, reg, s, iaddr, op) {
            None => {
                return ;
            },
            Some(p) => p,
        };
        let dstv = match self.place_read(p, s) {
            None => {
                return ;
            },
            Some(v) => v,
        };
        let r = alu_exec(self.sr, dstv, imm, s, k);
        match k {
            AluOp::Cmp => {
                self.sr = r.1;
                proof {
                    assert(self@ =~= spec_imm_op(old(self)@, op, iaddr, k));
                }
            },
            _ => {
                let ok = self.place_write(p, s, r.0);
                if ok {
                    self.sr = r.1;
                }
                proof {
                    assert(self@ =~= spec_imm_op(old(self)@, op, iaddr, k));
                }
            },
        }
    }

    /// Bitwise-or immediate.
    pub(crate) fn ori(&mut self, op: u16, iaddr: u32)
        requires
            old(self)@.wf(),
        ensures
            final(self)@.wf(),
            final(self)@ == spec_imm_op(old(self)@, op, iaddr, AluOp::Or),
    {
        self.imm_op(op, iaddr, AluOp::Or)
    }

    /// Bitwise-and immediate.
    pub(crate) fn andi(&mut self, op: u16, iaddr: u32)
        requires
            old(self)@.wf(),
        ensures
            final(self)@.wf(),
            final(self)@ == spec_imm_op(old(self)@, op, iaddr, AluOp::And),
    {
        self.imm_op(op, iaddr, AluOp::And)
    }

    /// Subtract immediate.
    pub(crate) fn subi(&mut self, op: u16, iaddr: u32)
        requires
            old(self)@.wf(),
        ensures
            final(self)@.wf(),
            final(self)@ == spec_imm_op(old(self)@, op, iaddr, AluOp::Sub),
    {
        self.imm_op(op, iaddr, AluOp::Sub)
    }

    /// Add immediate.
    pub(crate) fn addi(&mut self, op: u16, iaddr: u32)
        requires
            old(self)@.wf(),
        ensures
            final(self)@.wf(),
            final(self)@ == spec_imm_op(old(self)@, op, iaddr, AluOp::Add),
    {
        self.imm_op(op, iaddr, AluOp::Add)
    }

    /// Exclusive-or immediate.
    pub(crate) fn eori(&mut self, op: u16, iaddr: u32)
        requires
            old(self)@.wf(),
        ensures
            final(self)@.wf(),
            final(self)@ == spec_imm_op(old(self)@, op, iaddr, AluOp::Eor),
    {
        self.imm_op(op, iaddr, AluOp::Eor)
    }

    /// Compare immediate: subtract for the flags only, writing nothing.
    pub(crate) fn cmpi(&mut self, op: u16, iaddr: u32)
        requires
            old(self)@.wf(),
        ensures
            final(self)@.wf(),
            final(self)@ == spec_imm_op(old(self)@, op, iaddr, AluOp::Cmp),
    {
        self.imm_op(op, iaddr, AluOp::Cmp)
    }

    /// Shared body of the single-bit instructions.
    pub(crate) fn bit_op(&mut self, op: u16, iaddr: u32, k: BitKind)
        requires
            old(self)@.wf(),
        ensures
            final(self)@.wf(),
            final(self)@ == spec_bit_op(old(self)@, op, iaddr, k),
    {
        let mode = (op / 8) % 8;
        let reg = op % 8;
        let bn = match self.next_op() {
            None => {
                return ;
            },
            Some(w) => w,
        };
        if mode == 0 || mode == 1 {
            let regv = if mode == 0 {
                self.d[reg as usize]
            } else {
                self.a[reg as usize]
            };
            let mask = bit_mask_reg_exec(bn);
            let z = regv & mask == 0;
            self.sr = crate::flags::set_flag_z(self.sr, z);
            let nv = match k {
                BitKind::Test => regv,
                BitKind::Change => regv ^ mask,
                BitKind::Clear => regv & !mask,
                BitKind::SetBit => regv | mask,
            };
            match k {
                BitKind::Test => {},
                _ => {
                    if mode == 0 {
                        self.d[reg as usize] = nv;
                    } else {
                        self.a[reg as usize] = nv;
                    }
                },
            }
            proof {
                assert(self@ =~= spec_bit_op(old(self)@, op, iaddr, k));
            }
        } else {
            let p = match self.resolve_ea(mode, reg, Size::Byte, iaddr, op) {
                None => {
                    return ;
                },
                Some(p) => p,
            };
            match p {
                Place::Imm { v: _ } => {
                    self.halt_with(HaltCause::DecodeFault { op, at: iaddr });
                    return ;
                },
                _ => {},
            }
            let b = match self.place_read(p, Size::Byte) {
                None => {
                    return ;
                },
                Some(b) => b,
            };
            let mask = bit_mask_mem_exec(bn);
            let z = b & mask == 0;
            self.sr = crate::flags::set_flag_z(self.sr, z);
            match k {
                BitKind::Test => {
                    proof {
                        assert(self@ =~= spec_bit_op(old(self)@, op, iaddr, k));
                    }
                },
                _ => {
                    let nb = match k {
                        BitKind::Test => b,
                        BitKind::Change => b ^ mask,
                        BitKind::Clear => b & !mask,
                        BitKind::SetBit => b | mask,
                    };
                    let _ok = self.place_write(p, Size::Byte, nb);
                    proof {
                        assert(self@ =~= spec_bit_op(old(self)@, op, iaddr, k));
                    }
                },
            }
        }
    }

    /// Bit test.
    pub(crate) fn btst(&mut self, op: u16, iaddr: u32)
        requires
            old(self)@.wf(),
        ensures
            final(self)@.wf(),
            final(self)@ == spec_bit_op(old(self)@, op, iaddr, BitKind::Test),
    {
        self.bit_op(op, iaddr, BitKind::Test)
    }

    /// Bit test and change.
    pub(crate) fn bchg(&mut self, op: u16, iaddr: u32)
        requires
            old(self)@.wf(),
        ensures
            final(self)@.wf(),
            final(self)@ == spec_bit_op(old(self)@, op, iaddr, BitKind::Change),
    {
        self.bit_op(op, iaddr, BitKind::Change)
    }

    /// Bit test and clear.
    pub(crate) fn bclr(&mut self, op: u16, iaddr: u32)
        requires
            old(self)@.wf(),
        ensures
            final(self)@.wf(),
            final(self)@ == spec_bit_op(old(self)@, op, iaddr, BitKind::Clear),
    {
        self.bit_op(op, iaddr, BitKind::Clear)
    }

    /// Bit test and set.
    pub(crate) fn bset(&mut self, op: u16, iaddr: u32)
        requires
            old(self)@.wf(),
        ensures
            final(self)@.wf(),
            final(self)@ == spec_bit_op(old(self)@, op, iaddr, BitKind::SetBit),
    {
        self.bit_op(op, iaddr, BitKind::SetBit)
    }

    /// Move between two effective addresses.
    pub(crate) fn mov(&mut self, op: u16, iaddr: u32)
        requires
            old(self)@.wf(),
        ensures
            final(self)@.wf(),
            final(self)@ == spec_move(old(self)@, op, iaddr),
    {
        let szbits = (op / 0x1000) % 4;
        let s = if szbits == 1 {
            Size::Byte
        } else if szbits == 3 {
            Size::Word
        } else {
            Size::Long
        };
        let smode = (op / 8) % 8;
        let sreg = op % 8;
        let dmode = (op / 0x40) % 8;
        let dreg = (op / 0x200) % 8;
        if dmode == 7 && dreg != 0 && dreg != 1 {
            self.halt_with(HaltCause::DecodeFault { op, at: iaddr });
            return ;
        }
        let sp = match self.resolve_ea(smode, sreg, s, iaddr, op) {
            None => {
                return ;
            },
            Some(p) => p,
        };
        let v = match self.place_read(sp, s) {
            None => {
                return ;
            },
            Some(v) => v,
        };
        let dp = match self.resolve_ea(dmode, dreg, s, iaddr, op) {
            None => {
                return ;
            },
            Some(p) => p,
        };
        let _ok = self.place_write(dp, s, v);
    }

    /// Quick load of an immediate byte into a data register.
    pub(crate) fn moveq(&mut self, op: u16, iaddr: u32)
        requires
            old(self)@.wf(),
        ensures
            final(self)@.wf(),
            final(self)@ == spec_moveq(old(self)@, op, iaddr),
    {
        if (op / 0x100) % 2 == 1 {
            self.halt_with(HaltCause::DecodeFault { op, at: iaddr });
            return ;
        }
        let reg = ((op / 0x200) % 8) as usize;
        self.d[reg] = (op % 0x100) as u32;
        proof {
            assert(self@ =~= spec_moveq(old(self)@, op, iaddr));
        }
    }

    /// Conditional branch, branch always, or branch to subroutine.
    pub(crate) fn bcc(&mut self, op: u16, iaddr: u32)
        requires
            old(self)@.wf(),
        ensures
            final(self)@.wf(),
            final(self)@ == spec_bcc(old(self)@, op, iaddr),
    {
        let cond = (op / 0x100) % 0x10;
        let d8 = op % 0x100;
        let base = self.pc;
        let disp = if d8 == 0 {
            match self.next_op() {
                None => {
                    return ;
                },
                Some(d16) => sign_ext_16_exec(d16),
            }
        } else {
            sign_ext_8_exec(d8)
        };
        let target = wadd(base, disp);
        if cond == 1 {
            let ret = self.pc;
            let ok = self.push32(ret);
            if ok {
                self.pc = target;
            }
            proof {
                assert(self@ =~= spec_bcc(old(self)@, op, iaddr));
            }
        } else if crate::flags::condition(cond, self.sr) {
            self.pc = target;
            proof {
                assert(self@ =~= spec_bcc(old(self)@, op, iaddr));
            }
        }
    }

    /// Allocates a stack frame through the named address register.
    pub(crate) fn link(&mut self, op: u16)
        requires
            old(self)@.wf(),
        ensures
            final(self)@.wf(),
            final(self)@ == spec_link(old(self)@, op),
    {
        let reg = (op % 8) as usize;
        let d16 = match self.next_op() {
            None => {
                return ;
            },
            Some(w) => w,
        };
        let saved = self.a[reg];
        let ok = self.push32(saved);
        if ok {
            let sp = self.a[7];
            self.a[reg] = sp;
            self.a[7] = wadd(sp, sign_ext_16_exec(d16));
            proof {
                assert(self@ =~= spec_link(old(self)@, op));
            }
        }
    }

    /// Releases a stack frame allocated through the named register.
    pub(crate) fn unlk(&mut self, op: u16)
        requires
            old(self)@.wf(),
        ensures
            final(self)@.wf(),
            final(self)@ == spec_unlk(old(self)@, op),
    {
        let reg = (op % 8) as usize;
        self.a[7] = self.a[reg];
        let v = match self.pop32() {
            None => {
                return ;
            },
            Some(v) => v,
        };
        self.a[reg] = v;
        proof {
            assert(self@ =~= spec_unlk(old(self)@, op));
        }
    }

    /// Pushes the exception frame and halts with `cause`.
    pub(crate) fn frame_then(&mut self, cause: HaltCause)
        requires
            old(self)@.wf(),
        ensures
            final(self)@.wf(),
            final(self)@ == spec_frame_then(old(self)@, cause),
    {
        let pc = self.pc;
        if !self.push32(pc) {
            return ;
        }
        let sr = self.sr;
        if self.push32(sr as u32) {
            self.halt_with(cause);
        }
    }

    /// Trap: pushes the exception frame and halts with the vector field.
    pub(crate) fn trap(&mut self, op: u16)
        requires
            old(self)@.wf(),
        ensures
            final(self)@.wf(),
            final(self)@ == spec_trap(old(self)@, op),
    {
        self.frame_then(HaltCause::Trap { vector: op % 0x10 })
    }

    /// The dedicated illegal-instruction encoding.
    pub(crate) fn illegal(&mut self, iaddr: u32)
        requires
            old(self)@.wf(),
        ensures
            final(self)@.wf(),
            final(self)@ == spec_illegal(old(self)@, iaddr),
    {
        self.frame_then(HaltCause::IllegalTrap { at: iaddr })
    }

    /// Stop: loads a new status word in supervisor mode, else a privilege
    /// trap.
    pub(crate) fn stop(&mut self, iaddr: u32)
        requires
            old(self)@.wf(),
        ensures
            final(self)@.wf(),
            final(self)@ == spec_stop(old(self)@, iaddr),
    {
        if self.sr & crate::flags::FLAG_S != 0 {
            let w = match self.next_op() {
                None => {
                    return ;
                },
                Some(w) => w,
            };
            self.sr = w;
            self.halt_with(HaltCause::Stopped);
            proof {
                assert(self@ =~= spec_stop(old(self)@, iaddr));
            }
        } else {
            self.frame_then(HaltCause::PrivilegeTrap { at: iaddr });
        }
    }

    /// Resolves the control address of a jump target.
    pub(crate) fn control_ea(&mut self, op: u16, iaddr: u32) -> (r: Option<u32>)
        requires
            old(self)@.wf(),
        ensures
            final(self)@.wf(),
            final(self)@ == spec_control_ea(old(self)@, op, iaddr).0,
            r == spec_control_ea(old(self)@, op, iaddr).1,
    {
        let mode = (op / 8) % 8;
        let reg = op % 8;
        if mode == 0 || mode == 1 || mode == 3 || mode == 4 {
            self.halt_with(HaltCause::DecodeFault { op, at: iaddr });
            return None;
        }
        let p = match self.resolve_ea(mode, reg, Size::Long, iaddr, op) {
            None => {
                return None;
            },
            Some(p) => p,
        };
        match p {
            Place::MemLoc { at } => Some(at),
            _ => {
                self.halt_with(HaltCause::DecodeFault { op, at: iaddr });
                None
            },
        }
    }

    /// Jump to a control address.
    pub(crate) fn jmp(&mut self, op: u16, iaddr: u32)
        requires
            old(self)@.wf(),
        ensures
            final(self)@.wf(),
            final(self)@ == spec_jmp(old(self)@, op, iaddr),
    {
        let t = match self.control_ea(op, iaddr) {
            None => {
                return ;
            },
            Some(t) => t,
        };
        self.pc = t;
        proof {
            assert(self@ =~= spec_jmp(old(self)@, op, iaddr));
        }
    }

    /// Jump to subroutine: pushes the return address, then jumps.
    pub(crate) fn jsr(&mut self, op: u16, iaddr: u32)
        requires
            old(self)@.wf(),
        ensures
            final(self)@.wf(),
            final(self)@ == spec_jsr(old(self)@, op, iaddr),
    {
        let t = match self.control_ea(op, iaddr) {
            None => {
                return ;
            },
            Some(t) => t,
        };
        let ret = self.pc;
        let ok = self.push32(ret);
        if ok {
            self.pc = t;
        }
        proof {
            assert(self@ =~= spec_jsr(old(self)@, op, iaddr));
        }
    }

    /// Return from subroutine.
    pub(crate) fn rts(&mut self)
        requires
            old(self)@.wf(),
        ensures
            final(self)@.wf(),
            final(self)@ == spec_rts(old(self)@),
    {
        let v = match self.pop32() {
            None => {
                return ;
            },
            Some(v) => v,
        };
        self.pc = v;
        proof {
            assert(self@ =~= spec_rts(old(self)@));
        }
    }

    /// Whether the machine is still running.
    pub fn is_running(&self) -> (r: bool)
        ensures
            r == (self@.status is Running),
    {
        match self.status {
            Status::Running => true,
            Status::Halted(_) => false,
        }
    }

    /// Executes one already-fetched instruction word per the decode table.
    pub(crate) fn exec_op(&mut self, op: u16, iaddr: u32)
        requires
            old(self)@.wf(),
        ensures
            final(self)@.wf(),
            final(self)@ == spec_exec_op(old(self)@, op, iaddr),
    {
        if op == 0 {
            self.halt_with(HaltCause::DecodeFault { op, at: iaddr });
        } else if op == 0x4afc {
            self.illegal(iaddr);
        } else if op == 0x4e71 {
            // no operation
        } else if op == 0x4e72 {
            self.stop(iaddr);
        } else if op == 0x4e75 {
            self.rts();
        } else {
            let fam = (op / 0x1000) % 0x10;
            if fam == 0 {
                let row = (op / 0x100) % 0x10;
                if row == 0 {
                    self.ori(op, iaddr);
                } else if row == 2 {
                    self.andi(op, iaddr);
                } else if row == 4 {
                    self.subi(op, iaddr);
                } else if row == 6 {
                    self.addi(op, iaddr);
                } else if row == 10 {
                    self.eori(op, iaddr);
                } else if row == 12 {
                    self.cmpi(op, iaddr);
                } else if row == 8 {
                    let t = (op / 0x40) % 4;
                    if t == 0 {
                        self.btst(op, iaddr);
                    } else if t == 1 {
                        self.bchg(op, iaddr);
                    } else if t == 2 {
                        self.bclr(op, iaddr);
                    } else {
                        self.bset(op, iaddr);
                    }
                } else {
                    self.halt_with(HaltCause::DecodeFault { op, at: iaddr });
                }
            } else if fam == 1 || fam == 2 || fam == 3 {
                self.mov(op, iaddr);
            } else if fam == 4 {
                if op / 0x10 == 0x4e4 {
                    self.trap(op);
                } else if op / 8 == 0x9ca {
                    self.link(op);
                } else if op / 8 == 0x9cb {
                    self.unlk(op);
                } else if op / 0x40 == 0x13a {
                    self.jsr(op, iaddr);
                } else if op / 0x40 == 0x13b {
                    self.jmp(op, iaddr);
                } else {
                    self.halt_with(HaltCause::DecodeFault { op, at: iaddr });
                }
            } else if fam == 6 {
                self.bcc(op, iaddr);
            } else if fam == 7 {
                self.moveq(op, iaddr);
            } else {
                self.halt_with(HaltCause::DecodeFault { op, at: iaddr });
            }
        }
    }

    /// One step of the fetch-decode-execute loop: fetches one instruction
    /// word, dispatches it, and reports whether the machine is still
    /// running. A halted machine stays halted and does nothing.
    pub fn run(&mut self) -> (cont: bool)
        requires
            old(self)@.wf(),
        ensures
            final(self)@.wf(),
            final(self)@ == spec_step(old(self)@),
            cont == (final(self)@.status is Running),
    {
        proof {
            reveal(spec_step);
        }
        match self.status {
            Status::Halted(_) => {
                return false;
            },
            Status::Running => {},
        }
        let iaddr = self.pc;
        let op = match self.next_op() {
            None => {
                return false;
            },
            Some(op) => op,
        };
        self.exec_op(op, iaddr);
        self.is_running()
    }

    /// Runs the fetch-decode-execute loop for at most `max_steps` steps,
    /// stopping early once the machine halts; reports how many steps ran.
    pub fn run_to_halt(&mut self, max_steps: u32) -> (n: u32)
        requires
            old(self)@.wf(),
        ensures
            final(self)@.wf(),
            final(self)@ == spec_run(old(self)@, max_steps as nat),
            n <= max_steps,
            n < max_steps ==> !(final(self)@.status is Running),
    {
        let ghost m0 = self@;
        let mut i: u32 = 0;
        let mut running = self.is_running();
        while i < max_steps && running
            invariant
                i <= max_steps,
                self@.wf(),
                running == (self@.status is Running),
                self@ == spec_run(m0, i as nat),
            decreases max_steps - i,
        {
            proof {
                lemma_run_extend(m0, i as nat);
            }
            let _ = self.run();
            i = i + 1;
            running = self.is_running();
        }
        proof {
            if !(self@.status is Running) {
                lemma_run_absorb(m0, i as nat, max_steps as nat);
            }
        }
        i
    }
}

} // verus!
