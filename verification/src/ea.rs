//! Effective-address resolution.
//!
//! Given a 3-bit mode field, a 3-bit register field and an operand size,
//! the resolver produces the operand's place — a register, a memory
//! address, or an immediate value — consuming from the instruction stream
//! exactly the extension words the mode requires, in encoding order.
//! Instruction fields here are extracted as quotient and remainder by
//! powers of two, which is the bit-field layout stated arithmetically.

use vstd::prelude::*;

use crate::flags::Size;
use crate::flags::lo;
use crate::flags::lo_exec;
use crate::flags::merge;
use crate::flags::merge_exec;
use crate::flags::size_bytes;
use crate::flags::size_bytes_exec;
use crate::machine::HaltCause;
use crate::machine::M68k;
use crate::machine::Machine;
use crate::machine::halted;
use crate::machine::spec_next_l;
use crate::machine::spec_next_op;
use crate::machine::spec_read_mem;
use crate::machine::spec_write_mem;

verus! {

/// 32-bit addition that wraps around the address space.
pub open spec fn wadd32(a: u32, b: u32) -> u32 {
    if a + b > u32::MAX {
        (a + b - 0x1_0000_0000) as u32
    } else {
        (a + b) as u32
    }
}

/// 32-bit subtraction that wraps around the address space.
pub open spec fn wsub32(a: u32, b: u32) -> u32 {
    if a - b < 0 {
        (a - b + 0x1_0000_0000) as u32
    } else {
        (a - b) as u32
    }
}

/// The low byte of `b` sign-extended to 32 bits.
pub open spec fn sign_ext_8(b: u16) -> u32 {
    if b % 0x100 < 0x80 {
        (b % 0x100) as u32
    } else {
        (b % 0x100 + 0xffffff00) as u32
    }
}

/// `w` sign-extended to 32 bits.
pub open spec fn sign_ext_16(w: u16) -> u32 {
    if w < 0x8000 {
        w as u32
    } else {
        (w + 0xffff0000) as u32
    }
}

/// 32-bit wrapping addition, executably.
pub fn wadd(a: u32, b: u32) -> (r: u32)
    ensures
        r == wadd32(a, b),
{
    a.wrapping_add(b)
}

/// 32-bit wrapping subtraction, executably.
pub fn wsub(a: u32, b: u32) -> (r: u32)
    ensures
        r == wsub32(a, b),
{
    a.wrapping_sub(b)
}

/// The low byte of `b` sign-extended to 32 bits, executably.
pub fn sign_ext_8_exec(b: u16) -> (r: u32)
    ensures
        r == sign_ext_8(b),
{
    let v = b % 0x100;
    if v < 0x80 {
        v as u32
    } else {
        v as u32 + 0xffffff00
    }
}

/// `w` sign-extended to 32 bits, executably.
pub fn sign_ext_16_exec(w: u16) -> (r: u32)
    ensures
        r == sign_ext_16(w),
{
    if w < 0x8000 {
        w as u32
    } else {
        w as u32 + 0xffff0000
    }
}

/// A resolved effective address: the concrete place an operand is read
/// from or written to.
#[derive(Clone, Copy, PartialEq, Eq, Structural, Debug)]
pub enum Place {
    /// Data register direct.
    DReg { r: u16 },
    /// Address register direct.
    AReg { r: u16 },
    /// A data memory address.
    MemLoc { at: u32 },
    /// An immediate value taken from the instruction stream.
    Imm { v: u32 },
}

/// Register fields of a place are in range.
pub open spec fn place_wf(p: Place) -> bool {
    match p {
        Place::DReg { r } => r < 8,
        Place::AReg { r } => r < 8,
        Place::MemLoc { at: _ } => true,
        Place::Imm { v: _ } => true,
    }
}

/// Effective-address resolution per the mode table. Modes 0 and 1 name a
/// register; mode 2 the address held in a register; modes 3 and 4
/// post-increment and pre-decrement that register by the operand width,
/// the access itself using the address before the increment and after the
/// decrement respectively; mode 5 adds a signed 16-bit displacement; mode
/// 6 adds a signed 8-bit displacement and a full index register chosen by
/// the extension word; mode 7 sub-decodes absolute short (zero-extended),
/// absolute long, program-counter relative (relative to the address of the
/// displacement word), and immediate. Unassigned mode-7 sub-codes halt
/// with a decode fault reporting `op` and `iaddr`; an exhausted
/// instruction stream halts at the end of the image.
pub open spec fn spec_resolve(
    m: Machine,
    mode: u16,
    reg: u16,
    s: Size,
    iaddr: u32,
    op: u16,
) -> (Machine, Option<Place>) {
    if mode == 0 {
        (m, Some(Place::DReg { r: reg }))
    } else if mode == 1 {
        (m, Some(Place::AReg { r: reg }))
    } else if mode == 2 {
        (m, Some(Place::MemLoc { at: m.a[reg as int] }))
    } else if mode == 3 {
        let at = m.a[reg as int];
        (
            Machine { a: m.a.update(reg as int, wadd32(at, size_bytes(s))), ..m },
            Some(Place::MemLoc { at }),
        )
    } else if mode == 4 {
        let at = wsub32(m.a[reg as int], size_bytes(s));
        (Machine { a: m.a.update(reg as int, at), ..m }, Some(Place::MemLoc { at }))
    } else if mode == 5 {
        let (m1, w) = spec_next_op(m);
        match w {
            None => (m1, None),
            Some(dis) => (
                m1,
                Some(Place::MemLoc { at: wadd32(m.a[reg as int], sign_ext_16(dis)) }),
            ),
        }
    } else if mode == 6 {
        let (m1, w) = spec_next_op(m);
        match w {
            None => (m1, None),
            Some(x) => {
                let idx = (x / 0x1000) % 8;
                let idxv = if x >= 0x8000 {
                    m.a[idx as int]
                } else {
                    m.d[idx as int]
                };
                (
                    m1,
                    Some(
                        Place::MemLoc {
                            at: wadd32(wadd32(m.a[reg as int], sign_ext_8(x)), idxv),
                        },
                    ),
                )
            },
        }
    } else {
        if reg == 0 {
            let (m1, w) = spec_next_op(m);
            match w {
                None => (m1, None),
                Some(dis) => (m1, Some(Place::MemLoc { at: dis as u32 })),
            }
        } else if reg == 1 {
            let (m1, l) = spec_next_l(m);
            match l {
                None => (m1, None),
                Some(at) => (m1, Some(Place::MemLoc { at })),
            }
        } else if reg == 2 {
            let base = m.pc;
            let (m1, w) = spec_next_op(m);
            match w {
                None => (m1, None),
                Some(dis) => (m1, Some(Place::MemLoc { at: wadd32(base, sign_ext_16(dis)) })),
            }
        } else if reg == 4 {
            match s {
                Size::Long => {
                    let (m1, l) = spec_next_l(m);
                    match l {
                        None => (m1, None),
                        Some(v) => (m1, Some(Place::Imm { v })),
                    }
                },
                Size::Word => {
                    let (m1, w) = spec_next_op(m);
                    match w {
                        None => (m1, None),
                        Some(v) => (m1, Some(Place::Imm { v: v as u32 })),
                    }
                },
                Size::Byte => {
                    let (m1, w) = spec_next_op(m);
                    match w {
                        None => (m1, None),
                        Some(v) => (m1, Some(Place::Imm { v: (v % 0x100) as u32 })),
                    }
                },
            }
        } else {
            (halted(m, HaltCause::DecodeFault { op, at: iaddr }), None)
        }
    }
}

/// Reading an operand of size `s` from a place: register and immediate
/// reads truncate to the operand width; memory reads may halt with a
/// memory fault.
pub open spec fn spec_place_read(m: Machine, p: Place, s: Size) -> (Machine, Option<u32>) {
    match p {
        Place::DReg { r } => (m, Some(lo(m.d[r as int], s))),
        Place::AReg { r } => (m, Some(lo(m.a[r as int], s))),
        Place::MemLoc { at } => spec_read_mem(m, at, s),
        Place::Imm { v } => (m, Some(lo(v, s))),
    }
}

/// Writing an operand of size `s` to a place: a data register keeps its
/// high bytes above the operand width; an address register is replaced
/// whole; memory writes may halt with a memory fault. An immediate is not
/// a destination and the write reports failure without any effect.
pub open spec fn spec_place_write(m: Machine, p: Place, s: Size, v: u32) -> (Machine, bool) {
    match p {
        Place::DReg { r } => (
            Machine { d: m.d.update(r as int, merge(v, m.d[r as int], s)), ..m },
            true,
        ),
        Place::AReg { r } => (Machine { a: m.a.update(r as int, v), ..m }, true),
        Place::MemLoc { at } => spec_write_mem(m, at, v, s),
        Place::Imm { v: _ } => (m, false),
    }
}

impl M68k {
    /// Resolves an effective address per [`spec_resolve`], consuming the
    /// extension words the mode requires.
    pub(crate) fn resolve_ea(
        &mut self,
        mode: u16,
        reg: u16,
        s: Size,
        iaddr: u32,
        op: u16,
    ) -> (r: Option<Place>)
        requires
            old(self)@.wf(),
            mode < 8,
            reg < 8,
        ensures
            final(self)@.wf(),
            final(self)@ == spec_resolve(old(self)@, mode, reg, s, iaddr, op).0,
            r == spec_resolve(old(self)@, mode, reg, s, iaddr, op).1,
            r matches Some(p) ==> place_wf(p),
    {
        if mode == 0 {
            Some(Place::DReg { r: reg })
        } else if mode == 1 {
            Some(Place::AReg { r: reg })
        } else if mode == 2 {
            Some(Place::MemLoc { at: self.a[reg as usize] })
        } else if mode == 3 {
            let at = self.a[reg as usize];
            let w = size_bytes_exec(s);
            self.a[reg as usize] = wadd(at, w);
            proof {
                assert(self@ =~= spec_resolve(old(self)@, mode, reg, s, iaddr, op).0);
            }
            Some(Place::MemLoc { at })
        } else if mode == 4 {
            let w = size_bytes_exec(s);
            let at = wsub(self.a[reg as usize], w);
            self.a[reg as usize] = at;
            proof {
                assert(self@ =~= spec_resolve(old(self)@, mode, reg, s, iaddr, op).0);
            }
            Some(Place::MemLoc { at })
        } else if mode == 5 {
            let base = self.a[reg as usize];
            let dis = match self.next_op() {
                Some(dis) => dis,
                None => {
                    return None;
                },
            };
            Some(Place::MemLoc { at: wadd(base, sign_ext_16_exec(dis)) })
        } else if mode == 6 {
            let base = self.a[reg as usize];
            let x = match self.next_op() {
                Some(x) => x,
                None => {
                    return None;
                },
            };
            let idx = ((x / 0x1000) % 8) as usize;
            let idxv = if x >= 0x8000 {
                self.a[idx]
            } else {
                self.d[idx]
            };
            Some(Place::MemLoc { at: wadd(wadd(base, sign_ext_8_exec(x)), idxv) })
        } else {
            if reg == 0 {
                let dis = match self.next_op() {
                    Some(dis) => dis,
                    None => {
                        return None;
                    },
                };
                Some(Place::MemLoc { at: dis as u32 })
            } else if reg == 1 {
                let at = match self.next_l() {
                    Some(at) => at,
                    None => {
                        return None;
                    },
                };
                Some(Place::MemLoc { at })
            } else if reg == 2 {
                let base = self.pc;
                let dis = match self.next_op() {
                    Some(dis) => dis,
                    None => {
                        return None;
                    },
                };
                Some(Place::MemLoc { at: wadd(base, sign_ext_16_exec(dis)) })
            } else if reg == 4 {
                match s {
                    Size::Long => {
                        let v = match self.next_l() {
                            Some(v) => v,
                            None => {
                                return None;
                            },
                        };
                        Some(Place::Imm { v })
                    },
                    Size::Word => {
                        let v = match self.next_op() {
                            Some(v) => v,
                            None => {
                                return None;
                            },
                        };
                        Some(Place::Imm { v: v as u32 })
                    },
                    Size::Byte => {
                        let v = match self.next_op() {
                            Some(v) => v,
                            None => {
                                return None;
                            },
                        };
                        Some(Place::Imm { v: (v % 0x100) as u32 })
                    },
                }
            } else {
                self.halt_with(HaltCause::DecodeFault { op, at: iaddr });
                None
            }
        }
    }

    /// Reads an operand of size `s` from a resolved place.
    pub(crate) fn place_read(&mut self, p: Place, s: Size) -> (r: Option<u32>)
        requires
            old(self)@.wf(),
            place_wf(p),
        ensures
            final(self)@.wf(),
            final(self)@ == spec_place_read(old(self)@, p, s).0,
            r == spec_place_read(old(self)@, p, s).1,
    {
        match p {
            Place::DReg { r } => Some(lo_exec(self.d[r as usize], s)),
            Place::AReg { r } => Some(lo_exec(self.a[r as usize], s)),
            Place::MemLoc { at } => self.read_mem(at, s),
            Place::Imm { v } => Some(lo_exec(v, s)),
        }
    }

    /// Writes an operand of size `s` to a resolved place.
    pub(crate) fn place_write(&mut self, p: Place, s: Size, v: u32) -> (ok: bool)
        requires
            old(self)@.wf(),
            place_wf(p),
        ensures
            final(self)@.wf(),
            final(self)@ == spec_place_write(old(self)@, p, s, v).0,
            ok == spec_place_write(old(self)@, p, s, v).1,
    {
        match p {
            Place::DReg { r } => {
                let prev = self.d[r as usize];
                self.d[r as usize] = merge_exec(v, prev, s);
                proof {
                    assert(self@ =~= spec_place_write(old(self)@, p, s, v).0);
                }
                true
            },
            Place::AReg { r } => {
                self.a[r as usize] = v;
                proof {
                    assert(self@ =~= spec_place_write(old(self)@, p, s, v).0);
                }
                true
            },
            Place::MemLoc { at } => self.write_mem(at, v, s),
            Place::Imm { v: _ } => false,
        }
    }
}

} // verus!
