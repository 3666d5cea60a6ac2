//! The machine state: registers, status word, program image, memory, and
//! the run/halt status, together with its ghost model.
//!
//! Every mutation the interpreter performs is described by a spec function
//! from ghost state to ghost state, and each executable method's contract
//! ties it to that description.

use vstd::prelude::*;

use crate::flags::Size;
use crate::flags::size_bytes;
use crate::mem::MEM_LEN;
use crate::mem::Mem;
use crate::mem::be16;
use crate::mem::load_be;
use crate::mem::store_be;

verus! {

broadcast use vstd::std_specs::vec::axiom_spec_len;

/// Initial stack pointer: the top of the memory region.
pub const MEM_TOP: u32 = 0xffffff;

/// Why the machine halted. Once halted, the machine never runs again.
#[derive(Clone, Copy, PartialEq, Eq, Structural, Debug)]
pub enum HaltCause {
    /// The instruction word at `at` matches no implemented encoding.
    DecodeFault { op: u16, at: u32 },
    /// A data access touched bytes outside the addressable region.
    MemFault { at: u32 },
    /// A fetch reached past the end of the loaded image; `at` is the
    /// program counter at the failed fetch.
    EndOfImage { at: u32 },
    /// The dedicated illegal-instruction encoding at `at`; an exception
    /// frame was pushed.
    IllegalTrap { at: u32 },
    /// A trap instruction with the given vector field; an exception frame
    /// was pushed.
    Trap { vector: u16 },
    /// A supervisor-only operation at `at` was attempted in user mode and
    /// was redirected to a trap; an exception frame was pushed.
    PrivilegeTrap { at: u32 },
    /// A stop instruction executed in supervisor mode.
    Stopped,
}

/// Whether the machine is still fetching and executing instructions.
#[derive(Clone, Copy, PartialEq, Eq, Structural, Debug)]
pub enum Status {
    Running,
    Halted(HaltCause),
}

/// Ghost model of the whole machine: eight data registers, eight address
/// registers (the eighth doubling as the stack pointer), program counter,
/// status word, the immutable program image, the byte store, and the
/// run/halt status.
#[verifier::ext_equal]
pub struct Machine {
    pub d: Seq<u32>,
    pub a: Seq<u32>,
    pub pc: u32,
    pub sr: u16,
    pub prog: Seq<u8>,
    pub mem: Seq<u8>,
    pub status: Status,
}

impl Machine {
    /// Shape of a well-formed machine: eight registers of each kind, a full
    /// memory region, and an image that fits the address space.
    pub open spec fn wf(self) -> bool {
        &&& self.d.len() == 8
        &&& self.a.len() == 8
        &&& self.mem.len() == MEM_LEN
        &&& self.prog.len() <= MEM_LEN
    }

    /// Whether the machine is still running.
    pub open spec fn running(self) -> bool {
        self.status is Running
    }
}

/// `m` halted with the given cause; nothing else changes.
pub open spec fn halted(m: Machine, cause: HaltCause) -> Machine {
    Machine { status: Status::Halted(cause), ..m }
}

/// Whether a two-byte fetch at the program counter stays inside the image.
/// Exceeding the image is a halting condition; alignment is not one: a
/// branch with an odd displacement leaves an odd program counter, and the
/// fetch proceeds at byte granularity, the same no-alignment-trap choice
/// the memory model makes.
pub open spec fn can_fetch(m: Machine) -> bool {
    m.pc + 2 <= m.prog.len()
}

/// Fetching one instruction word: on success the word at the program
/// counter with the counter advanced by two, otherwise the machine halted
/// at the end of the image.
pub open spec fn spec_next_op(m: Machine) -> (Machine, Option<u16>) {
    if can_fetch(m) {
        (Machine { pc: (m.pc + 2) as u32, ..m }, Some(be16(m.prog, m.pc as int)))
    } else {
        (halted(m, HaltCause::EndOfImage { at: m.pc }), None)
    }
}

/// Fetching two consecutive extension words assembled most significant
/// first into a longword.
pub open spec fn spec_next_l(m: Machine) -> (Machine, Option<u32>) {
    let (m1, hi) = spec_next_op(m);
    match hi {
        None => (m1, None),
        Some(h) => {
            let (m2, lop) = spec_next_op(m1);
            match lop {
                None => (m2, None),
                Some(l) => (m2, Some((h * 0x10000 + l) as u32)),
            }
        },
    }
}

/// Reading `s` bytes of data memory at `at`: the value on success, or the
/// machine halted with a memory fault when the access leaves the region.
pub open spec fn spec_read_mem(m: Machine, at: u32, s: Size) -> (Machine, Option<u32>) {
    if at + size_bytes(s) <= MEM_LEN {
        (m, Some(load_be(m.mem, at as int, size_bytes(s))))
    } else {
        (halted(m, HaltCause::MemFault { at }), None)
    }
}

/// Writing the low `s` bytes of `v` to data memory at `at`: the updated
/// machine and whether the write succeeded; a failed write halts with a
/// memory fault and changes no byte.
pub open spec fn spec_write_mem(m: Machine, at: u32, v: u32, s: Size) -> (Machine, bool) {
    if at + size_bytes(s) <= MEM_LEN {
        (Machine { mem: store_be(m.mem, at as int, v, size_bytes(s)), ..m }, true)
    } else {
        (halted(m, HaltCause::MemFault { at }), false)
    }
}

/// The machine state produced by [`M68k::init`]: everything zero except the
/// stack pointer, which starts at the top of the memory region.
pub open spec fn init_state() -> Machine {
    Machine {
        d: Seq::new(8, |i: int| 0u32),
        a: Seq::new(8, |i: int| if i == 7 { MEM_TOP } else { 0u32 }),
        pc: 0,
        sr: 0,
        prog: Seq::empty(),
        mem: Seq::new(MEM_LEN as nat, |i: int| 0u8),
        status: Status::Running,
    }
}

/// The machine state after loading an image: the image installed, the
/// program counter reset, the stack pointer at the top of memory, and the
/// machine running.
pub open spec fn load_state(m: Machine, image: Seq<u8>) -> Machine {
    Machine {
        prog: image,
        pc: 0,
        a: m.a.update(7, MEM_TOP),
        status: Status::Running,
        ..m
    }
}

/// The interpreter: registers, status word, program image, memory, and
/// run/halt status, with one executable method per instruction family.
pub struct M68k {
    pub(crate) d: Vec<u32>,
    pub(crate) a: Vec<u32>,
    pub(crate) pc: u32,
    pub(crate) sr: u16,
    pub(crate) prog: Vec<u8>,
    pub(crate) memory: Mem,
    pub(crate) status: Status,
}

impl View for M68k {
    type V = Machine;

    open(crate) spec fn view(&self) -> Machine {
        Machine {
            d: self.d@,
            a: self.a@,
            pc: self.pc,
            sr: self.sr,
            prog: self.prog@,
            mem: self.memory@,
            status: self.status,
        }
    }
}

/// A vector of eight zeroed registers.
fn zero_regs() -> (r: Vec<u32>)
    ensures
        r@ == Seq::new(8, |i: int| 0u32),
{
    let mut v: Vec<u32> = Vec::new();
    let mut i: usize = 0;
    while i < 8
        invariant
            i <= 8,
            v@.len() == i,
            forall|j: int| 0 <= j < i ==> v@[j] == 0u32,
        decreases 8 - i,
    {
        v.push(0u32);
        i = i + 1;
    }
    proof {
        assert(v@ =~= Seq::new(8, |i: int| 0u32));
    }
    v
}

impl M68k {
    /// A fresh machine in its initial state: running, program counter zero,
    /// every register zero except the stack pointer, which points at the
    /// top of the memory region, and an empty program image.
    pub fn init() -> (r: M68k)
        ensures
            r@ == init_state(),
            r@.wf(),
    {
        let d = zero_regs();
        let mut a = zero_regs();
        a[7] = MEM_TOP;
        let r = M68k {
            d,
            a,
            pc: 0,
            sr: 0,
            prog: Vec::new(),
            memory: Mem::new(),
            status: Status::Running,
        };
        proof {
            assert(r@.a =~= init_state().a);
            assert(r@ =~= init_state());
        }
        r
    }

    /// Installs a program image and prepares the machine to run it from
    /// address zero, with the stack pointer reset to the top of memory.
    /// An image larger than the addressable region is rejected unchanged.
    pub fn load(&mut self, image: Vec<u8>) -> (r: Result<(), ()>)
        requires
            old(self)@.wf(),
        ensures
            final(self)@.wf(),
            image@.len() <= MEM_LEN ==> r is Ok && final(self)@ == load_state(old(self)@, image@),
            image@.len() > MEM_LEN ==> r is Err && final(self)@ == old(self)@,
    {
        if image.len() > MEM_LEN {
            return Err(());
        }
        self.prog = image;
        self.pc = 0;
        self.a[7] = MEM_TOP;
        self.status = Status::Running;
        proof {
            assert(self@ =~= load_state(old(self)@, image@));
        }
        Ok(())
    }

    /// Halts the machine with the given cause.
    pub(crate) fn halt_with(&mut self, cause: HaltCause)
        ensures
            final(self)@ == halted(old(self)@, cause),
    {
        self.status = Status::Halted(cause);
        proof {
            assert(self@ =~= halted(old(self)@, cause));
        }
    }

    /// Fetches the next instruction or extension word, advancing the
    /// program counter by two; a fetch past the end of the image halts the
    /// machine instead.
    pub(crate) fn next_op(&mut self) -> (r: Option<u16>)
        requires
            old(self)@.wf(),
        ensures
            final(self)@.wf(),
            final(self)@ == spec_next_op(old(self)@).0,
            r == spec_next_op(old(self)@).1,
    {
        let len = self.prog.len();
        if len >= 2 && self.pc <= (len - 2) as u32 {
            let hi = self.prog[self.pc as usize];
            let lo = self.prog[self.pc as usize + 1];
            self.pc = self.pc + 2;
            proof {
                assert(self@ =~= spec_next_op(old(self)@).0);
            }
            Some((hi as u16) * 0x100 + (lo as u16))
        } else {
            self.halt_with(HaltCause::EndOfImage { at: self.pc });
            None
        }
    }

    /// Fetches two consecutive extension words assembled most significant
    /// first into a longword.
    pub(crate) fn next_l(&mut self) -> (r: Option<u32>)
        requires
            old(self)@.wf(),
        ensures
            final(self)@.wf(),
            final(self)@ == spec_next_l(old(self)@).0,
            r == spec_next_l(old(self)@).1,
    {
        let hi = match self.next_op() {
            Some(h) => h,
            None => {
                return None;
            },
        };
        let lo = match self.next_op() {
            Some(l) => l,
            None => {
                return None;
            },
        };
        Some((hi as u32) * 0x10000 + (lo as u32))
    }

    /// Reads `s` bytes of data memory at `at`; an access outside the
    /// region halts with a memory fault.
    pub(crate) fn read_mem(&mut self, at: u32, s: Size) -> (r: Option<u32>)
        requires
            old(self)@.wf(),
        ensures
            final(self)@.wf(),
            final(self)@ == spec_read_mem(old(self)@, at, s).0,
            r == spec_read_mem(old(self)@, at, s).1,
    {
        let w = crate::flags::size_bytes_exec(s);
        if (at as u64) + (w as u64) <= MEM_LEN as u64 {
            let v = match s {
                Size::Byte => self.memory.read_b(at as usize) as u32,
                Size::Word => self.memory.read_w(at as usize) as u32,
                Size::Long => self.memory.read_l(at as usize),
            };
            Some(v)
        } else {
            self.halt_with(HaltCause::MemFault { at });
            None
        }
    }

    /// Writes the low `s` bytes of `v` to data memory at `at`; an access
    /// outside the region halts with a memory fault.
    pub(crate) fn write_mem(&mut self, at: u32, v: u32, s: Size) -> (ok: bool)
        requires
            old(self)@.wf(),
        ensures
            final(self)@.wf(),
            final(self)@ == spec_write_mem(old(self)@, at, v, s).0,
            ok == spec_write_mem(old(self)@, at, v, s).1,
    {
        let w = crate::flags::size_bytes_exec(s);
        if (at as u64) + (w as u64) <= MEM_LEN as u64 {
            self.memory.mem_write(at as usize, v, w);
            proof {
                assert(self@ =~= spec_write_mem(old(self)@, at, v, s).0);
            }
            true
        } else {
            self.halt_with(HaltCause::MemFault { at });
            false
        }
    }

    /// The value of data register `i`.
    pub fn d_reg(&self, i: usize) -> (r: u32)
        requires
            self@.wf(),
            i < 8,
        ensures
            r == self@.d[i as int],
    {
        self.d[i]
    }

    /// The value of address register `i`; register 7 is the stack pointer.
    pub fn a_reg(&self, i: usize) -> (r: u32)
        requires
            self@.wf(),
            i < 8,
        ensures
            r == self@.a[i as int],
    {
        self.a[i]
    }

    /// The current program counter.
    pub fn pc_value(&self) -> (r: u32)
        ensures
            r == self@.pc,
    {
        self.pc
    }

    /// The current status word.
    pub fn sr_value(&self) -> (r: u16)
        ensures
            r == self@.sr,
    {
        self.sr
    }

    /// The current run/halt status.
    pub fn current_status(&self) -> (r: Status)
        ensures
            r == self@.status,
    {
        self.status
    }
}

} // verus!
