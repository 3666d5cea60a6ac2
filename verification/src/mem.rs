//! Flat byte-addressable memory with big-endian multi-byte accessors.
//!
//! All word (2-byte) and longword (4-byte) accesses are composed from byte
//! accesses in big-endian order: the lowest address holds the most
//! significant byte. No alignment is enforced at the memory level; access to
//! odd addresses is permitted (the interpreter does not model the alignment
//! trap, a choice applied consistently to every instruction).

use vstd::prelude::*;

verus! {

broadcast use vstd::std_specs::vec::axiom_spec_len;

/// Number of addressable bytes: the region reachable over a 24-bit address
/// bus, so any program written for the processor can use all of it.
pub const MEM_LEN: usize = 0xffffff;

/// Least significant byte of a 32-bit value.
pub open spec fn byte0(d: u32) -> u8 {
    (d as int % 0x100) as u8
}

/// Second byte (bits 8..16) of a 32-bit value.
pub open spec fn byte1(d: u32) -> u8 {
    ((d as int / 0x100) % 0x100) as u8
}

/// Third byte (bits 16..24) of a 32-bit value.
pub open spec fn byte2(d: u32) -> u8 {
    ((d as int / 0x10000) % 0x100) as u8
}

/// Most significant byte of a 32-bit value.
pub open spec fn byte3(d: u32) -> u8 {
    ((d as int / 0x1000000) % 0x100) as u8
}

/// Big-endian 16-bit value formed from the two bytes starting at `at`.
pub open spec fn be16(mem: Seq<u8>, at: int) -> u16 {
    (mem[at] * 0x100 + mem[at + 1]) as u16
}

/// Big-endian 32-bit value formed from the four bytes starting at `at`.
pub open spec fn be32(mem: Seq<u8>, at: int) -> u32 {
    (be16(mem, at) * 0x10000 + be16(mem, at + 2)) as u32
}

/// The value a read of `mode` bytes (1, 2 or 4) at `at` yields, widened to
/// 32 bits.
pub open spec fn load_be(mem: Seq<u8>, at: int, mode: u32) -> u32 {
    if mode == 1 {
        mem[at] as u32
    } else if mode == 2 {
        be16(mem, at) as u32
    } else {
        be32(mem, at)
    }
}

/// The byte store after writing the low `mode` bytes (1, 2 or 4) of `data`
/// at `at`, most significant byte first.
pub open spec fn store_be(mem: Seq<u8>, at: int, data: u32, mode: u32) -> Seq<u8> {
    if mode == 1 {
        mem.update(at, byte0(data))
    } else if mode == 2 {
        mem.update(at, byte1(data)).update(at + 1, byte0(data))
    } else {
        mem.update(at, byte3(data)).update(at + 1, byte2(data)).update(at + 2, byte1(data)).update(
            at + 3,
            byte0(data),
        )
    }
}

/// `data` truncated to the low `mode` bytes.
pub open spec fn trunc_be(data: u32, mode: u32) -> u32 {
    if mode == 1 {
        (data as int % 0x100) as u32
    } else if mode == 2 {
        (data as int % 0x10000) as u32
    } else {
        data
    }
}

/// Round trip: writing the low `mode` bytes (1, 2 or 4) of `data` at `at`
/// and immediately reading `mode` bytes back from `at` yields `data`
/// truncated to `mode` bytes.
pub proof fn lemma_write_read_round_trip(mem: Seq<u8>, at: int, data: u32, mode: u32)
    requires
        mode == 1 || mode == 2 || mode == 4,
        0 <= at,
        at + mode <= mem.len(),
    ensures
        load_be(store_be(mem, at, data, mode), at, mode) == trunc_be(data, mode),
{
    if mode == 2 {
        assert((data / 0x100 % 0x100) * 0x100 + data % 0x100 == data % 0x10000) by (bit_vector);
    } else if mode == 4 {
        assert((data / 0x1000000 % 0x100) * 0x100 + data / 0x10000 % 0x100 == data / 0x10000)
            by (bit_vector);
        assert((data / 0x100 % 0x100) * 0x100 + data % 0x100 == data % 0x10000) by (bit_vector);
        assert((data / 0x10000) * 0x10000 + data % 0x10000 == data) by (bit_vector);
    }
}

/// The byte store with a fixed capacity of [`MEM_LEN`] bytes, viewed as the
/// sequence of its bytes.
pub struct Mem {
    m: Vec<u8>,
}

impl View for Mem {
    type V = Seq<u8>;

    closed spec fn view(&self) -> Seq<u8> {
        self.m@
    }
}

impl Mem {
    /// A fresh store of [`MEM_LEN`] zeroed bytes.
    pub fn new() -> (r: Mem)
        ensures
            r@ == Seq::new(MEM_LEN as nat, |i: int| 0u8),
    {
        let mut m: Vec<u8> = Vec::new();
        while m.len() < MEM_LEN
            invariant
                m@.len() <= MEM_LEN,
                forall|i: int| 0 <= i < m@.len() ==> m@[i] == 0u8,
            decreases MEM_LEN - m@.len(),
        {
            m.push(0u8);
        }
        proof {
            assert(m@ =~= Seq::new(MEM_LEN as nat, |i: int| 0u8));
        }
        Mem { m }
    }

    /// The byte at `addr`.
    pub fn read_b(&mut self, addr: usize) -> (r: u8)
        requires
            addr < old(self)@.len(),
        ensures
            final(self)@ == old(self)@,
            r == final(self)@[addr as int],
    {
        self.m[addr]
    }

    /// The big-endian 16-bit value at `addr`.
    pub fn read_w(&mut self, addr: usize) -> (r: u16)
        requires
            addr + 2 <= old(self)@.len(),
        ensures
            final(self)@ == old(self)@,
            r == be16(final(self)@, addr as int),
    {
        proof {
            vstd::std_specs::vec::axiom_spec_len(&self.m);
        }
        (self.m[addr] as u16) * 0x100 + (self.m[addr + 1] as u16)
    }

    /// The big-endian 32-bit value at `addr`.
    pub fn read_l(&mut self, addr: usize) -> (r: u32)
        requires
            addr + 4 <= old(self)@.len(),
        ensures
            final(self)@ == old(self)@,
            r == be32(final(self)@, addr as int),
    {
        proof {
            vstd::std_specs::vec::axiom_spec_len(&self.m);
        }
        let hi = self.read_w(addr);
        let lo = self.read_w(addr + 2);
        (hi as u32) * 0x10000 + (lo as u32)
    }

    /// Writes the low `mode` bytes (1, 2 or 4) of `data` at `addr`, most
    /// significant byte first. Side effects are immediate: every later read
    /// in program order sees them.
    pub fn mem_write(&mut self, addr: usize, data: u32, mode: u32)
        requires
            mode == 1 || mode == 2 || mode == 4,
            addr + mode <= old(self)@.len(),
        ensures
            final(self)@ == store_be(old(self)@, addr as int, data, mode),
            final(self)@.len() == old(self)@.len(),
    {
        proof {
            vstd::std_specs::vec::axiom_spec_len(&self.m);
        }
        if mode == 4 {
            self.m[addr] = (data / 0x1000000 % 0x100) as u8;
            self.m[addr + 1] = (data / 0x10000 % 0x100) as u8;
            self.m[addr + 2] = (data / 0x100 % 0x100) as u8;
            self.m[addr + 3] = (data % 0x100) as u8;
        } else if mode == 2 {
            self.m[addr] = (data / 0x100 % 0x100) as u8;
            self.m[addr + 1] = (data % 0x100) as u8;
        } else {
            self.m[addr] = (data % 0x100) as u8;
        }
    }

    /// Number of addressable bytes.
    pub fn len(&self) -> (r: usize)
        ensures
            r == self@.len(),
    {
        self.m.len()
    }
}

} // verus!
