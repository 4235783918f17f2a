//! Machine-state model of the Game Boy CPU: the eight-bit register file,
//! the four condition flags, the program counter, the stack pointer, the
//! interrupt-enable latch and a flat view of the address space.

use vstd::prelude::*;

pub mod instructions;

verus! {

/// Number of addressable bytes: the Game Boy has a 16-bit address bus.
pub const MEM_SIZE: usize = 0x10000;

/// The processor state. Every instruction is a total function on this
/// structure; arithmetic on registers and addresses wraps, as the hardware's
/// does.
pub struct Cpu {
    /// Accumulator.
    pub a: u8,
    /// General purpose register `B`.
    pub b: u8,
    /// General purpose register `C`.
    pub c: u8,
    /// General purpose register `D`.
    pub d: u8,
    /// General purpose register `E`.
    pub e: u8,
    /// General purpose register `H`.
    pub h: u8,
    /// General purpose register `L`.
    pub l: u8,
    /// Program counter.
    pub pc: u16,
    /// Stack pointer.
    pub sp: u16,
    /// Zero flag.
    pub zero: bool,
    /// Subtract flag.
    pub substract: bool,
    /// Half-carry flag.
    pub halfcarry: bool,
    /// Carry flag.
    pub carry: bool,
    /// Interrupt-enable latch.
    pub iten: bool,
    /// The address space, one byte per address.
    pub mem: Vec<u8>,
}

/// 16-bit addition, wrapping at the address-space boundary.
pub open spec fn wadd16(x: u16, k: u16) -> u16 {
    ((x + k) % 0x10000) as u16
}

/// 16-bit subtraction, wrapping at the address-space boundary.
pub open spec fn wsub16(x: u16, k: u16) -> u16 {
    (((x + 0x10000) - k) % 0x10000) as u16
}

/// 8-bit subtraction, wrapping.
pub open spec fn wsub8(x: u8, y: u8) -> u8 {
    (((x + 0x100) - y) % 0x100) as u8
}

/// High byte of a 16-bit word.
pub open spec fn hi8(v: u16) -> u8 {
    (v / 0x100) as u8
}

/// Low byte of a 16-bit word.
pub open spec fn lo8(v: u16) -> u8 {
    (v % 0x100) as u8
}

/// A 16-bit word from its high and low bytes.
pub open spec fn word(hi: u8, lo: u8) -> u16 {
    (hi * 0x100 + lo) as u16
}

/// The `BC` register pair.
pub open spec fn bc_of(c: Cpu) -> u16 {
    word(c.b, c.c)
}

/// The `DE` register pair.
pub open spec fn de_of(c: Cpu) -> u16 {
    word(c.d, c.e)
}

/// The `HL` register pair.
pub open spec fn hl_of(c: Cpu) -> u16 {
    word(c.h, c.l)
}

/// Target of a relative jump: `pc` moved by the signed offset `off`,
/// wrapping at the address-space boundary.
pub open spec fn rel16(pc: u16, off: u8) -> u16 {
    ((pc + off + if off >= 0x80 { 0xff00int } else { 0int }) % 0x10000) as u16
}

/// The two states hold the same eight-bit register file.
pub open spec fn same_regs(x: Cpu, y: Cpu) -> bool {
    &&& x.a == y.a
    &&& x.b == y.b
    &&& x.c == y.c
    &&& x.d == y.d
    &&& x.e == y.e
    &&& x.h == y.h
    &&& x.l == y.l
}

/// The two states hold the same condition flags.
pub open spec fn same_flags(x: Cpu, y: Cpu) -> bool {
    &&& x.zero == y.zero
    &&& x.substract == y.substract
    &&& x.halfcarry == y.halfcarry
    &&& x.carry == y.carry
}

impl Cpu {
    /// A well-formed state backs the full 16-bit address space.
    pub open spec fn wf(self) -> bool {
        self.mem@.len() == MEM_SIZE
    }

    /// The byte the address space holds at `addr`.
    pub open spec fn mem_at(self, addr: u16) -> u8 {
        self.mem@[addr as int]
    }

    /// Fresh state: registers and flags cleared, interrupts enabled,
    /// memory all zero.
    pub fn new() -> (r: Cpu)
        ensures
            r.wf(),
            r.a == 0 && r.b == 0 && r.c == 0 && r.d == 0 && r.e == 0,
            r.h == 0 && r.l == 0,
            r.pc == 0 && r.sp == 0,
            !r.zero && !r.substract && !r.halfcarry && !r.carry,
            r.iten,
            forall|addr: u16| r.mem_at(addr) == 0u8,
    {
        let mem: Vec<u8> = vec![0u8; MEM_SIZE];
        Cpu {
            a: 0,
            b: 0,
            c: 0,
            d: 0,
            e: 0,
            h: 0,
            l: 0,
            pc: 0,
            sp: 0,
            zero: false,
            substract: false,
            halfcarry: false,
            carry: false,
            iten: true,
            mem,
        }
    }

    /// Read one byte of the address space.
    pub fn fetch_byte(&self, addr: u16) -> (r: u8)
        requires
            self.wf(),
        ensures
            r == self.mem_at(addr),
    {
        self.mem[addr as usize]
    }

    /// Write one byte of the address space.
    pub fn store_byte(&mut self, addr: u16, v: u8)
        requires
            old(self).wf(),
        ensures
            final(self).wf(),
            final(self).mem@ == old(self).mem@.update(addr as int, v),
            same_regs(*final(self), *old(self)),
            same_flags(*final(self), *old(self)),
            final(self).pc == old(self).pc,
            final(self).sp == old(self).sp,
            final(self).iten == old(self).iten,
    {
        self.mem[addr as usize] = v;
    }

    /// Disable interrupt delivery.
    pub fn disable_interrupts(&mut self)
        ensures
            *final(self) == (Cpu { iten: false, ..*old(self) }),
    {
        self.iten = false;
    }
}

} // verus!
