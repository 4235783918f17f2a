//! Emulation of instructions prefixed by 0xCB

use vstd::prelude::*;
use vstd::pervasive::unreached;

use crate::cpu::{Cpu, wadd16};
use crate::cpu::instructions::Instruction;

verus! {

/// What one 0xCB-prefixed opcode byte decodes to: the machine-cycle count
/// and the instruction, or nothing where this instruction set leaves the
/// opcode unimplemented.
pub open spec fn opcode_decode(op: u8) -> Option<(u32, Instruction)> {
    match op {
        0x87 => Some((2, Instruction::ResA0)),
        0x8f => Some((2, Instruction::ResA1)),
        0x97 => Some((2, Instruction::ResA2)),
        0x9f => Some((2, Instruction::ResA3)),
        0xa7 => Some((2, Instruction::ResA4)),
        0xaf => Some((2, Instruction::ResA5)),
        0xb7 => Some((2, Instruction::ResA6)),
        0xbf => Some((2, Instruction::ResA7)),
        _ => None,
    }
}

/// Return the 0xCB instruction to be executed
pub fn next_instruction(cpu: &mut Cpu) -> (r: (u32, Instruction))
    requires
        old(cpu).wf(),
        opcode_decode(old(cpu).mem_at(old(cpu).pc)) is Some,
    ensures
        *final(cpu) == (Cpu { pc: wadd16(old(cpu).pc, 1), ..*old(cpu) }),
        Some(r) == opcode_decode(old(cpu).mem_at(old(cpu).pc)),
{
    let pc = cpu.pc;

    cpu.pc = (((pc as u32) + 1) % 0x10000) as u16;

    let op = cpu.fetch_byte(pc);

    match op {
        0x87 => (2, Instruction::ResA0),
        0x8f => (2, Instruction::ResA1),
        0x97 => (2, Instruction::ResA2),
        0x9f => (2, Instruction::ResA3),
        0xa7 => (2, Instruction::ResA4),
        0xaf => (2, Instruction::ResA5),
        0xb7 => (2, Instruction::ResA6),
        0xbf => (2, Instruction::ResA7),
        _ => unreached(),
    }
}

/// Helper function to clear one bit in a u8
pub fn res(val: u8, bit: u8) -> (r: u8)
    requires
        bit < 8,
    ensures
        r == val & !(1u8 << bit),
{
    val & !(1u8 << bit)
}

/// Helper function to clear bits in `A`
pub fn res_a(cpu: &mut Cpu, bit: u8)
    requires
        bit < 8,
    ensures
        *final(cpu) == (Cpu { a: old(cpu).a & !(1u8 << bit), ..*old(cpu) }),
{
    let a = cpu.a;

    let r = res(a, bit);

    cpu.a = r;
}

/// Clear `A` bit 0
pub fn res_a_0(cpu: &mut Cpu)
    ensures
        *final(cpu) == (Cpu { a: old(cpu).a & 0xfe, ..*old(cpu) }),
{
    res_a(cpu, 0);
    proof {
        let a = old(cpu).a;
        assert(a & !(1u8 << 0u8) == a & 0xfe) by (bit_vector);
    }
}

/// Clear `A` bit 1
pub fn res_a_1(cpu: &mut Cpu)
    ensures
        *final(cpu) == (Cpu { a: old(cpu).a & 0xfd, ..*old(cpu) }),
{
    res_a(cpu, 1);
    proof {
        let a = old(cpu).a;
        assert(a & !(1u8 << 1u8) == a & 0xfd) by (bit_vector);
    }
}

/// Clear `A` bit 2
pub fn res_a_2(cpu: &mut Cpu)
    ensures
        *final(cpu) == (Cpu { a: old(cpu).a & 0xfb, ..*old(cpu) }),
{
    res_a(cpu, 2);
    proof {
        let a = old(cpu).a;
        assert(a & !(1u8 << 2u8) == a & 0xfb) by (bit_vector);
    }
}

/// Clear `A` bit 3
pub fn res_a_3(cpu: &mut Cpu)
    ensures
        *final(cpu) == (Cpu { a: old(cpu).a & 0xf7, ..*old(cpu) }),
{
    res_a(cpu, 3);
    proof {
        let a = old(cpu).a;
        assert(a & !(1u8 << 3u8) == a & 0xf7) by (bit_vector);
    }
}

/// Clear `A` bit 4
pub fn res_a_4(cpu: &mut Cpu)
    ensures
        *final(cpu) == (Cpu { a: old(cpu).a & 0xef, ..*old(cpu) }),
{
    res_a(cpu, 4);
    proof {
        let a = old(cpu).a;
        assert(a & !(1u8 << 4u8) == a & 0xef) by (bit_vector);
    }
}

/// Clear `A` bit 5
pub fn res_a_5(cpu: &mut Cpu)
    ensures
        *final(cpu) == (Cpu { a: old(cpu).a & 0xdf, ..*old(cpu) }),
{
    res_a(cpu, 5);
    proof {
        let a = old(cpu).a;
        assert(a & !(1u8 << 5u8) == a & 0xdf) by (bit_vector);
    }
}

/// Clear `A` bit 6
pub fn res_a_6(cpu: &mut Cpu)
    ensures
        *final(cpu) == (Cpu { a: old(cpu).a & 0xbf, ..*old(cpu) }),
{
    res_a(cpu, 6);
    proof {
        let a = old(cpu).a;
        assert(a & !(1u8 << 6u8) == a & 0xbf) by (bit_vector);
    }
}

/// Clear `A` bit 7
pub fn res_a_7(cpu: &mut Cpu)
    ensures
        *final(cpu) == (Cpu { a: old(cpu).a & 0x7f, ..*old(cpu) }),
{
    res_a(cpu, 7);
    proof {
        let a = old(cpu).a;
        assert(a & !(1u8 << 7u8) == a & 0x7f) by (bit_vector);
    }
}

} // verus!
