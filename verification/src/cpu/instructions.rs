//! Game Boy CPU instructions

use vstd::prelude::*;
use vstd::pervasive::unreached;

use crate::cpu::{Cpu, bc_of, de_of, hl_of, hi8, lo8, rel16, same_flags, same_regs, wadd16,
    word, wsub16, wsub8};

pub mod cb;

verus! {

/// One decoded instruction: every operation this instruction set implements,
/// the 0xCB-prefixed ones included.
#[derive(Clone, Copy, Debug, PartialEq, Eq, Structural)]
pub enum Instruction {
    /// `nop`
    Nop,
    /// `ld_bc_nn`
    LdBcNn,
    /// `ld_mbc_a`
    LdMbcA,
    /// `dec_b`
    DecB,
    /// `ld_b_n`
    LdBN,
    /// `ld_a_mbc`
    LdAMbc,
    /// `dec_c`
    DecC,
    /// `ld_c_n`
    LdCN,
    /// `ld_de_nn`
    LdDeNn,
    /// `ld_mde_a`
    LdMdeA,
    /// `dec_d`
    DecD,
    /// `ld_d_n`
    LdDN,
    /// `jr_n`
    JrN,
    /// `ld_a_mde`
    LdAMde,
    /// `dec_e`
    DecE,
    /// `ld_e_n`
    LdEN,
    /// `jr_nz_n`
    JrNzN,
    /// `ld_hl_nn`
    LdHlNn,
    /// `ldi_mhl_a`
    LdiMhlA,
    /// `dec_h`
    DecH,
    /// `ld_h_n`
    LdHN,
    /// `jr_z_n`
    JrZN,
    /// `dec_l`
    DecL,
    /// `ld_l_n`
    LdLN,
    /// `jr_nc_n`
    JrNcN,
    /// `ld_sp_nn`
    LdSpNn,
    /// `ldd_mhl_a`
    LddMhlA,
    /// `ld_mhl_n`
    LdMhlN,
    /// `jr_c_n`
    JrCN,
    /// `dec_a`
    DecA,
    /// `ld_a_n`
    LdAN,
    /// `ld_b_b`
    LdBB,
    /// `ld_b_c`
    LdBC,
    /// `ld_b_d`
    LdBD,
    /// `ld_b_e`
    LdBE,
    /// `ld_b_h`
    LdBH,
    /// `ld_b_l`
    LdBL,
    /// `ld_b_mhl`
    LdBMhl,
    /// `ld_b_a`
    LdBA,
    /// `ld_c_b`
    LdCB,
    /// `ld_c_c`
    LdCC,
    /// `ld_c_d`
    LdCD,
    /// `ld_c_e`
    LdCE,
    /// `ld_c_h`
    LdCH,
    /// `ld_c_l`
    LdCL,
    /// `ld_c_mhl`
    LdCMhl,
    /// `ld_c_a`
    LdCA,
    /// `ld_d_b`
    LdDB,
    /// `ld_d_c`
    LdDC,
    /// `ld_d_d`
    LdDD,
    /// `ld_d_e`
    LdDE,
    /// `ld_d_h`
    LdDH,
    /// `ld_d_l`
    LdDL,
    /// `ld_d_mhl`
    LdDMhl,
    /// `ld_d_a`
    LdDA,
    /// `ld_e_b`
    LdEB,
    /// `ld_e_c`
    LdEC,
    /// `ld_e_d`
    LdED,
    /// `ld_e_e`
    LdEE,
    /// `ld_e_h`
    LdEH,
    /// `ld_e_l`
    LdEL,
    /// `ld_e_mhl`
    LdEMhl,
    /// `ld_e_a`
    LdEA,
    /// `ld_h_b`
    LdHB,
    /// `ld_h_c`
    LdHC,
    /// `ld_h_d`
    LdHD,
    /// `ld_h_e`
    LdHE,
    /// `ld_h_h`
    LdHH,
    /// `ld_h_l`
    LdHL,
    /// `ld_h_mhl`
    LdHMhl,
    /// `ld_h_a`
    LdHA,
    /// `ld_l_b`
    LdLB,
    /// `ld_l_c`
    LdLC,
    /// `ld_l_d`
    LdLD,
    /// `ld_l_e`
    LdLE,
    /// `ld_l_h`
    LdLH,
    /// `ld_l_l`
    LdLL,
    /// `ld_l_mhl`
    LdLMhl,
    /// `ld_l_a`
    LdLA,
    /// `ld_mhl_b`
    LdMhlB,
    /// `ld_mhl_c`
    LdMhlC,
    /// `ld_mhl_d`
    LdMhlD,
    /// `ld_mhl_e`
    LdMhlE,
    /// `ld_mhl_h`
    LdMhlH,
    /// `ld_mhl_l`
    LdMhlL,
    /// `ld_mhl_a`
    LdMhlA,
    /// `ld_a_b`
    LdAB,
    /// `ld_a_c`
    LdAC,
    /// `ld_a_d`
    LdAD,
    /// `ld_a_e`
    LdAE,
    /// `ld_a_h`
    LdAH,
    /// `ld_a_l`
    LdAL,
    /// `ld_a_mhl`
    LdAMhl,
    /// `ld_a_a`
    LdAA,
    /// `sub_a_b`
    SubAB,
    /// `sub_a_c`
    SubAC,
    /// `sub_a_d`
    SubAD,
    /// `sub_a_e`
    SubAE,
    /// `sub_a_h`
    SubAH,
    /// `sub_a_l`
    SubAL,
    /// `sub_a_mhl`
    SubAMhl,
    /// `sub_a_a`
    SubAA,
    /// `and_a_b`
    AndAB,
    /// `and_a_c`
    AndAC,
    /// `and_a_d`
    AndAD,
    /// `and_a_e`
    AndAE,
    /// `and_a_h`
    AndAH,
    /// `and_a_l`
    AndAL,
    /// `and_a_mhl`
    AndAMhl,
    /// `and_a_a`
    AndAA,
    /// `xor_a_b`
    XorAB,
    /// `xor_a_c`
    XorAC,
    /// `xor_a_d`
    XorAD,
    /// `xor_a_e`
    XorAE,
    /// `xor_a_h`
    XorAH,
    /// `xor_a_l`
    XorAL,
    /// `xor_a_a`
    XorAA,
    /// `cp_a_b`
    CpAB,
    /// `cp_a_c`
    CpAC,
    /// `cp_a_d`
    CpAD,
    /// `cp_a_e`
    CpAE,
    /// `cp_a_h`
    CpAH,
    /// `cp_a_l`
    CpAL,
    /// `cp_a_mhl`
    CpAMhl,
    /// `cp_a_a`
    CpAA,
    /// `jp_nz_nn`
    JpNzNn,
    /// `jp_nn`
    JpNn,
    /// `jp_z_nn`
    JpZNn,
    /// `call`
    Call,
    /// `jp_nc_nn`
    JpNcNn,
    /// `sub_a_n`
    SubAN,
    /// `jp_c_nn`
    JpCNn,
    /// `ldh_mn_a`
    LdhMnA,
    /// `and_a_n`
    AndAN,
    /// `ld_mnn_a`
    LdMnnA,
    /// `ldh_a_mn`
    LdhAMn,
    /// `pop_af`
    PopAf,
    /// `di`
    Di,
    /// `ld_a_mnn`
    LdAMnn,
    /// `cp_a_n`
    CpAN,
    /// `res_a_0`
    ResA0,
    /// `res_a_1`
    ResA1,
    /// `res_a_2`
    ResA2,
    /// `res_a_3`
    ResA3,
    /// `res_a_4`
    ResA4,
    /// `res_a_5`
    ResA5,
    /// `res_a_6`
    ResA6,
    /// `res_a_7`
    ResA7,
}

/// What one opcode byte decodes to: the machine-cycle count and the
/// instruction, or nothing where this instruction set leaves the opcode
/// unimplemented.
pub open spec fn opcode_decode(op: u8) -> Option<(u32, Instruction)> {
    match op {
        0x00 => Some((1, Instruction::Nop)),
        0x01 => Some((3, Instruction::LdBcNn)),
        0x02 => Some((2, Instruction::LdMbcA)),
        0x05 => Some((1, Instruction::DecB)),
        0x06 => Some((2, Instruction::LdBN)),
        0x0a => Some((2, Instruction::LdAMbc)),
        0x0d => Some((1, Instruction::DecC)),
        0x0e => Some((2, Instruction::LdCN)),
        0x11 => Some((3, Instruction::LdDeNn)),
        0x12 => Some((2, Instruction::LdMdeA)),
        0x15 => Some((1, Instruction::DecD)),
        0x16 => Some((2, Instruction::LdDN)),
        0x18 => Some((2, Instruction::JrN)),
        0x1a => Some((2, Instruction::LdAMde)),
        0x1d => Some((1, Instruction::DecE)),
        0x1e => Some((2, Instruction::LdEN)),
        0x20 => Some((2, Instruction::JrNzN)),
        0x21 => Some((3, Instruction::LdHlNn)),
        0x22 => Some((2, Instruction::LdiMhlA)),
        0x25 => Some((1, Instruction::DecH)),
        0x26 => Some((2, Instruction::LdHN)),
        0x28 => Some((2, Instruction::JrZN)),
        0x2d => Some((1, Instruction::DecL)),
        0x2e => Some((2, Instruction::LdLN)),
        0x30 => Some((2, Instruction::JrNcN)),
        0x31 => Some((3, Instruction::LdSpNn)),
        0x32 => Some((2, Instruction::LddMhlA)),
        0x36 => Some((3, Instruction::LdMhlN)),
        0x38 => Some((2, Instruction::JrCN)),
        0x3d => Some((1, Instruction::DecA)),
        0x3e => Some((2, Instruction::LdAN)),
        0x40 => Some((1, Instruction::LdBB)),
        0x41 => Some((1, Instruction::LdBC)),
        0x42 => Some((1, Instruction::LdBD)),
        0x43 => Some((1, Instruction::LdBE)),
        0x44 => Some((1, Instruction::LdBH)),
        0x45 => Some((1, Instruction::LdBL)),
        0x46 => Some((2, Instruction::LdBMhl)),
        0x47 => Some((1, Instruction::LdBA)),
        0x48 => Some((1, Instruction::LdCB)),
        0x49 => Some((1, Instruction::LdCC)),
        0x4a => Some((1, Instruction::LdCD)),
        0x4b => Some((1, Instruction::LdCE)),
        0x4c => Some((1, Instruction::LdCH)),
        0x4d => Some((1, Instruction::LdCL)),
        0x4e => Some((2, Instruction::LdCMhl)),
        0x4f => Some((1, Instruction::LdCA)),
        0x50 => Some((1, Instruction::LdDB)),
        0x51 => Some((1, Instruction::LdDC)),
        0x52 => Some((1, Instruction::LdDD)),
        0x53 => Some((1, Instruction::LdDE)),
        0x54 => Some((1, Instruction::LdDH)),
        0x55 => Some((1, Instruction::LdDL)),
        0x56 => Some((2, Instruction::LdDMhl)),
        0x57 => Some((1, Instruction::LdDA)),
        0x58 => Some((1, Instruction::LdEB)),
        0x59 => Some((1, Instruction::LdEC)),
        0x5a => Some((1, Instruction::LdED)),
        0x5b => Some((1, Instruction::LdEE)),
        0x5c => Some((1, Instruction::LdEH)),
        0x5d => Some((1, Instruction::LdEL)),
        0x5e => Some((2, Instruction::LdEMhl)),
        0x5f => Some((1, Instruction::LdEA)),
        0x60 => Some((1, Instruction::LdHB)),
        0x61 => Some((1, Instruction::LdHC)),
        0x62 => Some((1, Instruction::LdHD)),
        0x63 => Some((1, Instruction::LdHE)),
        0x64 => Some((1, Instruction::LdHH)),
        0x65 => Some((1, Instruction::LdHL)),
        0x66 => Some((2, Instruction::LdHMhl)),
        0x67 => Some((1, Instruction::LdHA)),
        0x68 => Some((1, Instruction::LdLB)),
        0x69 => Some((1, Instruction::LdLC)),
        0x6a => Some((1, Instruction::LdLD)),
        0x6b => Some((1, Instruction::LdLE)),
        0x6c => Some((1, Instruction::LdLH)),
        0x6d => Some((1, Instruction::LdLL)),
        0x6e => Some((2, Instruction::LdLMhl)),
        0x6f => Some((1, Instruction::LdLA)),
        0x70 => Some((2, Instruction::LdMhlB)),
        0x71 => Some((2, Instruction::LdMhlC)),
        0x72 => Some((2, Instruction::LdMhlD)),
        0x73 => Some((2, Instruction::LdMhlE)),
        0x74 => Some((2, Instruction::LdMhlH)),
        0x75 => Some((2, Instruction::LdMhlL)),
        0x77 => Some((2, Instruction::LdMhlA)),
        0x78 => Some((1, Instruction::LdAB)),
        0x79 => Some((1, Instruction::LdAC)),
        0x7a => Some((1, Instruction::LdAD)),
        0x7b => Some((1, Instruction::LdAE)),
        0x7c => Some((1, Instruction::LdAH)),
        0x7d => Some((1, Instruction::LdAL)),
        0x7e => Some((2, Instruction::LdAMhl)),
        0x7f => Some((1, Instruction::LdAA)),
        0x90 => Some((1, Instruction::SubAB)),
        0x91 => Some((1, Instruction::SubAC)),
        0x92 => Some((1, Instruction::SubAD)),
        0x93 => Some((1, Instruction::SubAE)),
        0x94 => Some((1, Instruction::SubAH)),
        0x95 => Some((1, Instruction::SubAL)),
        0x96 => Some((2, Instruction::SubAMhl)),
        0x97 => Some((1, Instruction::SubAA)),
        0xa0 => Some((1, Instruction::AndAB)),
        0xa1 => Some((1, Instruction::AndAC)),
        0xa2 => Some((1, Instruction::AndAD)),
        0xa3 => Some((1, Instruction::AndAE)),
        0xa4 => Some((1, Instruction::AndAH)),
        0xa5 => Some((1, Instruction::AndAL)),
        0xa6 => Some((2, Instruction::AndAMhl)),
        0xa7 => Some((1, Instruction::AndAA)),
        0xa8 => Some((1, Instruction::XorAB)),
        0xa9 => Some((1, Instruction::XorAC)),
        0xaa => Some((1, Instruction::XorAD)),
        0xab => Some((1, Instruction::XorAE)),
        0xac => Some((1, Instruction::XorAH)),
        0xad => Some((1, Instruction::XorAL)),
        0xaf => Some((1, Instruction::XorAA)),
        0xb8 => Some((1, Instruction::CpAB)),
        0xb9 => Some((1, Instruction::CpAC)),
        0xba => Some((1, Instruction::CpAD)),
        0xbb => Some((1, Instruction::CpAE)),
        0xbc => Some((1, Instruction::CpAH)),
        0xbd => Some((1, Instruction::CpAL)),
        0xbe => Some((2, Instruction::CpAMhl)),
        0xbf => Some((1, Instruction::CpAA)),
        0xc2 => Some((3, Instruction::JpNzNn)),
        0xc3 => Some((3, Instruction::JpNn)),
        0xca => Some((3, Instruction::JpZNn)),
        0xcd => Some((3, Instruction::Call)),
        0xd2 => Some((3, Instruction::JpNcNn)),
        0xd6 => Some((2, Instruction::SubAN)),
        0xda => Some((3, Instruction::JpCNn)),
        0xe0 => Some((3, Instruction::LdhMnA)),
        0xe6 => Some((2, Instruction::AndAN)),
        0xea => Some((4, Instruction::LdMnnA)),
        0xf0 => Some((3, Instruction::LdhAMn)),
        0xf1 => Some((3, Instruction::PopAf)),
        0xf3 => Some((1, Instruction::Di)),
        0xfa => Some((2, Instruction::LdAMnn)),
        0xfe => Some((2, Instruction::CpAN)),
        _ => None,
    }
}

/// The bytes at `pc` decode to an implemented instruction.
pub open spec fn decodable(c: Cpu) -> bool {
    if c.mem_at(c.pc) == 0xcb {
        cb::opcode_decode(c.mem_at(wadd16(c.pc, 1))) is Some
    } else {
        opcode_decode(c.mem_at(c.pc)) is Some
    }
}

/// Retrieve the next instruction to be executed.
///
/// Returns a tuple `(delay, instruction)`: `delay` is how many machine
/// cycles the instruction takes to execute (one machine cycle is 4 clock
/// cycles), `instruction` is what the opcode decodes to.
pub fn next_instruction(cpu: &mut Cpu) -> (r: (u32, Instruction))
    requires
        old(cpu).wf(),
        decodable(*old(cpu)),
    ensures
        if old(cpu).mem_at(old(cpu).pc) == 0xcb {
            &&& *final(cpu) == (Cpu { pc: wadd16(old(cpu).pc, 2), ..*old(cpu) })
            &&& Some(r) == cb::opcode_decode(old(cpu).mem_at(wadd16(old(cpu).pc, 1)))
        } else {
            &&& *final(cpu) == (Cpu { pc: wadd16(old(cpu).pc, 1), ..*old(cpu) })
            &&& Some(r) == opcode_decode(old(cpu).mem_at(old(cpu).pc))
        },
{
    let pc = cpu.pc;

    cpu.pc = (((pc as u32) + 1) % 0x10000) as u16;

    let op = cpu.fetch_byte(pc);

    if op != 0xcb {
        match op {
            0x00 => (1, Instruction::Nop),
            0x01 => (3, Instruction::LdBcNn),
            0x02 => (2, Instruction::LdMbcA),
            0x05 => (1, Instruction::DecB),
            0x06 => (2, Instruction::LdBN),
            0x0a => (2, Instruction::LdAMbc),
            0x0d => (1, Instruction::DecC),
            0x0e => (2, Instruction::LdCN),
            0x11 => (3, Instruction::LdDeNn),
            0x12 => (2, Instruction::LdMdeA),
            0x15 => (1, Instruction::DecD),
            0x16 => (2, Instruction::LdDN),
            0x18 => (2, Instruction::JrN),
            0x1a => (2, Instruction::LdAMde),
            0x1d => (1, Instruction::DecE),
            0x1e => (2, Instruction::LdEN),
            0x20 => (2, Instruction::JrNzN),
            0x21 => (3, Instruction::LdHlNn),
            0x22 => (2, Instruction::LdiMhlA),
            0x25 => (1, Instruction::DecH),
            0x26 => (2, Instruction::LdHN),
            0x28 => (2, Instruction::JrZN),
            0x2d => (1, Instruction::DecL),
            0x2e => (2, Instruction::LdLN),
            0x30 => (2, Instruction::JrNcN),
            0x31 => (3, Instruction::LdSpNn),
            0x32 => (2, Instruction::LddMhlA),
            0x36 => (3, Instruction::LdMhlN),
            0x38 => (2, Instruction::JrCN),
            0x3d => (1, Instruction::DecA),
            0x3e => (2, Instruction::LdAN),
            0x40 => (1, Instruction::LdBB),
            0x41 => (1, Instruction::LdBC),
            0x42 => (1, Instruction::LdBD),
            0x43 => (1, Instruction::LdBE),
            0x44 => (1, Instruction::LdBH),
            0x45 => (1, Instruction::LdBL),
            0x46 => (2, Instruction::LdBMhl),
            0x47 => (1, Instruction::LdBA),
            0x48 => (1, Instruction::LdCB),
            0x49 => (1, Instruction::LdCC),
            0x4a => (1, Instruction::LdCD),
            0x4b => (1, Instruction::LdCE),
            0x4c => (1, Instruction::LdCH),
            0x4d => (1, Instruction::LdCL),
            0x4e => (2, Instruction::LdCMhl),
            0x4f => (1, Instruction::LdCA),
            0x50 => (1, Instruction::LdDB),
            0x51 => (1, Instruction::LdDC),
            0x52 => (1, Instruction::LdDD),
            0x53 => (1, Instruction::LdDE),
            0x54 => (1, Instruction::LdDH),
            0x55 => (1, Instruction::LdDL),
            0x56 => (2, Instruction::LdDMhl),
            0x57 => (1, Instruction::LdDA),
            0x58 => (1, Instruction::LdEB),
            0x59 => (1, Instruction::LdEC),
            0x5a => (1, Instruction::LdED),
            0x5b => (1, Instruction::LdEE),
            0x5c => (1, Instruction::LdEH),
            0x5d => (1, Instruction::LdEL),
            0x5e => (2, Instruction::LdEMhl),
            0x5f => (1, Instruction::LdEA),
            0x60 => (1, Instruction::LdHB),
            0x61 => (1, Instruction::LdHC),
            0x62 => (1, Instruction::LdHD),
            0x63 => (1, Instruction::LdHE),
            0x64 => (1, Instruction::LdHH),
            0x65 => (1, Instruction::LdHL),
            0x66 => (2, Instruction::LdHMhl),
            0x67 => (1, Instruction::LdHA),
            0x68 => (1, Instruction::LdLB),
            0x69 => (1, Instruction::LdLC),
            0x6a => (1, Instruction::LdLD),
            0x6b => (1, Instruction::LdLE),
            0x6c => (1, Instruction::LdLH),
            0x6d => (1, Instruction::LdLL),
            0x6e => (2, Instruction::LdLMhl),
            0x6f => (1, Instruction::LdLA),
            0x70 => (2, Instruction::LdMhlB),
            0x71 => (2, Instruction::LdMhlC),
            0x72 => (2, Instruction::LdMhlD),
            0x73 => (2, Instruction::LdMhlE),
            0x74 => (2, Instruction::LdMhlH),
            0x75 => (2, Instruction::LdMhlL),
            0x77 => (2, Instruction::LdMhlA),
            0x78 => (1, Instruction::LdAB),
            0x79 => (1, Instruction::LdAC),
            0x7a => (1, Instruction::LdAD),
            0x7b => (1, Instruction::LdAE),
            0x7c => (1, Instruction::LdAH),
            0x7d => (1, Instruction::LdAL),
            0x7e => (2, Instruction::LdAMhl),
            0x7f => (1, Instruction::LdAA),
            0x90 => (1, Instruction::SubAB),
            0x91 => (1, Instruction::SubAC),
            0x92 => (1, Instruction::SubAD),
            0x93 => (1, Instruction::SubAE),
            0x94 => (1, Instruction::SubAH),
            0x95 => (1, Instruction::SubAL),
            0x96 => (2, Instruction::SubAMhl),
            0x97 => (1, Instruction::SubAA),
            0xa0 => (1, Instruction::AndAB),
            0xa1 => (1, Instruction::AndAC),
            0xa2 => (1, Instruction::AndAD),
            0xa3 => (1, Instruction::AndAE),
            0xa4 => (1, Instruction::AndAH),
            0xa5 => (1, Instruction::AndAL),
            0xa6 => (2, Instruction::AndAMhl),
            0xa7 => (1, Instruction::AndAA),
            0xa8 => (1, Instruction::XorAB),
            0xa9 => (1, Instruction::XorAC),
            0xaa => (1, Instruction::XorAD),
            0xab => (1, Instruction::XorAE),
            0xac => (1, Instruction::XorAH),
            0xad => (1, Instruction::XorAL),
            0xaf => (1, Instruction::XorAA),
            0xb8 => (1, Instruction::CpAB),
            0xb9 => (1, Instruction::CpAC),
            0xba => (1, Instruction::CpAD),
            0xbb => (1, Instruction::CpAE),
            0xbc => (1, Instruction::CpAH),
            0xbd => (1, Instruction::CpAL),
            0xbe => (2, Instruction::CpAMhl),
            0xbf => (1, Instruction::CpAA),
            0xc2 => (3, Instruction::JpNzNn),
            0xc3 => (3, Instruction::JpNn),
            0xca => (3, Instruction::JpZNn),
            0xcd => (3, Instruction::Call),
            0xd2 => (3, Instruction::JpNcNn),
            0xd6 => (2, Instruction::SubAN),
            0xda => (3, Instruction::JpCNn),
            0xe0 => (3, Instruction::LdhMnA),
            0xe6 => (2, Instruction::AndAN),
            0xea => (4, Instruction::LdMnnA),
            0xf0 => (3, Instruction::LdhAMn),
            0xf1 => (3, Instruction::PopAf),
            0xf3 => (1, Instruction::Di),
            0xfa => (2, Instruction::LdAMnn),
            0xfe => (2, Instruction::CpAN),
            _ => unreached(),
        }
    } else {
        // 0xCB introduces a two-byte opcode
        cb::next_instruction(cpu)
    }
}

/// The exact relation between the machine state before and after one
/// instruction ran: what `execute` guarantees, instruction by
/// instruction. Each case restates the instruction's own contract.
pub open spec fn instruction_effect(pre: Cpu, post: Cpu, instruction: Instruction) -> bool {
    match instruction {
        Instruction::Nop => post == pre,
        Instruction::LdBcNn => post == (Cpu {
            b: hi8(imm16(pre)),
            c: lo8(imm16(pre)),
            pc: wadd16(pre.pc, 2),
            ..pre
        }),
        Instruction::LdMbcA => {
            &&& post.mem@ == pre.mem@.update(bc_of(pre) as int, pre.a)
            &&& same_regs(post, pre)
            &&& same_flags(post, pre)
            &&& post.pc == pre.pc
            &&& post.sp == pre.sp
            &&& post.iten == pre.iten
        },
        Instruction::DecB => post == (Cpu {
            b: wsub8(pre.b, 1),
            zero: wsub8(pre.b, 1) == 0,
            halfcarry: pre.b % 0x10 == 0,
            substract: true,
            ..pre
        }),
        Instruction::LdBN => post == (Cpu {
            b: imm8(pre),
            pc: wadd16(pre.pc, 1),
            ..pre
        }),
        Instruction::LdAMbc => post == (Cpu { a: pre.mem_at(bc_of(pre)), ..pre }),
        Instruction::DecC => post == (Cpu {
            c: wsub8(pre.c, 1),
            zero: wsub8(pre.c, 1) == 0,
            halfcarry: pre.c % 0x10 == 0,
            substract: true,
            ..pre
        }),
        Instruction::LdCN => post == (Cpu {
            c: imm8(pre),
            pc: wadd16(pre.pc, 1),
            ..pre
        }),
        Instruction::LdDeNn => post == (Cpu {
            d: hi8(imm16(pre)),
            e: lo8(imm16(pre)),
            pc: wadd16(pre.pc, 2),
            ..pre
        }),
        Instruction::LdMdeA => {
            &&& post.mem@ == pre.mem@.update(de_of(pre) as int, pre.a)
            &&& same_regs(post, pre)
            &&& same_flags(post, pre)
            &&& post.pc == pre.pc
            &&& post.sp == pre.sp
            &&& post.iten == pre.iten
        },
        Instruction::DecD => post == (Cpu {
            d: wsub8(pre.d, 1),
            zero: wsub8(pre.d, 1) == 0,
            halfcarry: pre.d % 0x10 == 0,
            substract: true,
            ..pre
        }),
        Instruction::LdDN => post == (Cpu {
            d: imm8(pre),
            pc: wadd16(pre.pc, 1),
            ..pre
        }),
        Instruction::JrN => post == (Cpu {
            pc: rel16(wadd16(pre.pc, 1), imm8(pre)),
            ..pre
        }),
        Instruction::LdAMde => post == (Cpu { a: pre.mem_at(de_of(pre)), ..pre }),
        Instruction::DecE => post == (Cpu {
            e: wsub8(pre.e, 1),
            zero: wsub8(pre.e, 1) == 0,
            halfcarry: pre.e % 0x10 == 0,
            substract: true,
            ..pre
        }),
        Instruction::LdEN => post == (Cpu {
            e: imm8(pre),
            pc: wadd16(pre.pc, 1),
            ..pre
        }),
        Instruction::JrNzN => post == (Cpu {
            pc: if !pre.zero {
        rel16(wadd16(pre.pc, 1), imm8(pre))
    } else {
        wadd16(pre.pc, 1)
    },
            ..pre
        }),
        Instruction::LdHlNn => post == (Cpu {
            h: hi8(imm16(pre)),
            l: lo8(imm16(pre)),
            pc: wadd16(pre.pc, 2),
            ..pre
        }),
        Instruction::LdiMhlA => {
            &&& post.mem@ == pre.mem@.update(hl_of(pre) as int, pre.a)
            &&& post.h == hi8(wadd16(hl_of(pre), 1))
            &&& post.l == lo8(wadd16(hl_of(pre), 1))
            &&& post.a == pre.a
            &&& post.b == pre.b
            &&& post.c == pre.c
            &&& post.d == pre.d
            &&& post.e == pre.e
            &&& same_flags(post, pre)
            &&& post.pc == pre.pc
            &&& post.sp == pre.sp
            &&& post.iten == pre.iten
        },
        Instruction::DecH => post == (Cpu {
            h: wsub8(pre.h, 1),
            zero: wsub8(pre.h, 1) == 0,
            halfcarry: pre.h % 0x10 == 0,
            substract: true,
            ..pre
        }),
        Instruction::LdHN => post == (Cpu {
            h: imm8(pre),
            pc: wadd16(pre.pc, 1),
            ..pre
        }),
        Instruction::JrZN => post == (Cpu {
            pc: if pre.zero {
        rel16(wadd16(pre.pc, 1), imm8(pre))
    } else {
        wadd16(pre.pc, 1)
    },
            ..pre
        }),
        Instruction::DecL => post == (Cpu {
            l: wsub8(pre.l, 1),
            zero: wsub8(pre.l, 1) == 0,
            halfcarry: pre.l % 0x10 == 0,
            substract: true,
            ..pre
        }),
        Instruction::LdLN => post == (Cpu {
            l: imm8(pre),
            pc: wadd16(pre.pc, 1),
            ..pre
        }),
        Instruction::JrNcN => post == (Cpu {
            pc: if !pre.carry {
        rel16(wadd16(pre.pc, 1), imm8(pre))
    } else {
        wadd16(pre.pc, 1)
    },
            ..pre
        }),
        Instruction::LdSpNn => post == (Cpu {
            sp: imm16(pre),
            pc: wadd16(pre.pc, 2),
            ..pre
        }),
        Instruction::LddMhlA => {
            &&& post.mem@ == pre.mem@.update(hl_of(pre) as int, pre.a)
            &&& post.h == hi8(wsub16(hl_of(pre), 1))
            &&& post.l == lo8(wsub16(hl_of(pre), 1))
            &&& post.a == pre.a
            &&& post.b == pre.b
            &&& post.c == pre.c
            &&& post.d == pre.d
            &&& post.e == pre.e
            &&& same_flags(post, pre)
            &&& post.pc == pre.pc
            &&& post.sp == pre.sp
            &&& post.iten == pre.iten
        },
        Instruction::LdMhlN => {
            &&& post.mem@ == pre.mem@.update(hl_of(pre) as int, imm8(pre))
            &&& same_regs(post, pre)
            &&& same_flags(post, pre)
            &&& post.pc == wadd16(pre.pc, 1)
            &&& post.sp == pre.sp
            &&& post.iten == pre.iten
        },
        Instruction::JrCN => post == (Cpu {
            pc: if pre.carry {
        rel16(wadd16(pre.pc, 1), imm8(pre))
    } else {
        wadd16(pre.pc, 1)
    },
            ..pre
        }),
        Instruction::DecA => post == (Cpu {
            a: wsub8(pre.a, 1),
            zero: wsub8(pre.a, 1) == 0,
            halfcarry: pre.a % 0x10 == 0,
            substract: true,
            ..pre
        }),
        Instruction::LdAN => post == (Cpu {
            a: imm8(pre),
            pc: wadd16(pre.pc, 1),
            ..pre
        }),
        Instruction::LdBB => post == pre,
        Instruction::LdBC => post == (Cpu { b: pre.c, ..pre }),
        Instruction::LdBD => post == (Cpu { b: pre.d, ..pre }),
        Instruction::LdBE => post == (Cpu { b: pre.e, ..pre }),
        Instruction::LdBH => post == (Cpu { b: pre.h, ..pre }),
        Instruction::LdBL => post == (Cpu { b: pre.l, ..pre }),
        Instruction::LdBMhl => post == (Cpu { b: pre.mem_at(hl_of(pre)), ..pre }),
        Instruction::LdBA => post == (Cpu { b: pre.a, ..pre }),
        Instruction::LdCB => post == (Cpu { c: pre.b, ..pre }),
        Instruction::LdCC => post == pre,
        Instruction::LdCD => post == (Cpu { c: pre.d, ..pre }),
        Instruction::LdCE => post == (Cpu { c: pre.e, ..pre }),
        Instruction::LdCH => post == (Cpu { c: pre.h, ..pre }),
        Instruction::LdCL => post == (Cpu { c: pre.l, ..pre }),
        Instruction::LdCMhl => post == (Cpu { c: pre.mem_at(hl_of(pre)), ..pre }),
        Instruction::LdCA => post == (Cpu { c: pre.a, ..pre }),
        Instruction::LdDB => post == (Cpu { d: pre.b, ..pre }),
        Instruction::LdDC => post == (Cpu { d: pre.c, ..pre }),
        Instruction::LdDD => post == pre,
        Instruction::LdDE => post == (Cpu { d: pre.e, ..pre }),
        Instruction::LdDH => post == (Cpu { d: pre.h, ..pre }),
        Instruction::LdDL => post == (Cpu { d: pre.l, ..pre }),
        Instruction::LdDMhl => post == (Cpu { d: pre.mem_at(hl_of(pre)), ..pre }),
        Instruction::LdDA => post == (Cpu { d: pre.a, ..pre }),
        Instruction::LdEB => post == (Cpu { e: pre.b, ..pre }),
        Instruction::LdEC => post == (Cpu { e: pre.c, ..pre }),
        Instruction::LdED => post == (Cpu { e: pre.d, ..pre }),
        Instruction::LdEE => post == pre,
        Instruction::LdEH => post == (Cpu { e: pre.h, ..pre }),
        Instruction::LdEL => post == (Cpu { e: pre.l, ..pre }),
        Instruction::LdEMhl => post == (Cpu { e: pre.mem_at(hl_of(pre)), ..pre }),
        Instruction::LdEA => post == (Cpu { e: pre.a, ..pre }),
        Instruction::LdHB => post == (Cpu { h: pre.b, ..pre }),
        Instruction::LdHC => post == (Cpu { h: pre.c, ..pre }),
        Instruction::LdHD => post == (Cpu { h: pre.d, ..pre }),
        Instruction::LdHE => post == (Cpu { h: pre.e, ..pre }),
        Instruction::LdHH => post == pre,
        Instruction::LdHL => post == (Cpu { h: pre.l, ..pre }),
        Instruction::LdHMhl => post == (Cpu { h: pre.mem_at(hl_of(pre)), ..pre }),
        Instruction::LdHA => post == (Cpu { h: pre.a, ..pre }),
        Instruction::LdLB => post == (Cpu { l: pre.b, ..pre }),
        Instruction::LdLC => post == (Cpu { l: pre.c, ..pre }),
        Instruction::LdLD => post == (Cpu { l: pre.d, ..pre }),
        Instruction::LdLE => post == (Cpu { l: pre.e, ..pre }),
        Instruction::LdLH => post == (Cpu { l: pre.h, ..pre }),
        Instruction::LdLL => post == pre,
        Instruction::LdLMhl => post == (Cpu { l: pre.mem_at(hl_of(pre)), ..pre }),
        Instruction::LdLA => post == (Cpu { l: pre.a, ..pre }),
        Instruction::LdMhlB => {
            &&& post.mem@ == pre.mem@.update(hl_of(pre) as int, pre.b)
            &&& same_regs(post, pre)
            &&& same_flags(post, pre)
            &&& post.pc == pre.pc
            &&& post.sp == pre.sp
            &&& post.iten == pre.iten
        },
        Instruction::LdMhlC => {
            &&& post.mem@ == pre.mem@.update(hl_of(pre) as int, pre.c)
            &&& same_regs(post, pre)
            &&& same_flags(post, pre)
            &&& post.pc == pre.pc
            &&& post.sp == pre.sp
            &&& post.iten == pre.iten
        },
        Instruction::LdMhlD => {
            &&& post.mem@ == pre.mem@.update(hl_of(pre) as int, pre.d)
            &&& same_regs(post, pre)
            &&& same_flags(post, pre)
            &&& post.pc == pre.pc
            &&& post.sp == pre.sp
            &&& post.iten == pre.iten
        },
        Instruction::LdMhlE => {
            &&& post.mem@ == pre.mem@.update(hl_of(pre) as int, pre.e)
            &&& same_regs(post, pre)
            &&& same_flags(post, pre)
            &&& post.pc == pre.pc
            &&& post.sp == pre.sp
            &&& post.iten == pre.iten
        },
        Instruction::LdMhlH => {
            &&& post.mem@ == pre.mem@.update(hl_of(pre) as int, pre.h)
            &&& same_regs(post, pre)
            &&& same_flags(post, pre)
            &&& post.pc == pre.pc
            &&& post.sp == pre.sp
            &&& post.iten == pre.iten
        },
        Instruction::LdMhlL => {
            &&& post.mem@ == pre.mem@.update(hl_of(pre) as int, pre.l)
            &&& same_regs(post, pre)
            &&& same_flags(post, pre)
            &&& post.pc == pre.pc
            &&& post.sp == pre.sp
            &&& post.iten == pre.iten
        },
        Instruction::LdMhlA => {
            &&& post.mem@ == pre.mem@.update(hl_of(pre) as int, pre.a)
            &&& same_regs(post, pre)
            &&& same_flags(post, pre)
            &&& post.pc == pre.pc
            &&& post.sp == pre.sp
            &&& post.iten == pre.iten
        },
        Instruction::LdAB => post == (Cpu { a: pre.b, ..pre }),
        Instruction::LdAC => post == (Cpu { a: pre.c, ..pre }),
        Instruction::LdAD => post == (Cpu { a: pre.d, ..pre }),
        Instruction::LdAE => post == (Cpu { a: pre.e, ..pre }),
        Instruction::LdAH => post == (Cpu { a: pre.h, ..pre }),
        Instruction::LdAL => post == (Cpu { a: pre.l, ..pre }),
        Instruction::LdAMhl => post == (Cpu { a: pre.mem_at(hl_of(pre)), ..pre }),
        Instruction::LdAA => post == pre,
        Instruction::SubAB => post == (Cpu {
            a: wsub8(pre.a, pre.b),
            zero: pre.a == pre.b,
            halfcarry: pre.a % 0x10 < pre.b % 0x10,
            carry: pre.a < pre.b,
            substract: true,
            ..pre
        }),
        Instruction::SubAC => post == (Cpu {
            a: wsub8(pre.a, pre.c),
            zero: pre.a == pre.c,
            halfcarry: pre.a % 0x10 < pre.c % 0x10,
            carry: pre.a < pre.c,
            substract: true,
            ..pre
        }),
        Instruction::SubAD => post == (Cpu {
            a: wsub8(pre.a, pre.d),
            zero: pre.a == pre.d,
            halfcarry: pre.a % 0x10 < pre.d % 0x10,
            carry: pre.a < pre.d,
            substract: true,
            ..pre
        }),
        Instruction::SubAE => post == (Cpu {
            a: wsub8(pre.a, pre.e),
            zero: pre.a == pre.e,
            halfcarry: pre.a % 0x10 < pre.e % 0x10,
            carry: pre.a < pre.e,
            substract: true,
            ..pre
        }),
        Instruction::SubAH => post == (Cpu {
            a: wsub8(pre.a, pre.h),
            zero: pre.a == pre.h,
            halfcarry: pre.a % 0x10 < pre.h % 0x10,
            carry: pre.a < pre.h,
            substract: true,
            ..pre
        }),
        Instruction::SubAL => post == (Cpu {
            a: wsub8(pre.a, pre.l),
            zero: pre.a == pre.l,
            halfcarry: pre.a % 0x10 < pre.l % 0x10,
            carry: pre.a < pre.l,
            substract: true,
            ..pre
        }),
        Instruction::SubAMhl => post == (Cpu {
            a: wsub8(pre.a, pre.mem_at(hl_of(pre))),
            zero: pre.a == pre.mem_at(hl_of(pre)),
            halfcarry: pre.a % 0x10 < pre.mem_at(hl_of(pre)) % 0x10,
            carry: pre.a < pre.mem_at(hl_of(pre)),
            substract: true,
            ..pre
        }),
        Instruction::SubAA => post == (Cpu {
            a: 0,
            zero: true,
            substract: true,
            carry: false,
            halfcarry: false,
            ..pre
        }),
        Instruction::AndAB => post == (Cpu {
            a: pre.a & pre.b,
            zero: pre.a & pre.b == 0,
            substract: false,
            halfcarry: true,
            carry: false,
            ..pre
        }),
        Instruction::AndAC => post == (Cpu {
            a: pre.a & pre.c,
            zero: pre.a & pre.c == 0,
            substract: false,
            halfcarry: true,
            carry: false,
            ..pre
        }),
        Instruction::AndAD => post == (Cpu {
            a: pre.a & pre.d,
            zero: pre.a & pre.d == 0,
            substract: false,
            halfcarry: true,
            carry: false,
            ..pre
        }),
        Instruction::AndAE => post == (Cpu {
            a: pre.a & pre.e,
            zero: pre.a & pre.e == 0,
            substract: false,
            halfcarry: true,
            carry: false,
            ..pre
        }),
        Instruction::AndAH => post == (Cpu {
            a: pre.a & pre.h,
            zero: pre.a & pre.h == 0,
            substract: false,
            halfcarry: true,
            carry: false,
            ..pre
        }),
        Instruction::AndAL => post == (Cpu {
            a: pre.a & pre.l,
            zero: pre.a & pre.l == 0,
            substract: false,
            halfcarry: true,
            carry: false,
            ..pre
        }),
        Instruction::AndAMhl => post == (Cpu {
            a: pre.a & pre.mem_at(hl_of(pre)),
            zero: pre.a & pre.mem_at(hl_of(pre)) == 0,
            substract: false,
            halfcarry: true,
            carry: false,
            ..pre
        }),
        Instruction::AndAA => post == (Cpu {
            zero: pre.a == 0,
            substract: false,
            halfcarry: true,
            carry: false,
            ..pre
        }),
        Instruction::XorAB => post == (Cpu {
            a: pre.a ^ pre.b,
            zero: pre.a ^ pre.b == 0,
            substract: false,
            halfcarry: false,
            carry: false,
            ..pre
        }),
        Instruction::XorAC => post == (Cpu {
            a: pre.a ^ pre.c,
            zero: pre.a ^ pre.c == 0,
            substract: false,
            halfcarry: false,
            carry: false,
            ..pre
        }),
        Instruction::XorAD => post == (Cpu {
            a: pre.a ^ pre.d,
            zero: pre.a ^ pre.d == 0,
            substract: false,
            halfcarry: false,
            carry: false,
            ..pre
        }),
        Instruction::XorAE => post == (Cpu {
            a: pre.a ^ pre.e,
            zero: pre.a ^ pre.e == 0,
            substract: false,
            halfcarry: false,
            carry: false,
            ..pre
        }),
        Instruction::XorAH => post == (Cpu {
            a: pre.a ^ pre.h,
            zero: pre.a ^ pre.h == 0,
            substract: false,
            halfcarry: false,
            carry: false,
            ..pre
        }),
        Instruction::XorAL => post == (Cpu {
            a: pre.a ^ pre.l,
            zero: pre.a ^ pre.l == 0,
            substract: false,
            halfcarry: false,
            carry: false,
            ..pre
        }),
        Instruction::XorAA => post == (Cpu {
            a: 0,
            zero: true,
            substract: false,
            halfcarry: false,
            carry: false,
            ..pre
        }),
        Instruction::CpAB => post == (Cpu {
            zero: pre.a == pre.b,
            halfcarry: pre.a % 0x10 < pre.b % 0x10,
            carry: pre.a < pre.b,
            substract: true,
            ..pre
        }),
        Instruction::CpAC => post == (Cpu {
            zero: pre.a == pre.c,
            halfcarry: pre.a % 0x10 < pre.c % 0x10,
            carry: pre.a < pre.c,
            substract: true,
            ..pre
        }),
        Instruction::CpAD => post == (Cpu {
            zero: pre.a == pre.d,
            halfcarry: pre.a % 0x10 < pre.d % 0x10,
            carry: pre.a < pre.d,
            substract: true,
            ..pre
        }),
        Instruction::CpAE => post == (Cpu {
            zero: pre.a == pre.e,
            halfcarry: pre.a % 0x10 < pre.e % 0x10,
            carry: pre.a < pre.e,
            substract: true,
            ..pre
        }),
        Instruction::CpAH => post == (Cpu {
            zero: pre.a == pre.h,
            halfcarry: pre.a % 0x10 < pre.h % 0x10,
            carry: pre.a < pre.h,
            substract: true,
            ..pre
        }),
        Instruction::CpAL => post == (Cpu {
            zero: pre.a == pre.l,
            halfcarry: pre.a % 0x10 < pre.l % 0x10,
            carry: pre.a < pre.l,
            substract: true,
            ..pre
        }),
        Instruction::CpAMhl => post == (Cpu {
            zero: pre.a == pre.mem_at(hl_of(pre)),
            halfcarry: pre.a % 0x10 < pre.mem_at(hl_of(pre)) % 0x10,
            carry: pre.a < pre.mem_at(hl_of(pre)),
            substract: true,
            ..pre
        }),
        Instruction::CpAA => post == (Cpu {
            zero: true,
            halfcarry: false,
            carry: false,
            substract: true,
            ..pre
        }),
        Instruction::JpNzNn => post == (Cpu {
            pc: if !pre.zero {
        imm16(pre)
    } else {
        wadd16(pre.pc, 2)
    },
            ..pre
        }),
        Instruction::JpNn => post == (Cpu { pc: imm16(pre), ..pre }),
        Instruction::JpZNn => post == (Cpu {
            pc: if pre.zero {
        imm16(pre)
    } else {
        wadd16(pre.pc, 2)
    },
            ..pre
        }),
        Instruction::Call => {
            &&& post.pc == imm16(pre)
            &&& post.sp == wsub16(pre.sp, 2)
            &&& post.mem@ == pre.mem@.update(wsub16(pre.sp, 1) as int, hi8(wadd16(pre.pc, 2)))
        .update(wsub16(pre.sp, 2) as int, lo8(wadd16(pre.pc, 2)))
            &&& same_regs(post, pre)
            &&& same_flags(post, pre)
            &&& post.iten == pre.iten
        },
        Instruction::JpNcNn => post == (Cpu {
            pc: if !pre.carry {
        imm16(pre)
    } else {
        wadd16(pre.pc, 2)
    },
            ..pre
        }),
        Instruction::SubAN => post == (Cpu {
            a: wsub8(pre.a, imm8(pre)),
            pc: wadd16(pre.pc, 1),
            zero: pre.a == imm8(pre),
            halfcarry: pre.a % 0x10 < imm8(pre) % 0x10,
            carry: pre.a < imm8(pre),
            substract: true,
            ..pre
        }),
        Instruction::JpCNn => post == (Cpu {
            pc: if pre.carry {
        imm16(pre)
    } else {
        wadd16(pre.pc, 2)
    },
            ..pre
        }),
        Instruction::LdhMnA => {
            &&& post.mem@ == pre.mem@.update((0xff00 + imm8(pre)) as int, pre.a)
            &&& same_regs(post, pre)
            &&& same_flags(post, pre)
            &&& post.pc == wadd16(pre.pc, 1)
            &&& post.sp == pre.sp
            &&& post.iten == pre.iten
        },
        Instruction::AndAN => post == (Cpu {
            a: pre.a & imm8(pre),
            pc: wadd16(pre.pc, 1),
            zero: pre.a & imm8(pre) == 0,
            substract: false,
            halfcarry: true,
            carry: false,
            ..pre
        }),
        Instruction::LdMnnA => {
            &&& post.mem@ == pre.mem@.update(imm16(pre) as int, pre.a)
            &&& same_regs(post, pre)
            &&& same_flags(post, pre)
            &&& post.pc == wadd16(pre.pc, 2)
            &&& post.sp == pre.sp
            &&& post.iten == pre.iten
        },
        Instruction::LdhAMn => post == (Cpu {
            a: pre.mem_at((0xff00 + imm8(pre)) as u16),
            pc: wadd16(pre.pc, 1),
            ..pre
        }),
        Instruction::PopAf => post == (Cpu {
            a: pre.mem_at(wadd16(pre.sp, 1)),
            zero: pre.mem_at(pre.sp) / 0x80 % 2 == 1,
            substract: pre.mem_at(pre.sp) / 0x40 % 2 == 1,
            halfcarry: pre.mem_at(pre.sp) / 0x20 % 2 == 1,
            carry: pre.mem_at(pre.sp) / 0x10 % 2 == 1,
            sp: wadd16(pre.sp, 2),
            ..pre
        }),
        Instruction::Di => post == (Cpu { iten: false, ..pre }),
        Instruction::LdAMnn => post == (Cpu {
            a: pre.mem_at(imm16(pre)),
            pc: wadd16(pre.pc, 2),
            ..pre
        }),
        Instruction::CpAN => post == (Cpu {
            pc: wadd16(pre.pc, 1),
            zero: pre.a == imm8(pre),
            halfcarry: pre.a % 0x10 < imm8(pre) % 0x10,
            carry: pre.a < imm8(pre),
            substract: true,
            ..pre
        }),
        Instruction::ResA0 => post == (Cpu { a: pre.a & 0xfe, ..pre }),
        Instruction::ResA1 => post == (Cpu { a: pre.a & 0xfd, ..pre }),
        Instruction::ResA2 => post == (Cpu { a: pre.a & 0xfb, ..pre }),
        Instruction::ResA3 => post == (Cpu { a: pre.a & 0xf7, ..pre }),
        Instruction::ResA4 => post == (Cpu { a: pre.a & 0xef, ..pre }),
        Instruction::ResA5 => post == (Cpu { a: pre.a & 0xdf, ..pre }),
        Instruction::ResA6 => post == (Cpu { a: pre.a & 0xbf, ..pre }),
        Instruction::ResA7 => post == (Cpu { a: pre.a & 0x7f, ..pre }),
    }
}

/// Run one decoded instruction on the machine state.
pub fn execute(cpu: &mut Cpu, instruction: Instruction)
    requires
        old(cpu).wf(),
    ensures
        final(cpu).wf(),
        instruction_effect(*old(cpu), *final(cpu), instruction),
{
    match instruction {
        Instruction::Nop => nop(cpu),
        Instruction::LdBcNn => ld_bc_nn(cpu),
        Instruction::LdMbcA => ld_mbc_a(cpu),
        Instruction::DecB => dec_b(cpu),
        Instruction::LdBN => ld_b_n(cpu),
        Instruction::LdAMbc => ld_a_mbc(cpu),
        Instruction::DecC => dec_c(cpu),
        Instruction::LdCN => ld_c_n(cpu),
        Instruction::LdDeNn => ld_de_nn(cpu),
        Instruction::LdMdeA => ld_mde_a(cpu),
        Instruction::DecD => dec_d(cpu),
        Instruction::LdDN => ld_d_n(cpu),
        Instruction::JrN => jr_n(cpu),
        Instruction::LdAMde => ld_a_mde(cpu),
        Instruction::DecE => dec_e(cpu),
        Instruction::LdEN => ld_e_n(cpu),
        Instruction::JrNzN => jr_nz_n(cpu),
        Instruction::LdHlNn => ld_hl_nn(cpu),
        Instruction::LdiMhlA => ldi_mhl_a(cpu),
        Instruction::DecH => dec_h(cpu),
        Instruction::LdHN => ld_h_n(cpu),
        Instruction::JrZN => jr_z_n(cpu),
        Instruction::DecL => dec_l(cpu),
        Instruction::LdLN => ld_l_n(cpu),
        Instruction::JrNcN => jr_nc_n(cpu),
        Instruction::LdSpNn => ld_sp_nn(cpu),
        Instruction::LddMhlA => ldd_mhl_a(cpu),
        Instruction::LdMhlN => ld_mhl_n(cpu),
        Instruction::JrCN => jr_c_n(cpu),
        Instruction::DecA => dec_a(cpu),
        Instruction::LdAN => ld_a_n(cpu),
        Instruction::LdBB => ld_b_b(cpu),
        Instruction::LdBC => ld_b_c(cpu),
        Instruction::LdBD => ld_b_d(cpu),
        Instruction::LdBE => ld_b_e(cpu),
        Instruction::LdBH => ld_b_h(cpu),
        Instruction::LdBL => ld_b_l(cpu),
        Instruction::LdBMhl => ld_b_mhl(cpu),
        Instruction::LdBA => ld_b_a(cpu),
        Instruction::LdCB => ld_c_b(cpu),
        Instruction::LdCC => ld_c_c(cpu),
        Instruction::LdCD => ld_c_d(cpu),
        Instruction::LdCE => ld_c_e(cpu),
        Instruction::LdCH => ld_c_h(cpu),
        Instruction::LdCL => ld_c_l(cpu),
        Instruction::LdCMhl => ld_c_mhl(cpu),
        Instruction::LdCA => ld_c_a(cpu),
        Instruction::LdDB => ld_d_b(cpu),
        Instruction::LdDC => ld_d_c(cpu),
        Instruction::LdDD => ld_d_d(cpu),
        Instruction::LdDE => ld_d_e(cpu),
        Instruction::LdDH => ld_d_h(cpu),
        Instruction::LdDL => ld_d_l(cpu),
        Instruction::LdDMhl => ld_d_mhl(cpu),
        Instruction::LdDA => ld_d_a(cpu),
        Instruction::LdEB => ld_e_b(cpu),
        Instruction::LdEC => ld_e_c(cpu),
        Instruction::LdED => ld_e_d(cpu),
        Instruction::LdEE => ld_e_e(cpu),
        Instruction::LdEH => ld_e_h(cpu),
        Instruction::LdEL => ld_e_l(cpu),
        Instruction::LdEMhl => ld_e_mhl(cpu),
        Instruction::LdEA => ld_e_a(cpu),
        Instruction::LdHB => ld_h_b(cpu),
        Instruction::LdHC => ld_h_c(cpu),
        Instruction::LdHD => ld_h_d(cpu),
        Instruction::LdHE => ld_h_e(cpu),
        Instruction::LdHH => ld_h_h(cpu),
        Instruction::LdHL => ld_h_l(cpu),
        Instruction::LdHMhl => ld_h_mhl(cpu),
        Instruction::LdHA => ld_h_a(cpu),
        Instruction::LdLB => ld_l_b(cpu),
        Instruction::LdLC => ld_l_c(cpu),
        Instruction::LdLD => ld_l_d(cpu),
        Instruction::LdLE => ld_l_e(cpu),
        Instruction::LdLH => ld_l_h(cpu),
        Instruction::LdLL => ld_l_l(cpu),
        Instruction::LdLMhl => ld_l_mhl(cpu),
        Instruction::LdLA => ld_l_a(cpu),
        Instruction::LdMhlB => ld_mhl_b(cpu),
        Instruction::LdMhlC => ld_mhl_c(cpu),
        Instruction::LdMhlD => ld_mhl_d(cpu),
        Instruction::LdMhlE => ld_mhl_e(cpu),
        Instruction::LdMhlH => ld_mhl_h(cpu),
        Instruction::LdMhlL => ld_mhl_l(cpu),
        Instruction::LdMhlA => ld_mhl_a(cpu),
        Instruction::LdAB => ld_a_b(cpu),
        Instruction::LdAC => ld_a_c(cpu),
        Instruction::LdAD => ld_a_d(cpu),
        Instruction::LdAE => ld_a_e(cpu),
        Instruction::LdAH => ld_a_h(cpu),
        Instruction::LdAL => ld_a_l(cpu),
        Instruction::LdAMhl => ld_a_mhl(cpu),
        Instruction::LdAA => ld_a_a(cpu),
        Instruction::SubAB => sub_a_b(cpu),
        Instruction::SubAC => sub_a_c(cpu),
        Instruction::SubAD => sub_a_d(cpu),
        Instruction::SubAE => sub_a_e(cpu),
        Instruction::SubAH => sub_a_h(cpu),
        Instruction::SubAL => sub_a_l(cpu),
        Instruction::SubAMhl => sub_a_mhl(cpu),
        Instruction::SubAA => sub_a_a(cpu),
        Instruction::AndAB => and_a_b(cpu),
        Instruction::AndAC => and_a_c(cpu),
        Instruction::AndAD => and_a_d(cpu),
        Instruction::AndAE => and_a_e(cpu),
        Instruction::AndAH => and_a_h(cpu),
        Instruction::AndAL => and_a_l(cpu),
        Instruction::AndAMhl => and_a_mhl(cpu),
        Instruction::AndAA => and_a_a(cpu),
        Instruction::XorAB => xor_a_b(cpu),
        Instruction::XorAC => xor_a_c(cpu),
        Instruction::XorAD => xor_a_d(cpu),
        Instruction::XorAE => xor_a_e(cpu),
        Instruction::XorAH => xor_a_h(cpu),
        Instruction::XorAL => xor_a_l(cpu),
        Instruction::XorAA => xor_a_a(cpu),
        Instruction::CpAB => cp_a_b(cpu),
        Instruction::CpAC => cp_a_c(cpu),
        Instruction::CpAD => cp_a_d(cpu),
        Instruction::CpAE => cp_a_e(cpu),
        Instruction::CpAH => cp_a_h(cpu),
        Instruction::CpAL => cp_a_l(cpu),
        Instruction::CpAMhl => cp_a_mhl(cpu),
        Instruction::CpAA => cp_a_a(cpu),
        Instruction::JpNzNn => jp_nz_nn(cpu),
        Instruction::JpNn => jp_nn(cpu),
        Instruction::JpZNn => jp_z_nn(cpu),
        Instruction::Call => call(cpu),
        Instruction::JpNcNn => jp_nc_nn(cpu),
        Instruction::SubAN => sub_a_n(cpu),
        Instruction::JpCNn => jp_c_nn(cpu),
        Instruction::LdhMnA => ldh_mn_a(cpu),
        Instruction::AndAN => and_a_n(cpu),
        Instruction::LdMnnA => ld_mnn_a(cpu),
        Instruction::LdhAMn => ldh_a_mn(cpu),
        Instruction::PopAf => pop_af(cpu),
        Instruction::Di => di(cpu),
        Instruction::LdAMnn => ld_a_mnn(cpu),
        Instruction::CpAN => cp_a_n(cpu),
        Instruction::ResA0 => cb::res_a_0(cpu),
        Instruction::ResA1 => cb::res_a_1(cpu),
        Instruction::ResA2 => cb::res_a_2(cpu),
        Instruction::ResA3 => cb::res_a_3(cpu),
        Instruction::ResA4 => cb::res_a_4(cpu),
        Instruction::ResA5 => cb::res_a_5(cpu),
        Instruction::ResA6 => cb::res_a_6(cpu),
        Instruction::ResA7 => cb::res_a_7(cpu),
    }
}

/// The immediate byte: what the address space holds at `pc`.
pub open spec fn imm8(c: Cpu) -> u8 {
    c.mem_at(c.pc)
}

/// The immediate word: two bytes at `pc`, low byte first.
pub open spec fn imm16(c: Cpu) -> u16 {
    word(c.mem_at(wadd16(c.pc, 1)), c.mem_at(c.pc))
}

/// For multi-byte instructions: return the byte at `pc` and increment `pc`
pub fn next_byte(cpu: &mut Cpu) -> (b: u8)
    requires
        old(cpu).wf(),
    ensures
        b == imm8(*old(cpu)),
        *final(cpu) == (Cpu { pc: wadd16(old(cpu).pc, 1), ..*old(cpu) }),
{
    let pc = cpu.pc;

    let b = cpu.fetch_byte(pc);

    cpu.pc = (((pc as u32) + 1) % 0x10000) as u16;

    b
}

/// For multi-byte instructions: return the word at `pc` and increment
/// `pc` twice
pub fn next_word(cpu: &mut Cpu) -> (w: u16)
    requires
        old(cpu).wf(),
    ensures
        w == imm16(*old(cpu)),
        *final(cpu) == (Cpu { pc: wadd16(old(cpu).pc, 2), ..*old(cpu) }),
{
    let b1 = next_byte(cpu);
    let b2 = next_byte(cpu);

    word16(b2, b1)
}

/// Push one byte onto the stack and decrement the stack pointer
pub fn push_byte(cpu: &mut Cpu, val: u8)
    requires
        old(cpu).wf(),
    ensures
        final(cpu).wf(),
        final(cpu).sp == wsub16(old(cpu).sp, 1),
        final(cpu).mem@ == old(cpu).mem@.update(wsub16(old(cpu).sp, 1) as int, val),
        same_regs(*final(cpu), *old(cpu)),
        same_flags(*final(cpu), *old(cpu)),
        final(cpu).pc == old(cpu).pc,
        final(cpu).iten == old(cpu).iten,
{
    let sp = (((cpu.sp as u32) + 0x10000 - 1) % 0x10000) as u16;

    cpu.sp = sp;
    cpu.store_byte(sp, val);
}

/// Push two bytes onto the stack and decrement the stack pointer
/// twice
pub fn push_word(cpu: &mut Cpu, val: u16)
    requires
        old(cpu).wf(),
    ensures
        final(cpu).wf(),
        final(cpu).sp == wsub16(old(cpu).sp, 2),
        final(cpu).mem@ == old(cpu).mem@.update(wsub16(old(cpu).sp, 1) as int, hi8(val))
            .update(wsub16(old(cpu).sp, 2) as int, lo8(val)),
        same_regs(*final(cpu), *old(cpu)),
        same_flags(*final(cpu), *old(cpu)),
        final(cpu).pc == old(cpu).pc,
        final(cpu).iten == old(cpu).iten,
{
    push_byte(cpu, (val / 0x100) as u8);
    push_byte(cpu, (val % 0x100) as u8);
}

/// Retrieve one byte from the stack and increment the stack pointer
pub fn pop_byte(cpu: &mut Cpu) -> (b: u8)
    requires
        old(cpu).wf(),
    ensures
        b == old(cpu).mem_at(old(cpu).sp),
        *final(cpu) == (Cpu { sp: wadd16(old(cpu).sp, 1), ..*old(cpu) }),
{
    let sp = cpu.sp;

    let b = cpu.fetch_byte(sp);

    cpu.sp = (((sp as u32) + 1) % 0x10000) as u16;

    b
}

/// Retrieve two bytes from the stack and increment the stack pointer
/// twice
pub fn pop_word(cpu: &mut Cpu) -> (w: u16)
    requires
        old(cpu).wf(),
    ensures
        w == word(old(cpu).mem_at(wadd16(old(cpu).sp, 1)), old(cpu).mem_at(old(cpu).sp)),
        *final(cpu) == (Cpu { sp: wadd16(old(cpu).sp, 2), ..*old(cpu) }),
{
    let lo = pop_byte(cpu);
    let hi = pop_byte(cpu);

    word16(hi, lo)
}

/// Helper function to substract two `u8`s and update the CPU flags
pub fn sub_and_set_flags(cpu: &mut Cpu, x: u8, y: u8) -> (r: u8)
    ensures
        r == wsub8(x, y),
        *final(cpu) == (Cpu {
            zero: wsub8(x, y) == 0,
            halfcarry: x % 0x10 < y % 0x10,
            carry: x < y,
            substract: true,
            ..*old(cpu)
        }),
{
    let r = (((x as u32) + 0x100 - (y as u32)) % 0x100) as u8;

    cpu.zero = r == 0;
    cpu.halfcarry = (x % 0x10) < (y % 0x10);
    cpu.carry = x < y;
    cpu.substract = true;

    r
}

/// No operation
#[allow(unused_variables)]
pub fn nop(cpu: &mut Cpu)
    ensures
        *final(cpu) == *old(cpu),
{
}

/// Load 8 bit immediate value into `A`
pub fn ld_a_n(cpu: &mut Cpu)
    requires
        old(cpu).wf(),
    ensures
        *final(cpu) == (Cpu {
            a: imm8(*old(cpu)),
            pc: wadd16(old(cpu).pc, 1),
            ..*old(cpu)
        }),
{
    let n = next_byte(cpu);
    cpu.a = n;
}

/// Load 8 bit immediate value into `B`
pub fn ld_b_n(cpu: &mut Cpu)
    requires
        old(cpu).wf(),
    ensures
        *final(cpu) == (Cpu {
            b: imm8(*old(cpu)),
            pc: wadd16(old(cpu).pc, 1),
            ..*old(cpu)
        }),
{
    let n = next_byte(cpu);
    cpu.b = n;
}

/// Load 8 bit immediate value into `C`
pub fn ld_c_n(cpu: &mut Cpu)
    requires
        old(cpu).wf(),
    ensures
        *final(cpu) == (Cpu {
            c: imm8(*old(cpu)),
            pc: wadd16(old(cpu).pc, 1),
            ..*old(cpu)
        }),
{
    let n = next_byte(cpu);
    cpu.c = n;
}

/// Load 8 bit immediate value into `D`
pub fn ld_d_n(cpu: &mut Cpu)
    requires
        old(cpu).wf(),
    ensures
        *final(cpu) == (Cpu {
            d: imm8(*old(cpu)),
            pc: wadd16(old(cpu).pc, 1),
            ..*old(cpu)
        }),
{
    let n = next_byte(cpu);
    cpu.d = n;
}

/// Load 8 bit immediate value into `E`
pub fn ld_e_n(cpu: &mut Cpu)
    requires
        old(cpu).wf(),
    ensures
        *final(cpu) == (Cpu {
            e: imm8(*old(cpu)),
            pc: wadd16(old(cpu).pc, 1),
            ..*old(cpu)
        }),
{
    let n = next_byte(cpu);
    cpu.e = n;
}

/// Load 8 bit immediate value into `H`
pub fn ld_h_n(cpu: &mut Cpu)
    requires
        old(cpu).wf(),
    ensures
        *final(cpu) == (Cpu {
            h: imm8(*old(cpu)),
            pc: wadd16(old(cpu).pc, 1),
            ..*old(cpu)
        }),
{
    let n = next_byte(cpu);
    cpu.h = n;
}

/// Load 8 bit immediate value into `L`
pub fn ld_l_n(cpu: &mut Cpu)
    requires
        old(cpu).wf(),
    ensures
        *final(cpu) == (Cpu {
            l: imm8(*old(cpu)),
            pc: wadd16(old(cpu).pc, 1),
            ..*old(cpu)
        }),
{
    let n = next_byte(cpu);
    cpu.l = n;
}

/// Load `A` into `A` (NOP)
#[allow(unused_variables)]
pub fn ld_a_a(cpu: &mut Cpu)
    ensures
        *final(cpu) == *old(cpu),
{
}

/// Load `B` into `B` (NOP)
#[allow(unused_variables)]
pub fn ld_b_b(cpu: &mut Cpu)
    ensures
        *final(cpu) == *old(cpu),
{
}

/// Load `C` into `C` (NOP)
#[allow(unused_variables)]
pub fn ld_c_c(cpu: &mut Cpu)
    ensures
        *final(cpu) == *old(cpu),
{
}

/// Load `D` into `D` (NOP)
#[allow(unused_variables)]
pub fn ld_d_d(cpu: &mut Cpu)
    ensures
        *final(cpu) == *old(cpu),
{
}

/// Load `E` into `E` (NOP)
#[allow(unused_variables)]
pub fn ld_e_e(cpu: &mut Cpu)
    ensures
        *final(cpu) == *old(cpu),
{
}

/// Load `H` into `H` (NOP)
#[allow(unused_variables)]
pub fn ld_h_h(cpu: &mut Cpu)
    ensures
        *final(cpu) == *old(cpu),
{
}

/// Load `L` into `L` (NOP)
#[allow(unused_variables)]
pub fn ld_l_l(cpu: &mut Cpu)
    ensures
        *final(cpu) == *old(cpu),
{
}

/// Load `B` into `A`
pub fn ld_a_b(cpu: &mut Cpu)
    ensures
        *final(cpu) == (Cpu { a: old(cpu).b, ..*old(cpu) }),
{
    let v = cpu.b;

    cpu.a = v;
}

/// Load `C` into `A`
pub fn ld_a_c(cpu: &mut Cpu)
    ensures
        *final(cpu) == (Cpu { a: old(cpu).c, ..*old(cpu) }),
{
    let v = cpu.c;

    cpu.a = v;
}

/// Load `D` into `A`
pub fn ld_a_d(cpu: &mut Cpu)
    ensures
        *final(cpu) == (Cpu { a: old(cpu).d, ..*old(cpu) }),
{
    let v = cpu.d;

    cpu.a = v;
}

/// Load `E` into `A`
pub fn ld_a_e(cpu: &mut Cpu)
    ensures
        *final(cpu) == (Cpu { a: old(cpu).e, ..*old(cpu) }),
{
    let v = cpu.e;

    cpu.a = v;
}

/// Load `H` into `A`
pub fn ld_a_h(cpu: &mut Cpu)
    ensures
        *final(cpu) == (Cpu { a: old(cpu).h, ..*old(cpu) }),
{
    let v = cpu.h;

    cpu.a = v;
}

/// Load `L` into `A`
pub fn ld_a_l(cpu: &mut Cpu)
    ensures
        *final(cpu) == (Cpu { a: old(cpu).l, ..*old(cpu) }),
{
    let v = cpu.l;

    cpu.a = v;
}

/// Load `[BC]` into `A`
pub fn ld_a_mbc(cpu: &mut Cpu)
    requires
        old(cpu).wf(),
    ensures
        *final(cpu) == (Cpu { a: old(cpu).mem_at(bc_of(*old(cpu))), ..*old(cpu) }),
{
    let addr = word16(cpu.b, cpu.c);

    let v = cpu.fetch_byte(addr);

    cpu.a = v;
}

/// Load `[DE]` into `A`
pub fn ld_a_mde(cpu: &mut Cpu)
    requires
        old(cpu).wf(),
    ensures
        *final(cpu) == (Cpu { a: old(cpu).mem_at(de_of(*old(cpu))), ..*old(cpu) }),
{
    let addr = word16(cpu.d, cpu.e);

    let v = cpu.fetch_byte(addr);

    cpu.a = v;
}

/// Load `[HL]` into `A`
pub fn ld_a_mhl(cpu: &mut Cpu)
    requires
        old(cpu).wf(),
    ensures
        *final(cpu) == (Cpu { a: old(cpu).mem_at(hl_of(*old(cpu))), ..*old(cpu) }),
{
    let addr = word16(cpu.h, cpu.l);

    let v = cpu.fetch_byte(addr);

    cpu.a = v;
}

/// Load `[HL]` into `B`
pub fn ld_b_mhl(cpu: &mut Cpu)
    requires
        old(cpu).wf(),
    ensures
        *final(cpu) == (Cpu { b: old(cpu).mem_at(hl_of(*old(cpu))), ..*old(cpu) }),
{
    let addr = word16(cpu.h, cpu.l);

    let v = cpu.fetch_byte(addr);

    cpu.b = v;
}

/// Load `[HL]` into `C`
pub fn ld_c_mhl(cpu: &mut Cpu)
    requires
        old(cpu).wf(),
    ensures
        *final(cpu) == (Cpu { c: old(cpu).mem_at(hl_of(*old(cpu))), ..*old(cpu) }),
{
    let addr = word16(cpu.h, cpu.l);

    let v = cpu.fetch_byte(addr);

    cpu.c = v;
}

/// Load `[HL]` into `D`
pub fn ld_d_mhl(cpu: &mut Cpu)
    requires
        old(cpu).wf(),
    ensures
        *final(cpu) == (Cpu { d: old(cpu).mem_at(hl_of(*old(cpu))), ..*old(cpu) }),
{
    let addr = word16(cpu.h, cpu.l);

    let v = cpu.fetch_byte(addr);

    cpu.d = v;
}

/// Load `[HL]` into `E`
pub fn ld_e_mhl(cpu: &mut Cpu)
    requires
        old(cpu).wf(),
    ensures
        *final(cpu) == (Cpu { e: old(cpu).mem_at(hl_of(*old(cpu))), ..*old(cpu) }),
{
    let addr = word16(cpu.h, cpu.l);

    let v = cpu.fetch_byte(addr);

    cpu.e = v;
}

/// Load `[HL]` into `H`
pub fn ld_h_mhl(cpu: &mut Cpu)
    requires
        old(cpu).wf(),
    ensures
        *final(cpu) == (Cpu { h: old(cpu).mem_at(hl_of(*old(cpu))), ..*old(cpu) }),
{
    let addr = word16(cpu.h, cpu.l);

    let v = cpu.fetch_byte(addr);

    cpu.h = v;
}

/// Load `[HL]` into `L`
pub fn ld_l_mhl(cpu: &mut Cpu)
    requires
        old(cpu).wf(),
    ensures
        *final(cpu) == (Cpu { l: old(cpu).mem_at(hl_of(*old(cpu))), ..*old(cpu) }),
{
    let addr = word16(cpu.h, cpu.l);

    let v = cpu.fetch_byte(addr);

    cpu.l = v;
}

/// Load `[nn]` into `A`
pub fn ld_a_mnn(cpu: &mut Cpu)
    requires
        old(cpu).wf(),
    ensures
        *final(cpu) == (Cpu {
            a: old(cpu).mem_at(imm16(*old(cpu))),
            pc: wadd16(old(cpu).pc, 2),
            ..*old(cpu)
        }),
{
    let n = next_word(cpu);

    let v = cpu.fetch_byte(n);

    cpu.a = v;
}

/// Load `A` into `B`
pub fn ld_b_a(cpu: &mut Cpu)
    ensures
        *final(cpu) == (Cpu { b: old(cpu).a, ..*old(cpu) }),
{
    let v = cpu.a;

    cpu.b = v;
}

/// Load `A` into `C`
pub fn ld_c_a(cpu: &mut Cpu)
    ensures
        *final(cpu) == (Cpu { c: old(cpu).a, ..*old(cpu) }),
{
    let v = cpu.a;

    cpu.c = v;
}

/// Load `A` into `D`
pub fn ld_d_a(cpu: &mut Cpu)
    ensures
        *final(cpu) == (Cpu { d: old(cpu).a, ..*old(cpu) }),
{
    let v = cpu.a;

    cpu.d = v;
}

/// Load `A` into `E`
pub fn ld_e_a(cpu: &mut Cpu)
    ensures
        *final(cpu) == (Cpu { e: old(cpu).a, ..*old(cpu) }),
{
    let v = cpu.a;

    cpu.e = v;
}

/// Load `A` into `H`
pub fn ld_h_a(cpu: &mut Cpu)
    ensures
        *final(cpu) == (Cpu { h: old(cpu).a, ..*old(cpu) }),
{
    let v = cpu.a;

    cpu.h = v;
}

/// Load `A` into `L`
pub fn ld_l_a(cpu: &mut Cpu)
    ensures
        *final(cpu) == (Cpu { l: old(cpu).a, ..*old(cpu) }),
{
    let v = cpu.a;

    cpu.l = v;
}

/// Store `A` into `[BC]`
pub fn ld_mbc_a(cpu: &mut Cpu)
    requires
        old(cpu).wf(),
    ensures
        final(cpu).wf(),
        final(cpu).mem@ == old(cpu).mem@.update(bc_of(*old(cpu)) as int, old(cpu).a),
        same_regs(*final(cpu), *old(cpu)),
        same_flags(*final(cpu), *old(cpu)),
        final(cpu).pc == old(cpu).pc,
        final(cpu).sp == old(cpu).sp,
        final(cpu).iten == old(cpu).iten,
{
    let v = cpu.a;
    let addr = word16(cpu.b, cpu.c);

    cpu.store_byte(addr, v);
}

/// Store `A` into `[DE]`
pub fn ld_mde_a(cpu: &mut Cpu)
    requires
        old(cpu).wf(),
    ensures
        final(cpu).wf(),
        final(cpu).mem@ == old(cpu).mem@.update(de_of(*old(cpu)) as int, old(cpu).a),
        same_regs(*final(cpu), *old(cpu)),
        same_flags(*final(cpu), *old(cpu)),
        final(cpu).pc == old(cpu).pc,
        final(cpu).sp == old(cpu).sp,
        final(cpu).iten == old(cpu).iten,
{
    let v = cpu.a;
    let addr = word16(cpu.d, cpu.e);

    cpu.store_byte(addr, v);
}

/// Store `A` into `[HL]`
pub fn ld_mhl_a(cpu: &mut Cpu)
    requires
        old(cpu).wf(),
    ensures
        final(cpu).wf(),
        final(cpu).mem@ == old(cpu).mem@.update(hl_of(*old(cpu)) as int, old(cpu).a),
        same_regs(*final(cpu), *old(cpu)),
        same_flags(*final(cpu), *old(cpu)),
        final(cpu).pc == old(cpu).pc,
        final(cpu).sp == old(cpu).sp,
        final(cpu).iten == old(cpu).iten,
{
    let v = cpu.a;
    let addr = word16(cpu.h, cpu.l);

    cpu.store_byte(addr, v);
}

/// Store `B` into `[HL]`
pub fn ld_mhl_b(cpu: &mut Cpu)
    requires
        old(cpu).wf(),
    ensures
        final(cpu).wf(),
        final(cpu).mem@ == old(cpu).mem@.update(hl_of(*old(cpu)) as int, old(cpu).b),
        same_regs(*final(cpu), *old(cpu)),
        same_flags(*final(cpu), *old(cpu)),
        final(cpu).pc == old(cpu).pc,
        final(cpu).sp == old(cpu).sp,
        final(cpu).iten == old(cpu).iten,
{
    let v = cpu.b;
    let addr = word16(cpu.h, cpu.l);

    cpu.store_byte(addr, v);
}

/// Store `C` into `[HL]`
pub fn ld_mhl_c(cpu: &mut Cpu)
    requires
        old(cpu).wf(),
    ensures
        final(cpu).wf(),
        final(cpu).mem@ == old(cpu).mem@.update(hl_of(*old(cpu)) as int, old(cpu).c),
        same_regs(*final(cpu), *old(cpu)),
        same_flags(*final(cpu), *old(cpu)),
        final(cpu).pc == old(cpu).pc,
        final(cpu).sp == old(cpu).sp,
        final(cpu).iten == old(cpu).iten,
{
    let v = cpu.c;
    let addr = word16(cpu.h, cpu.l);

    cpu.store_byte(addr, v);
}

/// Store `D` into `[HL]`
pub fn ld_mhl_d(cpu: &mut Cpu)
    requires
        old(cpu).wf(),
    ensures
        final(cpu).wf(),
        final(cpu).mem@ == old(cpu).mem@.update(hl_of(*old(cpu)) as int, old(cpu).d),
        same_regs(*final(cpu), *old(cpu)),
        same_flags(*final(cpu), *old(cpu)),
        final(cpu).pc == old(cpu).pc,
        final(cpu).sp == old(cpu).sp,
        final(cpu).iten == old(cpu).iten,
{
    let v = cpu.d;
    let addr = word16(cpu.h, cpu.l);

    cpu.store_byte(addr, v);
}

/// Store `E` into `[HL]`
pub fn ld_mhl_e(cpu: &mut Cpu)
    requires
        old(cpu).wf(),
    ensures
        final(cpu).wf(),
        final(cpu).mem@ == old(cpu).mem@.update(hl_of(*old(cpu)) as int, old(cpu).e),
        same_regs(*final(cpu), *old(cpu)),
        same_flags(*final(cpu), *old(cpu)),
        final(cpu).pc == old(cpu).pc,
        final(cpu).sp == old(cpu).sp,
        final(cpu).iten == old(cpu).iten,
{
    let v = cpu.e;
    let addr = word16(cpu.h, cpu.l);

    cpu.store_byte(addr, v);
}

/// Store `H` into `[HL]`
pub fn ld_mhl_h(cpu: &mut Cpu)
    requires
        old(cpu).wf(),
    ensures
        final(cpu).wf(),
        final(cpu).mem@ == old(cpu).mem@.update(hl_of(*old(cpu)) as int, old(cpu).h),
        same_regs(*final(cpu), *old(cpu)),
        same_flags(*final(cpu), *old(cpu)),
        final(cpu).pc == old(cpu).pc,
        final(cpu).sp == old(cpu).sp,
        final(cpu).iten == old(cpu).iten,
{
    let v = cpu.h;
    let addr = word16(cpu.h, cpu.l);

    cpu.store_byte(addr, v);
}

/// Store `L` into `[HL]`
pub fn ld_mhl_l(cpu: &mut Cpu)
    requires
        old(cpu).wf(),
    ensures
        final(cpu).wf(),
        final(cpu).mem@ == old(cpu).mem@.update(hl_of(*old(cpu)) as int, old(cpu).l),
        same_regs(*final(cpu), *old(cpu)),
        same_flags(*final(cpu), *old(cpu)),
        final(cpu).pc == old(cpu).pc,
        final(cpu).sp == old(cpu).sp,
        final(cpu).iten == old(cpu).iten,
{
    let v = cpu.l;
    let addr = word16(cpu.h, cpu.l);

    cpu.store_byte(addr, v);
}

/// Store `N` into `[HL]`
pub fn ld_mhl_n(cpu: &mut Cpu)
    requires
        old(cpu).wf(),
    ensures
        final(cpu).wf(),
        final(cpu).mem@ == old(cpu).mem@.update(hl_of(*old(cpu)) as int, imm8(*old(cpu))),
        same_regs(*final(cpu), *old(cpu)),
        same_flags(*final(cpu), *old(cpu)),
        final(cpu).pc == wadd16(old(cpu).pc, 1),
        final(cpu).sp == old(cpu).sp,
        final(cpu).iten == old(cpu).iten,
{
    let n = next_byte(cpu);
    let addr = word16(cpu.h, cpu.l);

    cpu.store_byte(addr, n);
}

/// Store `A` into `[NN]`
pub fn ld_mnn_a(cpu: &mut Cpu)
    requires
        old(cpu).wf(),
    ensures
        final(cpu).wf(),
        final(cpu).mem@ == old(cpu).mem@.update(imm16(*old(cpu)) as int, old(cpu).a),
        same_regs(*final(cpu), *old(cpu)),
        same_flags(*final(cpu), *old(cpu)),
        final(cpu).pc == wadd16(old(cpu).pc, 2),
        final(cpu).sp == old(cpu).sp,
        final(cpu).iten == old(cpu).iten,
{
    let a = cpu.a;
    let n = next_word(cpu);

    cpu.store_byte(n, a);
}

/// Load 16bits immediate value into `BC`
pub fn ld_bc_nn(cpu: &mut Cpu)
    requires
        old(cpu).wf(),
    ensures
        *final(cpu) == (Cpu {
            b: hi8(imm16(*old(cpu))),
            c: lo8(imm16(*old(cpu))),
            pc: wadd16(old(cpu).pc, 2),
            ..*old(cpu)
        }),
{
    let n = next_word(cpu);

    cpu.b = (n / 0x100) as u8;
    cpu.c = (n % 0x100) as u8;
}

/// Load 16bits immediate value into `DE`
pub fn ld_de_nn(cpu: &mut Cpu)
    requires
        old(cpu).wf(),
    ensures
        *final(cpu) == (Cpu {
            d: hi8(imm16(*old(cpu))),
            e: lo8(imm16(*old(cpu))),
            pc: wadd16(old(cpu).pc, 2),
            ..*old(cpu)
        }),
{
    let n = next_word(cpu);

    cpu.d = (n / 0x100) as u8;
    cpu.e = (n % 0x100) as u8;
}

/// Load 16bits immediate value into `HL`
pub fn ld_hl_nn(cpu: &mut Cpu)
    requires
        old(cpu).wf(),
    ensures
        *final(cpu) == (Cpu {
            h: hi8(imm16(*old(cpu))),
            l: lo8(imm16(*old(cpu))),
            pc: wadd16(old(cpu).pc, 2),
            ..*old(cpu)
        }),
{
    let n = next_word(cpu);

    cpu.h = (n / 0x100) as u8;
    cpu.l = (n % 0x100) as u8;
}

/// Load 16bits immediate value into `SP`
pub fn ld_sp_nn(cpu: &mut Cpu)
    requires
        old(cpu).wf(),
    ensures
        *final(cpu) == (Cpu {
            sp: imm16(*old(cpu)),
            pc: wadd16(old(cpu).pc, 2),
            ..*old(cpu)
        }),
{
    let n = next_word(cpu);

    cpu.sp = n;
}

/// Load `C` into `B`
pub fn ld_b_c(cpu: &mut Cpu)
    ensures
        *final(cpu) == (Cpu { b: old(cpu).c, ..*old(cpu) }),
{
    let v = cpu.c;

    cpu.b = v;
}

/// Load `D` into `B`
pub fn ld_b_d(cpu: &mut Cpu)
    ensures
        *final(cpu) == (Cpu { b: old(cpu).d, ..*old(cpu) }),
{
    let v = cpu.d;

    cpu.b = v;
}

/// Load `E` into `B`
pub fn ld_b_e(cpu: &mut Cpu)
    ensures
        *final(cpu) == (Cpu { b: old(cpu).e, ..*old(cpu) }),
{
    let v = cpu.e;

    cpu.b = v;
}

/// Load `H` into `B`
pub fn ld_b_h(cpu: &mut Cpu)
    ensures
        *final(cpu) == (Cpu { b: old(cpu).h, ..*old(cpu) }),
{
    let v = cpu.h;

    cpu.b = v;
}

/// Load `L` into `B`
pub fn ld_b_l(cpu: &mut Cpu)
    ensures
        *final(cpu) == (Cpu { b: old(cpu).l, ..*old(cpu) }),
{
    let v = cpu.l;

    cpu.b = v;
}

/// Load `B` into `C`
pub fn ld_c_b(cpu: &mut Cpu)
    ensures
        *final(cpu) == (Cpu { c: old(cpu).b, ..*old(cpu) }),
{
    let v = cpu.b;

    cpu.c = v;
}

/// Load `D` into `C`
pub fn ld_c_d(cpu: &mut Cpu)
    ensures
        *final(cpu) == (Cpu { c: old(cpu).d, ..*old(cpu) }),
{
    let v = cpu.d;

    cpu.c = v;
}

/// Load `E` into `C`
pub fn ld_c_e(cpu: &mut Cpu)
    ensures
        *final(cpu) == (Cpu { c: old(cpu).e, ..*old(cpu) }),
{
    let v = cpu.e;

    cpu.c = v;
}

/// Load `H` into `C`
pub fn ld_c_h(cpu: &mut Cpu)
    ensures
        *final(cpu) == (Cpu { c: old(cpu).h, ..*old(cpu) }),
{
    let v = cpu.h;

    cpu.c = v;
}

/// Load `L` into `C`
pub fn ld_c_l(cpu: &mut Cpu)
    ensures
        *final(cpu) == (Cpu { c: old(cpu).l, ..*old(cpu) }),
{
    let v = cpu.l;

    cpu.c = v;
}

/// Load `B` into `D`
pub fn ld_d_b(cpu: &mut Cpu)
    ensures
        *final(cpu) == (Cpu { d: old(cpu).b, ..*old(cpu) }),
{
    let v = cpu.b;

    cpu.d = v;
}

/// Load `C` into `D`
pub fn ld_d_c(cpu: &mut Cpu)
    ensures
        *final(cpu) == (Cpu { d: old(cpu).c, ..*old(cpu) }),
{
    let v = cpu.c;

    cpu.d = v;
}

/// Load `E` into `D`
pub fn ld_d_e(cpu: &mut Cpu)
    ensures
        *final(cpu) == (Cpu { d: old(cpu).e, ..*old(cpu) }),
{
    let v = cpu.e;

    cpu.d = v;
}

/// Load `H` into `D`
pub fn ld_d_h(cpu: &mut Cpu)
    ensures
        *final(cpu) == (Cpu { d: old(cpu).h, ..*old(cpu) }),
{
    let v = cpu.h;

    cpu.d = v;
}

/// Load `L` into `D`
pub fn ld_d_l(cpu: &mut Cpu)
    ensures
        *final(cpu) == (Cpu { d: old(cpu).l, ..*old(cpu) }),
{
    let v = cpu.l;

    cpu.d = v;
}

/// Load `B` into `E`
pub fn ld_e_b(cpu: &mut Cpu)
    ensures
        *final(cpu) == (Cpu { e: old(cpu).b, ..*old(cpu) }),
{
    let v = cpu.b;

    cpu.e = v;
}

/// Load `C` into `E`
pub fn ld_e_c(cpu: &mut Cpu)
    ensures
        *final(cpu) == (Cpu { e: old(cpu).c, ..*old(cpu) }),
{
    let v = cpu.c;

    cpu.e = v;
}

/// Load `D` into `E`
pub fn ld_e_d(cpu: &mut Cpu)
    ensures
        *final(cpu) == (Cpu { e: old(cpu).d, ..*old(cpu) }),
{
    let v = cpu.d;

    cpu.e = v;
}

/// Load `H` into `E`
pub fn ld_e_h(cpu: &mut Cpu)
    ensures
        *final(cpu) == (Cpu { e: old(cpu).h, ..*old(cpu) }),
{
    let v = cpu.h;

    cpu.e = v;
}

/// Load `L` into `E`
pub fn ld_e_l(cpu: &mut Cpu)
    ensures
        *final(cpu) == (Cpu { e: old(cpu).l, ..*old(cpu) }),
{
    let v = cpu.l;

    cpu.e = v;
}

/// Load `B` into `H`
pub fn ld_h_b(cpu: &mut Cpu)
    ensures
        *final(cpu) == (Cpu { h: old(cpu).b, ..*old(cpu) }),
{
    let v = cpu.b;

    cpu.h = v;
}

/// Load `C` into `H`
pub fn ld_h_c(cpu: &mut Cpu)
    ensures
        *final(cpu) == (Cpu { h: old(cpu).c, ..*old(cpu) }),
{
    let v = cpu.c;

    cpu.h = v;
}

/// Load `D` into `H`
pub fn ld_h_d(cpu: &mut Cpu)
    ensures
        *final(cpu) == (Cpu { h: old(cpu).d, ..*old(cpu) }),
{
    let v = cpu.d;

    cpu.h = v;
}

/// Load `E` into `H`
pub fn ld_h_e(cpu: &mut Cpu)
    ensures
        *final(cpu) == (Cpu { h: old(cpu).e, ..*old(cpu) }),
{
    let v = cpu.e;

    cpu.h = v;
}

/// Load `B` into `L`
pub fn ld_l_b(cpu: &mut Cpu)
    ensures
        *final(cpu) == (Cpu { l: old(cpu).b, ..*old(cpu) }),
{
    let v = cpu.b;

    cpu.l = v;
}

/// Load `C` into `L`
pub fn ld_l_c(cpu: &mut Cpu)
    ensures
        *final(cpu) == (Cpu { l: old(cpu).c, ..*old(cpu) }),
{
    let v = cpu.c;

    cpu.l = v;
}

/// Load `D` into `L`
pub fn ld_l_d(cpu: &mut Cpu)
    ensures
        *final(cpu) == (Cpu { l: old(cpu).d, ..*old(cpu) }),
{
    let v = cpu.d;

    cpu.l = v;
}

/// Load `E` into `L`
pub fn ld_l_e(cpu: &mut Cpu)
    ensures
        *final(cpu) == (Cpu { l: old(cpu).e, ..*old(cpu) }),
{
    let v = cpu.e;

    cpu.l = v;
}

/// Load `H` into `L`
pub fn ld_l_h(cpu: &mut Cpu)
    ensures
        *final(cpu) == (Cpu { l: old(cpu).h, ..*old(cpu) }),
{
    let v = cpu.h;

    cpu.l = v;
}

/// Load `L` into `H`
pub fn ld_h_l(cpu: &mut Cpu)
    ensures
        *final(cpu) == (Cpu { h: old(cpu).l, ..*old(cpu) }),
{
    let v = cpu.l;

    cpu.h = v;
}

/// Pop `AF` from the stack
pub fn pop_af(cpu: &mut Cpu)
    requires
        old(cpu).wf(),
    ensures
        *final(cpu) == (Cpu {
            a: old(cpu).mem_at(wadd16(old(cpu).sp, 1)),
            zero: old(cpu).mem_at(old(cpu).sp) / 0x80 % 2 == 1,
            substract: old(cpu).mem_at(old(cpu).sp) / 0x40 % 2 == 1,
            halfcarry: old(cpu).mem_at(old(cpu).sp) / 0x20 % 2 == 1,
            carry: old(cpu).mem_at(old(cpu).sp) / 0x10 % 2 == 1,
            sp: wadd16(old(cpu).sp, 2),
            ..*old(cpu)
        }),
{
    let n = pop_word(cpu);

    let f = (n % 0x100) as u8;

    cpu.a = (n / 0x100) as u8;
    cpu.zero = f / 0x80 % 2 == 1;
    cpu.substract = f / 0x40 % 2 == 1;
    cpu.halfcarry = f / 0x20 % 2 == 1;
    cpu.carry = f / 0x10 % 2 == 1;
}

/// Unconditional jump to absolute address
pub fn jp_nn(cpu: &mut Cpu)
    requires
        old(cpu).wf(),
    ensures
        *final(cpu) == (Cpu { pc: imm16(*old(cpu)), ..*old(cpu) }),
{
    let addr = next_word(cpu);

    cpu.pc = addr;
}

/// Jump to absolute address if `!Z`
pub fn jp_nz_nn(cpu: &mut Cpu)
    requires
        old(cpu).wf(),
    ensures
        *final(cpu) == (Cpu {
            pc: if !old(cpu).zero {
                imm16(*old(cpu))
            } else {
                wadd16(old(cpu).pc, 2)
            },
            ..*old(cpu)
        }),
{
    let addr = next_word(cpu);

    if !cpu.zero {
        cpu.pc = addr;
    }
}

/// Jump to absolute address if `Z`
pub fn jp_z_nn(cpu: &mut Cpu)
    requires
        old(cpu).wf(),
    ensures
        *final(cpu) == (Cpu {
            pc: if old(cpu).zero {
                imm16(*old(cpu))
            } else {
                wadd16(old(cpu).pc, 2)
            },
            ..*old(cpu)
        }),
{
    let addr = next_word(cpu);

    if cpu.zero {
        cpu.pc = addr;
    }
}

/// Jump to absolute address if `!C`
pub fn jp_nc_nn(cpu: &mut Cpu)
    requires
        old(cpu).wf(),
    ensures
        *final(cpu) == (Cpu {
            pc: if !old(cpu).carry {
                imm16(*old(cpu))
            } else {
                wadd16(old(cpu).pc, 2)
            },
            ..*old(cpu)
        }),
{
    let addr = next_word(cpu);

    if !cpu.carry {
        cpu.pc = addr;
    }
}

/// Jump to absolute address if `C`
pub fn jp_c_nn(cpu: &mut Cpu)
    requires
        old(cpu).wf(),
    ensures
        *final(cpu) == (Cpu {
            pc: if old(cpu).carry {
                imm16(*old(cpu))
            } else {
                wadd16(old(cpu).pc, 2)
            },
            ..*old(cpu)
        }),
{
    let addr = next_word(cpu);

    if cpu.carry {
        cpu.pc = addr;
    }
}

/// Unconditional jump to relative address
pub fn jr_n(cpu: &mut Cpu)
    requires
        old(cpu).wf(),
    ensures
        *final(cpu) == (Cpu {
            pc: rel16(wadd16(old(cpu).pc, 1), imm8(*old(cpu))),
            ..*old(cpu)
        }),
{
    let off = next_byte(cpu);

    let pc = rel_jump(cpu.pc, off);

    cpu.pc = pc;
}

/// Jump to relative address if `!Z`
pub fn jr_nz_n(cpu: &mut Cpu)
    requires
        old(cpu).wf(),
    ensures
        *final(cpu) == (Cpu {
            pc: if !old(cpu).zero {
                rel16(wadd16(old(cpu).pc, 1), imm8(*old(cpu)))
            } else {
                wadd16(old(cpu).pc, 1)
            },
            ..*old(cpu)
        }),
{
    let off = next_byte(cpu);

    if !cpu.zero {
        let pc = rel_jump(cpu.pc, off);

        cpu.pc = pc;
    }
}

/// Jump to relative address if `Z`
pub fn jr_z_n(cpu: &mut Cpu)
    requires
        old(cpu).wf(),
    ensures
        *final(cpu) == (Cpu {
            pc: if old(cpu).zero {
                rel16(wadd16(old(cpu).pc, 1), imm8(*old(cpu)))
            } else {
                wadd16(old(cpu).pc, 1)
            },
            ..*old(cpu)
        }),
{
    let off = next_byte(cpu);

    if cpu.zero {
        let pc = rel_jump(cpu.pc, off);

        cpu.pc = pc;
    }
}

/// Jump to relative address if `!C`
pub fn jr_nc_n(cpu: &mut Cpu)
    requires
        old(cpu).wf(),
    ensures
        *final(cpu) == (Cpu {
            pc: if !old(cpu).carry {
                rel16(wadd16(old(cpu).pc, 1), imm8(*old(cpu)))
            } else {
                wadd16(old(cpu).pc, 1)
            },
            ..*old(cpu)
        }),
{
    let off = next_byte(cpu);

    if !cpu.carry {
        let pc = rel_jump(cpu.pc, off);

        cpu.pc = pc;
    }
}

/// Jump to relative address if `C`
pub fn jr_c_n(cpu: &mut Cpu)
    requires
        old(cpu).wf(),
    ensures
        *final(cpu) == (Cpu {
            pc: if old(cpu).carry {
                rel16(wadd16(old(cpu).pc, 1), imm8(*old(cpu)))
            } else {
                wadd16(old(cpu).pc, 1)
            },
            ..*old(cpu)
        }),
{
    let off = next_byte(cpu);

    if cpu.carry {
        let pc = rel_jump(cpu.pc, off);

        cpu.pc = pc;
    }
}

/// Push return address on stack and jump to immediate address
pub fn call(cpu: &mut Cpu)
    requires
        old(cpu).wf(),
    ensures
        final(cpu).wf(),
        final(cpu).pc == imm16(*old(cpu)),
        final(cpu).sp == wsub16(old(cpu).sp, 2),
        final(cpu).mem@ == old(cpu).mem@
            .update(wsub16(old(cpu).sp, 1) as int, hi8(wadd16(old(cpu).pc, 2)))
            .update(wsub16(old(cpu).sp, 2) as int, lo8(wadd16(old(cpu).pc, 2))),
        same_regs(*final(cpu), *old(cpu)),
        same_flags(*final(cpu), *old(cpu)),
        final(cpu).iten == old(cpu).iten,
{
    let addr = next_word(cpu);
    let pc = cpu.pc;

    push_word(cpu, pc);

    cpu.pc = addr;
}

/// XOR `A` with itself (set `A` to `0`)
pub fn xor_a_a(cpu: &mut Cpu)
    ensures
        *final(cpu) == (Cpu {
            a: 0,
            zero: true,
            substract: false,
            halfcarry: false,
            carry: false,
            ..*old(cpu)
        }),
{
    cpu.a = 0;

    cpu.zero = true;
    cpu.substract = false;
    cpu.halfcarry = false;
    cpu.carry = false;
}

/// XOR `B` into `A`
pub fn xor_a_b(cpu: &mut Cpu)
    ensures
        *final(cpu) == (Cpu {
            a: old(cpu).a ^ old(cpu).b,
            zero: old(cpu).a ^ old(cpu).b == 0,
            substract: false,
            halfcarry: false,
            carry: false,
            ..*old(cpu)
        }),
{
    let a = cpu.a;
    let v = cpu.b;

    let r = a ^ v;

    cpu.a = r;

    cpu.zero = r == 0;
    cpu.substract = false;
    cpu.halfcarry = false;
    cpu.carry = false;
}

/// XOR `C` into `A`
pub fn xor_a_c(cpu: &mut Cpu)
    ensures
        *final(cpu) == (Cpu {
            a: old(cpu).a ^ old(cpu).c,
            zero: old(cpu).a ^ old(cpu).c == 0,
            substract: false,
            halfcarry: false,
            carry: false,
            ..*old(cpu)
        }),
{
    let a = cpu.a;
    let v = cpu.c;

    let r = a ^ v;

    cpu.a = r;

    cpu.zero = r == 0;
    cpu.substract = false;
    cpu.halfcarry = false;
    cpu.carry = false;
}

/// XOR `D` into `A`
pub fn xor_a_d(cpu: &mut Cpu)
    ensures
        *final(cpu) == (Cpu {
            a: old(cpu).a ^ old(cpu).d,
            zero: old(cpu).a ^ old(cpu).d == 0,
            substract: false,
            halfcarry: false,
            carry: false,
            ..*old(cpu)
        }),
{
    let a = cpu.a;
    let v = cpu.d;

    let r = a ^ v;

    cpu.a = r;

    cpu.zero = r == 0;
    cpu.substract = false;
    cpu.halfcarry = false;
    cpu.carry = false;
}

/// XOR `E` into `A`
pub fn xor_a_e(cpu: &mut Cpu)
    ensures
        *final(cpu) == (Cpu {
            a: old(cpu).a ^ old(cpu).e,
            zero: old(cpu).a ^ old(cpu).e == 0,
            substract: false,
            halfcarry: false,
            carry: false,
            ..*old(cpu)
        }),
{
    let a = cpu.a;
    let v = cpu.e;

    let r = a ^ v;

    cpu.a = r;

    cpu.zero = r == 0;
    cpu.substract = false;
    cpu.halfcarry = false;
    cpu.carry = false;
}

/// XOR `H` into `A`
pub fn xor_a_h(cpu: &mut Cpu)
    ensures
        *final(cpu) == (Cpu {
            a: old(cpu).a ^ old(cpu).h,
            zero: old(cpu).a ^ old(cpu).h == 0,
            substract: false,
            halfcarry: false,
            carry: false,
            ..*old(cpu)
        }),
{
    let a = cpu.a;
    let v = cpu.h;

    let r = a ^ v;

    cpu.a = r;

    cpu.zero = r == 0;
    cpu.substract = false;
    cpu.halfcarry = false;
    cpu.carry = false;
}

/// XOR `L` into `A`
pub fn xor_a_l(cpu: &mut Cpu)
    ensures
        *final(cpu) == (Cpu {
            a: old(cpu).a ^ old(cpu).l,
            zero: old(cpu).a ^ old(cpu).l == 0,
            substract: false,
            halfcarry: false,
            carry: false,
            ..*old(cpu)
        }),
{
    let a = cpu.a;
    let v = cpu.l;

    let r = a ^ v;

    cpu.a = r;

    cpu.zero = r == 0;
    cpu.substract = false;
    cpu.halfcarry = false;
    cpu.carry = false;
}

/// Store `A` into `[HL]` and decrement `HL`
pub fn ldd_mhl_a(cpu: &mut Cpu)
    requires
        old(cpu).wf(),
    ensures
        final(cpu).wf(),
        final(cpu).mem@ == old(cpu).mem@.update(hl_of(*old(cpu)) as int, old(cpu).a),
        final(cpu).h == hi8(wsub16(hl_of(*old(cpu)), 1)),
        final(cpu).l == lo8(wsub16(hl_of(*old(cpu)), 1)),
        final(cpu).a == old(cpu).a,
        final(cpu).b == old(cpu).b,
        final(cpu).c == old(cpu).c,
        final(cpu).d == old(cpu).d,
        final(cpu).e == old(cpu).e,
        same_flags(*final(cpu), *old(cpu)),
        final(cpu).pc == old(cpu).pc,
        final(cpu).sp == old(cpu).sp,
        final(cpu).iten == old(cpu).iten,
{
    let hl = word16(cpu.h, cpu.l);
    let a = cpu.a;

    cpu.store_byte(hl, a);

    let hl = (((hl as u32) + 0x10000 - 1) % 0x10000) as u16;

    cpu.h = (hl / 0x100) as u8;
    cpu.l = (hl % 0x100) as u8;
}

/// Store `A` into `[HL]` and increment `HL`
pub fn ldi_mhl_a(cpu: &mut Cpu)
    requires
        old(cpu).wf(),
    ensures
        final(cpu).wf(),
        final(cpu).mem@ == old(cpu).mem@.update(hl_of(*old(cpu)) as int, old(cpu).a),
        final(cpu).h == hi8(wadd16(hl_of(*old(cpu)), 1)),
        final(cpu).l == lo8(wadd16(hl_of(*old(cpu)), 1)),
        final(cpu).a == old(cpu).a,
        final(cpu).b == old(cpu).b,
        final(cpu).c == old(cpu).c,
        final(cpu).d == old(cpu).d,
        final(cpu).e == old(cpu).e,
        same_flags(*final(cpu), *old(cpu)),
        final(cpu).pc == old(cpu).pc,
        final(cpu).sp == old(cpu).sp,
        final(cpu).iten == old(cpu).iten,
{
    let hl = word16(cpu.h, cpu.l);
    let a = cpu.a;

    cpu.store_byte(hl, a);

    let hl = (((hl as u32) + 1) % 0x10000) as u16;

    cpu.h = (hl / 0x100) as u8;
    cpu.l = (hl % 0x100) as u8;
}

/// Store `A` into `[0xff00 + n]`
pub fn ldh_mn_a(cpu: &mut Cpu)
    requires
        old(cpu).wf(),
    ensures
        final(cpu).wf(),
        final(cpu).mem@ == old(cpu).mem@.update((0xff00 + imm8(*old(cpu))) as int, old(cpu).a),
        same_regs(*final(cpu), *old(cpu)),
        same_flags(*final(cpu), *old(cpu)),
        final(cpu).pc == wadd16(old(cpu).pc, 1),
        final(cpu).sp == old(cpu).sp,
        final(cpu).iten == old(cpu).iten,
{
    let n = next_byte(cpu);
    let a = cpu.a;

    cpu.store_byte(0xff00 + (n as u16), a);
}

/// Load `[0xff00 + n]` into `A`
pub fn ldh_a_mn(cpu: &mut Cpu)
    requires
        old(cpu).wf(),
    ensures
        *final(cpu) == (Cpu {
            a: old(cpu).mem_at((0xff00 + imm8(*old(cpu))) as u16),
            pc: wadd16(old(cpu).pc, 1),
            ..*old(cpu)
        }),
{
    let n = next_byte(cpu);
    let v = cpu.fetch_byte(0xff00 + (n as u16));

    cpu.a = v;
}

/// Decrement `A`
pub fn dec_a(cpu: &mut Cpu)
    ensures
        *final(cpu) == (Cpu {
            a: wsub8(old(cpu).a, 1),
            zero: wsub8(old(cpu).a, 1) == 0,
            halfcarry: old(cpu).a % 0x10 == 0,
            substract: true,
            ..*old(cpu)
        }),
{
    let v = cpu.a;

    // bit will carry over if the low nibble is 0
    cpu.halfcarry = v % 0x10 == 0;

    let v = dec8(v);

    cpu.a = v;

    cpu.zero = v == 0;
    cpu.substract = true;
}

/// Decrement `B`
pub fn dec_b(cpu: &mut Cpu)
    ensures
        *final(cpu) == (Cpu {
            b: wsub8(old(cpu).b, 1),
            zero: wsub8(old(cpu).b, 1) == 0,
            halfcarry: old(cpu).b % 0x10 == 0,
            substract: true,
            ..*old(cpu)
        }),
{
    let v = cpu.b;

    // bit will carry over if the low nibble is 0
    cpu.halfcarry = v % 0x10 == 0;

    let v = dec8(v);

    cpu.b = v;

    cpu.zero = v == 0;
    cpu.substract = true;
}

/// Decrement `C`
pub fn dec_c(cpu: &mut Cpu)
    ensures
        *final(cpu) == (Cpu {
            c: wsub8(old(cpu).c, 1),
            zero: wsub8(old(cpu).c, 1) == 0,
            halfcarry: old(cpu).c % 0x10 == 0,
            substract: true,
            ..*old(cpu)
        }),
{
    let v = cpu.c;

    // bit will carry over if the low nibble is 0
    cpu.halfcarry = v % 0x10 == 0;

    let v = dec8(v);

    cpu.c = v;

    cpu.zero = v == 0;
    cpu.substract = true;
}

/// Decrement `D`
pub fn dec_d(cpu: &mut Cpu)
    ensures
        *final(cpu) == (Cpu {
            d: wsub8(old(cpu).d, 1),
            zero: wsub8(old(cpu).d, 1) == 0,
            halfcarry: old(cpu).d % 0x10 == 0,
            substract: true,
            ..*old(cpu)
        }),
{
    let v = cpu.d;

    // bit will carry over if the low nibble is 0
    cpu.halfcarry = v % 0x10 == 0;

    let v = dec8(v);

    cpu.d = v;

    cpu.zero = v == 0;
    cpu.substract = true;
}

/// Decrement `E`
pub fn dec_e(cpu: &mut Cpu)
    ensures
        *final(cpu) == (Cpu {
            e: wsub8(old(cpu).e, 1),
            zero: wsub8(old(cpu).e, 1) == 0,
            halfcarry: old(cpu).e % 0x10 == 0,
            substract: true,
            ..*old(cpu)
        }),
{
    let v = cpu.e;

    // bit will carry over if the low nibble is 0
    cpu.halfcarry = v % 0x10 == 0;

    let v = dec8(v);

    cpu.e = v;

    cpu.zero = v == 0;
    cpu.substract = true;
}

/// Decrement `H`
pub fn dec_h(cpu: &mut Cpu)
    ensures
        *final(cpu) == (Cpu {
            h: wsub8(old(cpu).h, 1),
            zero: wsub8(old(cpu).h, 1) == 0,
            halfcarry: old(cpu).h % 0x10 == 0,
            substract: true,
            ..*old(cpu)
        }),
{
    let v = cpu.h;

    // bit will carry over if the low nibble is 0
    cpu.halfcarry = v % 0x10 == 0;

    let v = dec8(v);

    cpu.h = v;

    cpu.zero = v == 0;
    cpu.substract = true;
}

/// Decrement `L`
pub fn dec_l(cpu: &mut Cpu)
    ensures
        *final(cpu) == (Cpu {
            l: wsub8(old(cpu).l, 1),
            zero: wsub8(old(cpu).l, 1) == 0,
            halfcarry: old(cpu).l % 0x10 == 0,
            substract: true,
            ..*old(cpu)
        }),
{
    let v = cpu.l;

    // bit will carry over if the low nibble is 0
    cpu.halfcarry = v % 0x10 == 0;

    let v = dec8(v);

    cpu.l = v;

    cpu.zero = v == 0;
    cpu.substract = true;
}

/// Compare `A` with itself
pub fn cp_a_a(cpu: &mut Cpu)
    ensures
        *final(cpu) == (Cpu {
            zero: true,
            halfcarry: false,
            carry: false,
            substract: true,
            ..*old(cpu)
        }),
{
    let a = cpu.a;

    sub_and_set_flags(cpu, a, a);
}

/// Compare `A` with `B`
pub fn cp_a_b(cpu: &mut Cpu)
    ensures
        *final(cpu) == (Cpu {
            zero: old(cpu).a == old(cpu).b,
            halfcarry: old(cpu).a % 0x10 < old(cpu).b % 0x10,
            carry: old(cpu).a < old(cpu).b,
            substract: true,
            ..*old(cpu)
        }),
{
    let a = cpu.a;
    let v = cpu.b;

    sub_and_set_flags(cpu, a, v);
}

/// Compare `A` with `C`
pub fn cp_a_c(cpu: &mut Cpu)
    ensures
        *final(cpu) == (Cpu {
            zero: old(cpu).a == old(cpu).c,
            halfcarry: old(cpu).a % 0x10 < old(cpu).c % 0x10,
            carry: old(cpu).a < old(cpu).c,
            substract: true,
            ..*old(cpu)
        }),
{
    let a = cpu.a;
    let v = cpu.c;

    sub_and_set_flags(cpu, a, v);
}

/// Compare `A` with `D`
pub fn cp_a_d(cpu: &mut Cpu)
    ensures
        *final(cpu) == (Cpu {
            zero: old(cpu).a == old(cpu).d,
            halfcarry: old(cpu).a % 0x10 < old(cpu).d % 0x10,
            carry: old(cpu).a < old(cpu).d,
            substract: true,
            ..*old(cpu)
        }),
{
    let a = cpu.a;
    let v = cpu.d;

    sub_and_set_flags(cpu, a, v);
}

/// Compare `A` with `E`
pub fn cp_a_e(cpu: &mut Cpu)
    ensures
        *final(cpu) == (Cpu {
            zero: old(cpu).a == old(cpu).e,
            halfcarry: old(cpu).a % 0x10 < old(cpu).e % 0x10,
            carry: old(cpu).a < old(cpu).e,
            substract: true,
            ..*old(cpu)
        }),
{
    let a = cpu.a;
    let v = cpu.e;

    sub_and_set_flags(cpu, a, v);
}

/// Compare `A` with `H`
pub fn cp_a_h(cpu: &mut Cpu)
    ensures
        *final(cpu) == (Cpu {
            zero: old(cpu).a == old(cpu).h,
            halfcarry: old(cpu).a % 0x10 < old(cpu).h % 0x10,
            carry: old(cpu).a < old(cpu).h,
            substract: true,
            ..*old(cpu)
        }),
{
    let a = cpu.a;
    let v = cpu.h;

    sub_and_set_flags(cpu, a, v);
}

/// Compare `A` with `L`
pub fn cp_a_l(cpu: &mut Cpu)
    ensures
        *final(cpu) == (Cpu {
            zero: old(cpu).a == old(cpu).l,
            halfcarry: old(cpu).a % 0x10 < old(cpu).l % 0x10,
            carry: old(cpu).a < old(cpu).l,
            substract: true,
            ..*old(cpu)
        }),
{
    let a = cpu.a;
    let v = cpu.l;

    sub_and_set_flags(cpu, a, v);
}

/// Compare `A` with `[HL]`
pub fn cp_a_mhl(cpu: &mut Cpu)
    requires
        old(cpu).wf(),
    ensures
        *final(cpu) == (Cpu {
            zero: old(cpu).a == old(cpu).mem_at(hl_of(*old(cpu))),
            halfcarry: old(cpu).a % 0x10 < old(cpu).mem_at(hl_of(*old(cpu))) % 0x10,
            carry: old(cpu).a < old(cpu).mem_at(hl_of(*old(cpu))),
            substract: true,
            ..*old(cpu)
        }),
{
    let a = cpu.a;
    let hl = word16(cpu.h, cpu.l);

    let n = cpu.fetch_byte(hl);

    sub_and_set_flags(cpu, a, n);
}

/// Compare `A` with immediate value
pub fn cp_a_n(cpu: &mut Cpu)
    requires
        old(cpu).wf(),
    ensures
        *final(cpu) == (Cpu {
            pc: wadd16(old(cpu).pc, 1),
            zero: old(cpu).a == imm8(*old(cpu)),
            halfcarry: old(cpu).a % 0x10 < imm8(*old(cpu)) % 0x10,
            carry: old(cpu).a < imm8(*old(cpu)),
            substract: true,
            ..*old(cpu)
        }),
{
    let a = cpu.a;
    let n = next_byte(cpu);

    sub_and_set_flags(cpu, a, n);
}

/// Substract `A` from `A`
pub fn sub_a_a(cpu: &mut Cpu)
    ensures
        *final(cpu) == (Cpu {
            a: 0,
            zero: true,
            substract: true,
            carry: false,
            halfcarry: false,
            ..*old(cpu)
        }),
{
    cpu.zero = true;
    cpu.substract = true;
    cpu.carry = false;
    cpu.halfcarry = false;

    cpu.a = 0;
}

/// Substract `B` from `A`
pub fn sub_a_b(cpu: &mut Cpu)
    ensures
        *final(cpu) == (Cpu {
            a: wsub8(old(cpu).a, old(cpu).b),
            zero: old(cpu).a == old(cpu).b,
            halfcarry: old(cpu).a % 0x10 < old(cpu).b % 0x10,
            carry: old(cpu).a < old(cpu).b,
            substract: true,
            ..*old(cpu)
        }),
{
    let a = cpu.a;
    let v = cpu.b;

    let r = sub_and_set_flags(cpu, a, v);

    cpu.a = r;
}

/// Substract `C` from `A`
pub fn sub_a_c(cpu: &mut Cpu)
    ensures
        *final(cpu) == (Cpu {
            a: wsub8(old(cpu).a, old(cpu).c),
            zero: old(cpu).a == old(cpu).c,
            halfcarry: old(cpu).a % 0x10 < old(cpu).c % 0x10,
            carry: old(cpu).a < old(cpu).c,
            substract: true,
            ..*old(cpu)
        }),
{
    let a = cpu.a;
    let v = cpu.c;

    let r = sub_and_set_flags(cpu, a, v);

    cpu.a = r;
}

/// Substract `D` from `A`
pub fn sub_a_d(cpu: &mut Cpu)
    ensures
        *final(cpu) == (Cpu {
            a: wsub8(old(cpu).a, old(cpu).d),
            zero: old(cpu).a == old(cpu).d,
            halfcarry: old(cpu).a % 0x10 < old(cpu).d % 0x10,
            carry: old(cpu).a < old(cpu).d,
            substract: true,
            ..*old(cpu)
        }),
{
    let a = cpu.a;
    let v = cpu.d;

    let r = sub_and_set_flags(cpu, a, v);

    cpu.a = r;
}

/// Substract `E` from `A`
pub fn sub_a_e(cpu: &mut Cpu)
    ensures
        *final(cpu) == (Cpu {
            a: wsub8(old(cpu).a, old(cpu).e),
            zero: old(cpu).a == old(cpu).e,
            halfcarry: old(cpu).a % 0x10 < old(cpu).e % 0x10,
            carry: old(cpu).a < old(cpu).e,
            substract: true,
            ..*old(cpu)
        }),
{
    let a = cpu.a;
    let v = cpu.e;

    let r = sub_and_set_flags(cpu, a, v);

    cpu.a = r;
}

/// Substract `H` from `A`
pub fn sub_a_h(cpu: &mut Cpu)
    ensures
        *final(cpu) == (Cpu {
            a: wsub8(old(cpu).a, old(cpu).h),
            zero: old(cpu).a == old(cpu).h,
            halfcarry: old(cpu).a % 0x10 < old(cpu).h % 0x10,
            carry: old(cpu).a < old(cpu).h,
            substract: true,
            ..*old(cpu)
        }),
{
    let a = cpu.a;
    let v = cpu.h;

    let r = sub_and_set_flags(cpu, a, v);

    cpu.a = r;
}

/// Substract `L` from `A`
pub fn sub_a_l(cpu: &mut Cpu)
    ensures
        *final(cpu) == (Cpu {
            a: wsub8(old(cpu).a, old(cpu).l),
            zero: old(cpu).a == old(cpu).l,
            halfcarry: old(cpu).a % 0x10 < old(cpu).l % 0x10,
            carry: old(cpu).a < old(cpu).l,
            substract: true,
            ..*old(cpu)
        }),
{
    let a = cpu.a;
    let v = cpu.l;

    let r = sub_and_set_flags(cpu, a, v);

    cpu.a = r;
}

/// Substract `[HL]` from `A`
pub fn sub_a_mhl(cpu: &mut Cpu)
    requires
        old(cpu).wf(),
    ensures
        *final(cpu) == (Cpu {
            a: wsub8(old(cpu).a, old(cpu).mem_at(hl_of(*old(cpu)))),
            zero: old(cpu).a == old(cpu).mem_at(hl_of(*old(cpu))),
            halfcarry: old(cpu).a % 0x10 < old(cpu).mem_at(hl_of(*old(cpu))) % 0x10,
            carry: old(cpu).a < old(cpu).mem_at(hl_of(*old(cpu))),
            substract: true,
            ..*old(cpu)
        }),
{
    let a = cpu.a;
    let hl = word16(cpu.h, cpu.l);

    let n = cpu.fetch_byte(hl);

    let r = sub_and_set_flags(cpu, a, n);

    cpu.a = r;
}

/// Substract `N` from `A`
pub fn sub_a_n(cpu: &mut Cpu)
    requires
        old(cpu).wf(),
    ensures
        *final(cpu) == (Cpu {
            a: wsub8(old(cpu).a, imm8(*old(cpu))),
            pc: wadd16(old(cpu).pc, 1),
            zero: old(cpu).a == imm8(*old(cpu)),
            halfcarry: old(cpu).a % 0x10 < imm8(*old(cpu)) % 0x10,
            carry: old(cpu).a < imm8(*old(cpu)),
            substract: true,
            ..*old(cpu)
        }),
{
    let a = cpu.a;
    let n = next_byte(cpu);

    let r = sub_and_set_flags(cpu, a, n);

    cpu.a = r;
}

/// AND `A` with `A`
pub fn and_a_a(cpu: &mut Cpu)
    ensures
        *final(cpu) == (Cpu {
            zero: old(cpu).a == 0,
            substract: false,
            halfcarry: true,
            carry: false,
            ..*old(cpu)
        }),
{
    let a = cpu.a;

    cpu.zero = a == 0;
    cpu.substract = false;
    cpu.halfcarry = true;
    cpu.carry = false;
}

/// AND `B` with `A`
pub fn and_a_b(cpu: &mut Cpu)
    ensures
        *final(cpu) == (Cpu {
            a: old(cpu).a & old(cpu).b,
            zero: old(cpu).a & old(cpu).b == 0,
            substract: false,
            halfcarry: true,
            carry: false,
            ..*old(cpu)
        }),
{
    let a = cpu.a;
    let v = cpu.b;

    let r = a & v;

    cpu.zero = r == 0;
    cpu.substract = false;
    cpu.halfcarry = true;
    cpu.carry = false;

    cpu.a = r;
}

/// AND `C` with `A`
pub fn and_a_c(cpu: &mut Cpu)
    ensures
        *final(cpu) == (Cpu {
            a: old(cpu).a & old(cpu).c,
            zero: old(cpu).a & old(cpu).c == 0,
            substract: false,
            halfcarry: true,
            carry: false,
            ..*old(cpu)
        }),
{
    let a = cpu.a;
    let v = cpu.c;

    let r = a & v;

    cpu.zero = r == 0;
    cpu.substract = false;
    cpu.halfcarry = true;
    cpu.carry = false;

    cpu.a = r;
}

/// AND `D` with `A`
pub fn and_a_d(cpu: &mut Cpu)
    ensures
        *final(cpu) == (Cpu {
            a: old(cpu).a & old(cpu).d,
            zero: old(cpu).a & old(cpu).d == 0,
            substract: false,
            halfcarry: true,
            carry: false,
            ..*old(cpu)
        }),
{
    let a = cpu.a;
    let v = cpu.d;

    let r = a & v;

    cpu.zero = r == 0;
    cpu.substract = false;
    cpu.halfcarry = true;
    cpu.carry = false;

    cpu.a = r;
}

/// AND `E` with `A`
pub fn and_a_e(cpu: &mut Cpu)
    ensures
        *final(cpu) == (Cpu {
            a: old(cpu).a & old(cpu).e,
            zero: old(cpu).a & old(cpu).e == 0,
            substract: false,
            halfcarry: true,
            carry: false,
            ..*old(cpu)
        }),
{
    let a = cpu.a;
    let v = cpu.e;

    let r = a & v;

    cpu.zero = r == 0;
    cpu.substract = false;
    cpu.halfcarry = true;
    cpu.carry = false;

    cpu.a = r;
}

/// AND `H` with `A`
pub fn and_a_h(cpu: &mut Cpu)
    ensures
        *final(cpu) == (Cpu {
            a: old(cpu).a & old(cpu).h,
            zero: old(cpu).a & old(cpu).h == 0,
            substract: false,
            halfcarry: true,
            carry: false,
            ..*old(cpu)
        }),
{
    let a = cpu.a;
    let v = cpu.h;

    let r = a & v;

    cpu.zero = r == 0;
    cpu.substract = false;
    cpu.halfcarry = true;
    cpu.carry = false;

    cpu.a = r;
}

/// AND `L` with `A`
pub fn and_a_l(cpu: &mut Cpu)
    ensures
        *final(cpu) == (Cpu {
            a: old(cpu).a & old(cpu).l,
            zero: old(cpu).a & old(cpu).l == 0,
            substract: false,
            halfcarry: true,
            carry: false,
            ..*old(cpu)
        }),
{
    let a = cpu.a;
    let v = cpu.l;

    let r = a & v;

    cpu.zero = r == 0;
    cpu.substract = false;
    cpu.halfcarry = true;
    cpu.carry = false;

    cpu.a = r;
}

/// AND `[HL]` with `A`
pub fn and_a_mhl(cpu: &mut Cpu)
    requires
        old(cpu).wf(),
    ensures
        *final(cpu) == (Cpu {
            a: old(cpu).a & old(cpu).mem_at(hl_of(*old(cpu))),
            zero: old(cpu).a & old(cpu).mem_at(hl_of(*old(cpu))) == 0,
            substract: false,
            halfcarry: true,
            carry: false,
            ..*old(cpu)
        }),
{
    let a = cpu.a;
    let hl = word16(cpu.h, cpu.l);

    let n = cpu.fetch_byte(hl);

    let r = a & n;

    cpu.zero = r == 0;
    cpu.substract = false;
    cpu.halfcarry = true;
    cpu.carry = false;

    cpu.a = r;
}

/// AND `N` with `A`
pub fn and_a_n(cpu: &mut Cpu)
    requires
        old(cpu).wf(),
    ensures
        *final(cpu) == (Cpu {
            a: old(cpu).a & imm8(*old(cpu)),
            pc: wadd16(old(cpu).pc, 1),
            zero: old(cpu).a & imm8(*old(cpu)) == 0,
            substract: false,
            halfcarry: true,
            carry: false,
            ..*old(cpu)
        }),
{
    let a = cpu.a;
    let n = next_byte(cpu);

    let r = a & n;

    cpu.zero = r == 0;
    cpu.substract = false;
    cpu.halfcarry = true;
    cpu.carry = false;

    cpu.a = r;
}

/// Disable interrupts
pub fn di(cpu: &mut Cpu)
    ensures
        *final(cpu) == (Cpu { iten: false, ..*old(cpu) }),
{
    cpu.disable_interrupts();
}

/// Combine two bytes into the 16-bit word they form, high byte first.
fn word16(hi: u8, lo: u8) -> (r: u16)
    ensures
        r == word(hi, lo),
{
    (hi as u16) * 0x100 + (lo as u16)
}

/// Wrapping 8-bit decrement.
fn dec8(x: u8) -> (r: u8)
    ensures
        r == wsub8(x, 1),
{
    if x == 0 {
        0xff
    } else {
        x - 1
    }
}

/// Target of a relative jump: `pc` moved by the signed offset `off`.
fn rel_jump(pc: u16, off: u8) -> (r: u16)
    ensures
        r == rel16(pc, off),
{
    let ext: u32 = if off >= 0x80 {
        0xff00
    } else {
        0
    };

    (((pc as u32) + (off as u32) + ext) % 0x10000) as u16
}

} // verus!
