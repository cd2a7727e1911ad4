//! Builders for the full-width instruction formats: each turns a word and
//! an opcode into the packed instruction of its shape.
use crate::codec::{
    bits, bits32, btype_imm, btype_immediate, itype_imm, itype_immediate, jtype_imm,
    jtype_immediate, lemma_bits_bound, rd, rd_of, rs1, rs1_of, rs2, rs2_of, stype_imm,
    stype_immediate, to_unsigned, utype_imm, utype_immediate, x,
};
use crate::encoding::{
    blank, blank_new, itype, itype_new_s, itype_new_u, op_bits, reg_byte, rtype, rtype_new, rtype_rd, rtype_rs1,
    rtype_rs2, stype, stype_new_s, utype, utype_new_s,
};
use crate::opcodes::{OP_FENCE, OP_SLLIUW};
use crate::{FactoryConfig, Instruction, InstructionOpcode};
use vstd::arithmetic::power2::lemma2_to64;
use vstd::prelude::*;

verus! {

/// Upper-immediate form: `rd` and the U-type immediate.
pub fn us_builder(w: u32, opcode: InstructionOpcode, _config: &FactoryConfig) -> (r: Option<
    Instruction,
>)
    ensures
        r == Some(utype(opcode, rd_of(w), bits32(utype_imm(w)))),
{
    Some(utype_new_s(opcode, rd(w), utype_immediate(w)))
}

/// Jump form: `rd` and the J-type offset.
pub fn uj_builder(w: u32, opcode: InstructionOpcode, _config: &FactoryConfig) -> (r: Option<
    Instruction,
>)
    ensures
        r == Some(utype(opcode, rd_of(w), bits32(jtype_imm(w)))),
{
    Some(utype_new_s(opcode, rd(w), jtype_immediate(w)))
}

/// Register-immediate form: `rd`, `rs1` and the I-type immediate.
pub fn is_builder(w: u32, opcode: InstructionOpcode, _config: &FactoryConfig) -> (r: Option<
    Instruction,
>)
    ensures
        r == Some(itype(opcode, rd_of(w), rs1_of(w), bits32(itype_imm(w)))),
{
    Some(itype_new_s(opcode, rd(w), rs1(w), itype_immediate(w)))
}

/// Branch form: the B-type offset, `rs1` and `rs2`.
pub fn sb_builder(w: u32, opcode: InstructionOpcode, _config: &FactoryConfig) -> (r: Option<
    Instruction,
>)
    ensures
        r == Some(stype(opcode, bits32(btype_imm(w)), rs1_of(w), rs2_of(w))),
{
    Some(stype_new_s(opcode, btype_immediate(w), rs1(w), rs2(w)))
}

/// Store form: the S-type immediate, `rs1` and `rs2`.
pub fn ss_builder(w: u32, opcode: InstructionOpcode, _config: &FactoryConfig) -> (r: Option<
    Instruction,
>)
    ensures
        r == Some(stype(opcode, bits32(stype_imm(w)), rs1_of(w), rs2_of(w))),
{
    Some(stype_new_s(opcode, stype_immediate(w), rs1(w), rs2(w)))
}

/// An instruction with no operands.
pub fn blank_inst_builder(_w: u32, opcode: InstructionOpcode, _config: &FactoryConfig) -> (r:
    Option<Instruction>)
    ensures
        r == Some(blank(opcode)),
{
    Some(blank_new(opcode))
}

/// Register-register form: `rd`, `rs1` and `rs2`.
pub fn r_builder(w: u32, opcode: InstructionOpcode, _config: &FactoryConfig) -> (r: Option<
    Instruction,
>)
    ensures
        r == Some(rtype(opcode, rd_of(w), rs1_of(w), rs2_of(w))),
{
    Some(rtype_new(opcode, rd(w), rs1(w), rs2(w)))
}

/// A fence, its `fm`, `pred` and `succ` fields held where an R-type holds
/// `rd`, `rs1` and `rs2`.
#[derive(Clone, Copy)]
pub struct FenceType(Instruction);

impl FenceType {
    /// The packed instruction.
    pub closed spec fn inst(self) -> Instruction {
        self.0
    }

    pub fn new(fm: u8, pred: u8, succ: u8) -> (r: Self)
        ensures
            r.inst() == rtype(OP_FENCE, fm as usize, pred as usize, succ as usize),
    {
        FenceType(rtype_new(OP_FENCE, fm as usize, pred as usize, succ as usize))
    }

    /// The packed instruction.
    pub fn instruction(self) -> (r: Instruction)
        ensures
            r == self.inst(),
    {
        self.0
    }

    /// The fence mode.
    pub fn fm(self) -> (r: u8)
        ensures
            r as u64 == (self.inst() >> 8u64) & 0xffu64,
    {
        let v = rtype_rd(self.0);
        proof {
            let i = self.0;
            assert((i >> 8u64) & 0xffu64 <= 0xff) by (bit_vector);
        }
        v as u8
    }

    /// The predecessor set.
    pub fn pred(self) -> (r: u8)
        ensures
            r as u64 == (self.inst() >> 32u64) & 0xffu64,
    {
        let v = rtype_rs1(self.0);
        proof {
            let i = self.0;
            assert((i >> 32u64) & 0xffu64 <= 0xff) by (bit_vector);
        }
        v as u8
    }

    /// The successor set.
    pub fn succ(self) -> (r: u8)
        ensures
            r as u64 == (self.inst() >> 40u64) & 0xffu64,
    {
        let v = rtype_rs2(self.0);
        proof {
            let i = self.0;
            assert((i >> 40u64) & 0xffu64 <= 0xff) by (bit_vector);
        }
        v as u8
    }
}

/// The fields that a fence is built from read back unchanged.
pub proof fn lemma_fence_fields(fm: u8, pred: u8, succ: u8)
    ensures
        (rtype(OP_FENCE, fm as usize, pred as usize, succ as usize) >> 8u64) & 0xffu64 == fm as u64,
        (rtype(OP_FENCE, fm as usize, pred as usize, succ as usize) >> 32u64) & 0xffu64
            == pred as u64,
        (rtype(OP_FENCE, fm as usize, pred as usize, succ as usize) >> 40u64) & 0xffu64
            == succ as u64,
{
    let a = fm as u64;
    let b = pred as u64;
    let c = succ as u64;
    let op: u16 = OP_FENCE;
    assert(reg_byte(fm as usize) == a && reg_byte(pred as usize) == b && reg_byte(succ as usize)
        == c);
    assert(op_bits(op) == 0x24u64) by (bit_vector)
        requires
            op == 0x24u16,
    ;
    let v = 0x24u64 | (a << 8u64) | (b << 32u64) | (c << 40u64);
    assert((v >> 8u64) & 0xffu64 == a && (v >> 32u64) & 0xffu64 == b && (v >> 40u64) & 0xffu64
        == c) by (bit_vector)
        requires
            a <= 0xff,
            b <= 0xff,
            c <= 0xff,
            v == 0x24u64 | (a << 8u64) | (b << 32u64) | (c << 40u64),
    ;
}

/// Shift-immediate form: the I-type immediate cut to the configured shift
/// mask.
pub fn is_alu_builder(w: u32, opcode: InstructionOpcode, config: &FactoryConfig) -> (r: Option<
    Instruction,
>)
    ensures
        r == Some(
            itype(opcode, rd_of(w), rs1_of(w), bits32(itype_imm(w)) & (config.shift_mask() as u32)),
        ),
        r == Some(
            itype(
                opcode,
                rd_of(w),
                rs1_of(w),
                (bits(w, 20, 12) as u32) & (config.shift_mask() as u32),
            ),
        ),
{
    proof {
        lemma2_to64();
        lemma_bits_bound(w, 20, 12);
        let f = bits(w, 20, 12) as u32;
        let m = config.shift_mask() as u32;
        if f >= 2048 {
            let p = (f + 0xFFFF_F000u32) as u32;
            assert(bits32(itype_imm(w)) == p);
            assert(p & m == f & m) by (bit_vector)
                requires
                    f < 4096,
                    m <= 0xff,
                    p == f + 0xFFFF_F000u32,
            ;
        } else {
            assert(bits32(itype_imm(w)) == f);
        }
    }
    let imm = to_unsigned(itype_immediate(w)) & (config.shift_masks() as u32);
    Some(itype_new_u(opcode, rd(w), rs1(w), imm))
}

/// Shift-immediate form for 32-bit shifts: the I-type immediate cut to five
/// bits.
pub fn is_1f_builder(w: u32, opcode: InstructionOpcode, _config: &FactoryConfig) -> (r: Option<
    Instruction,
>)
    ensures
        r == Some(itype(opcode, rd_of(w), rs1_of(w), bits32(itype_imm(w)) & 0x1f)),
{
    let imm = to_unsigned(itype_immediate(w)) & 0x1f;
    Some(itype_new_u(opcode, rd(w), rs1(w), imm))
}

/// FENCE: `fm` from bits 28 to 31, `pred` from bits 24 to 27 and `succ`
/// from bits 20 to 23.
pub fn fencei_builder(w: u32, _opcode: InstructionOpcode, _config: &FactoryConfig) -> (r: Option<
    Instruction,
>)
    ensures
        r == Some(
            rtype(
                OP_FENCE,
                bits(w, 28, 4) as usize,
                bits(w, 24, 4) as usize,
                bits(w, 20, 4) as usize,
            ),
        ),
{
    proof {
        lemma2_to64();
    }
    let fm = x(w, 28, 4, 0) as u8;
    let pred = x(w, 24, 4, 0) as u8;
    let succ = x(w, 20, 4, 0) as u8;
    Some(FenceType::new(fm, pred, succ).instruction())
}

/// Six-bit shift-immediate form: bits 20 to 25 as an unsigned immediate.
pub fn r64_imm_builder(w: u32, opcode: InstructionOpcode, _config: &FactoryConfig) -> (r: Option<
    Instruction,
>)
    ensures
        r == Some(itype(opcode, rd_of(w), rs1_of(w), bits(w, 20, 6) as u32)),
{
    proof {
        lemma2_to64();
    }
    Some(itype_new_u(opcode, rd(w), rs1(w), x(w, 20, 6, 0)))
}

/// SLLI.UW: bits 20 to 24 as the shift amount.
pub fn roriw_builder(w: u32, _opcode: InstructionOpcode, _config: &FactoryConfig) -> (r: Option<
    Instruction,
>)
    ensures
        r == Some(itype(OP_SLLIUW, rd_of(w), rs1_of(w), bits(w, 20, 5) as u32)),
{
    proof {
        lemma2_to64();
    }
    Some(itype_new_u(OP_SLLIUW, rd(w), rs1(w), x(w, 20, 5, 0)))
}

} // verus!
