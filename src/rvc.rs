//! The compressed (16-bit) extension: its scattered immediates, its compact
//! registers, and the builders that tell defined instructions, HINTs and
//! reserved encodings apart.
use crate::codec::{bits, bits32, lemma_bits_bound, lemma_join, rd, rd_of, sext, to_signed, x, xs};
use crate::encoding::{
    blank, blank_new, itype, itype_new_s, itype_new_u, nop_inst, nop_new, rtype, rtype_new, stype,
    stype_new_s, stype_new_u, utype, utype_new_s,
};
use crate::opcodes::{
    OP_ADD, OP_ADDI, OP_ADDIW, OP_ADDW, OP_AND, OP_ANDI, OP_BEQ, OP_BNE, OP_EBREAK, OP_JAL, OP_JALR,
    OP_LD, OP_LUI, OP_LW, OP_OR, OP_SD, OP_SLLI, OP_SRAI, OP_SRLI, OP_SUB, OP_SUBW, OP_SW, OP_XOR,
    RA, SP,
};
use crate::{FactoryConfig, Instruction, InstructionOpcode};
use vstd::arithmetic::power2::{lemma2_to64, lemma2_to64_rest};
use vstd::prelude::*;

verus! {

/// The second source register of a compressed word, bits 2 to 6.
pub open spec fn c_rs2_of(w: u32) -> usize {
    bits(w, 2, 5) as usize
}

/// The register that a 3-bit field at `least_bit` names: `x8` to `x15`.
pub open spec fn creg(w: u32, least_bit: nat) -> usize {
    (bits(w, least_bit, 3) + 8) as usize
}

/// CI-format immediate: `imm[5]` in bit 12, `imm[4:0]` in bits 2 to 6,
/// sign-extended.
pub open spec fn c_imm(w: u32) -> int {
    bits(w, 2, 5) + sext(bits(w, 12, 1), 1) * 32
}

/// CI-format unsigned immediate: `uimm[5]` in bit 12, `uimm[4:0]` in bits 2
/// to 6.
pub open spec fn c_uimm(w: u32) -> nat {
    bits(w, 2, 5) + bits(w, 12, 1) * 32
}

/// CJ-format offset: bits 12 to 2 hold `imm[11|4|9:8|10|6|7|3:1|5]`.
pub open spec fn c_j_imm(w: u32) -> int {
    bits(w, 3, 3) * 2 + bits(w, 11, 1) * 16 + bits(w, 2, 1) * 32 + bits(w, 7, 1) * 64 + bits(w, 6, 1)
        * 128 + bits(w, 9, 2) * 256 + bits(w, 8, 1) * 1024 + sext(bits(w, 12, 1), 1) * 2048
}

/// C.LD / C.SD offset: `uimm[5:3]` in bits 10 to 12, `uimm[7:6]` in bits 5
/// and 6.
pub open spec fn c_ld_uimm(w: u32) -> nat {
    bits(w, 10, 3) * 8 + bits(w, 5, 2) * 64
}

/// C.LW / C.SW offset: `uimm[2]` in bit 6, `uimm[5:3]` in bits 10 to 12,
/// `uimm[6]` in bit 5.
pub open spec fn c_lw_uimm(w: u32) -> nat {
    bits(w, 6, 1) * 4 + bits(w, 10, 3) * 8 + bits(w, 5, 1) * 64
}

/// C.LWSP offset: `uimm[5]` in bit 12, `uimm[4:2|7:6]` in bits 6 to 2.
pub open spec fn c_lwsp_uimm(w: u32) -> nat {
    bits(w, 4, 3) * 4 + bits(w, 12, 1) * 32 + bits(w, 2, 2) * 64
}

/// C.LDSP offset: `uimm[5]` in bit 12, `uimm[4:3|8:6]` in bits 6 to 2.
pub open spec fn c_ldsp_uimm(w: u32) -> nat {
    bits(w, 5, 2) * 8 + bits(w, 12, 1) * 32 + bits(w, 2, 3) * 64
}

/// C.SDSP offset: `uimm[5:3|8:6]` in bits 12 to 7.
pub open spec fn c_sdsp_uimm(w: u32) -> nat {
    bits(w, 10, 3) * 8 + bits(w, 7, 3) * 64
}

/// C.SWSP offset: `uimm[5:2|7:6]` in bits 12 to 7.
pub open spec fn c_swsp_uimm(w: u32) -> nat {
    bits(w, 9, 4) * 4 + bits(w, 7, 2) * 64
}

/// CB-format offset: `imm[8|4:3]` in bits 12 to 10, `imm[7:6|2:1|5]` in
/// bits 6 to 2.
pub open spec fn c_b_imm(w: u32) -> int {
    bits(w, 3, 2) * 2 + bits(w, 10, 2) * 8 + bits(w, 2, 1) * 32 + bits(w, 5, 2) * 64 + sext(
        bits(w, 12, 1),
        1,
    ) * 256
}

/// C.ADDI16SP immediate: `nzimm[9]` in bit 12, `nzimm[4|6|8:7|5]` in bits 6
/// to 2.
pub open spec fn c_addi16sp_imm(w: u32) -> int {
    bits(w, 6, 1) * 16 + bits(w, 2, 1) * 32 + bits(w, 5, 1) * 64 + bits(w, 3, 2) * 128 + sext(
        bits(w, 12, 1),
        1,
    ) * 512
}

/// C.ADDI4SPN immediate: `nzuimm[5:4|9:6|2|3]` in bits 12 to 5.
pub open spec fn c_addi4spn_uimm(w: u32) -> nat {
    bits(w, 6, 1) * 4 + bits(w, 5, 1) * 8 + bits(w, 11, 2) * 16 + bits(w, 7, 4) * 64
}

/// The second source register of a compressed word, bits 2 to 6.
pub fn c_rs2(w: u32) -> (r: usize)
    ensures
        r == c_rs2_of(w),
        r < 32,
{
    proof {
        lemma2_to64();
        lemma_bits_bound(w, 2, 5);
    }
    x(w, 2, 5, 0) as usize
}

/// The register that the 3-bit field at `least_bit` names, `x8` to `x15`.
pub fn compact_register_number(w: u32, least_bit: usize) -> (r: usize)
    requires
        least_bit <= 29,
    ensures
        r == creg(w, least_bit as nat),
        8 <= r <= 15,
{
    proof {
        lemma2_to64();
        lemma_bits_bound(w, least_bit as nat, 3);
    }
    x(w, least_bit, 3, 0) as usize + 8
}

/// The CI-format immediate of `w`.
pub fn immediate(w: u32) -> (r: i32)
    ensures
        r as int == c_imm(w),
        -32 <= r < 32,
{
    proof {
        lemma2_to64();
        lemma2_to64_rest();
    }
    let a = x(w, 2, 5, 0);
    let b = xs(w, 12, 1, 5);
    proof {
        lemma_bits_bound(w, 2, 5);
        lemma_bits_bound(w, 12, 1);
        lemma_join(a, b, 5);
    }
    to_signed(a | b)
}

/// The CI-format unsigned immediate of `w`.
pub fn uimmediate(w: u32) -> (r: u32)
    ensures
        r as nat == c_uimm(w),
        r < 64,
{
    proof {
        lemma2_to64();
    }
    let a = x(w, 2, 5, 0);
    let b = x(w, 12, 1, 5);
    proof {
        lemma_bits_bound(w, 2, 5);
        lemma_bits_bound(w, 12, 1);
        lemma_join(a, b, 5);
    }
    a | b
}

/// The CJ-format offset of `w`.
pub fn j_immediate(w: u32) -> (r: i32)
    ensures
        r as int == c_j_imm(w),
{
    proof {
        lemma2_to64();
        lemma2_to64_rest();
    }
    let a = x(w, 3, 3, 1);
    let b = x(w, 11, 1, 4);
    let c = x(w, 2, 1, 5);
    let d = x(w, 7, 1, 6);
    let e = x(w, 6, 1, 7);
    let f = x(w, 9, 2, 8);
    let g = x(w, 8, 1, 10);
    let h = xs(w, 12, 1, 11);
    proof {
        lemma_bits_bound(w, 3, 3);
        lemma_bits_bound(w, 11, 1);
        lemma_bits_bound(w, 2, 1);
        lemma_bits_bound(w, 7, 1);
        lemma_bits_bound(w, 6, 1);
        lemma_bits_bound(w, 9, 2);
        lemma_bits_bound(w, 8, 1);
        lemma_join(a, b, 4);
        lemma_join(a | b, c, 5);
        lemma_join(a | b | c, d, 6);
        lemma_join(a | b | c | d, e, 7);
        lemma_join(a | b | c | d | e, f, 8);
        lemma_join(a | b | c | d | e | f, g, 10);
        lemma_join(a | b | c | d | e | f | g, h, 11);
    }
    to_signed(a | b | c | d | e | f | g | h)
}

/// The C.LD / C.SD offset of `w`.
pub fn fld_uimmediate(w: u32) -> (r: u32)
    ensures
        r as nat == c_ld_uimm(w),
{
    proof {
        lemma2_to64();
    }
    let a = x(w, 10, 3, 3);
    let b = x(w, 5, 2, 6);
    proof {
        lemma_bits_bound(w, 10, 3);
        lemma_join(a, b, 6);
    }
    a | b
}

/// The C.LW / C.SW offset of `w`.
pub fn sw_uimmediate(w: u32) -> (r: u32)
    ensures
        r as nat == c_lw_uimm(w),
{
    proof {
        lemma2_to64();
    }
    let a = x(w, 6, 1, 2);
    let b = x(w, 10, 3, 3);
    let c = x(w, 5, 1, 6);
    proof {
        lemma_bits_bound(w, 6, 1);
        lemma_bits_bound(w, 10, 3);
        lemma_join(a, b, 3);
        lemma_join(a | b, c, 6);
    }
    a | b | c
}

/// The C.LWSP offset of `w`.
pub fn lwsp_uimmediate(w: u32) -> (r: u32)
    ensures
        r as nat == c_lwsp_uimm(w),
{
    proof {
        lemma2_to64();
    }
    let a = x(w, 4, 3, 2);
    let b = x(w, 12, 1, 5);
    let c = x(w, 2, 2, 6);
    proof {
        lemma_bits_bound(w, 4, 3);
        lemma_bits_bound(w, 12, 1);
        lemma_join(a, b, 5);
        lemma_join(a | b, c, 6);
    }
    a | b | c
}

/// The C.LDSP offset of `w`.
pub fn fldsp_uimmediate(w: u32) -> (r: u32)
    ensures
        r as nat == c_ldsp_uimm(w),
{
    proof {
        lemma2_to64();
    }
    let a = x(w, 5, 2, 3);
    let b = x(w, 12, 1, 5);
    let c = x(w, 2, 3, 6);
    proof {
        lemma_bits_bound(w, 5, 2);
        lemma_bits_bound(w, 12, 1);
        lemma_join(a, b, 5);
        lemma_join(a | b, c, 6);
    }
    a | b | c
}

/// The C.SDSP offset of `w`.
pub fn fsdsp_uimmediate(w: u32) -> (r: u32)
    ensures
        r as nat == c_sdsp_uimm(w),
{
    proof {
        lemma2_to64();
    }
    let a = x(w, 10, 3, 3);
    let b = x(w, 7, 3, 6);
    proof {
        lemma_bits_bound(w, 10, 3);
        lemma_join(a, b, 6);
    }
    a | b
}

/// The C.SWSP offset of `w`.
pub fn swsp_uimmediate(w: u32) -> (r: u32)
    ensures
        r as nat == c_swsp_uimm(w),
{
    proof {
        lemma2_to64();
    }
    let a = x(w, 9, 4, 2);
    let b = x(w, 7, 2, 6);
    proof {
        lemma_bits_bound(w, 9, 4);
        lemma_join(a, b, 6);
    }
    a | b
}

/// The CB-format offset of `w`.
pub fn b_immediate(w: u32) -> (r: i32)
    ensures
        r as int == c_b_imm(w),
{
    proof {
        lemma2_to64();
        lemma2_to64_rest();
    }
    let a = x(w, 3, 2, 1);
    let b = x(w, 10, 2, 3);
    let c = x(w, 2, 1, 5);
    let d = x(w, 5, 2, 6);
    let e = xs(w, 12, 1, 8);
    proof {
        lemma_bits_bound(w, 3, 2);
        lemma_bits_bound(w, 10, 2);
        lemma_bits_bound(w, 2, 1);
        lemma_bits_bound(w, 5, 2);
        lemma_join(a, b, 3);
        lemma_join(a | b, c, 5);
        lemma_join(a | b | c, d, 6);
        lemma_join(a | b | c | d, e, 8);
    }
    to_signed(a | b | c | d | e)
}


/// The C.ADDI16SP immediate of `w`.
fn addi16sp_immediate(w: u32) -> (r: i32)
    ensures
        r as int == c_addi16sp_imm(w),
{
    proof {
        lemma2_to64();
        lemma2_to64_rest();
    }
    let a = x(w, 6, 1, 4);
    let b = x(w, 2, 1, 5);
    let c = x(w, 5, 1, 6);
    let d = x(w, 3, 2, 7);
    let e = xs(w, 12, 1, 9);
    proof {
        lemma_bits_bound(w, 6, 1);
        lemma_bits_bound(w, 2, 1);
        lemma_bits_bound(w, 5, 1);
        lemma_bits_bound(w, 3, 2);
        lemma_join(a, b, 5);
        lemma_join(a | b, c, 6);
        lemma_join(a | b | c, d, 7);
        lemma_join(a | b | c | d, e, 9);
    }
    to_signed(a | b | c | d | e)
}

/// The C.ADDI4SPN immediate of `w`.
fn addi4spn_uimmediate(w: u32) -> (r: u32)
    ensures
        r as nat == c_addi4spn_uimm(w),
{
    proof {
        lemma2_to64();
    }
    let a = x(w, 6, 1, 2);
    let b = x(w, 5, 1, 3);
    let c = x(w, 11, 2, 4);
    let d = x(w, 7, 4, 6);
    proof {
        lemma_bits_bound(w, 6, 1);
        lemma_bits_bound(w, 5, 1);
        lemma_bits_bound(w, 11, 2);
        lemma_join(a, b, 3);
        lemma_join(a | b, c, 4);
        lemma_join(a | b | c, d, 6);
    }
    a | b | c | d
}

/// The no-op where the rules in force define HINTs, else a failure.
pub open spec fn hint(config: &FactoryConfig) -> Option<Instruction> {
    if config.spec_version() >= 1 {
        Some(nop_inst())
    } else {
        None
    }
}

/// C.EBREAK, C.JALR and C.ADD, which share one mask.
pub open spec fn spec_cadd_ebreak_jalr(w: u32, config: &FactoryConfig) -> Option<Instruction> {
    let rd = rd_of(w);
    let rs2 = c_rs2_of(w);
    if rs2 == 0 {
        if rd == 0 {
            Some(blank(OP_EBREAK))
        } else {
            Some(itype(OP_JALR, RA, rd, 0))
        }
    } else if rd != 0 {
        Some(rtype(OP_ADD, rd, rd, rs2))
    } else {
        hint(config)
    }
}

/// C.ADDI, and C.NOP with the HINTs beside it.
pub open spec fn spec_caddi_cnop(w: u32, config: &FactoryConfig) -> Option<Instruction> {
    if rd_of(w) != 0 && c_imm(w) != 0 {
        Some(itype(OP_ADDI, rd_of(w), rd_of(w), bits32(c_imm(w))))
    } else {
        hint(config)
    }
}

/// C.ADDI16SP; a zero immediate is reserved.
pub open spec fn spec_caddi16sp(w: u32) -> Option<Instruction> {
    if c_addi16sp_imm(w) != 0 {
        Some(itype(OP_ADDI, SP, SP, bits32(c_addi16sp_imm(w))))
    } else {
        None
    }
}

/// C.ADDI4SPN; a zero immediate is reserved.
pub open spec fn spec_caddi4spn(w: u32) -> Option<Instruction> {
    if c_addi4spn_uimm(w) != 0 {
        Some(itype(OP_ADDI, creg(w, 2), SP, c_addi4spn_uimm(w) as u32))
    } else {
        None
    }
}

/// C.JAL on 32-bit registers, C.ADDIW otherwise; C.ADDIW with `rd = 0` is
/// reserved.
pub open spec fn spec_caddiw_jal(w: u32, config: &FactoryConfig) -> Option<Instruction> {
    if config.is_rv32() {
        Some(utype(OP_JAL, RA, bits32(c_j_imm(w))))
    } else if rd_of(w) != 0 {
        Some(itype(OP_ADDIW, rd_of(w), rd_of(w), bits32(c_imm(w))))
    } else {
        None
    }
}

/// C.ADDW, on 64- and 128-bit registers only.
pub open spec fn spec_caddw(w: u32, config: &FactoryConfig) -> Option<Instruction> {
    if config.is_rv32() {
        None
    } else {
        Some(rtype(OP_ADDW, creg(w, 7), creg(w, 7), creg(w, 2)))
    }
}

/// C.ANDI.
pub open spec fn spec_candi(w: u32) -> Option<Instruction> {
    Some(itype(OP_ANDI, creg(w, 7), creg(w, 7), bits32(c_imm(w))))
}

/// A compressed register-register operation on `rd'` and `rs2'`.
pub open spec fn spec_c_alu(op: InstructionOpcode, w: u32) -> Option<Instruction> {
    Some(rtype(op, creg(w, 7), creg(w, 7), creg(w, 2)))
}

/// C.BEQZ and C.BNEZ: a branch on `rs1'` against `x0`.
pub open spec fn spec_c_branch(op: InstructionOpcode, w: u32) -> Option<Instruction> {
    Some(stype(op, bits32(c_b_imm(w)), creg(w, 7), 0))
}

/// C.J.
pub open spec fn spec_cj(w: u32) -> Option<Instruction> {
    Some(utype(OP_JAL, 0, bits32(c_j_imm(w))))
}

/// C.JR and C.MV, which share one mask.
pub open spec fn spec_cjr_cmv(w: u32, config: &FactoryConfig) -> Option<Instruction> {
    let rs1 = rd_of(w);
    let rs2 = c_rs2_of(w);
    if rs2 == 0 {
        if rs1 != 0 {
            Some(itype(OP_JALR, 0, rs1, 0))
        } else {
            None
        }
    } else if rs1 != 0 {
        Some(rtype(OP_ADD, rs1, 0, rs2))
    } else {
        hint(config)
    }
}

/// C.LD, on 64- and 128-bit registers only.
pub open spec fn spec_cld(w: u32, config: &FactoryConfig) -> Option<Instruction> {
    if config.is_rv32() {
        None
    } else {
        Some(itype(OP_LD, creg(w, 2), creg(w, 7), c_ld_uimm(w) as u32))
    }
}

/// C.LDSP, on 64- and 128-bit registers only; `rd = 0` is reserved.
pub open spec fn spec_cldsp(w: u32, config: &FactoryConfig) -> Option<Instruction> {
    if config.is_rv32() || rd_of(w) == 0 {
        None
    } else {
        Some(itype(OP_LD, rd_of(w), SP, c_ldsp_uimm(w) as u32))
    }
}

/// C.LI; `rd = 0` is a HINT.
pub open spec fn spec_cli(w: u32, config: &FactoryConfig) -> Option<Instruction> {
    if rd_of(w) != 0 {
        Some(itype(OP_ADDI, rd_of(w), 0, bits32(c_imm(w))))
    } else {
        hint(config)
    }
}

/// C.LUI and C.ADDI16SP, which share one mask: `rd = 2` is C.ADDI16SP;
/// otherwise a zero immediate is reserved and `rd = 0` is a HINT.
pub open spec fn spec_clui(w: u32, config: &FactoryConfig) -> Option<Instruction> {
    if rd_of(w) == SP {
        spec_caddi16sp(w)
    } else if c_imm(w) == 0 {
        None
    } else if rd_of(w) != 0 {
        Some(utype(OP_LUI, rd_of(w), bits32(c_imm(w) * 4096)))
    } else {
        hint(config)
    }
}

/// C.LW.
pub open spec fn spec_clw(w: u32) -> Option<Instruction> {
    Some(itype(OP_LW, creg(w, 2), creg(w, 7), c_lw_uimm(w) as u32))
}

/// C.LWSP; `rd = 0` is reserved.
pub open spec fn spec_clwsp(w: u32) -> Option<Instruction> {
    if rd_of(w) != 0 {
        Some(itype(OP_LW, rd_of(w), SP, c_lwsp_uimm(w) as u32))
    } else {
        None
    }
}

/// C.SD, on 64- and 128-bit registers only.
pub open spec fn spec_csd(w: u32, config: &FactoryConfig) -> Option<Instruction> {
    if config.is_rv32() {
        None
    } else {
        Some(stype(OP_SD, c_ld_uimm(w) as u32, creg(w, 7), creg(w, 2)))
    }
}

/// C.SDSP, on 64- and 128-bit registers only.
pub open spec fn spec_csdsp(w: u32, config: &FactoryConfig) -> Option<Instruction> {
    if config.is_rv32() {
        None
    } else {
        Some(stype(OP_SD, c_sdsp_uimm(w) as u32, SP, c_rs2_of(w)))
    }
}

/// C.SLLI, its shift amount cut to the configured mask; `rd = 0` or a zero
/// amount is a HINT.
pub open spec fn spec_cslli(w: u32, config: &FactoryConfig) -> Option<Instruction> {
    if rd_of(w) != 0 && c_uimm(w) != 0 {
        Some(itype(OP_SLLI, rd_of(w), rd_of(w), (c_uimm(w) as u32) & (config.shift_mask() as u32)))
    } else {
        hint(config)
    }
}

/// C.SRAI and C.SRLI, the shift amount cut to the configured mask.
pub open spec fn spec_c_shift(op: InstructionOpcode, w: u32, config: &FactoryConfig) -> Option<
    Instruction,
> {
    Some(itype(op, creg(w, 7), creg(w, 7), (c_uimm(w) as u32) & (config.shift_mask() as u32)))
}

/// C.SUBW, on 64- and 128-bit registers only.
pub open spec fn spec_csubw(w: u32, config: &FactoryConfig) -> Option<Instruction> {
    if config.is_rv32() {
        None
    } else {
        Some(rtype(OP_SUBW, creg(w, 7), creg(w, 7), creg(w, 2)))
    }
}

/// C.SW.
pub open spec fn spec_csw(w: u32) -> Option<Instruction> {
    Some(stype(OP_SW, c_lw_uimm(w) as u32, creg(w, 7), creg(w, 2)))
}

/// C.SWSP.
pub open spec fn spec_cswsp(w: u32) -> Option<Instruction> {
    Some(stype(OP_SW, c_swsp_uimm(w) as u32, SP, c_rs2_of(w)))
}

/// The no-op where HINTs are defined, else `None`.
fn hint_or_none(config: &FactoryConfig) -> (r: Option<Instruction>)
    ensures
        r == hint(config),
{
    if config.version() >= 1 {
        Some(nop_new())
    } else {
        None
    }
}

/// C.EBREAK, C.JALR or C.ADD, told apart by `rd` and `rs2`.
pub fn cadd_ebreak_jalr(w: u32, _opcode: InstructionOpcode, config: &FactoryConfig) -> (r: Option<
    Instruction,
>)
    ensures
        r == spec_cadd_ebreak_jalr(w, config),
{
    let rd = rd(w);
    let rs2 = c_rs2(w);
    if rs2 == 0 {
        if rd == 0 {
            Some(blank_new(OP_EBREAK))
        } else {
            Some(itype_new_s(OP_JALR, RA, rd, 0))
        }
    } else if rd != 0 {
        Some(rtype_new(OP_ADD, rd, rd, rs2))
    } else {
        hint_or_none(config)
    }
}

/// C.ADDI, or the no-op where `rd` or the immediate is zero.
pub fn caddi_cnop(w: u32, _opcode: InstructionOpcode, config: &FactoryConfig) -> (r: Option<
    Instruction,
>)
    ensures
        r == spec_caddi_cnop(w, config),
{
    let nzimm = immediate(w);
    let rd = rd(w);
    if rd != 0 && nzimm != 0 {
        Some(itype_new_s(OP_ADDI, rd, rd, nzimm))
    } else {
        hint_or_none(config)
    }
}

/// C.ADDI16SP: adds a multiple of 16 to `sp`.
pub fn caddi16sp(w: u32, _opcode: InstructionOpcode, _config: &FactoryConfig) -> (r: Option<
    Instruction,
>)
    ensures
        r == spec_caddi16sp(w),
{
    let nzimm = addi16sp_immediate(w);
    if nzimm != 0 {
        Some(itype_new_s(OP_ADDI, SP, SP, nzimm))
    } else {
        None
    }
}

/// C.ADDI4SPN: `rd'` takes `sp` plus a multiple of 4.
pub fn caddi4spn(w: u32, _opcode: InstructionOpcode, _config: &FactoryConfig) -> (r: Option<
    Instruction,
>)
    ensures
        r == spec_caddi4spn(w),
{
    let nzuimm = addi4spn_uimmediate(w);
    if nzuimm != 0 {
        Some(itype_new_u(OP_ADDI, compact_register_number(w, 2), SP, nzuimm))
    } else {
        None
    }
}

/// C.JAL on 32-bit registers, C.ADDIW on wider ones.
pub fn caddiw_jal(w: u32, _opcode: InstructionOpcode, config: &FactoryConfig) -> (r: Option<
    Instruction,
>)
    ensures
        r == spec_caddiw_jal(w, config),
{
    if config.rv32() {
        Some(utype_new_s(OP_JAL, RA, j_immediate(w)))
    } else {
        let rd = rd(w);
        if rd != 0 {
            Some(itype_new_s(OP_ADDIW, rd, rd, immediate(w)))
        } else {
            None
        }
    }
}

/// C.ADDW.
pub fn caddw(w: u32, _opcode: InstructionOpcode, config: &FactoryConfig) -> (r: Option<
    Instruction,
>)
    ensures
        r == spec_caddw(w, config),
{
    let rd = compact_register_number(w, 7);
    if config.rv32() {
        return None;
    }
    Some(rtype_new(OP_ADDW, rd, rd, compact_register_number(w, 2)))
}

/// C.AND.
pub fn cand(w: u32, _opcode: InstructionOpcode, _config: &FactoryConfig) -> (r: Option<
    Instruction,
>)
    ensures
        r == spec_c_alu(OP_AND, w),
{
    let rd = compact_register_number(w, 7);
    Some(rtype_new(OP_AND, rd, rd, compact_register_number(w, 2)))
}

/// C.ANDI.
pub fn candi(w: u32, _opcode: InstructionOpcode, _config: &FactoryConfig) -> (r: Option<
    Instruction,
>)
    ensures
        r == spec_candi(w),
{
    let rd = compact_register_number(w, 7);
    Some(itype_new_s(OP_ANDI, rd, rd, immediate(w)))
}

/// C.BEQZ.
pub fn cbeqz(w: u32, _opcode: InstructionOpcode, _config: &FactoryConfig) -> (r: Option<
    Instruction,
>)
    ensures
        r == spec_c_branch(OP_BEQ, w),
{
    Some(stype_new_s(OP_BEQ, b_immediate(w), compact_register_number(w, 7), 0))
}

/// C.BNEZ.
pub fn cbnez(w: u32, _opcode: InstructionOpcode, _config: &FactoryConfig) -> (r: Option<
    Instruction,
>)
    ensures
        r == spec_c_branch(OP_BNE, w),
{
    Some(stype_new_s(OP_BNE, b_immediate(w), compact_register_number(w, 7), 0))
}

/// C.J.
pub fn cj(w: u32, _opcode: InstructionOpcode, _config: &FactoryConfig) -> (r: Option<Instruction>)
    ensures
        r == spec_cj(w),
{
    Some(utype_new_s(OP_JAL, 0, j_immediate(w)))
}

/// C.JR or C.MV, told apart by `rs2`.
pub fn cjr_cmv(w: u32, _opcode: InstructionOpcode, config: &FactoryConfig) -> (r: Option<
    Instruction,
>)
    ensures
        r == spec_cjr_cmv(w, config),
{
    let rs1 = rd(w);
    let rs2 = c_rs2(w);
    if rs2 == 0 {
        if rs1 != 0 {
            Some(itype_new_s(OP_JALR, 0, rs1, 0))
        } else {
            None
        }
    } else if rs1 != 0 {
        Some(rtype_new(OP_ADD, rs1, 0, rs2))
    } else {
        hint_or_none(config)
    }
}

/// C.LD.
pub fn cld(w: u32, _opcode: InstructionOpcode, config: &FactoryConfig) -> (r: Option<Instruction>)
    ensures
        r == spec_cld(w, config),
{
    if config.rv32() {
        return None;
    }
    Some(
        itype_new_u(
            OP_LD,
            compact_register_number(w, 2),
            compact_register_number(w, 7),
            fld_uimmediate(w),
        ),
    )
}

/// C.LDSP.
pub fn cldsp(w: u32, _opcode: InstructionOpcode, config: &FactoryConfig) -> (r: Option<
    Instruction,
>)
    ensures
        r == spec_cldsp(w, config),
{
    if config.rv32() {
        return None;
    }
    let rd = rd(w);
    if rd != 0 {
        Some(itype_new_u(OP_LD, rd, SP, fldsp_uimmediate(w)))
    } else {
        None
    }
}

/// C.LI.
pub fn cli(w: u32, _opcode: InstructionOpcode, config: &FactoryConfig) -> (r: Option<Instruction>)
    ensures
        r == spec_cli(w, config),
{
    let rd = rd(w);
    if rd != 0 {
        Some(itype_new_s(OP_ADDI, rd, 0, immediate(w)))
    } else {
        hint_or_none(config)
    }
}

/// C.LUI, or C.ADDI16SP where `rd = 2`: the two share one mask.
pub fn clui(w: u32, opcode: InstructionOpcode, config: &FactoryConfig) -> (r: Option<Instruction>)
    ensures
        r == spec_clui(w, config),
{
    if rd(w) == SP {
        return caddi16sp(w, opcode, config);
    }
    let imm = immediate(w) * 4096;
    if imm == 0 {
        return None;
    }
    let rd = rd(w);
    if rd != 0 {
        Some(utype_new_s(OP_LUI, rd, imm))
    } else {
        hint_or_none(config)
    }
}

/// C.LW.
pub fn clw(w: u32, _opcode: InstructionOpcode, _config: &FactoryConfig) -> (r: Option<Instruction>)
    ensures
        r == spec_clw(w),
{
    Some(
        itype_new_u(
            OP_LW,
            compact_register_number(w, 2),
            compact_register_number(w, 7),
            sw_uimmediate(w),
        ),
    )
}

/// C.LWSP.
pub fn clwsp(w: u32, _opcode: InstructionOpcode, _config: &FactoryConfig) -> (r: Option<
    Instruction,
>)
    ensures
        r == spec_clwsp(w),
{
    let rd = rd(w);
    if rd != 0 {
        Some(itype_new_u(OP_LW, rd, SP, lwsp_uimmediate(w)))
    } else {
        None
    }
}

/// C.OR.
pub fn cor(w: u32, _opcode: InstructionOpcode, _config: &FactoryConfig) -> (r: Option<Instruction>)
    ensures
        r == spec_c_alu(OP_OR, w),
{
    let rd = compact_register_number(w, 7);
    Some(rtype_new(OP_OR, rd, rd, compact_register_number(w, 2)))
}

/// C.SD.
pub fn csd(w: u32, _opcode: InstructionOpcode, config: &FactoryConfig) -> (r: Option<Instruction>)
    ensures
        r == spec_csd(w, config),
{
    if config.rv32() {
        None
    } else {
        Some(
            stype_new_u(
                OP_SD,
                fld_uimmediate(w),
                compact_register_number(w, 7),
                compact_register_number(w, 2),
            ),
        )
    }
}

/// C.SDSP.
pub fn csdsp(w: u32, _opcode: InstructionOpcode, config: &FactoryConfig) -> (r: Option<
    Instruction,
>)
    ensures
        r == spec_csdsp(w, config),
{
    if config.rv32() {
        None
    } else {
        Some(stype_new_u(OP_SD, fsdsp_uimmediate(w), SP, c_rs2(w)))
    }
}

/// C.SLLI.
pub fn cslli(w: u32, _opcode: InstructionOpcode, config: &FactoryConfig) -> (r: Option<
    Instruction,
>)
    ensures
        r == spec_cslli(w, config),
{
    let uimm = uimmediate(w);
    let rd = rd(w);
    if rd != 0 && uimm != 0 {
        Some(itype_new_u(OP_SLLI, rd, rd, uimm & (config.shift_masks() as u32)))
    } else {
        hint_or_none(config)
    }
}

/// C.SRAI.
pub fn csrai(w: u32, _opcode: InstructionOpcode, config: &FactoryConfig) -> (r: Option<
    Instruction,
>)
    ensures
        r == spec_c_shift(OP_SRAI, w, config),
{
    let rd = compact_register_number(w, 7);
    let uimm = uimmediate(w);
    Some(itype_new_u(OP_SRAI, rd, rd, uimm & (config.shift_masks() as u32)))
}

/// C.SRLI.
pub fn csrli(w: u32, _opcode: InstructionOpcode, config: &FactoryConfig) -> (r: Option<
    Instruction,
>)
    ensures
        r == spec_c_shift(OP_SRLI, w, config),
{
    let rd = compact_register_number(w, 7);
    let uimm = uimmediate(w);
    Some(itype_new_u(OP_SRLI, rd, rd, uimm & (config.shift_masks() as u32)))
}

/// C.SUB.
pub fn csub(w: u32, _opcode: InstructionOpcode, _config: &FactoryConfig) -> (r: Option<
    Instruction,
>)
    ensures
        r == spec_c_alu(OP_SUB, w),
{
    let rd = compact_register_number(w, 7);
    Some(rtype_new(OP_SUB, rd, rd, compact_register_number(w, 2)))
}

/// C.SUBW.
pub fn csubw(w: u32, _opcode: InstructionOpcode, config: &FactoryConfig) -> (r: Option<
    Instruction,
>)
    ensures
        r == spec_csubw(w, config),
{
    let rd = compact_register_number(w, 7);
    if config.rv32() {
        return None;
    }
    Some(rtype_new(OP_SUBW, rd, rd, compact_register_number(w, 2)))
}

/// C.SW.
pub fn csw(w: u32, _opcode: InstructionOpcode, _config: &FactoryConfig) -> (r: Option<Instruction>)
    ensures
        r == spec_csw(w),
{
    Some(
        stype_new_u(
            OP_SW,
            sw_uimmediate(w),
            compact_register_number(w, 7),
            compact_register_number(w, 2),
        ),
    )
}

/// C.SWSP.
pub fn cswsp(w: u32, _opcode: InstructionOpcode, _config: &FactoryConfig) -> (r: Option<
    Instruction,
>)
    ensures
        r == spec_cswsp(w),
{
    Some(stype_new_u(OP_SW, swsp_uimmediate(w), SP, c_rs2(w)))
}

/// C.XOR.
pub fn cxor(w: u32, _opcode: InstructionOpcode, _config: &FactoryConfig) -> (r: Option<
    Instruction,
>)
    ensures
        r == spec_c_alu(OP_XOR, w),
{
    let rd = compact_register_number(w, 7);
    Some(rtype_new(OP_XOR, rd, rd, compact_register_number(w, 2)))
}

} // verus!
