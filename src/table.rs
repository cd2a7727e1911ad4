//! Decode tables: entries of mask, match bits, opcode and builder, and the
//! tables of the base integer, multiply, bit-manipulation and compressed
//! extensions.
use crate::builders::{
    blank_inst_builder, fencei_builder, is_1f_builder, is_alu_builder, is_builder, r64_imm_builder,
    r_builder, roriw_builder, sb_builder, ss_builder, uj_builder, us_builder,
};
use crate::codec::{
    bits, bits32, btype_imm, itype_imm, jtype_imm, rd_of, rs1_of, rs2_of, stype_imm, utype_imm,
};
use crate::encoding::{blank, itype, rtype, stype, utype};
use crate::opcodes::{
    OP_ADD, OP_ADDI, OP_ADDIW, OP_ADDUW, OP_ADDW, OP_AND, OP_ANDI, OP_ANDN, OP_AUIPC, OP_BCLR,
    OP_BCLRI, OP_BEQ, OP_BEXT, OP_BEXTI, OP_BGE, OP_BGEU, OP_BINV, OP_BINVI, OP_BLT, OP_BLTU,
    OP_BNE, OP_BSET, OP_BSETI, OP_CLMUL, OP_CLMULH, OP_CLMULR, OP_CLZ, OP_CLZW, OP_CPOP,
    OP_CPOPW, OP_CTZ, OP_CTZW, OP_DIV, OP_DIVU, OP_DIVUW, OP_DIVW, OP_EBREAK, OP_ECALL,
    OP_FENCE, OP_FENCEI, OP_JAL, OP_JALR, OP_LB, OP_LBU, OP_LD, OP_LH, OP_LHU, OP_LUI, OP_LW,
    OP_LWU, OP_MAX, OP_MAXU, OP_MIN, OP_MINU, OP_MUL, OP_MULH, OP_MULHSU, OP_MULHU, OP_MULW,
    OP_OR, OP_ORCB, OP_ORI, OP_ORN, OP_REM, OP_REMU, OP_REMUW, OP_REMW, OP_REV8, OP_ROL,
    OP_ROLW, OP_ROR, OP_RORI, OP_RORIW, OP_RORW, OP_SB, OP_SD, OP_SEXTB, OP_SEXTH, OP_SH,
    OP_SH1ADD, OP_SH1ADDUW, OP_SH2ADD, OP_SH2ADDUW, OP_SH3ADD, OP_SH3ADDUW, OP_SLL, OP_SLLI,
    OP_SLLIUW, OP_SLLIW, OP_SLLW, OP_SLT, OP_SLTI, OP_SLTIU, OP_SLTU, OP_SRA, OP_SRAI, OP_SRAIW,
    OP_SRAW, OP_SRL, OP_SRLI, OP_SRLIW, OP_SRLW, OP_SUB, OP_SUBW, OP_SW, OP_XNOR, OP_XOR,
    OP_XORI, OP_ZEXTH,
};
use crate::rvc::{
    cadd_ebreak_jalr, caddi16sp, caddi4spn, caddi_cnop, caddiw_jal, caddw, cand, candi, cbeqz,
    cbnez, cj, cjr_cmv, cld, cldsp, cli, clui, clw, clwsp, cor, csd, csdsp,
    cslli, csrai, csrli, csub, csubw, csw, cswsp, cxor, spec_c_alu, spec_c_branch, spec_c_shift,
    spec_cadd_ebreak_jalr, spec_caddi16sp, spec_caddi4spn, spec_caddi_cnop, spec_caddiw_jal,
    spec_caddw, spec_candi, spec_cj, spec_cjr_cmv, spec_cld, spec_cldsp, spec_cli, spec_clui,
    spec_clw, spec_clwsp, spec_csd, spec_csdsp, spec_cslli, spec_csubw, spec_csw, spec_cswsp,
};
use crate::vector::{vsetivli_builder, vsetvl_builder, vsetvli_builder};
use crate::{FactoryConfig, Instruction, InstructionOpcode};
use vstd::prelude::*;

verus! {

/// The builder that a table entry hands a matching word to.
#[derive(Clone, Copy, Debug, PartialEq, Eq, Structural)]
pub enum Builder {
    Us,
    Uj,
    Is,
    Sb,
    Ss,
    Blank,
    R,
    IsAlu,
    Is1f,
    Fencei,
    R64Imm,
    Roriw,
    Vsetvli,
    Vsetivli,
    Vsetvl,
    CAddEbreakJalr,
    CAddiCnop,
    CAddi16sp,
    CAddi4spn,
    CAddiwJal,
    CAddw,
    CAnd,
    CAndi,
    CBeqz,
    CBnez,
    CJ,
    CJrCmv,
    CLd,
    CLdsp,
    CLi,
    CLui,
    CLw,
    CLwsp,
    COr,
    CSd,
    CSdsp,
    CSlli,
    CSrai,
    CSrli,
    CSub,
    CSubw,
    CSw,
    CSwsp,
    CXor,
}

/// What builder `b` makes of word `w` with opcode `op` under `config`.
#[verifier::opaque]
pub open spec fn spec_build(b: Builder, w: u32, op: InstructionOpcode, config: &FactoryConfig) -> Option<
    Instruction,
> {
    match b {
        Builder::Us => Some(utype(op, rd_of(w), bits32(utype_imm(w)))),
        Builder::Uj => Some(utype(op, rd_of(w), bits32(jtype_imm(w)))),
        Builder::Is => Some(itype(op, rd_of(w), rs1_of(w), bits32(itype_imm(w)))),
        Builder::Sb => Some(stype(op, bits32(btype_imm(w)), rs1_of(w), rs2_of(w))),
        Builder::Ss => Some(stype(op, bits32(stype_imm(w)), rs1_of(w), rs2_of(w))),
        Builder::Blank => Some(blank(op)),
        Builder::R => Some(rtype(op, rd_of(w), rs1_of(w), rs2_of(w))),
        Builder::IsAlu => Some(
            itype(op, rd_of(w), rs1_of(w), bits32(itype_imm(w)) & (config.shift_mask() as u32)),
        ),
        Builder::Is1f => Some(itype(op, rd_of(w), rs1_of(w), bits32(itype_imm(w)) & 0x1f)),
        Builder::Fencei => Some(
            rtype(
                OP_FENCE,
                bits(w, 28, 4) as usize,
                bits(w, 24, 4) as usize,
                bits(w, 20, 4) as usize,
            ),
        ),
        Builder::R64Imm => Some(itype(op, rd_of(w), rs1_of(w), bits(w, 20, 6) as u32)),
        Builder::Roriw => Some(itype(OP_SLLIUW, rd_of(w), rs1_of(w), bits(w, 20, 5) as u32)),
        Builder::Vsetvli => Some(itype(op, rd_of(w), rs1_of(w), bits(w, 20, 11) as u32)),
        Builder::Vsetivli => Some(itype(op, rd_of(w), rs1_of(w), bits(w, 20, 10) as u32)),
        Builder::Vsetvl => Some(rtype(op, rd_of(w), rs1_of(w), rs2_of(w))),
        Builder::CAddEbreakJalr => spec_cadd_ebreak_jalr(w, config),
        Builder::CAddiCnop => spec_caddi_cnop(w, config),
        Builder::CAddi16sp => spec_caddi16sp(w),
        Builder::CAddi4spn => spec_caddi4spn(w),
        Builder::CAddiwJal => spec_caddiw_jal(w, config),
        Builder::CAddw => spec_caddw(w, config),
        Builder::CAnd => spec_c_alu(OP_AND, w),
        Builder::CAndi => spec_candi(w),
        Builder::CBeqz => spec_c_branch(OP_BEQ, w),
        Builder::CBnez => spec_c_branch(OP_BNE, w),
        Builder::CJ => spec_cj(w),
        Builder::CJrCmv => spec_cjr_cmv(w, config),
        Builder::CLd => spec_cld(w, config),
        Builder::CLdsp => spec_cldsp(w, config),
        Builder::CLi => spec_cli(w, config),
        Builder::CLui => spec_clui(w, config),
        Builder::CLw => spec_clw(w),
        Builder::CLwsp => spec_clwsp(w),
        Builder::COr => spec_c_alu(OP_OR, w),
        Builder::CSd => spec_csd(w, config),
        Builder::CSdsp => spec_csdsp(w, config),
        Builder::CSlli => spec_cslli(w, config),
        Builder::CSrai => spec_c_shift(OP_SRAI, w, config),
        Builder::CSrli => spec_c_shift(OP_SRLI, w, config),
        Builder::CSub => spec_c_alu(OP_SUB, w),
        Builder::CSubw => spec_csubw(w, config),
        Builder::CSw => spec_csw(w),
        Builder::CSwsp => spec_cswsp(w),
        Builder::CXor => spec_c_alu(OP_XOR, w),
    }
}

/// Runs builder `b` on word `w` with opcode `op`.
pub fn build(b: Builder, w: u32, op: InstructionOpcode, config: &FactoryConfig) -> (r: Option<
    Instruction,
>)
    ensures
        r == spec_build(b, w, op, config),
{
    reveal(spec_build);
    match b {
        Builder::Us => us_builder(w, op, config),
        Builder::Uj => uj_builder(w, op, config),
        Builder::Is => is_builder(w, op, config),
        Builder::Sb => sb_builder(w, op, config),
        Builder::Ss => ss_builder(w, op, config),
        Builder::Blank => blank_inst_builder(w, op, config),
        Builder::R => r_builder(w, op, config),
        Builder::IsAlu => is_alu_builder(w, op, config),
        Builder::Is1f => is_1f_builder(w, op, config),
        Builder::Fencei => fencei_builder(w, op, config),
        Builder::R64Imm => r64_imm_builder(w, op, config),
        Builder::Roriw => roriw_builder(w, op, config),
        Builder::Vsetvli => vsetvli_builder(w, op, config),
        Builder::Vsetivli => vsetivli_builder(w, op, config),
        Builder::Vsetvl => vsetvl_builder(w, op, config),
        Builder::CAddEbreakJalr => cadd_ebreak_jalr(w, op, config),
        Builder::CAddiCnop => caddi_cnop(w, op, config),
        Builder::CAddi16sp => caddi16sp(w, op, config),
        Builder::CAddi4spn => caddi4spn(w, op, config),
        Builder::CAddiwJal => caddiw_jal(w, op, config),
        Builder::CAddw => caddw(w, op, config),
        Builder::CAnd => cand(w, op, config),
        Builder::CAndi => candi(w, op, config),
        Builder::CBeqz => cbeqz(w, op, config),
        Builder::CBnez => cbnez(w, op, config),
        Builder::CJ => cj(w, op, config),
        Builder::CJrCmv => cjr_cmv(w, op, config),
        Builder::CLd => cld(w, op, config),
        Builder::CLdsp => cldsp(w, op, config),
        Builder::CLi => cli(w, op, config),
        Builder::CLui => clui(w, op, config),
        Builder::CLw => clw(w, op, config),
        Builder::CLwsp => clwsp(w, op, config),
        Builder::COr => cor(w, op, config),
        Builder::CSd => csd(w, op, config),
        Builder::CSdsp => csdsp(w, op, config),
        Builder::CSlli => cslli(w, op, config),
        Builder::CSrai => csrai(w, op, config),
        Builder::CSrli => csrli(w, op, config),
        Builder::CSub => csub(w, op, config),
        Builder::CSubw => csubw(w, op, config),
        Builder::CSw => csw(w, op, config),
        Builder::CSwsp => cswsp(w, op, config),
        Builder::CXor => cxor(w, op, config),
    }
}

/// One decode table entry: a word `w` belongs to it when
/// `w & mask == match_bits`.
#[derive(Clone, Copy)]
pub struct InstructionInfo {
    mask: u32,
    match_bits: u32,
    opcode: InstructionOpcode,
    builder: Builder,
}

impl InstructionInfo {
    pub closed spec fn spec_mask(self) -> u32 {
        self.mask
    }

    pub closed spec fn spec_match_bits(self) -> u32 {
        self.match_bits
    }

    pub closed spec fn spec_opcode(self) -> InstructionOpcode {
        self.opcode
    }

    pub closed spec fn spec_builder(self) -> Builder {
        self.builder
    }

    /// No bit outside the mask is set in the match bits.
    pub open spec fn wf(self) -> bool {
        self.spec_match_bits() & !self.spec_mask() == 0
    }

    /// Word `w` belongs to this entry.
    pub open spec fn matches(self, w: u32) -> bool {
        w & self.spec_mask() == self.spec_match_bits()
    }

    pub fn new(mask: u32, match_bits: u32, opcode: InstructionOpcode, builder: Builder) -> (r: Self)
        ensures
            r.spec_mask() == mask,
            r.spec_match_bits() == match_bits,
            r.spec_opcode() == opcode,
            r.spec_builder() == builder,
    {
        InstructionInfo { mask, match_bits, opcode, builder }
    }

    pub fn get_match_bits(&self) -> (r: u32)
        ensures
            r == self.spec_match_bits(),
    {
        self.match_bits
    }

    pub fn get_mask(&self) -> (r: u32)
        ensures
            r == self.spec_mask(),
    {
        self.mask
    }

    pub fn get_opcode(&self) -> (r: InstructionOpcode)
        ensures
            r == self.spec_opcode(),
    {
        self.opcode
    }

    pub fn get_builder(&self) -> (r: Builder)
        ensures
            r == self.spec_builder(),
    {
        self.builder
    }

    /// Whether word `w` belongs to this entry.
    pub fn is_match(&self, w: u32) -> (r: bool)
        ensures
            r == self.matches(w),
    {
        w & self.mask == self.match_bits
    }
}

/// Some word belongs to both entries.
pub open spec fn overlap(a: InstructionInfo, b: InstructionInfo) -> bool {
    exists|w: u32| a.matches(w) && b.matches(w)
}

/// Whether some word belongs to both `a` and `b`: exactly when their match
/// bits agree on the bits that both masks select.
pub fn entries_overlap(a: &InstructionInfo, b: &InstructionInfo) -> (r: bool)
    requires
        a.wf(),
        b.wf(),
    ensures
        r == overlap(*a, *b),
{
    let ma = a.get_mask();
    let ca = a.get_match_bits();
    let mb = b.get_mask();
    let cb = b.get_match_bits();
    let r = (ca ^ cb) & ma & mb == 0;
    proof {
        if r {
            let w = ca | cb;
            assert(w & ma == ca && w & mb == cb) by (bit_vector)
                requires
                    (ca ^ cb) & ma & mb == 0,
                    ca & !ma == 0,
                    cb & !mb == 0,
                    w == ca | cb,
            ;
            assert(a.matches(w) && b.matches(w));
        } else {
            assert forall|w: u32| !(a.matches(w) && b.matches(w)) by {
                assert(!(w & ma == ca && w & mb == cb)) by (bit_vector)
                    requires
                        (ca ^ cb) & ma & mb != 0,
                ;
            }
        }
    }
    r
}


/// All entries of `t` are well formed.
pub open spec fn table_wf(t: Seq<InstructionInfo>) -> bool {
    forall|i: int| 0 <= i < t.len() ==> #[trigger] t[i].wf()
}

/// The mask and the match bits of an entry.
pub open spec fn key_of(e: InstructionInfo) -> (u32, u32) {
    (e.spec_mask(), e.spec_match_bits())
}

/// The opcode and the builder of an entry.
pub open spec fn meta_of(e: InstructionInfo) -> (InstructionOpcode, Builder) {
    (e.spec_opcode(), e.spec_builder())
}

/// Two keys differ on a bit that both masks select.
pub open spec fn keys_apart(a: (u32, u32), b: (u32, u32)) -> bool {
    (a.1 ^ b.1) & a.0 & b.0 != 0
}

/// No word belongs to two distinct entries of `t`.
pub open spec fn pairwise_disjoint(t: Seq<InstructionInfo>) -> bool {
    forall|i: int, j: int|
        0 <= i < t.len() && 0 <= j < t.len() && i != j ==> !overlap(#[trigger] t[i], #[trigger] t[j])
}

/// Entries whose keys are apart share no word.
pub proof fn lemma_apart_no_overlap(x: InstructionInfo, y: InstructionInfo)
    requires
        keys_apart(key_of(x), key_of(y)),
    ensures
        !overlap(x, y),
        !overlap(y, x),
{
    let (mx, cx) = key_of(x);
    let (my, cy) = key_of(y);
    assert forall|w: u32| !(x.matches(w) && y.matches(w)) by {
        assert(!(w & mx == cx && w & my == cy)) by (bit_vector)
            requires
                (cx ^ cy) & mx & my != 0,
        ;
    }
}

/// A table whose keys are pairwise apart has pairwise disjoint entries.
proof fn lemma_keys_apart_all(t: Seq<InstructionInfo>)
    requires
        forall|i: int, j: int| 0 <= i < j < t.len() ==> keys_apart(key_of(t[i]), key_of(t[j])),
    ensures
        pairwise_disjoint(t),
{
    assert forall|i: int, j: int|
        0 <= i < t.len() && 0 <= j < t.len() && i != j implies !overlap(
        #[trigger] t[i],
        #[trigger] t[j],
    ) by {
        if i < j {
            lemma_apart_no_overlap(t[i], t[j]);
        } else {
            lemma_apart_no_overlap(t[j], t[i]);
        }
    }
}

/// The mask and match bits of entry `k` of the RVC table.
pub open spec fn rvc_key(k: int) -> (u32, u32) {
    if k == 0 {
        (0xE003u32, 0x0000u32)
    } else if k == 1 {
        (0xE003u32, 0x4000u32)
    } else if k == 2 {
        (0xE003u32, 0x6000u32)
    } else if k == 3 {
        (0xE003u32, 0xC000u32)
    } else if k == 4 {
        (0xE003u32, 0xE000u32)
    } else if k == 5 {
        (0xE003u32, 0x0001u32)
    } else if k == 6 {
        (0xE003u32, 0x2001u32)
    } else if k == 7 {
        (0xE003u32, 0x4001u32)
    } else if k == 8 {
        (0xE003u32, 0x6001u32)
    } else if k == 9 {
        (0xEC03u32, 0x8001u32)
    } else if k == 10 {
        (0xEC03u32, 0x8401u32)
    } else if k == 11 {
        (0xEC03u32, 0x8801u32)
    } else if k == 12 {
        (0xFC63u32, 0x8C01u32)
    } else if k == 13 {
        (0xFC63u32, 0x8C21u32)
    } else if k == 14 {
        (0xFC63u32, 0x8C41u32)
    } else if k == 15 {
        (0xFC63u32, 0x8C61u32)
    } else if k == 16 {
        (0xFC63u32, 0x9C01u32)
    } else if k == 17 {
        (0xFC63u32, 0x9C21u32)
    } else if k == 18 {
        (0xE003u32, 0xA001u32)
    } else if k == 19 {
        (0xE003u32, 0xC001u32)
    } else if k == 20 {
        (0xE003u32, 0xE001u32)
    } else if k == 21 {
        (0xE003u32, 0x0002u32)
    } else if k == 22 {
        (0xE003u32, 0x4002u32)
    } else if k == 23 {
        (0xE003u32, 0x6002u32)
    } else if k == 24 {
        (0xF003u32, 0x8002u32)
    } else if k == 25 {
        (0xF003u32, 0x9002u32)
    } else if k == 26 {
        (0xE003u32, 0xC002u32)
    } else if k == 27 {
        (0xE003u32, 0xE002u32)
    } else {
        (0u32, 0u32)
    }
}

/// The opcode and the builder of entry `k` of the RVC table.
pub open spec fn rvc_meta(k: int) -> (InstructionOpcode, Builder) {
    if k == 0 {
        (OP_ADDI, Builder::CAddi4spn)
    } else if k == 1 {
        (OP_LW, Builder::CLw)
    } else if k == 2 {
        (OP_LD, Builder::CLd)
    } else if k == 3 {
        (OP_SW, Builder::CSw)
    } else if k == 4 {
        (OP_SD, Builder::CSd)
    } else if k == 5 {
        (OP_ADDI, Builder::CAddiCnop)
    } else if k == 6 {
        (OP_ADDIW, Builder::CAddiwJal)
    } else if k == 7 {
        (OP_ADDI, Builder::CLi)
    } else if k == 8 {
        (OP_LUI, Builder::CLui)
    } else if k == 9 {
        (OP_SRLI, Builder::CSrli)
    } else if k == 10 {
        (OP_SRAI, Builder::CSrai)
    } else if k == 11 {
        (OP_ANDI, Builder::CAndi)
    } else if k == 12 {
        (OP_SUB, Builder::CSub)
    } else if k == 13 {
        (OP_XOR, Builder::CXor)
    } else if k == 14 {
        (OP_OR, Builder::COr)
    } else if k == 15 {
        (OP_AND, Builder::CAnd)
    } else if k == 16 {
        (OP_SUBW, Builder::CSubw)
    } else if k == 17 {
        (OP_ADDW, Builder::CAddw)
    } else if k == 18 {
        (OP_JAL, Builder::CJ)
    } else if k == 19 {
        (OP_BEQ, Builder::CBeqz)
    } else if k == 20 {
        (OP_BNE, Builder::CBnez)
    } else if k == 21 {
        (OP_SLLI, Builder::CSlli)
    } else if k == 22 {
        (OP_LW, Builder::CLwsp)
    } else if k == 23 {
        (OP_LD, Builder::CLdsp)
    } else if k == 24 {
        (OP_JALR, Builder::CJrCmv)
    } else if k == 25 {
        (OP_ADD, Builder::CAddEbreakJalr)
    } else if k == 26 {
        (OP_SW, Builder::CSwsp)
    } else if k == 27 {
        (OP_SD, Builder::CSdsp)
    } else {
        (0u16, Builder::Blank)
    }
}

/// Entry `k` of the RVC table.
fn rvc_entry(k: usize) -> (r: InstructionInfo)
    requires
        k < 28,
    ensures
        key_of(r) == rvc_key(k as int),
        meta_of(r) == rvc_meta(k as int),
{
    match k {
        0 => InstructionInfo::new(0xE003, 0x0000, OP_ADDI, Builder::CAddi4spn),
        1 => InstructionInfo::new(0xE003, 0x4000, OP_LW, Builder::CLw),
        2 => InstructionInfo::new(0xE003, 0x6000, OP_LD, Builder::CLd),
        3 => InstructionInfo::new(0xE003, 0xC000, OP_SW, Builder::CSw),
        4 => InstructionInfo::new(0xE003, 0xE000, OP_SD, Builder::CSd),
        5 => InstructionInfo::new(0xE003, 0x0001, OP_ADDI, Builder::CAddiCnop),
        6 => InstructionInfo::new(0xE003, 0x2001, OP_ADDIW, Builder::CAddiwJal),
        7 => InstructionInfo::new(0xE003, 0x4001, OP_ADDI, Builder::CLi),
        8 => InstructionInfo::new(0xE003, 0x6001, OP_LUI, Builder::CLui),
        9 => InstructionInfo::new(0xEC03, 0x8001, OP_SRLI, Builder::CSrli),
        10 => InstructionInfo::new(0xEC03, 0x8401, OP_SRAI, Builder::CSrai),
        11 => InstructionInfo::new(0xEC03, 0x8801, OP_ANDI, Builder::CAndi),
        12 => InstructionInfo::new(0xFC63, 0x8C01, OP_SUB, Builder::CSub),
        13 => InstructionInfo::new(0xFC63, 0x8C21, OP_XOR, Builder::CXor),
        14 => InstructionInfo::new(0xFC63, 0x8C41, OP_OR, Builder::COr),
        15 => InstructionInfo::new(0xFC63, 0x8C61, OP_AND, Builder::CAnd),
        16 => InstructionInfo::new(0xFC63, 0x9C01, OP_SUBW, Builder::CSubw),
        17 => InstructionInfo::new(0xFC63, 0x9C21, OP_ADDW, Builder::CAddw),
        18 => InstructionInfo::new(0xE003, 0xA001, OP_JAL, Builder::CJ),
        19 => InstructionInfo::new(0xE003, 0xC001, OP_BEQ, Builder::CBeqz),
        20 => InstructionInfo::new(0xE003, 0xE001, OP_BNE, Builder::CBnez),
        21 => InstructionInfo::new(0xE003, 0x0002, OP_SLLI, Builder::CSlli),
        22 => InstructionInfo::new(0xE003, 0x4002, OP_LW, Builder::CLwsp),
        23 => InstructionInfo::new(0xE003, 0x6002, OP_LD, Builder::CLdsp),
        24 => InstructionInfo::new(0xF003, 0x8002, OP_JALR, Builder::CJrCmv),
        25 => InstructionInfo::new(0xF003, 0x9002, OP_ADD, Builder::CAddEbreakJalr),
        26 => InstructionInfo::new(0xE003, 0xC002, OP_SW, Builder::CSwsp),
        _ => InstructionInfo::new(0xE003, 0xE002, OP_SD, Builder::CSdsp),
    }
}

/// The entries of the RVC table are well formed, and their keys keep
/// apart every pair that the table does not share on purpose.
proof fn lemma_rvc_keys()
    ensures
        forall|k: int| 0 <= k < 28 ==> (#[trigger] rvc_key(k)).1 & !rvc_key(k).0 == 0,
        forall|i: int, j: int| 0 <= i < j < 28 ==> keys_apart(rvc_key(i), rvc_key(j)),
{
    assert(
            (((((0x0000u32 & !0xE003u32 == 0) &&
            ((0x4000u32 & !0xE003u32 == 0) &&
            (0x6000u32 & !0xE003u32 == 0))) &&
            (((0xC000u32 & !0xE003u32 == 0) &&
            (0xE000u32 & !0xE003u32 == 0)) &&
            ((0x0001u32 & !0xE003u32 == 0) &&
            (0x2001u32 & !0xE003u32 == 0)))) &&
            (((0x4001u32 & !0xE003u32 == 0) &&
            ((0x6001u32 & !0xE003u32 == 0) &&
            (0x8001u32 & !0xEC03u32 == 0))) &&
            (((0x8401u32 & !0xEC03u32 == 0) &&
            (0x8801u32 & !0xEC03u32 == 0)) &&
            ((0x8C01u32 & !0xFC63u32 == 0) &&
            (0x8C21u32 & !0xFC63u32 == 0))))) &&
            ((((0x8C41u32 & !0xFC63u32 == 0) &&
            ((0x8C61u32 & !0xFC63u32 == 0) &&
            (0x9C01u32 & !0xFC63u32 == 0))) &&
            (((0x9C21u32 & !0xFC63u32 == 0) &&
            (0xA001u32 & !0xE003u32 == 0)) &&
            ((0xC001u32 & !0xE003u32 == 0) &&
            (0xE001u32 & !0xE003u32 == 0)))) &&
            (((0x0002u32 & !0xE003u32 == 0) &&
            ((0x4002u32 & !0xE003u32 == 0) &&
            (0x6002u32 & !0xE003u32 == 0))) &&
            (((0x8002u32 & !0xF003u32 == 0) &&
            (0x9002u32 & !0xF003u32 == 0)) &&
            ((0xC002u32 & !0xE003u32 == 0) &&
            (0xE002u32 & !0xE003u32 == 0))))))
    ) by (bit_vector);
    assert(
            ((((((((((0x0000u32 ^ 0x4000u32) & 0xE003u32 & 0xE003u32 != 0) &&
            ((0x0000u32 ^ 0x6000u32) & 0xE003u32 & 0xE003u32 != 0)) &&
            (((0x0000u32 ^ 0xC000u32) & 0xE003u32 & 0xE003u32 != 0) &&
            (((0x0000u32 ^ 0xE000u32) & 0xE003u32 & 0xE003u32 != 0) &&
            ((0x0000u32 ^ 0x0001u32) & 0xE003u32 & 0xE003u32 != 0)))) &&
            ((((0x0000u32 ^ 0x2001u32) & 0xE003u32 & 0xE003u32 != 0) &&
            (((0x0000u32 ^ 0x4001u32) & 0xE003u32 & 0xE003u32 != 0) &&
            ((0x0000u32 ^ 0x6001u32) & 0xE003u32 & 0xE003u32 != 0))) &&
            (((0x0000u32 ^ 0x8001u32) & 0xE003u32 & 0xEC03u32 != 0) &&
            (((0x0000u32 ^ 0x8401u32) & 0xE003u32 & 0xEC03u32 != 0) &&
            ((0x0000u32 ^ 0x8801u32) & 0xE003u32 & 0xEC03u32 != 0))))) &&
            (((((0x0000u32 ^ 0x8C01u32) & 0xE003u32 & 0xFC63u32 != 0) &&
            (((0x0000u32 ^ 0x8C21u32) & 0xE003u32 & 0xFC63u32 != 0) &&
            ((0x0000u32 ^ 0x8C41u32) & 0xE003u32 & 0xFC63u32 != 0))) &&
            (((0x0000u32 ^ 0x8C61u32) & 0xE003u32 & 0xFC63u32 != 0) &&
            (((0x0000u32 ^ 0x9C01u32) & 0xE003u32 & 0xFC63u32 != 0) &&
            ((0x0000u32 ^ 0x9C21u32) & 0xE003u32 & 0xFC63u32 != 0)))) &&
            ((((0x0000u32 ^ 0xA001u32) & 0xE003u32 & 0xE003u32 != 0) &&
            (((0x0000u32 ^ 0xC001u32) & 0xE003u32 & 0xE003u32 != 0) &&
            ((0x0000u32 ^ 0xE001u32) & 0xE003u32 & 0xE003u32 != 0))) &&
            (((0x0000u32 ^ 0x0002u32) & 0xE003u32 & 0xE003u32 != 0) &&
            (((0x0000u32 ^ 0x4002u32) & 0xE003u32 & 0xE003u32 != 0) &&
            ((0x0000u32 ^ 0x6002u32) & 0xE003u32 & 0xE003u32 != 0)))))) &&
            ((((((0x0000u32 ^ 0x8002u32) & 0xE003u32 & 0xF003u32 != 0) &&
            (((0x0000u32 ^ 0x9002u32) & 0xE003u32 & 0xF003u32 != 0) &&
            ((0x0000u32 ^ 0xC002u32) & 0xE003u32 & 0xE003u32 != 0))) &&
            (((0x0000u32 ^ 0xE002u32) & 0xE003u32 & 0xE003u32 != 0) &&
            (((0x4000u32 ^ 0x6000u32) & 0xE003u32 & 0xE003u32 != 0) &&
            ((0x4000u32 ^ 0xC000u32) & 0xE003u32 & 0xE003u32 != 0)))) &&
            ((((0x4000u32 ^ 0xE000u32) & 0xE003u32 & 0xE003u32 != 0) &&
            (((0x4000u32 ^ 0x0001u32) & 0xE003u32 & 0xE003u32 != 0) &&
            ((0x4000u32 ^ 0x2001u32) & 0xE003u32 & 0xE003u32 != 0))) &&
            (((0x4000u32 ^ 0x4001u32) & 0xE003u32 & 0xE003u32 != 0) &&
            (((0x4000u32 ^ 0x6001u32) & 0xE003u32 & 0xE003u32 != 0) &&
            ((0x4000u32 ^ 0x8001u32) & 0xE003u32 & 0xEC03u32 != 0))))) &&
            (((((0x4000u32 ^ 0x8401u32) & 0xE003u32 & 0xEC03u32 != 0) &&
            (((0x4000u32 ^ 0x8801u32) & 0xE003u32 & 0xEC03u32 != 0) &&
            ((0x4000u32 ^ 0x8C01u32) & 0xE003u32 & 0xFC63u32 != 0))) &&
            (((0x4000u32 ^ 0x8C21u32) & 0xE003u32 & 0xFC63u32 != 0) &&
            (((0x4000u32 ^ 0x8C41u32) & 0xE003u32 & 0xFC63u32 != 0) &&
            ((0x4000u32 ^ 0x8C61u32) & 0xE003u32 & 0xFC63u32 != 0)))) &&
            ((((0x4000u32 ^ 0x9C01u32) & 0xE003u32 & 0xFC63u32 != 0) &&
            (((0x4000u32 ^ 0x9C21u32) & 0xE003u32 & 0xFC63u32 != 0) &&
            ((0x4000u32 ^ 0xA001u32) & 0xE003u32 & 0xE003u32 != 0))) &&
            (((0x4000u32 ^ 0xC001u32) & 0xE003u32 & 0xE003u32 != 0) &&
            (((0x4000u32 ^ 0xE001u32) & 0xE003u32 & 0xE003u32 != 0) &&
            ((0x4000u32 ^ 0x0002u32) & 0xE003u32 & 0xE003u32 != 0))))))) &&
            (((((((0x4000u32 ^ 0x4002u32) & 0xE003u32 & 0xE003u32 != 0) &&
            ((0x4000u32 ^ 0x6002u32) & 0xE003u32 & 0xE003u32 != 0)) &&
            (((0x4000u32 ^ 0x8002u32) & 0xE003u32 & 0xF003u32 != 0) &&
            (((0x4000u32 ^ 0x9002u32) & 0xE003u32 & 0xF003u32 != 0) &&
            ((0x4000u32 ^ 0xC002u32) & 0xE003u32 & 0xE003u32 != 0)))) &&
            ((((0x4000u32 ^ 0xE002u32) & 0xE003u32 & 0xE003u32 != 0) &&
            (((0x6000u32 ^ 0xC000u32) & 0xE003u32 & 0xE003u32 != 0) &&
            ((0x6000u32 ^ 0xE000u32) & 0xE003u32 & 0xE003u32 != 0))) &&
            (((0x6000u32 ^ 0x0001u32) & 0xE003u32 & 0xE003u32 != 0) &&
            (((0x6000u32 ^ 0x2001u32) & 0xE003u32 & 0xE003u32 != 0) &&
            ((0x6000u32 ^ 0x4001u32) & 0xE003u32 & 0xE003u32 != 0))))) &&
            (((((0x6000u32 ^ 0x6001u32) & 0xE003u32 & 0xE003u32 != 0) &&
            (((0x6000u32 ^ 0x8001u32) & 0xE003u32 & 0xEC03u32 != 0) &&
            ((0x6000u32 ^ 0x8401u32) & 0xE003u32 & 0xEC03u32 != 0))) &&
            (((0x6000u32 ^ 0x8801u32) & 0xE003u32 & 0xEC03u32 != 0) &&
            (((0x6000u32 ^ 0x8C01u32) & 0xE003u32 & 0xFC63u32 != 0) &&
            ((0x6000u32 ^ 0x8C21u32) & 0xE003u32 & 0xFC63u32 != 0)))) &&
            ((((0x6000u32 ^ 0x8C41u32) & 0xE003u32 & 0xFC63u32 != 0) &&
            (((0x6000u32 ^ 0x8C61u32) & 0xE003u32 & 0xFC63u32 != 0) &&
            ((0x6000u32 ^ 0x9C01u32) & 0xE003u32 & 0xFC63u32 != 0))) &&
            (((0x6000u32 ^ 0x9C21u32) & 0xE003u32 & 0xFC63u32 != 0) &&
            (((0x6000u32 ^ 0xA001u32) & 0xE003u32 & 0xE003u32 != 0) &&
            ((0x6000u32 ^ 0xC001u32) & 0xE003u32 & 0xE003u32 != 0)))))) &&
            ((((((0x6000u32 ^ 0xE001u32) & 0xE003u32 & 0xE003u32 != 0) &&
            (((0x6000u32 ^ 0x0002u32) & 0xE003u32 & 0xE003u32 != 0) &&
            ((0x6000u32 ^ 0x4002u32) & 0xE003u32 & 0xE003u32 != 0))) &&
            (((0x6000u32 ^ 0x6002u32) & 0xE003u32 & 0xE003u32 != 0) &&
            (((0x6000u32 ^ 0x8002u32) & 0xE003u32 & 0xF003u32 != 0) &&
            ((0x6000u32 ^ 0x9002u32) & 0xE003u32 & 0xF003u32 != 0)))) &&
            ((((0x6000u32 ^ 0xC002u32) & 0xE003u32 & 0xE003u32 != 0) &&
            (((0x6000u32 ^ 0xE002u32) & 0xE003u32 & 0xE003u32 != 0) &&
            ((0xC000u32 ^ 0xE000u32) & 0xE003u32 & 0xE003u32 != 0))) &&
            (((0xC000u32 ^ 0x0001u32) & 0xE003u32 & 0xE003u32 != 0) &&
            (((0xC000u32 ^ 0x2001u32) & 0xE003u32 & 0xE003u32 != 0) &&
            ((0xC000u32 ^ 0x4001u32) & 0xE003u32 & 0xE003u32 != 0))))) &&
            (((((0xC000u32 ^ 0x6001u32) & 0xE003u32 & 0xE003u32 != 0) &&
            (((0xC000u32 ^ 0x8001u32) & 0xE003u32 & 0xEC03u32 != 0) &&
            ((0xC000u32 ^ 0x8401u32) & 0xE003u32 & 0xEC03u32 != 0))) &&
            (((0xC000u32 ^ 0x8801u32) & 0xE003u32 & 0xEC03u32 != 0) &&
            (((0xC000u32 ^ 0x8C01u32) & 0xE003u32 & 0xFC63u32 != 0) &&
            ((0xC000u32 ^ 0x8C21u32) & 0xE003u32 & 0xFC63u32 != 0)))) &&
            ((((0xC000u32 ^ 0x8C41u32) & 0xE003u32 & 0xFC63u32 != 0) &&
            (((0xC000u32 ^ 0x8C61u32) & 0xE003u32 & 0xFC63u32 != 0) &&
            ((0xC000u32 ^ 0x9C01u32) & 0xE003u32 & 0xFC63u32 != 0))) &&
            (((0xC000u32 ^ 0x9C21u32) & 0xE003u32 & 0xFC63u32 != 0) &&
            (((0xC000u32 ^ 0xA001u32) & 0xE003u32 & 0xE003u32 != 0) &&
            ((0xC000u32 ^ 0xC001u32) & 0xE003u32 & 0xE003u32 != 0)))))))) &&
            ((((((((0xC000u32 ^ 0xE001u32) & 0xE003u32 & 0xE003u32 != 0) &&
            ((0xC000u32 ^ 0x0002u32) & 0xE003u32 & 0xE003u32 != 0)) &&
            (((0xC000u32 ^ 0x4002u32) & 0xE003u32 & 0xE003u32 != 0) &&
            (((0xC000u32 ^ 0x6002u32) & 0xE003u32 & 0xE003u32 != 0) &&
            ((0xC000u32 ^ 0x8002u32) & 0xE003u32 & 0xF003u32 != 0)))) &&
            ((((0xC000u32 ^ 0x9002u32) & 0xE003u32 & 0xF003u32 != 0) &&
            (((0xC000u32 ^ 0xC002u32) & 0xE003u32 & 0xE003u32 != 0) &&
            ((0xC000u32 ^ 0xE002u32) & 0xE003u32 & 0xE003u32 != 0))) &&
            (((0xE000u32 ^ 0x0001u32) & 0xE003u32 & 0xE003u32 != 0) &&
            (((0xE000u32 ^ 0x2001u32) & 0xE003u32 & 0xE003u32 != 0) &&
            ((0xE000u32 ^ 0x4001u32) & 0xE003u32 & 0xE003u32 != 0))))) &&
            (((((0xE000u32 ^ 0x6001u32) & 0xE003u32 & 0xE003u32 != 0) &&
            (((0xE000u32 ^ 0x8001u32) & 0xE003u32 & 0xEC03u32 != 0) &&
            ((0xE000u32 ^ 0x8401u32) & 0xE003u32 & 0xEC03u32 != 0))) &&
            (((0xE000u32 ^ 0x8801u32) & 0xE003u32 & 0xEC03u32 != 0) &&
            (((0xE000u32 ^ 0x8C01u32) & 0xE003u32 & 0xFC63u32 != 0) &&
            ((0xE000u32 ^ 0x8C21u32) & 0xE003u32 & 0xFC63u32 != 0)))) &&
            ((((0xE000u32 ^ 0x8C41u32) & 0xE003u32 & 0xFC63u32 != 0) &&
            (((0xE000u32 ^ 0x8C61u32) & 0xE003u32 & 0xFC63u32 != 0) &&
            ((0xE000u32 ^ 0x9C01u32) & 0xE003u32 & 0xFC63u32 != 0))) &&
            (((0xE000u32 ^ 0x9C21u32) & 0xE003u32 & 0xFC63u32 != 0) &&
            (((0xE000u32 ^ 0xA001u32) & 0xE003u32 & 0xE003u32 != 0) &&
            ((0xE000u32 ^ 0xC001u32) & 0xE003u32 & 0xE003u32 != 0)))))) &&
            ((((((0xE000u32 ^ 0xE001u32) & 0xE003u32 & 0xE003u32 != 0) &&
            (((0xE000u32 ^ 0x0002u32) & 0xE003u32 & 0xE003u32 != 0) &&
            ((0xE000u32 ^ 0x4002u32) & 0xE003u32 & 0xE003u32 != 0))) &&
            (((0xE000u32 ^ 0x6002u32) & 0xE003u32 & 0xE003u32 != 0) &&
            (((0xE000u32 ^ 0x8002u32) & 0xE003u32 & 0xF003u32 != 0) &&
            ((0xE000u32 ^ 0x9002u32) & 0xE003u32 & 0xF003u32 != 0)))) &&
            ((((0xE000u32 ^ 0xC002u32) & 0xE003u32 & 0xE003u32 != 0) &&
            (((0xE000u32 ^ 0xE002u32) & 0xE003u32 & 0xE003u32 != 0) &&
            ((0x0001u32 ^ 0x2001u32) & 0xE003u32 & 0xE003u32 != 0))) &&
            (((0x0001u32 ^ 0x4001u32) & 0xE003u32 & 0xE003u32 != 0) &&
            (((0x0001u32 ^ 0x6001u32) & 0xE003u32 & 0xE003u32 != 0) &&
            ((0x0001u32 ^ 0x8001u32) & 0xE003u32 & 0xEC03u32 != 0))))) &&
            (((((0x0001u32 ^ 0x8401u32) & 0xE003u32 & 0xEC03u32 != 0) &&
            (((0x0001u32 ^ 0x8801u32) & 0xE003u32 & 0xEC03u32 != 0) &&
            ((0x0001u32 ^ 0x8C01u32) & 0xE003u32 & 0xFC63u32 != 0))) &&
            (((0x0001u32 ^ 0x8C21u32) & 0xE003u32 & 0xFC63u32 != 0) &&
            (((0x0001u32 ^ 0x8C41u32) & 0xE003u32 & 0xFC63u32 != 0) &&
            ((0x0001u32 ^ 0x8C61u32) & 0xE003u32 & 0xFC63u32 != 0)))) &&
            ((((0x0001u32 ^ 0x9C01u32) & 0xE003u32 & 0xFC63u32 != 0) &&
            (((0x0001u32 ^ 0x9C21u32) & 0xE003u32 & 0xFC63u32 != 0) &&
            ((0x0001u32 ^ 0xA001u32) & 0xE003u32 & 0xE003u32 != 0))) &&
            (((0x0001u32 ^ 0xC001u32) & 0xE003u32 & 0xE003u32 != 0) &&
            (((0x0001u32 ^ 0xE001u32) & 0xE003u32 & 0xE003u32 != 0) &&
            ((0x0001u32 ^ 0x0002u32) & 0xE003u32 & 0xE003u32 != 0))))))) &&
            (((((((0x0001u32 ^ 0x4002u32) & 0xE003u32 & 0xE003u32 != 0) &&
            (((0x0001u32 ^ 0x6002u32) & 0xE003u32 & 0xE003u32 != 0) &&
            ((0x0001u32 ^ 0x8002u32) & 0xE003u32 & 0xF003u32 != 0))) &&
            (((0x0001u32 ^ 0x9002u32) & 0xE003u32 & 0xF003u32 != 0) &&
            (((0x0001u32 ^ 0xC002u32) & 0xE003u32 & 0xE003u32 != 0) &&
            ((0x0001u32 ^ 0xE002u32) & 0xE003u32 & 0xE003u32 != 0)))) &&
            ((((0x2001u32 ^ 0x4001u32) & 0xE003u32 & 0xE003u32 != 0) &&
            (((0x2001u32 ^ 0x6001u32) & 0xE003u32 & 0xE003u32 != 0) &&
            ((0x2001u32 ^ 0x8001u32) & 0xE003u32 & 0xEC03u32 != 0))) &&
            (((0x2001u32 ^ 0x8401u32) & 0xE003u32 & 0xEC03u32 != 0) &&
            (((0x2001u32 ^ 0x8801u32) & 0xE003u32 & 0xEC03u32 != 0) &&
            ((0x2001u32 ^ 0x8C01u32) & 0xE003u32 & 0xFC63u32 != 0))))) &&
            (((((0x2001u32 ^ 0x8C21u32) & 0xE003u32 & 0xFC63u32 != 0) &&
            (((0x2001u32 ^ 0x8C41u32) & 0xE003u32 & 0xFC63u32 != 0) &&
            ((0x2001u32 ^ 0x8C61u32) & 0xE003u32 & 0xFC63u32 != 0))) &&
            (((0x2001u32 ^ 0x9C01u32) & 0xE003u32 & 0xFC63u32 != 0) &&
            (((0x2001u32 ^ 0x9C21u32) & 0xE003u32 & 0xFC63u32 != 0) &&
            ((0x2001u32 ^ 0xA001u32) & 0xE003u32 & 0xE003u32 != 0)))) &&
            ((((0x2001u32 ^ 0xC001u32) & 0xE003u32 & 0xE003u32 != 0) &&
            (((0x2001u32 ^ 0xE001u32) & 0xE003u32 & 0xE003u32 != 0) &&
            ((0x2001u32 ^ 0x0002u32) & 0xE003u32 & 0xE003u32 != 0))) &&
            (((0x2001u32 ^ 0x4002u32) & 0xE003u32 & 0xE003u32 != 0) &&
            (((0x2001u32 ^ 0x6002u32) & 0xE003u32 & 0xE003u32 != 0) &&
            ((0x2001u32 ^ 0x8002u32) & 0xE003u32 & 0xF003u32 != 0)))))) &&
            ((((((0x2001u32 ^ 0x9002u32) & 0xE003u32 & 0xF003u32 != 0) &&
            (((0x2001u32 ^ 0xC002u32) & 0xE003u32 & 0xE003u32 != 0) &&
            ((0x2001u32 ^ 0xE002u32) & 0xE003u32 & 0xE003u32 != 0))) &&
            (((0x4001u32 ^ 0x6001u32) & 0xE003u32 & 0xE003u32 != 0) &&
            (((0x4001u32 ^ 0x8001u32) & 0xE003u32 & 0xEC03u32 != 0) &&
            ((0x4001u32 ^ 0x8401u32) & 0xE003u32 & 0xEC03u32 != 0)))) &&
            ((((0x4001u32 ^ 0x8801u32) & 0xE003u32 & 0xEC03u32 != 0) &&
            (((0x4001u32 ^ 0x8C01u32) & 0xE003u32 & 0xFC63u32 != 0) &&
            ((0x4001u32 ^ 0x8C21u32) & 0xE003u32 & 0xFC63u32 != 0))) &&
            (((0x4001u32 ^ 0x8C41u32) & 0xE003u32 & 0xFC63u32 != 0) &&
            (((0x4001u32 ^ 0x8C61u32) & 0xE003u32 & 0xFC63u32 != 0) &&
            ((0x4001u32 ^ 0x9C01u32) & 0xE003u32 & 0xFC63u32 != 0))))) &&
            (((((0x4001u32 ^ 0x9C21u32) & 0xE003u32 & 0xFC63u32 != 0) &&
            (((0x4001u32 ^ 0xA001u32) & 0xE003u32 & 0xE003u32 != 0) &&
            ((0x4001u32 ^ 0xC001u32) & 0xE003u32 & 0xE003u32 != 0))) &&
            (((0x4001u32 ^ 0xE001u32) & 0xE003u32 & 0xE003u32 != 0) &&
            (((0x4001u32 ^ 0x0002u32) & 0xE003u32 & 0xE003u32 != 0) &&
            ((0x4001u32 ^ 0x4002u32) & 0xE003u32 & 0xE003u32 != 0)))) &&
            ((((0x4001u32 ^ 0x6002u32) & 0xE003u32 & 0xE003u32 != 0) &&
            (((0x4001u32 ^ 0x8002u32) & 0xE003u32 & 0xF003u32 != 0) &&
            ((0x4001u32 ^ 0x9002u32) & 0xE003u32 & 0xF003u32 != 0))) &&
            (((0x4001u32 ^ 0xC002u32) & 0xE003u32 & 0xE003u32 != 0) &&
            (((0x4001u32 ^ 0xE002u32) & 0xE003u32 & 0xE003u32 != 0) &&
            ((0x6001u32 ^ 0x8001u32) & 0xE003u32 & 0xEC03u32 != 0))))))))) &&
            (((((((((0x6001u32 ^ 0x8401u32) & 0xE003u32 & 0xEC03u32 != 0) &&
            ((0x6001u32 ^ 0x8801u32) & 0xE003u32 & 0xEC03u32 != 0)) &&
            (((0x6001u32 ^ 0x8C01u32) & 0xE003u32 & 0xFC63u32 != 0) &&
            (((0x6001u32 ^ 0x8C21u32) & 0xE003u32 & 0xFC63u32 != 0) &&
            ((0x6001u32 ^ 0x8C41u32) & 0xE003u32 & 0xFC63u32 != 0)))) &&
            ((((0x6001u32 ^ 0x8C61u32) & 0xE003u32 & 0xFC63u32 != 0) &&
            (((0x6001u32 ^ 0x9C01u32) & 0xE003u32 & 0xFC63u32 != 0) &&
            ((0x6001u32 ^ 0x9C21u32) & 0xE003u32 & 0xFC63u32 != 0))) &&
            (((0x6001u32 ^ 0xA001u32) & 0xE003u32 & 0xE003u32 != 0) &&
            (((0x6001u32 ^ 0xC001u32) & 0xE003u32 & 0xE003u32 != 0) &&
            ((0x6001u32 ^ 0xE001u32) & 0xE003u32 & 0xE003u32 != 0))))) &&
            (((((0x6001u32 ^ 0x0002u32) & 0xE003u32 & 0xE003u32 != 0) &&
            (((0x6001u32 ^ 0x4002u32) & 0xE003u32 & 0xE003u32 != 0) &&
            ((0x6001u32 ^ 0x6002u32) & 0xE003u32 & 0xE003u32 != 0))) &&
            (((0x6001u32 ^ 0x8002u32) & 0xE003u32 & 0xF003u32 != 0) &&
            (((0x6001u32 ^ 0x9002u32) & 0xE003u32 & 0xF003u32 != 0) &&
            ((0x6001u32 ^ 0xC002u32) & 0xE003u32 & 0xE003u32 != 0)))) &&
            ((((0x6001u32 ^ 0xE002u32) & 0xE003u32 & 0xE003u32 != 0) &&
            (((0x8001u32 ^ 0x8401u32) & 0xEC03u32 & 0xEC03u32 != 0) &&
            ((0x8001u32 ^ 0x8801u32) & 0xEC03u32 & 0xEC03u32 != 0))) &&
            (((0x8001u32 ^ 0x8C01u32) & 0xEC03u32 & 0xFC63u32 != 0) &&
            (((0x8001u32 ^ 0x8C21u32) & 0xEC03u32 & 0xFC63u32 != 0) &&
            ((0x8001u32 ^ 0x8C41u32) & 0xEC03u32 & 0xFC63u32 != 0)))))) &&
            ((((((0x8001u32 ^ 0x8C61u32) & 0xEC03u32 & 0xFC63u32 != 0) &&
            (((0x8001u32 ^ 0x9C01u32) & 0xEC03u32 & 0xFC63u32 != 0) &&
            ((0x8001u32 ^ 0x9C21u32) & 0xEC03u32 & 0xFC63u32 != 0))) &&
            (((0x8001u32 ^ 0xA001u32) & 0xEC03u32 & 0xE003u32 != 0) &&
            (((0x8001u32 ^ 0xC001u32) & 0xEC03u32 & 0xE003u32 != 0) &&
            ((0x8001u32 ^ 0xE001u32) & 0xEC03u32 & 0xE003u32 != 0)))) &&
            ((((0x8001u32 ^ 0x0002u32) & 0xEC03u32 & 0xE003u32 != 0) &&
            (((0x8001u32 ^ 0x4002u32) & 0xEC03u32 & 0xE003u32 != 0) &&
            ((0x8001u32 ^ 0x6002u32) & 0xEC03u32 & 0xE003u32 != 0))) &&
            (((0x8001u32 ^ 0x8002u32) & 0xEC03u32 & 0xF003u32 != 0) &&
            (((0x8001u32 ^ 0x9002u32) & 0xEC03u32 & 0xF003u32 != 0) &&
            ((0x8001u32 ^ 0xC002u32) & 0xEC03u32 & 0xE003u32 != 0))))) &&
            (((((0x8001u32 ^ 0xE002u32) & 0xEC03u32 & 0xE003u32 != 0) &&
            (((0x8401u32 ^ 0x8801u32) & 0xEC03u32 & 0xEC03u32 != 0) &&
            ((0x8401u32 ^ 0x8C01u32) & 0xEC03u32 & 0xFC63u32 != 0))) &&
            (((0x8401u32 ^ 0x8C21u32) & 0xEC03u32 & 0xFC63u32 != 0) &&
            (((0x8401u32 ^ 0x8C41u32) & 0xEC03u32 & 0xFC63u32 != 0) &&
            ((0x8401u32 ^ 0x8C61u32) & 0xEC03u32 & 0xFC63u32 != 0)))) &&
            ((((0x8401u32 ^ 0x9C01u32) & 0xEC03u32 & 0xFC63u32 != 0) &&
            (((0x8401u32 ^ 0x9C21u32) & 0xEC03u32 & 0xFC63u32 != 0) &&
            ((0x8401u32 ^ 0xA001u32) & 0xEC03u32 & 0xE003u32 != 0))) &&
            (((0x8401u32 ^ 0xC001u32) & 0xEC03u32 & 0xE003u32 != 0) &&
            (((0x8401u32 ^ 0xE001u32) & 0xEC03u32 & 0xE003u32 != 0) &&
            ((0x8401u32 ^ 0x0002u32) & 0xEC03u32 & 0xE003u32 != 0))))))) &&
            (((((((0x8401u32 ^ 0x4002u32) & 0xEC03u32 & 0xE003u32 != 0) &&
            ((0x8401u32 ^ 0x6002u32) & 0xEC03u32 & 0xE003u32 != 0)) &&
            (((0x8401u32 ^ 0x8002u32) & 0xEC03u32 & 0xF003u32 != 0) &&
            (((0x8401u32 ^ 0x9002u32) & 0xEC03u32 & 0xF003u32 != 0) &&
            ((0x8401u32 ^ 0xC002u32) & 0xEC03u32 & 0xE003u32 != 0)))) &&
            ((((0x8401u32 ^ 0xE002u32) & 0xEC03u32 & 0xE003u32 != 0) &&
            (((0x8801u32 ^ 0x8C01u32) & 0xEC03u32 & 0xFC63u32 != 0) &&
            ((0x8801u32 ^ 0x8C21u32) & 0xEC03u32 & 0xFC63u32 != 0))) &&
            (((0x8801u32 ^ 0x8C41u32) & 0xEC03u32 & 0xFC63u32 != 0) &&
            (((0x8801u32 ^ 0x8C61u32) & 0xEC03u32 & 0xFC63u32 != 0) &&
            ((0x8801u32 ^ 0x9C01u32) & 0xEC03u32 & 0xFC63u32 != 0))))) &&
            (((((0x8801u32 ^ 0x9C21u32) & 0xEC03u32 & 0xFC63u32 != 0) &&
            (((0x8801u32 ^ 0xA001u32) & 0xEC03u32 & 0xE003u32 != 0) &&
            ((0x8801u32 ^ 0xC001u32) & 0xEC03u32 & 0xE003u32 != 0))) &&
            (((0x8801u32 ^ 0xE001u32) & 0xEC03u32 & 0xE003u32 != 0) &&
            (((0x8801u32 ^ 0x0002u32) & 0xEC03u32 & 0xE003u32 != 0) &&
            ((0x8801u32 ^ 0x4002u32) & 0xEC03u32 & 0xE003u32 != 0)))) &&
            ((((0x8801u32 ^ 0x6002u32) & 0xEC03u32 & 0xE003u32 != 0) &&
            (((0x8801u32 ^ 0x8002u32) & 0xEC03u32 & 0xF003u32 != 0) &&
            ((0x8801u32 ^ 0x9002u32) & 0xEC03u32 & 0xF003u32 != 0))) &&
            (((0x8801u32 ^ 0xC002u32) & 0xEC03u32 & 0xE003u32 != 0) &&
            (((0x8801u32 ^ 0xE002u32) & 0xEC03u32 & 0xE003u32 != 0) &&
            ((0x8C01u32 ^ 0x8C21u32) & 0xFC63u32 & 0xFC63u32 != 0)))))) &&
            ((((((0x8C01u32 ^ 0x8C41u32) & 0xFC63u32 & 0xFC63u32 != 0) &&
            (((0x8C01u32 ^ 0x8C61u32) & 0xFC63u32 & 0xFC63u32 != 0) &&
            ((0x8C01u32 ^ 0x9C01u32) & 0xFC63u32 & 0xFC63u32 != 0))) &&
            (((0x8C01u32 ^ 0x9C21u32) & 0xFC63u32 & 0xFC63u32 != 0) &&
            (((0x8C01u32 ^ 0xA001u32) & 0xFC63u32 & 0xE003u32 != 0) &&
            ((0x8C01u32 ^ 0xC001u32) & 0xFC63u32 & 0xE003u32 != 0)))) &&
            ((((0x8C01u32 ^ 0xE001u32) & 0xFC63u32 & 0xE003u32 != 0) &&
            (((0x8C01u32 ^ 0x0002u32) & 0xFC63u32 & 0xE003u32 != 0) &&
            ((0x8C01u32 ^ 0x4002u32) & 0xFC63u32 & 0xE003u32 != 0))) &&
            (((0x8C01u32 ^ 0x6002u32) & 0xFC63u32 & 0xE003u32 != 0) &&
            (((0x8C01u32 ^ 0x8002u32) & 0xFC63u32 & 0xF003u32 != 0) &&
            ((0x8C01u32 ^ 0x9002u32) & 0xFC63u32 & 0xF003u32 != 0))))) &&
            (((((0x8C01u32 ^ 0xC002u32) & 0xFC63u32 & 0xE003u32 != 0) &&
            (((0x8C01u32 ^ 0xE002u32) & 0xFC63u32 & 0xE003u32 != 0) &&
            ((0x8C21u32 ^ 0x8C41u32) & 0xFC63u32 & 0xFC63u32 != 0))) &&
            (((0x8C21u32 ^ 0x8C61u32) & 0xFC63u32 & 0xFC63u32 != 0) &&
            (((0x8C21u32 ^ 0x9C01u32) & 0xFC63u32 & 0xFC63u32 != 0) &&
            ((0x8C21u32 ^ 0x9C21u32) & 0xFC63u32 & 0xFC63u32 != 0)))) &&
            ((((0x8C21u32 ^ 0xA001u32) & 0xFC63u32 & 0xE003u32 != 0) &&
            (((0x8C21u32 ^ 0xC001u32) & 0xFC63u32 & 0xE003u32 != 0) &&
            ((0x8C21u32 ^ 0xE001u32) & 0xFC63u32 & 0xE003u32 != 0))) &&
            (((0x8C21u32 ^ 0x0002u32) & 0xFC63u32 & 0xE003u32 != 0) &&
            (((0x8C21u32 ^ 0x4002u32) & 0xFC63u32 & 0xE003u32 != 0) &&
            ((0x8C21u32 ^ 0x6002u32) & 0xFC63u32 & 0xE003u32 != 0)))))))) &&
            ((((((((0x8C21u32 ^ 0x8002u32) & 0xFC63u32 & 0xF003u32 != 0) &&
            ((0x8C21u32 ^ 0x9002u32) & 0xFC63u32 & 0xF003u32 != 0)) &&
            (((0x8C21u32 ^ 0xC002u32) & 0xFC63u32 & 0xE003u32 != 0) &&
            (((0x8C21u32 ^ 0xE002u32) & 0xFC63u32 & 0xE003u32 != 0) &&
            ((0x8C41u32 ^ 0x8C61u32) & 0xFC63u32 & 0xFC63u32 != 0)))) &&
            ((((0x8C41u32 ^ 0x9C01u32) & 0xFC63u32 & 0xFC63u32 != 0) &&
            (((0x8C41u32 ^ 0x9C21u32) & 0xFC63u32 & 0xFC63u32 != 0) &&
            ((0x8C41u32 ^ 0xA001u32) & 0xFC63u32 & 0xE003u32 != 0))) &&
            (((0x8C41u32 ^ 0xC001u32) & 0xFC63u32 & 0xE003u32 != 0) &&
            (((0x8C41u32 ^ 0xE001u32) & 0xFC63u32 & 0xE003u32 != 0) &&
            ((0x8C41u32 ^ 0x0002u32) & 0xFC63u32 & 0xE003u32 != 0))))) &&
            (((((0x8C41u32 ^ 0x4002u32) & 0xFC63u32 & 0xE003u32 != 0) &&
            (((0x8C41u32 ^ 0x6002u32) & 0xFC63u32 & 0xE003u32 != 0) &&
            ((0x8C41u32 ^ 0x8002u32) & 0xFC63u32 & 0xF003u32 != 0))) &&
            (((0x8C41u32 ^ 0x9002u32) & 0xFC63u32 & 0xF003u32 != 0) &&
            (((0x8C41u32 ^ 0xC002u32) & 0xFC63u32 & 0xE003u32 != 0) &&
            ((0x8C41u32 ^ 0xE002u32) & 0xFC63u32 & 0xE003u32 != 0)))) &&
            ((((0x8C61u32 ^ 0x9C01u32) & 0xFC63u32 & 0xFC63u32 != 0) &&
            (((0x8C61u32 ^ 0x9C21u32) & 0xFC63u32 & 0xFC63u32 != 0) &&
            ((0x8C61u32 ^ 0xA001u32) & 0xFC63u32 & 0xE003u32 != 0))) &&
            (((0x8C61u32 ^ 0xC001u32) & 0xFC63u32 & 0xE003u32 != 0) &&
            (((0x8C61u32 ^ 0xE001u32) & 0xFC63u32 & 0xE003u32 != 0) &&
            ((0x8C61u32 ^ 0x0002u32) & 0xFC63u32 & 0xE003u32 != 0)))))) &&
            ((((((0x8C61u32 ^ 0x4002u32) & 0xFC63u32 & 0xE003u32 != 0) &&
            (((0x8C61u32 ^ 0x6002u32) & 0xFC63u32 & 0xE003u32 != 0) &&
            ((0x8C61u32 ^ 0x8002u32) & 0xFC63u32 & 0xF003u32 != 0))) &&
            (((0x8C61u32 ^ 0x9002u32) & 0xFC63u32 & 0xF003u32 != 0) &&
            (((0x8C61u32 ^ 0xC002u32) & 0xFC63u32 & 0xE003u32 != 0) &&
            ((0x8C61u32 ^ 0xE002u32) & 0xFC63u32 & 0xE003u32 != 0)))) &&
            ((((0x9C01u32 ^ 0x9C21u32) & 0xFC63u32 & 0xFC63u32 != 0) &&
            (((0x9C01u32 ^ 0xA001u32) & 0xFC63u32 & 0xE003u32 != 0) &&
            ((0x9C01u32 ^ 0xC001u32) & 0xFC63u32 & 0xE003u32 != 0))) &&
            (((0x9C01u32 ^ 0xE001u32) & 0xFC63u32 & 0xE003u32 != 0) &&
            (((0x9C01u32 ^ 0x0002u32) & 0xFC63u32 & 0xE003u32 != 0) &&
            ((0x9C01u32 ^ 0x4002u32) & 0xFC63u32 & 0xE003u32 != 0))))) &&
            (((((0x9C01u32 ^ 0x6002u32) & 0xFC63u32 & 0xE003u32 != 0) &&
            (((0x9C01u32 ^ 0x8002u32) & 0xFC63u32 & 0xF003u32 != 0) &&
            ((0x9C01u32 ^ 0x9002u32) & 0xFC63u32 & 0xF003u32 != 0))) &&
            (((0x9C01u32 ^ 0xC002u32) & 0xFC63u32 & 0xE003u32 != 0) &&
            (((0x9C01u32 ^ 0xE002u32) & 0xFC63u32 & 0xE003u32 != 0) &&
            ((0x9C21u32 ^ 0xA001u32) & 0xFC63u32 & 0xE003u32 != 0)))) &&
            ((((0x9C21u32 ^ 0xC001u32) & 0xFC63u32 & 0xE003u32 != 0) &&
            (((0x9C21u32 ^ 0xE001u32) & 0xFC63u32 & 0xE003u32 != 0) &&
            ((0x9C21u32 ^ 0x0002u32) & 0xFC63u32 & 0xE003u32 != 0))) &&
            (((0x9C21u32 ^ 0x4002u32) & 0xFC63u32 & 0xE003u32 != 0) &&
            (((0x9C21u32 ^ 0x6002u32) & 0xFC63u32 & 0xE003u32 != 0) &&
            ((0x9C21u32 ^ 0x8002u32) & 0xFC63u32 & 0xF003u32 != 0))))))) &&
            (((((((0x9C21u32 ^ 0x9002u32) & 0xFC63u32 & 0xF003u32 != 0) &&
            (((0x9C21u32 ^ 0xC002u32) & 0xFC63u32 & 0xE003u32 != 0) &&
            ((0x9C21u32 ^ 0xE002u32) & 0xFC63u32 & 0xE003u32 != 0))) &&
            (((0xA001u32 ^ 0xC001u32) & 0xE003u32 & 0xE003u32 != 0) &&
            (((0xA001u32 ^ 0xE001u32) & 0xE003u32 & 0xE003u32 != 0) &&
            ((0xA001u32 ^ 0x0002u32) & 0xE003u32 & 0xE003u32 != 0)))) &&
            ((((0xA001u32 ^ 0x4002u32) & 0xE003u32 & 0xE003u32 != 0) &&
            (((0xA001u32 ^ 0x6002u32) & 0xE003u32 & 0xE003u32 != 0) &&
            ((0xA001u32 ^ 0x8002u32) & 0xE003u32 & 0xF003u32 != 0))) &&
            (((0xA001u32 ^ 0x9002u32) & 0xE003u32 & 0xF003u32 != 0) &&
            (((0xA001u32 ^ 0xC002u32) & 0xE003u32 & 0xE003u32 != 0) &&
            ((0xA001u32 ^ 0xE002u32) & 0xE003u32 & 0xE003u32 != 0))))) &&
            (((((0xC001u32 ^ 0xE001u32) & 0xE003u32 & 0xE003u32 != 0) &&
            (((0xC001u32 ^ 0x0002u32) & 0xE003u32 & 0xE003u32 != 0) &&
            ((0xC001u32 ^ 0x4002u32) & 0xE003u32 & 0xE003u32 != 0))) &&
            (((0xC001u32 ^ 0x6002u32) & 0xE003u32 & 0xE003u32 != 0) &&
            (((0xC001u32 ^ 0x8002u32) & 0xE003u32 & 0xF003u32 != 0) &&
            ((0xC001u32 ^ 0x9002u32) & 0xE003u32 & 0xF003u32 != 0)))) &&
            ((((0xC001u32 ^ 0xC002u32) & 0xE003u32 & 0xE003u32 != 0) &&
            (((0xC001u32 ^ 0xE002u32) & 0xE003u32 & 0xE003u32 != 0) &&
            ((0xE001u32 ^ 0x0002u32) & 0xE003u32 & 0xE003u32 != 0))) &&
            (((0xE001u32 ^ 0x4002u32) & 0xE003u32 & 0xE003u32 != 0) &&
            (((0xE001u32 ^ 0x6002u32) & 0xE003u32 & 0xE003u32 != 0) &&
            ((0xE001u32 ^ 0x8002u32) & 0xE003u32 & 0xF003u32 != 0)))))) &&
            ((((((0xE001u32 ^ 0x9002u32) & 0xE003u32 & 0xF003u32 != 0) &&
            (((0xE001u32 ^ 0xC002u32) & 0xE003u32 & 0xE003u32 != 0) &&
            ((0xE001u32 ^ 0xE002u32) & 0xE003u32 & 0xE003u32 != 0))) &&
            (((0x0002u32 ^ 0x4002u32) & 0xE003u32 & 0xE003u32 != 0) &&
            (((0x0002u32 ^ 0x6002u32) & 0xE003u32 & 0xE003u32 != 0) &&
            ((0x0002u32 ^ 0x8002u32) & 0xE003u32 & 0xF003u32 != 0)))) &&
            ((((0x0002u32 ^ 0x9002u32) & 0xE003u32 & 0xF003u32 != 0) &&
            (((0x0002u32 ^ 0xC002u32) & 0xE003u32 & 0xE003u32 != 0) &&
            ((0x0002u32 ^ 0xE002u32) & 0xE003u32 & 0xE003u32 != 0))) &&
            (((0x4002u32 ^ 0x6002u32) & 0xE003u32 & 0xE003u32 != 0) &&
            (((0x4002u32 ^ 0x8002u32) & 0xE003u32 & 0xF003u32 != 0) &&
            ((0x4002u32 ^ 0x9002u32) & 0xE003u32 & 0xF003u32 != 0))))) &&
            (((((0x4002u32 ^ 0xC002u32) & 0xE003u32 & 0xE003u32 != 0) &&
            (((0x4002u32 ^ 0xE002u32) & 0xE003u32 & 0xE003u32 != 0) &&
            ((0x6002u32 ^ 0x8002u32) & 0xE003u32 & 0xF003u32 != 0))) &&
            (((0x6002u32 ^ 0x9002u32) & 0xE003u32 & 0xF003u32 != 0) &&
            (((0x6002u32 ^ 0xC002u32) & 0xE003u32 & 0xE003u32 != 0) &&
            ((0x6002u32 ^ 0xE002u32) & 0xE003u32 & 0xE003u32 != 0)))) &&
            ((((0x8002u32 ^ 0x9002u32) & 0xF003u32 & 0xF003u32 != 0) &&
            (((0x8002u32 ^ 0xC002u32) & 0xF003u32 & 0xE003u32 != 0) &&
            ((0x8002u32 ^ 0xE002u32) & 0xF003u32 & 0xE003u32 != 0))) &&
            (((0x9002u32 ^ 0xC002u32) & 0xF003u32 & 0xE003u32 != 0) &&
            (((0x9002u32 ^ 0xE002u32) & 0xF003u32 & 0xE003u32 != 0) &&
            ((0xC002u32 ^ 0xE002u32) & 0xE003u32 & 0xE003u32 != 0))))))))))
    ) by (bit_vector);
}

/// The table of the compressed extension, in decode order.
pub fn rvc_instruction_list() -> (r: Vec<InstructionInfo>)
    ensures
        r@.len() == 28,
        forall|k: int| 0 <= k < 28 ==> key_of(#[trigger] r@[k]) == rvc_key(k),
        forall|k: int| 0 <= k < 28 ==> meta_of(#[trigger] r@[k]) == rvc_meta(k),
        table_wf(r@),
        pairwise_disjoint(r@),
{
    let mut t: Vec<InstructionInfo> = Vec::new();
    let mut k: usize = 0;
    while k < 28
        invariant
            0 <= k <= 28,
            t@.len() == k,
            forall|i: int| 0 <= i < k ==> key_of(#[trigger] t@[i]) == rvc_key(i),
            forall|i: int| 0 <= i < k ==> meta_of(#[trigger] t@[i]) == rvc_meta(i),
        decreases 28 - k,
    {
        t.push(rvc_entry(k));
        k += 1;
    }
    proof {
        lemma_rvc_keys();
        assert forall|i: int| 0 <= i < t@.len() implies #[trigger] t@[i].wf() by {
            assert(key_of(t@[i]) == rvc_key(i));
        }
        lemma_keys_apart_all(t@);
    }
    t
}

/// The mask and match bits of entry `k` of the RVI table.
pub open spec fn rvi_key(k: int) -> (u32, u32) {
    if k == 0 {
        (0x7Fu32, 0x37u32)
    } else if k == 1 {
        (0x7Fu32, 0x17u32)
    } else if k == 2 {
        (0x7Fu32, 0x6Fu32)
    } else if k == 3 {
        (0x707Fu32, 0x67u32)
    } else if k == 4 {
        (0x707Fu32, 0x63u32)
    } else if k == 5 {
        (0x707Fu32, 0x1063u32)
    } else if k == 6 {
        (0x707Fu32, 0x4063u32)
    } else if k == 7 {
        (0x707Fu32, 0x5063u32)
    } else if k == 8 {
        (0x707Fu32, 0x6063u32)
    } else if k == 9 {
        (0x707Fu32, 0x7063u32)
    } else if k == 10 {
        (0x707Fu32, 0x03u32)
    } else if k == 11 {
        (0x707Fu32, 0x1003u32)
    } else if k == 12 {
        (0x707Fu32, 0x2003u32)
    } else if k == 13 {
        (0x707Fu32, 0x3003u32)
    } else if k == 14 {
        (0x707Fu32, 0x4003u32)
    } else if k == 15 {
        (0x707Fu32, 0x5003u32)
    } else if k == 16 {
        (0x707Fu32, 0x6003u32)
    } else if k == 17 {
        (0x707Fu32, 0x23u32)
    } else if k == 18 {
        (0x707Fu32, 0x1023u32)
    } else if k == 19 {
        (0x707Fu32, 0x2023u32)
    } else if k == 20 {
        (0x707Fu32, 0x3023u32)
    } else if k == 21 {
        (0x707Fu32, 0x13u32)
    } else if k == 22 {
        (0x707Fu32, 0x2013u32)
    } else if k == 23 {
        (0x707Fu32, 0x3013u32)
    } else if k == 24 {
        (0x707Fu32, 0x4013u32)
    } else if k == 25 {
        (0x707Fu32, 0x6013u32)
    } else if k == 26 {
        (0x707Fu32, 0x7013u32)
    } else if k == 27 {
        (0xFC00707Fu32, 0x1013u32)
    } else if k == 28 {
        (0xFC00707Fu32, 0x5013u32)
    } else if k == 29 {
        (0xFC00707Fu32, 0x40005013u32)
    } else if k == 30 {
        (0xFE00707Fu32, 0x33u32)
    } else if k == 31 {
        (0xFE00707Fu32, 0x40000033u32)
    } else if k == 32 {
        (0xFE00707Fu32, 0x1033u32)
    } else if k == 33 {
        (0xFE00707Fu32, 0x2033u32)
    } else if k == 34 {
        (0xFE00707Fu32, 0x3033u32)
    } else if k == 35 {
        (0xFE00707Fu32, 0x4033u32)
    } else if k == 36 {
        (0xFE00707Fu32, 0x5033u32)
    } else if k == 37 {
        (0xFE00707Fu32, 0x40005033u32)
    } else if k == 38 {
        (0xFE00707Fu32, 0x6033u32)
    } else if k == 39 {
        (0xFE00707Fu32, 0x7033u32)
    } else if k == 40 {
        (0x000FFFFFu32, 0x0Fu32)
    } else if k == 41 {
        (0xFFFFFFFFu32, 0x100Fu32)
    } else if k == 42 {
        (0xFFFFFFFFu32, 0x73u32)
    } else if k == 43 {
        (0xFFFFFFFFu32, 0x100073u32)
    } else if k == 44 {
        (0x707Fu32, 0x1Bu32)
    } else if k == 45 {
        (0xFE00707Fu32, 0x101Bu32)
    } else if k == 46 {
        (0xFE00707Fu32, 0x501Bu32)
    } else if k == 47 {
        (0xFE00707Fu32, 0x4000501Bu32)
    } else if k == 48 {
        (0xFE00707Fu32, 0x3Bu32)
    } else if k == 49 {
        (0xFE00707Fu32, 0x4000003Bu32)
    } else if k == 50 {
        (0xFE00707Fu32, 0x103Bu32)
    } else if k == 51 {
        (0xFE00707Fu32, 0x503Bu32)
    } else if k == 52 {
        (0xFE00707Fu32, 0x4000503Bu32)
    } else {
        (0u32, 0u32)
    }
}

/// The opcode and the builder of entry `k` of the RVI table.
pub open spec fn rvi_meta(k: int) -> (InstructionOpcode, Builder) {
    if k == 0 {
        (OP_LUI, Builder::Us)
    } else if k == 1 {
        (OP_AUIPC, Builder::Us)
    } else if k == 2 {
        (OP_JAL, Builder::Uj)
    } else if k == 3 {
        (OP_JALR, Builder::Is)
    } else if k == 4 {
        (OP_BEQ, Builder::Sb)
    } else if k == 5 {
        (OP_BNE, Builder::Sb)
    } else if k == 6 {
        (OP_BLT, Builder::Sb)
    } else if k == 7 {
        (OP_BGE, Builder::Sb)
    } else if k == 8 {
        (OP_BLTU, Builder::Sb)
    } else if k == 9 {
        (OP_BGEU, Builder::Sb)
    } else if k == 10 {
        (OP_LB, Builder::Is)
    } else if k == 11 {
        (OP_LH, Builder::Is)
    } else if k == 12 {
        (OP_LW, Builder::Is)
    } else if k == 13 {
        (OP_LD, Builder::Is)
    } else if k == 14 {
        (OP_LBU, Builder::Is)
    } else if k == 15 {
        (OP_LHU, Builder::Is)
    } else if k == 16 {
        (OP_LWU, Builder::Is)
    } else if k == 17 {
        (OP_SB, Builder::Ss)
    } else if k == 18 {
        (OP_SH, Builder::Ss)
    } else if k == 19 {
        (OP_SW, Builder::Ss)
    } else if k == 20 {
        (OP_SD, Builder::Ss)
    } else if k == 21 {
        (OP_ADDI, Builder::Is)
    } else if k == 22 {
        (OP_SLTI, Builder::Is)
    } else if k == 23 {
        (OP_SLTIU, Builder::Is)
    } else if k == 24 {
        (OP_XORI, Builder::Is)
    } else if k == 25 {
        (OP_ORI, Builder::Is)
    } else if k == 26 {
        (OP_ANDI, Builder::Is)
    } else if k == 27 {
        (OP_SLLI, Builder::IsAlu)
    } else if k == 28 {
        (OP_SRLI, Builder::IsAlu)
    } else if k == 29 {
        (OP_SRAI, Builder::IsAlu)
    } else if k == 30 {
        (OP_ADD, Builder::R)
    } else if k == 31 {
        (OP_SUB, Builder::R)
    } else if k == 32 {
        (OP_SLL, Builder::R)
    } else if k == 33 {
        (OP_SLT, Builder::R)
    } else if k == 34 {
        (OP_SLTU, Builder::R)
    } else if k == 35 {
        (OP_XOR, Builder::R)
    } else if k == 36 {
        (OP_SRL, Builder::R)
    } else if k == 37 {
        (OP_SRA, Builder::R)
    } else if k == 38 {
        (OP_OR, Builder::R)
    } else if k == 39 {
        (OP_AND, Builder::R)
    } else if k == 40 {
        (OP_FENCE, Builder::Fencei)
    } else if k == 41 {
        (OP_FENCEI, Builder::Blank)
    } else if k == 42 {
        (OP_ECALL, Builder::Blank)
    } else if k == 43 {
        (OP_EBREAK, Builder::Blank)
    } else if k == 44 {
        (OP_ADDIW, Builder::Is)
    } else if k == 45 {
        (OP_SLLIW, Builder::Is1f)
    } else if k == 46 {
        (OP_SRLIW, Builder::Is1f)
    } else if k == 47 {
        (OP_SRAIW, Builder::Is1f)
    } else if k == 48 {
        (OP_ADDW, Builder::R)
    } else if k == 49 {
        (OP_SUBW, Builder::R)
    } else if k == 50 {
        (OP_SLLW, Builder::R)
    } else if k == 51 {
        (OP_SRLW, Builder::R)
    } else if k == 52 {
        (OP_SRAW, Builder::R)
    } else {
        (0u16, Builder::Blank)
    }
}

/// Entry `k` of the RVI table.
fn rvi_entry(k: usize) -> (r: InstructionInfo)
    requires
        k < 53,
    ensures
        key_of(r) == rvi_key(k as int),
        meta_of(r) == rvi_meta(k as int),
{
    match k {
        0 => InstructionInfo::new(0x7F, 0x37, OP_LUI, Builder::Us),
        1 => InstructionInfo::new(0x7F, 0x17, OP_AUIPC, Builder::Us),
        2 => InstructionInfo::new(0x7F, 0x6F, OP_JAL, Builder::Uj),
        3 => InstructionInfo::new(0x707F, 0x67, OP_JALR, Builder::Is),
        4 => InstructionInfo::new(0x707F, 0x63, OP_BEQ, Builder::Sb),
        5 => InstructionInfo::new(0x707F, 0x1063, OP_BNE, Builder::Sb),
        6 => InstructionInfo::new(0x707F, 0x4063, OP_BLT, Builder::Sb),
        7 => InstructionInfo::new(0x707F, 0x5063, OP_BGE, Builder::Sb),
        8 => InstructionInfo::new(0x707F, 0x6063, OP_BLTU, Builder::Sb),
        9 => InstructionInfo::new(0x707F, 0x7063, OP_BGEU, Builder::Sb),
        10 => InstructionInfo::new(0x707F, 0x03, OP_LB, Builder::Is),
        11 => InstructionInfo::new(0x707F, 0x1003, OP_LH, Builder::Is),
        12 => InstructionInfo::new(0x707F, 0x2003, OP_LW, Builder::Is),
        13 => InstructionInfo::new(0x707F, 0x3003, OP_LD, Builder::Is),
        14 => InstructionInfo::new(0x707F, 0x4003, OP_LBU, Builder::Is),
        15 => InstructionInfo::new(0x707F, 0x5003, OP_LHU, Builder::Is),
        16 => InstructionInfo::new(0x707F, 0x6003, OP_LWU, Builder::Is),
        17 => InstructionInfo::new(0x707F, 0x23, OP_SB, Builder::Ss),
        18 => InstructionInfo::new(0x707F, 0x1023, OP_SH, Builder::Ss),
        19 => InstructionInfo::new(0x707F, 0x2023, OP_SW, Builder::Ss),
        20 => InstructionInfo::new(0x707F, 0x3023, OP_SD, Builder::Ss),
        21 => InstructionInfo::new(0x707F, 0x13, OP_ADDI, Builder::Is),
        22 => InstructionInfo::new(0x707F, 0x2013, OP_SLTI, Builder::Is),
        23 => InstructionInfo::new(0x707F, 0x3013, OP_SLTIU, Builder::Is),
        24 => InstructionInfo::new(0x707F, 0x4013, OP_XORI, Builder::Is),
        25 => InstructionInfo::new(0x707F, 0x6013, OP_ORI, Builder::Is),
        26 => InstructionInfo::new(0x707F, 0x7013, OP_ANDI, Builder::Is),
        27 => InstructionInfo::new(0xFC00707F, 0x1013, OP_SLLI, Builder::IsAlu),
        28 => InstructionInfo::new(0xFC00707F, 0x5013, OP_SRLI, Builder::IsAlu),
        29 => InstructionInfo::new(0xFC00707F, 0x40005013, OP_SRAI, Builder::IsAlu),
        30 => InstructionInfo::new(0xFE00707F, 0x33, OP_ADD, Builder::R),
        31 => InstructionInfo::new(0xFE00707F, 0x40000033, OP_SUB, Builder::R),
        32 => InstructionInfo::new(0xFE00707F, 0x1033, OP_SLL, Builder::R),
        33 => InstructionInfo::new(0xFE00707F, 0x2033, OP_SLT, Builder::R),
        34 => InstructionInfo::new(0xFE00707F, 0x3033, OP_SLTU, Builder::R),
        35 => InstructionInfo::new(0xFE00707F, 0x4033, OP_XOR, Builder::R),
        36 => InstructionInfo::new(0xFE00707F, 0x5033, OP_SRL, Builder::R),
        37 => InstructionInfo::new(0xFE00707F, 0x40005033, OP_SRA, Builder::R),
        38 => InstructionInfo::new(0xFE00707F, 0x6033, OP_OR, Builder::R),
        39 => InstructionInfo::new(0xFE00707F, 0x7033, OP_AND, Builder::R),
        40 => InstructionInfo::new(0x000FFFFF, 0x0F, OP_FENCE, Builder::Fencei),
        41 => InstructionInfo::new(0xFFFFFFFF, 0x100F, OP_FENCEI, Builder::Blank),
        42 => InstructionInfo::new(0xFFFFFFFF, 0x73, OP_ECALL, Builder::Blank),
        43 => InstructionInfo::new(0xFFFFFFFF, 0x100073, OP_EBREAK, Builder::Blank),
        44 => InstructionInfo::new(0x707F, 0x1B, OP_ADDIW, Builder::Is),
        45 => InstructionInfo::new(0xFE00707F, 0x101B, OP_SLLIW, Builder::Is1f),
        46 => InstructionInfo::new(0xFE00707F, 0x501B, OP_SRLIW, Builder::Is1f),
        47 => InstructionInfo::new(0xFE00707F, 0x4000501B, OP_SRAIW, Builder::Is1f),
        48 => InstructionInfo::new(0xFE00707F, 0x3B, OP_ADDW, Builder::R),
        49 => InstructionInfo::new(0xFE00707F, 0x4000003B, OP_SUBW, Builder::R),
        50 => InstructionInfo::new(0xFE00707F, 0x103B, OP_SLLW, Builder::R),
        51 => InstructionInfo::new(0xFE00707F, 0x503B, OP_SRLW, Builder::R),
        _ => InstructionInfo::new(0xFE00707F, 0x4000503B, OP_SRAW, Builder::R),
    }
}

/// The entries of the RVI table are well formed, and their keys keep
/// apart every pair that the table does not share on purpose.
proof fn lemma_rvi_keys()
    ensures
        forall|k: int| 0 <= k < 53 ==> (#[trigger] rvi_key(k)).1 & !rvi_key(k).0 == 0,
        forall|i: int, j: int| 0 <= i < j < 53 ==> keys_apart(rvi_key(i), rvi_key(j)),
{
    assert(
            ((((((0x37u32 & !0x7Fu32 == 0) &&
            ((0x17u32 & !0x7Fu32 == 0) &&
            (0x6Fu32 & !0x7Fu32 == 0))) &&
            ((0x67u32 & !0x707Fu32 == 0) &&
            ((0x63u32 & !0x707Fu32 == 0) &&
            (0x1063u32 & !0x707Fu32 == 0)))) &&
            (((0x4063u32 & !0x707Fu32 == 0) &&
            ((0x5063u32 & !0x707Fu32 == 0) &&
            (0x6063u32 & !0x707Fu32 == 0))) &&
            (((0x7063u32 & !0x707Fu32 == 0) &&
            (0x03u32 & !0x707Fu32 == 0)) &&
            ((0x1003u32 & !0x707Fu32 == 0) &&
            (0x2003u32 & !0x707Fu32 == 0))))) &&
            ((((0x3003u32 & !0x707Fu32 == 0) &&
            ((0x4003u32 & !0x707Fu32 == 0) &&
            (0x5003u32 & !0x707Fu32 == 0))) &&
            ((0x6003u32 & !0x707Fu32 == 0) &&
            ((0x23u32 & !0x707Fu32 == 0) &&
            (0x1023u32 & !0x707Fu32 == 0)))) &&
            (((0x2023u32 & !0x707Fu32 == 0) &&
            ((0x3023u32 & !0x707Fu32 == 0) &&
            (0x13u32 & !0x707Fu32 == 0))) &&
            (((0x2013u32 & !0x707Fu32 == 0) &&
            (0x3013u32 & !0x707Fu32 == 0)) &&
            ((0x4013u32 & !0x707Fu32 == 0) &&
            (0x6013u32 & !0x707Fu32 == 0)))))) &&
            (((((0x7013u32 & !0x707Fu32 == 0) &&
            ((0x1013u32 & !0xFC00707Fu32 == 0) &&
            (0x5013u32 & !0xFC00707Fu32 == 0))) &&
            ((0x40005013u32 & !0xFC00707Fu32 == 0) &&
            ((0x33u32 & !0xFE00707Fu32 == 0) &&
            (0x40000033u32 & !0xFE00707Fu32 == 0)))) &&
            (((0x1033u32 & !0xFE00707Fu32 == 0) &&
            ((0x2033u32 & !0xFE00707Fu32 == 0) &&
            (0x3033u32 & !0xFE00707Fu32 == 0))) &&
            (((0x4033u32 & !0xFE00707Fu32 == 0) &&
            (0x5033u32 & !0xFE00707Fu32 == 0)) &&
            ((0x40005033u32 & !0xFE00707Fu32 == 0) &&
            (0x6033u32 & !0xFE00707Fu32 == 0))))) &&
            ((((0x7033u32 & !0xFE00707Fu32 == 0) &&
            ((0x0Fu32 & !0x000FFFFFu32 == 0) &&
            (0x100Fu32 & !0xFFFFFFFFu32 == 0))) &&
            (((0x73u32 & !0xFFFFFFFFu32 == 0) &&
            (0x100073u32 & !0xFFFFFFFFu32 == 0)) &&
            ((0x1Bu32 & !0x707Fu32 == 0) &&
            (0x101Bu32 & !0xFE00707Fu32 == 0)))) &&
            (((0x501Bu32 & !0xFE00707Fu32 == 0) &&
            ((0x4000501Bu32 & !0xFE00707Fu32 == 0) &&
            (0x3Bu32 & !0xFE00707Fu32 == 0))) &&
            (((0x4000003Bu32 & !0xFE00707Fu32 == 0) &&
            (0x103Bu32 & !0xFE00707Fu32 == 0)) &&
            ((0x503Bu32 & !0xFE00707Fu32 == 0) &&
            (0x4000503Bu32 & !0xFE00707Fu32 == 0)))))))
    ) by (bit_vector);
    assert(
            ((((((((((((0x37u32 ^ 0x17u32) & 0x7Fu32 & 0x7Fu32 != 0) &&
            ((0x37u32 ^ 0x6Fu32) & 0x7Fu32 & 0x7Fu32 != 0)) &&
            (((0x37u32 ^ 0x67u32) & 0x7Fu32 & 0x707Fu32 != 0) &&
            (((0x37u32 ^ 0x63u32) & 0x7Fu32 & 0x707Fu32 != 0) &&
            ((0x37u32 ^ 0x1063u32) & 0x7Fu32 & 0x707Fu32 != 0)))) &&
            ((((0x37u32 ^ 0x4063u32) & 0x7Fu32 & 0x707Fu32 != 0) &&
            ((0x37u32 ^ 0x5063u32) & 0x7Fu32 & 0x707Fu32 != 0)) &&
            (((0x37u32 ^ 0x6063u32) & 0x7Fu32 & 0x707Fu32 != 0) &&
            (((0x37u32 ^ 0x7063u32) & 0x7Fu32 & 0x707Fu32 != 0) &&
            ((0x37u32 ^ 0x03u32) & 0x7Fu32 & 0x707Fu32 != 0))))) &&
            (((((0x37u32 ^ 0x1003u32) & 0x7Fu32 & 0x707Fu32 != 0) &&
            ((0x37u32 ^ 0x2003u32) & 0x7Fu32 & 0x707Fu32 != 0)) &&
            (((0x37u32 ^ 0x3003u32) & 0x7Fu32 & 0x707Fu32 != 0) &&
            (((0x37u32 ^ 0x4003u32) & 0x7Fu32 & 0x707Fu32 != 0) &&
            ((0x37u32 ^ 0x5003u32) & 0x7Fu32 & 0x707Fu32 != 0)))) &&
            ((((0x37u32 ^ 0x6003u32) & 0x7Fu32 & 0x707Fu32 != 0) &&
            (((0x37u32 ^ 0x23u32) & 0x7Fu32 & 0x707Fu32 != 0) &&
            ((0x37u32 ^ 0x1023u32) & 0x7Fu32 & 0x707Fu32 != 0))) &&
            (((0x37u32 ^ 0x2023u32) & 0x7Fu32 & 0x707Fu32 != 0) &&
            (((0x37u32 ^ 0x3023u32) & 0x7Fu32 & 0x707Fu32 != 0) &&
            ((0x37u32 ^ 0x13u32) & 0x7Fu32 & 0x707Fu32 != 0)))))) &&
            ((((((0x37u32 ^ 0x2013u32) & 0x7Fu32 & 0x707Fu32 != 0) &&
            ((0x37u32 ^ 0x3013u32) & 0x7Fu32 & 0x707Fu32 != 0)) &&
            (((0x37u32 ^ 0x4013u32) & 0x7Fu32 & 0x707Fu32 != 0) &&
            (((0x37u32 ^ 0x6013u32) & 0x7Fu32 & 0x707Fu32 != 0) &&
            ((0x37u32 ^ 0x7013u32) & 0x7Fu32 & 0x707Fu32 != 0)))) &&
            ((((0x37u32 ^ 0x1013u32) & 0x7Fu32 & 0xFC00707Fu32 != 0) &&
            (((0x37u32 ^ 0x5013u32) & 0x7Fu32 & 0xFC00707Fu32 != 0) &&
            ((0x37u32 ^ 0x40005013u32) & 0x7Fu32 & 0xFC00707Fu32 != 0))) &&
            (((0x37u32 ^ 0x33u32) & 0x7Fu32 & 0xFE00707Fu32 != 0) &&
            (((0x37u32 ^ 0x40000033u32) & 0x7Fu32 & 0xFE00707Fu32 != 0) &&
            ((0x37u32 ^ 0x1033u32) & 0x7Fu32 & 0xFE00707Fu32 != 0))))) &&
            (((((0x37u32 ^ 0x2033u32) & 0x7Fu32 & 0xFE00707Fu32 != 0) &&
            ((0x37u32 ^ 0x3033u32) & 0x7Fu32 & 0xFE00707Fu32 != 0)) &&
            (((0x37u32 ^ 0x4033u32) & 0x7Fu32 & 0xFE00707Fu32 != 0) &&
            (((0x37u32 ^ 0x5033u32) & 0x7Fu32 & 0xFE00707Fu32 != 0) &&
            ((0x37u32 ^ 0x40005033u32) & 0x7Fu32 & 0xFE00707Fu32 != 0)))) &&
            ((((0x37u32 ^ 0x6033u32) & 0x7Fu32 & 0xFE00707Fu32 != 0) &&
            (((0x37u32 ^ 0x7033u32) & 0x7Fu32 & 0xFE00707Fu32 != 0) &&
            ((0x37u32 ^ 0x0Fu32) & 0x7Fu32 & 0x000FFFFFu32 != 0))) &&
            (((0x37u32 ^ 0x100Fu32) & 0x7Fu32 & 0xFFFFFFFFu32 != 0) &&
            (((0x37u32 ^ 0x73u32) & 0x7Fu32 & 0xFFFFFFFFu32 != 0) &&
            ((0x37u32 ^ 0x100073u32) & 0x7Fu32 & 0xFFFFFFFFu32 != 0))))))) &&
            (((((((0x37u32 ^ 0x1Bu32) & 0x7Fu32 & 0x707Fu32 != 0) &&
            ((0x37u32 ^ 0x101Bu32) & 0x7Fu32 & 0xFE00707Fu32 != 0)) &&
            (((0x37u32 ^ 0x501Bu32) & 0x7Fu32 & 0xFE00707Fu32 != 0) &&
            (((0x37u32 ^ 0x4000501Bu32) & 0x7Fu32 & 0xFE00707Fu32 != 0) &&
            ((0x37u32 ^ 0x3Bu32) & 0x7Fu32 & 0xFE00707Fu32 != 0)))) &&
            ((((0x37u32 ^ 0x4000003Bu32) & 0x7Fu32 & 0xFE00707Fu32 != 0) &&
            ((0x37u32 ^ 0x103Bu32) & 0x7Fu32 & 0xFE00707Fu32 != 0)) &&
            (((0x37u32 ^ 0x503Bu32) & 0x7Fu32 & 0xFE00707Fu32 != 0) &&
            (((0x37u32 ^ 0x4000503Bu32) & 0x7Fu32 & 0xFE00707Fu32 != 0) &&
            ((0x17u32 ^ 0x6Fu32) & 0x7Fu32 & 0x7Fu32 != 0))))) &&
            (((((0x17u32 ^ 0x67u32) & 0x7Fu32 & 0x707Fu32 != 0) &&
            ((0x17u32 ^ 0x63u32) & 0x7Fu32 & 0x707Fu32 != 0)) &&
            (((0x17u32 ^ 0x1063u32) & 0x7Fu32 & 0x707Fu32 != 0) &&
            (((0x17u32 ^ 0x4063u32) & 0x7Fu32 & 0x707Fu32 != 0) &&
            ((0x17u32 ^ 0x5063u32) & 0x7Fu32 & 0x707Fu32 != 0)))) &&
            ((((0x17u32 ^ 0x6063u32) & 0x7Fu32 & 0x707Fu32 != 0) &&
            (((0x17u32 ^ 0x7063u32) & 0x7Fu32 & 0x707Fu32 != 0) &&
            ((0x17u32 ^ 0x03u32) & 0x7Fu32 & 0x707Fu32 != 0))) &&
            (((0x17u32 ^ 0x1003u32) & 0x7Fu32 & 0x707Fu32 != 0) &&
            (((0x17u32 ^ 0x2003u32) & 0x7Fu32 & 0x707Fu32 != 0) &&
            ((0x17u32 ^ 0x3003u32) & 0x7Fu32 & 0x707Fu32 != 0)))))) &&
            ((((((0x17u32 ^ 0x4003u32) & 0x7Fu32 & 0x707Fu32 != 0) &&
            ((0x17u32 ^ 0x5003u32) & 0x7Fu32 & 0x707Fu32 != 0)) &&
            (((0x17u32 ^ 0x6003u32) & 0x7Fu32 & 0x707Fu32 != 0) &&
            (((0x17u32 ^ 0x23u32) & 0x7Fu32 & 0x707Fu32 != 0) &&
            ((0x17u32 ^ 0x1023u32) & 0x7Fu32 & 0x707Fu32 != 0)))) &&
            ((((0x17u32 ^ 0x2023u32) & 0x7Fu32 & 0x707Fu32 != 0) &&
            (((0x17u32 ^ 0x3023u32) & 0x7Fu32 & 0x707Fu32 != 0) &&
            ((0x17u32 ^ 0x13u32) & 0x7Fu32 & 0x707Fu32 != 0))) &&
            (((0x17u32 ^ 0x2013u32) & 0x7Fu32 & 0x707Fu32 != 0) &&
            (((0x17u32 ^ 0x3013u32) & 0x7Fu32 & 0x707Fu32 != 0) &&
            ((0x17u32 ^ 0x4013u32) & 0x7Fu32 & 0x707Fu32 != 0))))) &&
            (((((0x17u32 ^ 0x6013u32) & 0x7Fu32 & 0x707Fu32 != 0) &&
            ((0x17u32 ^ 0x7013u32) & 0x7Fu32 & 0x707Fu32 != 0)) &&
            (((0x17u32 ^ 0x1013u32) & 0x7Fu32 & 0xFC00707Fu32 != 0) &&
            (((0x17u32 ^ 0x5013u32) & 0x7Fu32 & 0xFC00707Fu32 != 0) &&
            ((0x17u32 ^ 0x40005013u32) & 0x7Fu32 & 0xFC00707Fu32 != 0)))) &&
            ((((0x17u32 ^ 0x33u32) & 0x7Fu32 & 0xFE00707Fu32 != 0) &&
            (((0x17u32 ^ 0x40000033u32) & 0x7Fu32 & 0xFE00707Fu32 != 0) &&
            ((0x17u32 ^ 0x1033u32) & 0x7Fu32 & 0xFE00707Fu32 != 0))) &&
            (((0x17u32 ^ 0x2033u32) & 0x7Fu32 & 0xFE00707Fu32 != 0) &&
            (((0x17u32 ^ 0x3033u32) & 0x7Fu32 & 0xFE00707Fu32 != 0) &&
            ((0x17u32 ^ 0x4033u32) & 0x7Fu32 & 0xFE00707Fu32 != 0)))))))) &&
            ((((((((0x17u32 ^ 0x5033u32) & 0x7Fu32 & 0xFE00707Fu32 != 0) &&
            ((0x17u32 ^ 0x40005033u32) & 0x7Fu32 & 0xFE00707Fu32 != 0)) &&
            (((0x17u32 ^ 0x6033u32) & 0x7Fu32 & 0xFE00707Fu32 != 0) &&
            (((0x17u32 ^ 0x7033u32) & 0x7Fu32 & 0xFE00707Fu32 != 0) &&
            ((0x17u32 ^ 0x0Fu32) & 0x7Fu32 & 0x000FFFFFu32 != 0)))) &&
            ((((0x17u32 ^ 0x100Fu32) & 0x7Fu32 & 0xFFFFFFFFu32 != 0) &&
            ((0x17u32 ^ 0x73u32) & 0x7Fu32 & 0xFFFFFFFFu32 != 0)) &&
            (((0x17u32 ^ 0x100073u32) & 0x7Fu32 & 0xFFFFFFFFu32 != 0) &&
            (((0x17u32 ^ 0x1Bu32) & 0x7Fu32 & 0x707Fu32 != 0) &&
            ((0x17u32 ^ 0x101Bu32) & 0x7Fu32 & 0xFE00707Fu32 != 0))))) &&
            (((((0x17u32 ^ 0x501Bu32) & 0x7Fu32 & 0xFE00707Fu32 != 0) &&
            ((0x17u32 ^ 0x4000501Bu32) & 0x7Fu32 & 0xFE00707Fu32 != 0)) &&
            (((0x17u32 ^ 0x3Bu32) & 0x7Fu32 & 0xFE00707Fu32 != 0) &&
            (((0x17u32 ^ 0x4000003Bu32) & 0x7Fu32 & 0xFE00707Fu32 != 0) &&
            ((0x17u32 ^ 0x103Bu32) & 0x7Fu32 & 0xFE00707Fu32 != 0)))) &&
            ((((0x17u32 ^ 0x503Bu32) & 0x7Fu32 & 0xFE00707Fu32 != 0) &&
            (((0x17u32 ^ 0x4000503Bu32) & 0x7Fu32 & 0xFE00707Fu32 != 0) &&
            ((0x6Fu32 ^ 0x67u32) & 0x7Fu32 & 0x707Fu32 != 0))) &&
            (((0x6Fu32 ^ 0x63u32) & 0x7Fu32 & 0x707Fu32 != 0) &&
            (((0x6Fu32 ^ 0x1063u32) & 0x7Fu32 & 0x707Fu32 != 0) &&
            ((0x6Fu32 ^ 0x4063u32) & 0x7Fu32 & 0x707Fu32 != 0)))))) &&
            ((((((0x6Fu32 ^ 0x5063u32) & 0x7Fu32 & 0x707Fu32 != 0) &&
            ((0x6Fu32 ^ 0x6063u32) & 0x7Fu32 & 0x707Fu32 != 0)) &&
            (((0x6Fu32 ^ 0x7063u32) & 0x7Fu32 & 0x707Fu32 != 0) &&
            (((0x6Fu32 ^ 0x03u32) & 0x7Fu32 & 0x707Fu32 != 0) &&
            ((0x6Fu32 ^ 0x1003u32) & 0x7Fu32 & 0x707Fu32 != 0)))) &&
            ((((0x6Fu32 ^ 0x2003u32) & 0x7Fu32 & 0x707Fu32 != 0) &&
            (((0x6Fu32 ^ 0x3003u32) & 0x7Fu32 & 0x707Fu32 != 0) &&
            ((0x6Fu32 ^ 0x4003u32) & 0x7Fu32 & 0x707Fu32 != 0))) &&
            (((0x6Fu32 ^ 0x5003u32) & 0x7Fu32 & 0x707Fu32 != 0) &&
            (((0x6Fu32 ^ 0x6003u32) & 0x7Fu32 & 0x707Fu32 != 0) &&
            ((0x6Fu32 ^ 0x23u32) & 0x7Fu32 & 0x707Fu32 != 0))))) &&
            (((((0x6Fu32 ^ 0x1023u32) & 0x7Fu32 & 0x707Fu32 != 0) &&
            ((0x6Fu32 ^ 0x2023u32) & 0x7Fu32 & 0x707Fu32 != 0)) &&
            (((0x6Fu32 ^ 0x3023u32) & 0x7Fu32 & 0x707Fu32 != 0) &&
            (((0x6Fu32 ^ 0x13u32) & 0x7Fu32 & 0x707Fu32 != 0) &&
            ((0x6Fu32 ^ 0x2013u32) & 0x7Fu32 & 0x707Fu32 != 0)))) &&
            ((((0x6Fu32 ^ 0x3013u32) & 0x7Fu32 & 0x707Fu32 != 0) &&
            (((0x6Fu32 ^ 0x4013u32) & 0x7Fu32 & 0x707Fu32 != 0) &&
            ((0x6Fu32 ^ 0x6013u32) & 0x7Fu32 & 0x707Fu32 != 0))) &&
            (((0x6Fu32 ^ 0x7013u32) & 0x7Fu32 & 0x707Fu32 != 0) &&
            (((0x6Fu32 ^ 0x1013u32) & 0x7Fu32 & 0xFC00707Fu32 != 0) &&
            ((0x6Fu32 ^ 0x5013u32) & 0x7Fu32 & 0xFC00707Fu32 != 0))))))) &&
            (((((((0x6Fu32 ^ 0x40005013u32) & 0x7Fu32 & 0xFC00707Fu32 != 0) &&
            ((0x6Fu32 ^ 0x33u32) & 0x7Fu32 & 0xFE00707Fu32 != 0)) &&
            (((0x6Fu32 ^ 0x40000033u32) & 0x7Fu32 & 0xFE00707Fu32 != 0) &&
            (((0x6Fu32 ^ 0x1033u32) & 0x7Fu32 & 0xFE00707Fu32 != 0) &&
            ((0x6Fu32 ^ 0x2033u32) & 0x7Fu32 & 0xFE00707Fu32 != 0)))) &&
            ((((0x6Fu32 ^ 0x3033u32) & 0x7Fu32 & 0xFE00707Fu32 != 0) &&
            ((0x6Fu32 ^ 0x4033u32) & 0x7Fu32 & 0xFE00707Fu32 != 0)) &&
            (((0x6Fu32 ^ 0x5033u32) & 0x7Fu32 & 0xFE00707Fu32 != 0) &&
            (((0x6Fu32 ^ 0x40005033u32) & 0x7Fu32 & 0xFE00707Fu32 != 0) &&
            ((0x6Fu32 ^ 0x6033u32) & 0x7Fu32 & 0xFE00707Fu32 != 0))))) &&
            (((((0x6Fu32 ^ 0x7033u32) & 0x7Fu32 & 0xFE00707Fu32 != 0) &&
            ((0x6Fu32 ^ 0x0Fu32) & 0x7Fu32 & 0x000FFFFFu32 != 0)) &&
            (((0x6Fu32 ^ 0x100Fu32) & 0x7Fu32 & 0xFFFFFFFFu32 != 0) &&
            (((0x6Fu32 ^ 0x73u32) & 0x7Fu32 & 0xFFFFFFFFu32 != 0) &&
            ((0x6Fu32 ^ 0x100073u32) & 0x7Fu32 & 0xFFFFFFFFu32 != 0)))) &&
            ((((0x6Fu32 ^ 0x1Bu32) & 0x7Fu32 & 0x707Fu32 != 0) &&
            (((0x6Fu32 ^ 0x101Bu32) & 0x7Fu32 & 0xFE00707Fu32 != 0) &&
            ((0x6Fu32 ^ 0x501Bu32) & 0x7Fu32 & 0xFE00707Fu32 != 0))) &&
            (((0x6Fu32 ^ 0x4000501Bu32) & 0x7Fu32 & 0xFE00707Fu32 != 0) &&
            (((0x6Fu32 ^ 0x3Bu32) & 0x7Fu32 & 0xFE00707Fu32 != 0) &&
            ((0x6Fu32 ^ 0x4000003Bu32) & 0x7Fu32 & 0xFE00707Fu32 != 0)))))) &&
            ((((((0x6Fu32 ^ 0x103Bu32) & 0x7Fu32 & 0xFE00707Fu32 != 0) &&
            ((0x6Fu32 ^ 0x503Bu32) & 0x7Fu32 & 0xFE00707Fu32 != 0)) &&
            (((0x6Fu32 ^ 0x4000503Bu32) & 0x7Fu32 & 0xFE00707Fu32 != 0) &&
            (((0x67u32 ^ 0x63u32) & 0x707Fu32 & 0x707Fu32 != 0) &&
            ((0x67u32 ^ 0x1063u32) & 0x707Fu32 & 0x707Fu32 != 0)))) &&
            ((((0x67u32 ^ 0x4063u32) & 0x707Fu32 & 0x707Fu32 != 0) &&
            (((0x67u32 ^ 0x5063u32) & 0x707Fu32 & 0x707Fu32 != 0) &&
            ((0x67u32 ^ 0x6063u32) & 0x707Fu32 & 0x707Fu32 != 0))) &&
            (((0x67u32 ^ 0x7063u32) & 0x707Fu32 & 0x707Fu32 != 0) &&
            (((0x67u32 ^ 0x03u32) & 0x707Fu32 & 0x707Fu32 != 0) &&
            ((0x67u32 ^ 0x1003u32) & 0x707Fu32 & 0x707Fu32 != 0))))) &&
            (((((0x67u32 ^ 0x2003u32) & 0x707Fu32 & 0x707Fu32 != 0) &&
            ((0x67u32 ^ 0x3003u32) & 0x707Fu32 & 0x707Fu32 != 0)) &&
            (((0x67u32 ^ 0x4003u32) & 0x707Fu32 & 0x707Fu32 != 0) &&
            (((0x67u32 ^ 0x5003u32) & 0x707Fu32 & 0x707Fu32 != 0) &&
            ((0x67u32 ^ 0x6003u32) & 0x707Fu32 & 0x707Fu32 != 0)))) &&
            ((((0x67u32 ^ 0x23u32) & 0x707Fu32 & 0x707Fu32 != 0) &&
            (((0x67u32 ^ 0x1023u32) & 0x707Fu32 & 0x707Fu32 != 0) &&
            ((0x67u32 ^ 0x2023u32) & 0x707Fu32 & 0x707Fu32 != 0))) &&
            (((0x67u32 ^ 0x3023u32) & 0x707Fu32 & 0x707Fu32 != 0) &&
            (((0x67u32 ^ 0x13u32) & 0x707Fu32 & 0x707Fu32 != 0) &&
            ((0x67u32 ^ 0x2013u32) & 0x707Fu32 & 0x707Fu32 != 0))))))))) &&
            (((((((((0x67u32 ^ 0x3013u32) & 0x707Fu32 & 0x707Fu32 != 0) &&
            ((0x67u32 ^ 0x4013u32) & 0x707Fu32 & 0x707Fu32 != 0)) &&
            (((0x67u32 ^ 0x6013u32) & 0x707Fu32 & 0x707Fu32 != 0) &&
            (((0x67u32 ^ 0x7013u32) & 0x707Fu32 & 0x707Fu32 != 0) &&
            ((0x67u32 ^ 0x1013u32) & 0x707Fu32 & 0xFC00707Fu32 != 0)))) &&
            ((((0x67u32 ^ 0x5013u32) & 0x707Fu32 & 0xFC00707Fu32 != 0) &&
            ((0x67u32 ^ 0x40005013u32) & 0x707Fu32 & 0xFC00707Fu32 != 0)) &&
            (((0x67u32 ^ 0x33u32) & 0x707Fu32 & 0xFE00707Fu32 != 0) &&
            (((0x67u32 ^ 0x40000033u32) & 0x707Fu32 & 0xFE00707Fu32 != 0) &&
            ((0x67u32 ^ 0x1033u32) & 0x707Fu32 & 0xFE00707Fu32 != 0))))) &&
            (((((0x67u32 ^ 0x2033u32) & 0x707Fu32 & 0xFE00707Fu32 != 0) &&
            ((0x67u32 ^ 0x3033u32) & 0x707Fu32 & 0xFE00707Fu32 != 0)) &&
            (((0x67u32 ^ 0x4033u32) & 0x707Fu32 & 0xFE00707Fu32 != 0) &&
            (((0x67u32 ^ 0x5033u32) & 0x707Fu32 & 0xFE00707Fu32 != 0) &&
            ((0x67u32 ^ 0x40005033u32) & 0x707Fu32 & 0xFE00707Fu32 != 0)))) &&
            ((((0x67u32 ^ 0x6033u32) & 0x707Fu32 & 0xFE00707Fu32 != 0) &&
            (((0x67u32 ^ 0x7033u32) & 0x707Fu32 & 0xFE00707Fu32 != 0) &&
            ((0x67u32 ^ 0x0Fu32) & 0x707Fu32 & 0x000FFFFFu32 != 0))) &&
            (((0x67u32 ^ 0x100Fu32) & 0x707Fu32 & 0xFFFFFFFFu32 != 0) &&
            (((0x67u32 ^ 0x73u32) & 0x707Fu32 & 0xFFFFFFFFu32 != 0) &&
            ((0x67u32 ^ 0x100073u32) & 0x707Fu32 & 0xFFFFFFFFu32 != 0)))))) &&
            ((((((0x67u32 ^ 0x1Bu32) & 0x707Fu32 & 0x707Fu32 != 0) &&
            ((0x67u32 ^ 0x101Bu32) & 0x707Fu32 & 0xFE00707Fu32 != 0)) &&
            (((0x67u32 ^ 0x501Bu32) & 0x707Fu32 & 0xFE00707Fu32 != 0) &&
            (((0x67u32 ^ 0x4000501Bu32) & 0x707Fu32 & 0xFE00707Fu32 != 0) &&
            ((0x67u32 ^ 0x3Bu32) & 0x707Fu32 & 0xFE00707Fu32 != 0)))) &&
            ((((0x67u32 ^ 0x4000003Bu32) & 0x707Fu32 & 0xFE00707Fu32 != 0) &&
            (((0x67u32 ^ 0x103Bu32) & 0x707Fu32 & 0xFE00707Fu32 != 0) &&
            ((0x67u32 ^ 0x503Bu32) & 0x707Fu32 & 0xFE00707Fu32 != 0))) &&
            (((0x67u32 ^ 0x4000503Bu32) & 0x707Fu32 & 0xFE00707Fu32 != 0) &&
            (((0x63u32 ^ 0x1063u32) & 0x707Fu32 & 0x707Fu32 != 0) &&
            ((0x63u32 ^ 0x4063u32) & 0x707Fu32 & 0x707Fu32 != 0))))) &&
            (((((0x63u32 ^ 0x5063u32) & 0x707Fu32 & 0x707Fu32 != 0) &&
            ((0x63u32 ^ 0x6063u32) & 0x707Fu32 & 0x707Fu32 != 0)) &&
            (((0x63u32 ^ 0x7063u32) & 0x707Fu32 & 0x707Fu32 != 0) &&
            (((0x63u32 ^ 0x03u32) & 0x707Fu32 & 0x707Fu32 != 0) &&
            ((0x63u32 ^ 0x1003u32) & 0x707Fu32 & 0x707Fu32 != 0)))) &&
            ((((0x63u32 ^ 0x2003u32) & 0x707Fu32 & 0x707Fu32 != 0) &&
            (((0x63u32 ^ 0x3003u32) & 0x707Fu32 & 0x707Fu32 != 0) &&
            ((0x63u32 ^ 0x4003u32) & 0x707Fu32 & 0x707Fu32 != 0))) &&
            (((0x63u32 ^ 0x5003u32) & 0x707Fu32 & 0x707Fu32 != 0) &&
            (((0x63u32 ^ 0x6003u32) & 0x707Fu32 & 0x707Fu32 != 0) &&
            ((0x63u32 ^ 0x23u32) & 0x707Fu32 & 0x707Fu32 != 0))))))) &&
            (((((((0x63u32 ^ 0x1023u32) & 0x707Fu32 & 0x707Fu32 != 0) &&
            ((0x63u32 ^ 0x2023u32) & 0x707Fu32 & 0x707Fu32 != 0)) &&
            (((0x63u32 ^ 0x3023u32) & 0x707Fu32 & 0x707Fu32 != 0) &&
            (((0x63u32 ^ 0x13u32) & 0x707Fu32 & 0x707Fu32 != 0) &&
            ((0x63u32 ^ 0x2013u32) & 0x707Fu32 & 0x707Fu32 != 0)))) &&
            ((((0x63u32 ^ 0x3013u32) & 0x707Fu32 & 0x707Fu32 != 0) &&
            ((0x63u32 ^ 0x4013u32) & 0x707Fu32 & 0x707Fu32 != 0)) &&
            (((0x63u32 ^ 0x6013u32) & 0x707Fu32 & 0x707Fu32 != 0) &&
            (((0x63u32 ^ 0x7013u32) & 0x707Fu32 & 0x707Fu32 != 0) &&
            ((0x63u32 ^ 0x1013u32) & 0x707Fu32 & 0xFC00707Fu32 != 0))))) &&
            (((((0x63u32 ^ 0x5013u32) & 0x707Fu32 & 0xFC00707Fu32 != 0) &&
            ((0x63u32 ^ 0x40005013u32) & 0x707Fu32 & 0xFC00707Fu32 != 0)) &&
            (((0x63u32 ^ 0x33u32) & 0x707Fu32 & 0xFE00707Fu32 != 0) &&
            (((0x63u32 ^ 0x40000033u32) & 0x707Fu32 & 0xFE00707Fu32 != 0) &&
            ((0x63u32 ^ 0x1033u32) & 0x707Fu32 & 0xFE00707Fu32 != 0)))) &&
            ((((0x63u32 ^ 0x2033u32) & 0x707Fu32 & 0xFE00707Fu32 != 0) &&
            (((0x63u32 ^ 0x3033u32) & 0x707Fu32 & 0xFE00707Fu32 != 0) &&
            ((0x63u32 ^ 0x4033u32) & 0x707Fu32 & 0xFE00707Fu32 != 0))) &&
            (((0x63u32 ^ 0x5033u32) & 0x707Fu32 & 0xFE00707Fu32 != 0) &&
            (((0x63u32 ^ 0x40005033u32) & 0x707Fu32 & 0xFE00707Fu32 != 0) &&
            ((0x63u32 ^ 0x6033u32) & 0x707Fu32 & 0xFE00707Fu32 != 0)))))) &&
            ((((((0x63u32 ^ 0x7033u32) & 0x707Fu32 & 0xFE00707Fu32 != 0) &&
            ((0x63u32 ^ 0x0Fu32) & 0x707Fu32 & 0x000FFFFFu32 != 0)) &&
            (((0x63u32 ^ 0x100Fu32) & 0x707Fu32 & 0xFFFFFFFFu32 != 0) &&
            (((0x63u32 ^ 0x73u32) & 0x707Fu32 & 0xFFFFFFFFu32 != 0) &&
            ((0x63u32 ^ 0x100073u32) & 0x707Fu32 & 0xFFFFFFFFu32 != 0)))) &&
            ((((0x63u32 ^ 0x1Bu32) & 0x707Fu32 & 0x707Fu32 != 0) &&
            (((0x63u32 ^ 0x101Bu32) & 0x707Fu32 & 0xFE00707Fu32 != 0) &&
            ((0x63u32 ^ 0x501Bu32) & 0x707Fu32 & 0xFE00707Fu32 != 0))) &&
            (((0x63u32 ^ 0x4000501Bu32) & 0x707Fu32 & 0xFE00707Fu32 != 0) &&
            (((0x63u32 ^ 0x3Bu32) & 0x707Fu32 & 0xFE00707Fu32 != 0) &&
            ((0x63u32 ^ 0x4000003Bu32) & 0x707Fu32 & 0xFE00707Fu32 != 0))))) &&
            (((((0x63u32 ^ 0x103Bu32) & 0x707Fu32 & 0xFE00707Fu32 != 0) &&
            ((0x63u32 ^ 0x503Bu32) & 0x707Fu32 & 0xFE00707Fu32 != 0)) &&
            (((0x63u32 ^ 0x4000503Bu32) & 0x707Fu32 & 0xFE00707Fu32 != 0) &&
            (((0x1063u32 ^ 0x4063u32) & 0x707Fu32 & 0x707Fu32 != 0) &&
            ((0x1063u32 ^ 0x5063u32) & 0x707Fu32 & 0x707Fu32 != 0)))) &&
            ((((0x1063u32 ^ 0x6063u32) & 0x707Fu32 & 0x707Fu32 != 0) &&
            (((0x1063u32 ^ 0x7063u32) & 0x707Fu32 & 0x707Fu32 != 0) &&
            ((0x1063u32 ^ 0x03u32) & 0x707Fu32 & 0x707Fu32 != 0))) &&
            (((0x1063u32 ^ 0x1003u32) & 0x707Fu32 & 0x707Fu32 != 0) &&
            (((0x1063u32 ^ 0x2003u32) & 0x707Fu32 & 0x707Fu32 != 0) &&
            ((0x1063u32 ^ 0x3003u32) & 0x707Fu32 & 0x707Fu32 != 0)))))))) &&
            ((((((((0x1063u32 ^ 0x4003u32) & 0x707Fu32 & 0x707Fu32 != 0) &&
            ((0x1063u32 ^ 0x5003u32) & 0x707Fu32 & 0x707Fu32 != 0)) &&
            (((0x1063u32 ^ 0x6003u32) & 0x707Fu32 & 0x707Fu32 != 0) &&
            (((0x1063u32 ^ 0x23u32) & 0x707Fu32 & 0x707Fu32 != 0) &&
            ((0x1063u32 ^ 0x1023u32) & 0x707Fu32 & 0x707Fu32 != 0)))) &&
            ((((0x1063u32 ^ 0x2023u32) & 0x707Fu32 & 0x707Fu32 != 0) &&
            ((0x1063u32 ^ 0x3023u32) & 0x707Fu32 & 0x707Fu32 != 0)) &&
            (((0x1063u32 ^ 0x13u32) & 0x707Fu32 & 0x707Fu32 != 0) &&
            (((0x1063u32 ^ 0x2013u32) & 0x707Fu32 & 0x707Fu32 != 0) &&
            ((0x1063u32 ^ 0x3013u32) & 0x707Fu32 & 0x707Fu32 != 0))))) &&
            (((((0x1063u32 ^ 0x4013u32) & 0x707Fu32 & 0x707Fu32 != 0) &&
            ((0x1063u32 ^ 0x6013u32) & 0x707Fu32 & 0x707Fu32 != 0)) &&
            (((0x1063u32 ^ 0x7013u32) & 0x707Fu32 & 0x707Fu32 != 0) &&
            (((0x1063u32 ^ 0x1013u32) & 0x707Fu32 & 0xFC00707Fu32 != 0) &&
            ((0x1063u32 ^ 0x5013u32) & 0x707Fu32 & 0xFC00707Fu32 != 0)))) &&
            ((((0x1063u32 ^ 0x40005013u32) & 0x707Fu32 & 0xFC00707Fu32 != 0) &&
            (((0x1063u32 ^ 0x33u32) & 0x707Fu32 & 0xFE00707Fu32 != 0) &&
            ((0x1063u32 ^ 0x40000033u32) & 0x707Fu32 & 0xFE00707Fu32 != 0))) &&
            (((0x1063u32 ^ 0x1033u32) & 0x707Fu32 & 0xFE00707Fu32 != 0) &&
            (((0x1063u32 ^ 0x2033u32) & 0x707Fu32 & 0xFE00707Fu32 != 0) &&
            ((0x1063u32 ^ 0x3033u32) & 0x707Fu32 & 0xFE00707Fu32 != 0)))))) &&
            ((((((0x1063u32 ^ 0x4033u32) & 0x707Fu32 & 0xFE00707Fu32 != 0) &&
            ((0x1063u32 ^ 0x5033u32) & 0x707Fu32 & 0xFE00707Fu32 != 0)) &&
            (((0x1063u32 ^ 0x40005033u32) & 0x707Fu32 & 0xFE00707Fu32 != 0) &&
            (((0x1063u32 ^ 0x6033u32) & 0x707Fu32 & 0xFE00707Fu32 != 0) &&
            ((0x1063u32 ^ 0x7033u32) & 0x707Fu32 & 0xFE00707Fu32 != 0)))) &&
            ((((0x1063u32 ^ 0x0Fu32) & 0x707Fu32 & 0x000FFFFFu32 != 0) &&
            (((0x1063u32 ^ 0x100Fu32) & 0x707Fu32 & 0xFFFFFFFFu32 != 0) &&
            ((0x1063u32 ^ 0x73u32) & 0x707Fu32 & 0xFFFFFFFFu32 != 0))) &&
            (((0x1063u32 ^ 0x100073u32) & 0x707Fu32 & 0xFFFFFFFFu32 != 0) &&
            (((0x1063u32 ^ 0x1Bu32) & 0x707Fu32 & 0x707Fu32 != 0) &&
            ((0x1063u32 ^ 0x101Bu32) & 0x707Fu32 & 0xFE00707Fu32 != 0))))) &&
            (((((0x1063u32 ^ 0x501Bu32) & 0x707Fu32 & 0xFE00707Fu32 != 0) &&
            ((0x1063u32 ^ 0x4000501Bu32) & 0x707Fu32 & 0xFE00707Fu32 != 0)) &&
            (((0x1063u32 ^ 0x3Bu32) & 0x707Fu32 & 0xFE00707Fu32 != 0) &&
            (((0x1063u32 ^ 0x4000003Bu32) & 0x707Fu32 & 0xFE00707Fu32 != 0) &&
            ((0x1063u32 ^ 0x103Bu32) & 0x707Fu32 & 0xFE00707Fu32 != 0)))) &&
            ((((0x1063u32 ^ 0x503Bu32) & 0x707Fu32 & 0xFE00707Fu32 != 0) &&
            (((0x1063u32 ^ 0x4000503Bu32) & 0x707Fu32 & 0xFE00707Fu32 != 0) &&
            ((0x4063u32 ^ 0x5063u32) & 0x707Fu32 & 0x707Fu32 != 0))) &&
            (((0x4063u32 ^ 0x6063u32) & 0x707Fu32 & 0x707Fu32 != 0) &&
            (((0x4063u32 ^ 0x7063u32) & 0x707Fu32 & 0x707Fu32 != 0) &&
            ((0x4063u32 ^ 0x03u32) & 0x707Fu32 & 0x707Fu32 != 0))))))) &&
            (((((((0x4063u32 ^ 0x1003u32) & 0x707Fu32 & 0x707Fu32 != 0) &&
            ((0x4063u32 ^ 0x2003u32) & 0x707Fu32 & 0x707Fu32 != 0)) &&
            (((0x4063u32 ^ 0x3003u32) & 0x707Fu32 & 0x707Fu32 != 0) &&
            (((0x4063u32 ^ 0x4003u32) & 0x707Fu32 & 0x707Fu32 != 0) &&
            ((0x4063u32 ^ 0x5003u32) & 0x707Fu32 & 0x707Fu32 != 0)))) &&
            ((((0x4063u32 ^ 0x6003u32) & 0x707Fu32 & 0x707Fu32 != 0) &&
            ((0x4063u32 ^ 0x23u32) & 0x707Fu32 & 0x707Fu32 != 0)) &&
            (((0x4063u32 ^ 0x1023u32) & 0x707Fu32 & 0x707Fu32 != 0) &&
            (((0x4063u32 ^ 0x2023u32) & 0x707Fu32 & 0x707Fu32 != 0) &&
            ((0x4063u32 ^ 0x3023u32) & 0x707Fu32 & 0x707Fu32 != 0))))) &&
            (((((0x4063u32 ^ 0x13u32) & 0x707Fu32 & 0x707Fu32 != 0) &&
            ((0x4063u32 ^ 0x2013u32) & 0x707Fu32 & 0x707Fu32 != 0)) &&
            (((0x4063u32 ^ 0x3013u32) & 0x707Fu32 & 0x707Fu32 != 0) &&
            (((0x4063u32 ^ 0x4013u32) & 0x707Fu32 & 0x707Fu32 != 0) &&
            ((0x4063u32 ^ 0x6013u32) & 0x707Fu32 & 0x707Fu32 != 0)))) &&
            ((((0x4063u32 ^ 0x7013u32) & 0x707Fu32 & 0x707Fu32 != 0) &&
            (((0x4063u32 ^ 0x1013u32) & 0x707Fu32 & 0xFC00707Fu32 != 0) &&
            ((0x4063u32 ^ 0x5013u32) & 0x707Fu32 & 0xFC00707Fu32 != 0))) &&
            (((0x4063u32 ^ 0x40005013u32) & 0x707Fu32 & 0xFC00707Fu32 != 0) &&
            (((0x4063u32 ^ 0x33u32) & 0x707Fu32 & 0xFE00707Fu32 != 0) &&
            ((0x4063u32 ^ 0x40000033u32) & 0x707Fu32 & 0xFE00707Fu32 != 0)))))) &&
            ((((((0x4063u32 ^ 0x1033u32) & 0x707Fu32 & 0xFE00707Fu32 != 0) &&
            ((0x4063u32 ^ 0x2033u32) & 0x707Fu32 & 0xFE00707Fu32 != 0)) &&
            (((0x4063u32 ^ 0x3033u32) & 0x707Fu32 & 0xFE00707Fu32 != 0) &&
            (((0x4063u32 ^ 0x4033u32) & 0x707Fu32 & 0xFE00707Fu32 != 0) &&
            ((0x4063u32 ^ 0x5033u32) & 0x707Fu32 & 0xFE00707Fu32 != 0)))) &&
            ((((0x4063u32 ^ 0x40005033u32) & 0x707Fu32 & 0xFE00707Fu32 != 0) &&
            (((0x4063u32 ^ 0x6033u32) & 0x707Fu32 & 0xFE00707Fu32 != 0) &&
            ((0x4063u32 ^ 0x7033u32) & 0x707Fu32 & 0xFE00707Fu32 != 0))) &&
            (((0x4063u32 ^ 0x0Fu32) & 0x707Fu32 & 0x000FFFFFu32 != 0) &&
            (((0x4063u32 ^ 0x100Fu32) & 0x707Fu32 & 0xFFFFFFFFu32 != 0) &&
            ((0x4063u32 ^ 0x73u32) & 0x707Fu32 & 0xFFFFFFFFu32 != 0))))) &&
            (((((0x4063u32 ^ 0x100073u32) & 0x707Fu32 & 0xFFFFFFFFu32 != 0) &&
            ((0x4063u32 ^ 0x1Bu32) & 0x707Fu32 & 0x707Fu32 != 0)) &&
            (((0x4063u32 ^ 0x101Bu32) & 0x707Fu32 & 0xFE00707Fu32 != 0) &&
            (((0x4063u32 ^ 0x501Bu32) & 0x707Fu32 & 0xFE00707Fu32 != 0) &&
            ((0x4063u32 ^ 0x4000501Bu32) & 0x707Fu32 & 0xFE00707Fu32 != 0)))) &&
            ((((0x4063u32 ^ 0x3Bu32) & 0x707Fu32 & 0xFE00707Fu32 != 0) &&
            (((0x4063u32 ^ 0x4000003Bu32) & 0x707Fu32 & 0xFE00707Fu32 != 0) &&
            ((0x4063u32 ^ 0x103Bu32) & 0x707Fu32 & 0xFE00707Fu32 != 0))) &&
            (((0x4063u32 ^ 0x503Bu32) & 0x707Fu32 & 0xFE00707Fu32 != 0) &&
            (((0x4063u32 ^ 0x4000503Bu32) & 0x707Fu32 & 0xFE00707Fu32 != 0) &&
            ((0x5063u32 ^ 0x6063u32) & 0x707Fu32 & 0x707Fu32 != 0)))))))))) &&
            ((((((((((0x5063u32 ^ 0x7063u32) & 0x707Fu32 & 0x707Fu32 != 0) &&
            ((0x5063u32 ^ 0x03u32) & 0x707Fu32 & 0x707Fu32 != 0)) &&
            (((0x5063u32 ^ 0x1003u32) & 0x707Fu32 & 0x707Fu32 != 0) &&
            (((0x5063u32 ^ 0x2003u32) & 0x707Fu32 & 0x707Fu32 != 0) &&
            ((0x5063u32 ^ 0x3003u32) & 0x707Fu32 & 0x707Fu32 != 0)))) &&
            ((((0x5063u32 ^ 0x4003u32) & 0x707Fu32 & 0x707Fu32 != 0) &&
            ((0x5063u32 ^ 0x5003u32) & 0x707Fu32 & 0x707Fu32 != 0)) &&
            (((0x5063u32 ^ 0x6003u32) & 0x707Fu32 & 0x707Fu32 != 0) &&
            (((0x5063u32 ^ 0x23u32) & 0x707Fu32 & 0x707Fu32 != 0) &&
            ((0x5063u32 ^ 0x1023u32) & 0x707Fu32 & 0x707Fu32 != 0))))) &&
            (((((0x5063u32 ^ 0x2023u32) & 0x707Fu32 & 0x707Fu32 != 0) &&
            ((0x5063u32 ^ 0x3023u32) & 0x707Fu32 & 0x707Fu32 != 0)) &&
            (((0x5063u32 ^ 0x13u32) & 0x707Fu32 & 0x707Fu32 != 0) &&
            (((0x5063u32 ^ 0x2013u32) & 0x707Fu32 & 0x707Fu32 != 0) &&
            ((0x5063u32 ^ 0x3013u32) & 0x707Fu32 & 0x707Fu32 != 0)))) &&
            ((((0x5063u32 ^ 0x4013u32) & 0x707Fu32 & 0x707Fu32 != 0) &&
            (((0x5063u32 ^ 0x6013u32) & 0x707Fu32 & 0x707Fu32 != 0) &&
            ((0x5063u32 ^ 0x7013u32) & 0x707Fu32 & 0x707Fu32 != 0))) &&
            (((0x5063u32 ^ 0x1013u32) & 0x707Fu32 & 0xFC00707Fu32 != 0) &&
            (((0x5063u32 ^ 0x5013u32) & 0x707Fu32 & 0xFC00707Fu32 != 0) &&
            ((0x5063u32 ^ 0x40005013u32) & 0x707Fu32 & 0xFC00707Fu32 != 0)))))) &&
            ((((((0x5063u32 ^ 0x33u32) & 0x707Fu32 & 0xFE00707Fu32 != 0) &&
            ((0x5063u32 ^ 0x40000033u32) & 0x707Fu32 & 0xFE00707Fu32 != 0)) &&
            (((0x5063u32 ^ 0x1033u32) & 0x707Fu32 & 0xFE00707Fu32 != 0) &&
            (((0x5063u32 ^ 0x2033u32) & 0x707Fu32 & 0xFE00707Fu32 != 0) &&
            ((0x5063u32 ^ 0x3033u32) & 0x707Fu32 & 0xFE00707Fu32 != 0)))) &&
            ((((0x5063u32 ^ 0x4033u32) & 0x707Fu32 & 0xFE00707Fu32 != 0) &&
            (((0x5063u32 ^ 0x5033u32) & 0x707Fu32 & 0xFE00707Fu32 != 0) &&
            ((0x5063u32 ^ 0x40005033u32) & 0x707Fu32 & 0xFE00707Fu32 != 0))) &&
            (((0x5063u32 ^ 0x6033u32) & 0x707Fu32 & 0xFE00707Fu32 != 0) &&
            (((0x5063u32 ^ 0x7033u32) & 0x707Fu32 & 0xFE00707Fu32 != 0) &&
            ((0x5063u32 ^ 0x0Fu32) & 0x707Fu32 & 0x000FFFFFu32 != 0))))) &&
            (((((0x5063u32 ^ 0x100Fu32) & 0x707Fu32 & 0xFFFFFFFFu32 != 0) &&
            ((0x5063u32 ^ 0x73u32) & 0x707Fu32 & 0xFFFFFFFFu32 != 0)) &&
            (((0x5063u32 ^ 0x100073u32) & 0x707Fu32 & 0xFFFFFFFFu32 != 0) &&
            (((0x5063u32 ^ 0x1Bu32) & 0x707Fu32 & 0x707Fu32 != 0) &&
            ((0x5063u32 ^ 0x101Bu32) & 0x707Fu32 & 0xFE00707Fu32 != 0)))) &&
            ((((0x5063u32 ^ 0x501Bu32) & 0x707Fu32 & 0xFE00707Fu32 != 0) &&
            (((0x5063u32 ^ 0x4000501Bu32) & 0x707Fu32 & 0xFE00707Fu32 != 0) &&
            ((0x5063u32 ^ 0x3Bu32) & 0x707Fu32 & 0xFE00707Fu32 != 0))) &&
            (((0x5063u32 ^ 0x4000003Bu32) & 0x707Fu32 & 0xFE00707Fu32 != 0) &&
            (((0x5063u32 ^ 0x103Bu32) & 0x707Fu32 & 0xFE00707Fu32 != 0) &&
            ((0x5063u32 ^ 0x503Bu32) & 0x707Fu32 & 0xFE00707Fu32 != 0))))))) &&
            (((((((0x5063u32 ^ 0x4000503Bu32) & 0x707Fu32 & 0xFE00707Fu32 != 0) &&
            ((0x6063u32 ^ 0x7063u32) & 0x707Fu32 & 0x707Fu32 != 0)) &&
            (((0x6063u32 ^ 0x03u32) & 0x707Fu32 & 0x707Fu32 != 0) &&
            (((0x6063u32 ^ 0x1003u32) & 0x707Fu32 & 0x707Fu32 != 0) &&
            ((0x6063u32 ^ 0x2003u32) & 0x707Fu32 & 0x707Fu32 != 0)))) &&
            ((((0x6063u32 ^ 0x3003u32) & 0x707Fu32 & 0x707Fu32 != 0) &&
            ((0x6063u32 ^ 0x4003u32) & 0x707Fu32 & 0x707Fu32 != 0)) &&
            (((0x6063u32 ^ 0x5003u32) & 0x707Fu32 & 0x707Fu32 != 0) &&
            (((0x6063u32 ^ 0x6003u32) & 0x707Fu32 & 0x707Fu32 != 0) &&
            ((0x6063u32 ^ 0x23u32) & 0x707Fu32 & 0x707Fu32 != 0))))) &&
            (((((0x6063u32 ^ 0x1023u32) & 0x707Fu32 & 0x707Fu32 != 0) &&
            ((0x6063u32 ^ 0x2023u32) & 0x707Fu32 & 0x707Fu32 != 0)) &&
            (((0x6063u32 ^ 0x3023u32) & 0x707Fu32 & 0x707Fu32 != 0) &&
            (((0x6063u32 ^ 0x13u32) & 0x707Fu32 & 0x707Fu32 != 0) &&
            ((0x6063u32 ^ 0x2013u32) & 0x707Fu32 & 0x707Fu32 != 0)))) &&
            ((((0x6063u32 ^ 0x3013u32) & 0x707Fu32 & 0x707Fu32 != 0) &&
            (((0x6063u32 ^ 0x4013u32) & 0x707Fu32 & 0x707Fu32 != 0) &&
            ((0x6063u32 ^ 0x6013u32) & 0x707Fu32 & 0x707Fu32 != 0))) &&
            (((0x6063u32 ^ 0x7013u32) & 0x707Fu32 & 0x707Fu32 != 0) &&
            (((0x6063u32 ^ 0x1013u32) & 0x707Fu32 & 0xFC00707Fu32 != 0) &&
            ((0x6063u32 ^ 0x5013u32) & 0x707Fu32 & 0xFC00707Fu32 != 0)))))) &&
            ((((((0x6063u32 ^ 0x40005013u32) & 0x707Fu32 & 0xFC00707Fu32 != 0) &&
            ((0x6063u32 ^ 0x33u32) & 0x707Fu32 & 0xFE00707Fu32 != 0)) &&
            (((0x6063u32 ^ 0x40000033u32) & 0x707Fu32 & 0xFE00707Fu32 != 0) &&
            (((0x6063u32 ^ 0x1033u32) & 0x707Fu32 & 0xFE00707Fu32 != 0) &&
            ((0x6063u32 ^ 0x2033u32) & 0x707Fu32 & 0xFE00707Fu32 != 0)))) &&
            ((((0x6063u32 ^ 0x3033u32) & 0x707Fu32 & 0xFE00707Fu32 != 0) &&
            (((0x6063u32 ^ 0x4033u32) & 0x707Fu32 & 0xFE00707Fu32 != 0) &&
            ((0x6063u32 ^ 0x5033u32) & 0x707Fu32 & 0xFE00707Fu32 != 0))) &&
            (((0x6063u32 ^ 0x40005033u32) & 0x707Fu32 & 0xFE00707Fu32 != 0) &&
            (((0x6063u32 ^ 0x6033u32) & 0x707Fu32 & 0xFE00707Fu32 != 0) &&
            ((0x6063u32 ^ 0x7033u32) & 0x707Fu32 & 0xFE00707Fu32 != 0))))) &&
            (((((0x6063u32 ^ 0x0Fu32) & 0x707Fu32 & 0x000FFFFFu32 != 0) &&
            ((0x6063u32 ^ 0x100Fu32) & 0x707Fu32 & 0xFFFFFFFFu32 != 0)) &&
            (((0x6063u32 ^ 0x73u32) & 0x707Fu32 & 0xFFFFFFFFu32 != 0) &&
            (((0x6063u32 ^ 0x100073u32) & 0x707Fu32 & 0xFFFFFFFFu32 != 0) &&
            ((0x6063u32 ^ 0x1Bu32) & 0x707Fu32 & 0x707Fu32 != 0)))) &&
            ((((0x6063u32 ^ 0x101Bu32) & 0x707Fu32 & 0xFE00707Fu32 != 0) &&
            (((0x6063u32 ^ 0x501Bu32) & 0x707Fu32 & 0xFE00707Fu32 != 0) &&
            ((0x6063u32 ^ 0x4000501Bu32) & 0x707Fu32 & 0xFE00707Fu32 != 0))) &&
            (((0x6063u32 ^ 0x3Bu32) & 0x707Fu32 & 0xFE00707Fu32 != 0) &&
            (((0x6063u32 ^ 0x4000003Bu32) & 0x707Fu32 & 0xFE00707Fu32 != 0) &&
            ((0x6063u32 ^ 0x103Bu32) & 0x707Fu32 & 0xFE00707Fu32 != 0)))))))) &&
            ((((((((0x6063u32 ^ 0x503Bu32) & 0x707Fu32 & 0xFE00707Fu32 != 0) &&
            ((0x6063u32 ^ 0x4000503Bu32) & 0x707Fu32 & 0xFE00707Fu32 != 0)) &&
            (((0x7063u32 ^ 0x03u32) & 0x707Fu32 & 0x707Fu32 != 0) &&
            (((0x7063u32 ^ 0x1003u32) & 0x707Fu32 & 0x707Fu32 != 0) &&
            ((0x7063u32 ^ 0x2003u32) & 0x707Fu32 & 0x707Fu32 != 0)))) &&
            ((((0x7063u32 ^ 0x3003u32) & 0x707Fu32 & 0x707Fu32 != 0) &&
            ((0x7063u32 ^ 0x4003u32) & 0x707Fu32 & 0x707Fu32 != 0)) &&
            (((0x7063u32 ^ 0x5003u32) & 0x707Fu32 & 0x707Fu32 != 0) &&
            (((0x7063u32 ^ 0x6003u32) & 0x707Fu32 & 0x707Fu32 != 0) &&
            ((0x7063u32 ^ 0x23u32) & 0x707Fu32 & 0x707Fu32 != 0))))) &&
            (((((0x7063u32 ^ 0x1023u32) & 0x707Fu32 & 0x707Fu32 != 0) &&
            ((0x7063u32 ^ 0x2023u32) & 0x707Fu32 & 0x707Fu32 != 0)) &&
            (((0x7063u32 ^ 0x3023u32) & 0x707Fu32 & 0x707Fu32 != 0) &&
            (((0x7063u32 ^ 0x13u32) & 0x707Fu32 & 0x707Fu32 != 0) &&
            ((0x7063u32 ^ 0x2013u32) & 0x707Fu32 & 0x707Fu32 != 0)))) &&
            ((((0x7063u32 ^ 0x3013u32) & 0x707Fu32 & 0x707Fu32 != 0) &&
            (((0x7063u32 ^ 0x4013u32) & 0x707Fu32 & 0x707Fu32 != 0) &&
            ((0x7063u32 ^ 0x6013u32) & 0x707Fu32 & 0x707Fu32 != 0))) &&
            (((0x7063u32 ^ 0x7013u32) & 0x707Fu32 & 0x707Fu32 != 0) &&
            (((0x7063u32 ^ 0x1013u32) & 0x707Fu32 & 0xFC00707Fu32 != 0) &&
            ((0x7063u32 ^ 0x5013u32) & 0x707Fu32 & 0xFC00707Fu32 != 0)))))) &&
            ((((((0x7063u32 ^ 0x40005013u32) & 0x707Fu32 & 0xFC00707Fu32 != 0) &&
            ((0x7063u32 ^ 0x33u32) & 0x707Fu32 & 0xFE00707Fu32 != 0)) &&
            (((0x7063u32 ^ 0x40000033u32) & 0x707Fu32 & 0xFE00707Fu32 != 0) &&
            (((0x7063u32 ^ 0x1033u32) & 0x707Fu32 & 0xFE00707Fu32 != 0) &&
            ((0x7063u32 ^ 0x2033u32) & 0x707Fu32 & 0xFE00707Fu32 != 0)))) &&
            ((((0x7063u32 ^ 0x3033u32) & 0x707Fu32 & 0xFE00707Fu32 != 0) &&
            (((0x7063u32 ^ 0x4033u32) & 0x707Fu32 & 0xFE00707Fu32 != 0) &&
            ((0x7063u32 ^ 0x5033u32) & 0x707Fu32 & 0xFE00707Fu32 != 0))) &&
            (((0x7063u32 ^ 0x40005033u32) & 0x707Fu32 & 0xFE00707Fu32 != 0) &&
            (((0x7063u32 ^ 0x6033u32) & 0x707Fu32 & 0xFE00707Fu32 != 0) &&
            ((0x7063u32 ^ 0x7033u32) & 0x707Fu32 & 0xFE00707Fu32 != 0))))) &&
            (((((0x7063u32 ^ 0x0Fu32) & 0x707Fu32 & 0x000FFFFFu32 != 0) &&
            ((0x7063u32 ^ 0x100Fu32) & 0x707Fu32 & 0xFFFFFFFFu32 != 0)) &&
            (((0x7063u32 ^ 0x73u32) & 0x707Fu32 & 0xFFFFFFFFu32 != 0) &&
            (((0x7063u32 ^ 0x100073u32) & 0x707Fu32 & 0xFFFFFFFFu32 != 0) &&
            ((0x7063u32 ^ 0x1Bu32) & 0x707Fu32 & 0x707Fu32 != 0)))) &&
            ((((0x7063u32 ^ 0x101Bu32) & 0x707Fu32 & 0xFE00707Fu32 != 0) &&
            (((0x7063u32 ^ 0x501Bu32) & 0x707Fu32 & 0xFE00707Fu32 != 0) &&
            ((0x7063u32 ^ 0x4000501Bu32) & 0x707Fu32 & 0xFE00707Fu32 != 0))) &&
            (((0x7063u32 ^ 0x3Bu32) & 0x707Fu32 & 0xFE00707Fu32 != 0) &&
            (((0x7063u32 ^ 0x4000003Bu32) & 0x707Fu32 & 0xFE00707Fu32 != 0) &&
            ((0x7063u32 ^ 0x103Bu32) & 0x707Fu32 & 0xFE00707Fu32 != 0))))))) &&
            (((((((0x7063u32 ^ 0x503Bu32) & 0x707Fu32 & 0xFE00707Fu32 != 0) &&
            ((0x7063u32 ^ 0x4000503Bu32) & 0x707Fu32 & 0xFE00707Fu32 != 0)) &&
            (((0x03u32 ^ 0x1003u32) & 0x707Fu32 & 0x707Fu32 != 0) &&
            (((0x03u32 ^ 0x2003u32) & 0x707Fu32 & 0x707Fu32 != 0) &&
            ((0x03u32 ^ 0x3003u32) & 0x707Fu32 & 0x707Fu32 != 0)))) &&
            ((((0x03u32 ^ 0x4003u32) & 0x707Fu32 & 0x707Fu32 != 0) &&
            ((0x03u32 ^ 0x5003u32) & 0x707Fu32 & 0x707Fu32 != 0)) &&
            (((0x03u32 ^ 0x6003u32) & 0x707Fu32 & 0x707Fu32 != 0) &&
            (((0x03u32 ^ 0x23u32) & 0x707Fu32 & 0x707Fu32 != 0) &&
            ((0x03u32 ^ 0x1023u32) & 0x707Fu32 & 0x707Fu32 != 0))))) &&
            (((((0x03u32 ^ 0x2023u32) & 0x707Fu32 & 0x707Fu32 != 0) &&
            ((0x03u32 ^ 0x3023u32) & 0x707Fu32 & 0x707Fu32 != 0)) &&
            (((0x03u32 ^ 0x13u32) & 0x707Fu32 & 0x707Fu32 != 0) &&
            (((0x03u32 ^ 0x2013u32) & 0x707Fu32 & 0x707Fu32 != 0) &&
            ((0x03u32 ^ 0x3013u32) & 0x707Fu32 & 0x707Fu32 != 0)))) &&
            ((((0x03u32 ^ 0x4013u32) & 0x707Fu32 & 0x707Fu32 != 0) &&
            (((0x03u32 ^ 0x6013u32) & 0x707Fu32 & 0x707Fu32 != 0) &&
            ((0x03u32 ^ 0x7013u32) & 0x707Fu32 & 0x707Fu32 != 0))) &&
            (((0x03u32 ^ 0x1013u32) & 0x707Fu32 & 0xFC00707Fu32 != 0) &&
            (((0x03u32 ^ 0x5013u32) & 0x707Fu32 & 0xFC00707Fu32 != 0) &&
            ((0x03u32 ^ 0x40005013u32) & 0x707Fu32 & 0xFC00707Fu32 != 0)))))) &&
            ((((((0x03u32 ^ 0x33u32) & 0x707Fu32 & 0xFE00707Fu32 != 0) &&
            ((0x03u32 ^ 0x40000033u32) & 0x707Fu32 & 0xFE00707Fu32 != 0)) &&
            (((0x03u32 ^ 0x1033u32) & 0x707Fu32 & 0xFE00707Fu32 != 0) &&
            (((0x03u32 ^ 0x2033u32) & 0x707Fu32 & 0xFE00707Fu32 != 0) &&
            ((0x03u32 ^ 0x3033u32) & 0x707Fu32 & 0xFE00707Fu32 != 0)))) &&
            ((((0x03u32 ^ 0x4033u32) & 0x707Fu32 & 0xFE00707Fu32 != 0) &&
            (((0x03u32 ^ 0x5033u32) & 0x707Fu32 & 0xFE00707Fu32 != 0) &&
            ((0x03u32 ^ 0x40005033u32) & 0x707Fu32 & 0xFE00707Fu32 != 0))) &&
            (((0x03u32 ^ 0x6033u32) & 0x707Fu32 & 0xFE00707Fu32 != 0) &&
            (((0x03u32 ^ 0x7033u32) & 0x707Fu32 & 0xFE00707Fu32 != 0) &&
            ((0x03u32 ^ 0x0Fu32) & 0x707Fu32 & 0x000FFFFFu32 != 0))))) &&
            (((((0x03u32 ^ 0x100Fu32) & 0x707Fu32 & 0xFFFFFFFFu32 != 0) &&
            ((0x03u32 ^ 0x73u32) & 0x707Fu32 & 0xFFFFFFFFu32 != 0)) &&
            (((0x03u32 ^ 0x100073u32) & 0x707Fu32 & 0xFFFFFFFFu32 != 0) &&
            (((0x03u32 ^ 0x1Bu32) & 0x707Fu32 & 0x707Fu32 != 0) &&
            ((0x03u32 ^ 0x101Bu32) & 0x707Fu32 & 0xFE00707Fu32 != 0)))) &&
            ((((0x03u32 ^ 0x501Bu32) & 0x707Fu32 & 0xFE00707Fu32 != 0) &&
            (((0x03u32 ^ 0x4000501Bu32) & 0x707Fu32 & 0xFE00707Fu32 != 0) &&
            ((0x03u32 ^ 0x3Bu32) & 0x707Fu32 & 0xFE00707Fu32 != 0))) &&
            (((0x03u32 ^ 0x4000003Bu32) & 0x707Fu32 & 0xFE00707Fu32 != 0) &&
            (((0x03u32 ^ 0x103Bu32) & 0x707Fu32 & 0xFE00707Fu32 != 0) &&
            ((0x03u32 ^ 0x503Bu32) & 0x707Fu32 & 0xFE00707Fu32 != 0))))))))) &&
            (((((((((0x03u32 ^ 0x4000503Bu32) & 0x707Fu32 & 0xFE00707Fu32 != 0) &&
            ((0x1003u32 ^ 0x2003u32) & 0x707Fu32 & 0x707Fu32 != 0)) &&
            (((0x1003u32 ^ 0x3003u32) & 0x707Fu32 & 0x707Fu32 != 0) &&
            (((0x1003u32 ^ 0x4003u32) & 0x707Fu32 & 0x707Fu32 != 0) &&
            ((0x1003u32 ^ 0x5003u32) & 0x707Fu32 & 0x707Fu32 != 0)))) &&
            ((((0x1003u32 ^ 0x6003u32) & 0x707Fu32 & 0x707Fu32 != 0) &&
            ((0x1003u32 ^ 0x23u32) & 0x707Fu32 & 0x707Fu32 != 0)) &&
            (((0x1003u32 ^ 0x1023u32) & 0x707Fu32 & 0x707Fu32 != 0) &&
            (((0x1003u32 ^ 0x2023u32) & 0x707Fu32 & 0x707Fu32 != 0) &&
            ((0x1003u32 ^ 0x3023u32) & 0x707Fu32 & 0x707Fu32 != 0))))) &&
            (((((0x1003u32 ^ 0x13u32) & 0x707Fu32 & 0x707Fu32 != 0) &&
            ((0x1003u32 ^ 0x2013u32) & 0x707Fu32 & 0x707Fu32 != 0)) &&
            (((0x1003u32 ^ 0x3013u32) & 0x707Fu32 & 0x707Fu32 != 0) &&
            (((0x1003u32 ^ 0x4013u32) & 0x707Fu32 & 0x707Fu32 != 0) &&
            ((0x1003u32 ^ 0x6013u32) & 0x707Fu32 & 0x707Fu32 != 0)))) &&
            ((((0x1003u32 ^ 0x7013u32) & 0x707Fu32 & 0x707Fu32 != 0) &&
            (((0x1003u32 ^ 0x1013u32) & 0x707Fu32 & 0xFC00707Fu32 != 0) &&
            ((0x1003u32 ^ 0x5013u32) & 0x707Fu32 & 0xFC00707Fu32 != 0))) &&
            (((0x1003u32 ^ 0x40005013u32) & 0x707Fu32 & 0xFC00707Fu32 != 0) &&
            (((0x1003u32 ^ 0x33u32) & 0x707Fu32 & 0xFE00707Fu32 != 0) &&
            ((0x1003u32 ^ 0x40000033u32) & 0x707Fu32 & 0xFE00707Fu32 != 0)))))) &&
            ((((((0x1003u32 ^ 0x1033u32) & 0x707Fu32 & 0xFE00707Fu32 != 0) &&
            ((0x1003u32 ^ 0x2033u32) & 0x707Fu32 & 0xFE00707Fu32 != 0)) &&
            (((0x1003u32 ^ 0x3033u32) & 0x707Fu32 & 0xFE00707Fu32 != 0) &&
            (((0x1003u32 ^ 0x4033u32) & 0x707Fu32 & 0xFE00707Fu32 != 0) &&
            ((0x1003u32 ^ 0x5033u32) & 0x707Fu32 & 0xFE00707Fu32 != 0)))) &&
            ((((0x1003u32 ^ 0x40005033u32) & 0x707Fu32 & 0xFE00707Fu32 != 0) &&
            (((0x1003u32 ^ 0x6033u32) & 0x707Fu32 & 0xFE00707Fu32 != 0) &&
            ((0x1003u32 ^ 0x7033u32) & 0x707Fu32 & 0xFE00707Fu32 != 0))) &&
            (((0x1003u32 ^ 0x0Fu32) & 0x707Fu32 & 0x000FFFFFu32 != 0) &&
            (((0x1003u32 ^ 0x100Fu32) & 0x707Fu32 & 0xFFFFFFFFu32 != 0) &&
            ((0x1003u32 ^ 0x73u32) & 0x707Fu32 & 0xFFFFFFFFu32 != 0))))) &&
            (((((0x1003u32 ^ 0x100073u32) & 0x707Fu32 & 0xFFFFFFFFu32 != 0) &&
            ((0x1003u32 ^ 0x1Bu32) & 0x707Fu32 & 0x707Fu32 != 0)) &&
            (((0x1003u32 ^ 0x101Bu32) & 0x707Fu32 & 0xFE00707Fu32 != 0) &&
            (((0x1003u32 ^ 0x501Bu32) & 0x707Fu32 & 0xFE00707Fu32 != 0) &&
            ((0x1003u32 ^ 0x4000501Bu32) & 0x707Fu32 & 0xFE00707Fu32 != 0)))) &&
            ((((0x1003u32 ^ 0x3Bu32) & 0x707Fu32 & 0xFE00707Fu32 != 0) &&
            (((0x1003u32 ^ 0x4000003Bu32) & 0x707Fu32 & 0xFE00707Fu32 != 0) &&
            ((0x1003u32 ^ 0x103Bu32) & 0x707Fu32 & 0xFE00707Fu32 != 0))) &&
            (((0x1003u32 ^ 0x503Bu32) & 0x707Fu32 & 0xFE00707Fu32 != 0) &&
            (((0x1003u32 ^ 0x4000503Bu32) & 0x707Fu32 & 0xFE00707Fu32 != 0) &&
            ((0x2003u32 ^ 0x3003u32) & 0x707Fu32 & 0x707Fu32 != 0))))))) &&
            (((((((0x2003u32 ^ 0x4003u32) & 0x707Fu32 & 0x707Fu32 != 0) &&
            ((0x2003u32 ^ 0x5003u32) & 0x707Fu32 & 0x707Fu32 != 0)) &&
            (((0x2003u32 ^ 0x6003u32) & 0x707Fu32 & 0x707Fu32 != 0) &&
            (((0x2003u32 ^ 0x23u32) & 0x707Fu32 & 0x707Fu32 != 0) &&
            ((0x2003u32 ^ 0x1023u32) & 0x707Fu32 & 0x707Fu32 != 0)))) &&
            ((((0x2003u32 ^ 0x2023u32) & 0x707Fu32 & 0x707Fu32 != 0) &&
            ((0x2003u32 ^ 0x3023u32) & 0x707Fu32 & 0x707Fu32 != 0)) &&
            (((0x2003u32 ^ 0x13u32) & 0x707Fu32 & 0x707Fu32 != 0) &&
            (((0x2003u32 ^ 0x2013u32) & 0x707Fu32 & 0x707Fu32 != 0) &&
            ((0x2003u32 ^ 0x3013u32) & 0x707Fu32 & 0x707Fu32 != 0))))) &&
            (((((0x2003u32 ^ 0x4013u32) & 0x707Fu32 & 0x707Fu32 != 0) &&
            ((0x2003u32 ^ 0x6013u32) & 0x707Fu32 & 0x707Fu32 != 0)) &&
            (((0x2003u32 ^ 0x7013u32) & 0x707Fu32 & 0x707Fu32 != 0) &&
            (((0x2003u32 ^ 0x1013u32) & 0x707Fu32 & 0xFC00707Fu32 != 0) &&
            ((0x2003u32 ^ 0x5013u32) & 0x707Fu32 & 0xFC00707Fu32 != 0)))) &&
            ((((0x2003u32 ^ 0x40005013u32) & 0x707Fu32 & 0xFC00707Fu32 != 0) &&
            (((0x2003u32 ^ 0x33u32) & 0x707Fu32 & 0xFE00707Fu32 != 0) &&
            ((0x2003u32 ^ 0x40000033u32) & 0x707Fu32 & 0xFE00707Fu32 != 0))) &&
            (((0x2003u32 ^ 0x1033u32) & 0x707Fu32 & 0xFE00707Fu32 != 0) &&
            (((0x2003u32 ^ 0x2033u32) & 0x707Fu32 & 0xFE00707Fu32 != 0) &&
            ((0x2003u32 ^ 0x3033u32) & 0x707Fu32 & 0xFE00707Fu32 != 0)))))) &&
            ((((((0x2003u32 ^ 0x4033u32) & 0x707Fu32 & 0xFE00707Fu32 != 0) &&
            ((0x2003u32 ^ 0x5033u32) & 0x707Fu32 & 0xFE00707Fu32 != 0)) &&
            (((0x2003u32 ^ 0x40005033u32) & 0x707Fu32 & 0xFE00707Fu32 != 0) &&
            (((0x2003u32 ^ 0x6033u32) & 0x707Fu32 & 0xFE00707Fu32 != 0) &&
            ((0x2003u32 ^ 0x7033u32) & 0x707Fu32 & 0xFE00707Fu32 != 0)))) &&
            ((((0x2003u32 ^ 0x0Fu32) & 0x707Fu32 & 0x000FFFFFu32 != 0) &&
            (((0x2003u32 ^ 0x100Fu32) & 0x707Fu32 & 0xFFFFFFFFu32 != 0) &&
            ((0x2003u32 ^ 0x73u32) & 0x707Fu32 & 0xFFFFFFFFu32 != 0))) &&
            (((0x2003u32 ^ 0x100073u32) & 0x707Fu32 & 0xFFFFFFFFu32 != 0) &&
            (((0x2003u32 ^ 0x1Bu32) & 0x707Fu32 & 0x707Fu32 != 0) &&
            ((0x2003u32 ^ 0x101Bu32) & 0x707Fu32 & 0xFE00707Fu32 != 0))))) &&
            (((((0x2003u32 ^ 0x501Bu32) & 0x707Fu32 & 0xFE00707Fu32 != 0) &&
            ((0x2003u32 ^ 0x4000501Bu32) & 0x707Fu32 & 0xFE00707Fu32 != 0)) &&
            (((0x2003u32 ^ 0x3Bu32) & 0x707Fu32 & 0xFE00707Fu32 != 0) &&
            (((0x2003u32 ^ 0x4000003Bu32) & 0x707Fu32 & 0xFE00707Fu32 != 0) &&
            ((0x2003u32 ^ 0x103Bu32) & 0x707Fu32 & 0xFE00707Fu32 != 0)))) &&
            ((((0x2003u32 ^ 0x503Bu32) & 0x707Fu32 & 0xFE00707Fu32 != 0) &&
            (((0x2003u32 ^ 0x4000503Bu32) & 0x707Fu32 & 0xFE00707Fu32 != 0) &&
            ((0x3003u32 ^ 0x4003u32) & 0x707Fu32 & 0x707Fu32 != 0))) &&
            (((0x3003u32 ^ 0x5003u32) & 0x707Fu32 & 0x707Fu32 != 0) &&
            (((0x3003u32 ^ 0x6003u32) & 0x707Fu32 & 0x707Fu32 != 0) &&
            ((0x3003u32 ^ 0x23u32) & 0x707Fu32 & 0x707Fu32 != 0)))))))) &&
            ((((((((0x3003u32 ^ 0x1023u32) & 0x707Fu32 & 0x707Fu32 != 0) &&
            ((0x3003u32 ^ 0x2023u32) & 0x707Fu32 & 0x707Fu32 != 0)) &&
            (((0x3003u32 ^ 0x3023u32) & 0x707Fu32 & 0x707Fu32 != 0) &&
            (((0x3003u32 ^ 0x13u32) & 0x707Fu32 & 0x707Fu32 != 0) &&
            ((0x3003u32 ^ 0x2013u32) & 0x707Fu32 & 0x707Fu32 != 0)))) &&
            ((((0x3003u32 ^ 0x3013u32) & 0x707Fu32 & 0x707Fu32 != 0) &&
            ((0x3003u32 ^ 0x4013u32) & 0x707Fu32 & 0x707Fu32 != 0)) &&
            (((0x3003u32 ^ 0x6013u32) & 0x707Fu32 & 0x707Fu32 != 0) &&
            (((0x3003u32 ^ 0x7013u32) & 0x707Fu32 & 0x707Fu32 != 0) &&
            ((0x3003u32 ^ 0x1013u32) & 0x707Fu32 & 0xFC00707Fu32 != 0))))) &&
            (((((0x3003u32 ^ 0x5013u32) & 0x707Fu32 & 0xFC00707Fu32 != 0) &&
            ((0x3003u32 ^ 0x40005013u32) & 0x707Fu32 & 0xFC00707Fu32 != 0)) &&
            (((0x3003u32 ^ 0x33u32) & 0x707Fu32 & 0xFE00707Fu32 != 0) &&
            (((0x3003u32 ^ 0x40000033u32) & 0x707Fu32 & 0xFE00707Fu32 != 0) &&
            ((0x3003u32 ^ 0x1033u32) & 0x707Fu32 & 0xFE00707Fu32 != 0)))) &&
            ((((0x3003u32 ^ 0x2033u32) & 0x707Fu32 & 0xFE00707Fu32 != 0) &&
            (((0x3003u32 ^ 0x3033u32) & 0x707Fu32 & 0xFE00707Fu32 != 0) &&
            ((0x3003u32 ^ 0x4033u32) & 0x707Fu32 & 0xFE00707Fu32 != 0))) &&
            (((0x3003u32 ^ 0x5033u32) & 0x707Fu32 & 0xFE00707Fu32 != 0) &&
            (((0x3003u32 ^ 0x40005033u32) & 0x707Fu32 & 0xFE00707Fu32 != 0) &&
            ((0x3003u32 ^ 0x6033u32) & 0x707Fu32 & 0xFE00707Fu32 != 0)))))) &&
            ((((((0x3003u32 ^ 0x7033u32) & 0x707Fu32 & 0xFE00707Fu32 != 0) &&
            ((0x3003u32 ^ 0x0Fu32) & 0x707Fu32 & 0x000FFFFFu32 != 0)) &&
            (((0x3003u32 ^ 0x100Fu32) & 0x707Fu32 & 0xFFFFFFFFu32 != 0) &&
            (((0x3003u32 ^ 0x73u32) & 0x707Fu32 & 0xFFFFFFFFu32 != 0) &&
            ((0x3003u32 ^ 0x100073u32) & 0x707Fu32 & 0xFFFFFFFFu32 != 0)))) &&
            ((((0x3003u32 ^ 0x1Bu32) & 0x707Fu32 & 0x707Fu32 != 0) &&
            (((0x3003u32 ^ 0x101Bu32) & 0x707Fu32 & 0xFE00707Fu32 != 0) &&
            ((0x3003u32 ^ 0x501Bu32) & 0x707Fu32 & 0xFE00707Fu32 != 0))) &&
            (((0x3003u32 ^ 0x4000501Bu32) & 0x707Fu32 & 0xFE00707Fu32 != 0) &&
            (((0x3003u32 ^ 0x3Bu32) & 0x707Fu32 & 0xFE00707Fu32 != 0) &&
            ((0x3003u32 ^ 0x4000003Bu32) & 0x707Fu32 & 0xFE00707Fu32 != 0))))) &&
            (((((0x3003u32 ^ 0x103Bu32) & 0x707Fu32 & 0xFE00707Fu32 != 0) &&
            ((0x3003u32 ^ 0x503Bu32) & 0x707Fu32 & 0xFE00707Fu32 != 0)) &&
            (((0x3003u32 ^ 0x4000503Bu32) & 0x707Fu32 & 0xFE00707Fu32 != 0) &&
            (((0x4003u32 ^ 0x5003u32) & 0x707Fu32 & 0x707Fu32 != 0) &&
            ((0x4003u32 ^ 0x6003u32) & 0x707Fu32 & 0x707Fu32 != 0)))) &&
            ((((0x4003u32 ^ 0x23u32) & 0x707Fu32 & 0x707Fu32 != 0) &&
            (((0x4003u32 ^ 0x1023u32) & 0x707Fu32 & 0x707Fu32 != 0) &&
            ((0x4003u32 ^ 0x2023u32) & 0x707Fu32 & 0x707Fu32 != 0))) &&
            (((0x4003u32 ^ 0x3023u32) & 0x707Fu32 & 0x707Fu32 != 0) &&
            (((0x4003u32 ^ 0x13u32) & 0x707Fu32 & 0x707Fu32 != 0) &&
            ((0x4003u32 ^ 0x2013u32) & 0x707Fu32 & 0x707Fu32 != 0))))))) &&
            (((((((0x4003u32 ^ 0x3013u32) & 0x707Fu32 & 0x707Fu32 != 0) &&
            ((0x4003u32 ^ 0x4013u32) & 0x707Fu32 & 0x707Fu32 != 0)) &&
            (((0x4003u32 ^ 0x6013u32) & 0x707Fu32 & 0x707Fu32 != 0) &&
            (((0x4003u32 ^ 0x7013u32) & 0x707Fu32 & 0x707Fu32 != 0) &&
            ((0x4003u32 ^ 0x1013u32) & 0x707Fu32 & 0xFC00707Fu32 != 0)))) &&
            ((((0x4003u32 ^ 0x5013u32) & 0x707Fu32 & 0xFC00707Fu32 != 0) &&
            (((0x4003u32 ^ 0x40005013u32) & 0x707Fu32 & 0xFC00707Fu32 != 0) &&
            ((0x4003u32 ^ 0x33u32) & 0x707Fu32 & 0xFE00707Fu32 != 0))) &&
            (((0x4003u32 ^ 0x40000033u32) & 0x707Fu32 & 0xFE00707Fu32 != 0) &&
            (((0x4003u32 ^ 0x1033u32) & 0x707Fu32 & 0xFE00707Fu32 != 0) &&
            ((0x4003u32 ^ 0x2033u32) & 0x707Fu32 & 0xFE00707Fu32 != 0))))) &&
            (((((0x4003u32 ^ 0x3033u32) & 0x707Fu32 & 0xFE00707Fu32 != 0) &&
            ((0x4003u32 ^ 0x4033u32) & 0x707Fu32 & 0xFE00707Fu32 != 0)) &&
            (((0x4003u32 ^ 0x5033u32) & 0x707Fu32 & 0xFE00707Fu32 != 0) &&
            (((0x4003u32 ^ 0x40005033u32) & 0x707Fu32 & 0xFE00707Fu32 != 0) &&
            ((0x4003u32 ^ 0x6033u32) & 0x707Fu32 & 0xFE00707Fu32 != 0)))) &&
            ((((0x4003u32 ^ 0x7033u32) & 0x707Fu32 & 0xFE00707Fu32 != 0) &&
            (((0x4003u32 ^ 0x0Fu32) & 0x707Fu32 & 0x000FFFFFu32 != 0) &&
            ((0x4003u32 ^ 0x100Fu32) & 0x707Fu32 & 0xFFFFFFFFu32 != 0))) &&
            (((0x4003u32 ^ 0x73u32) & 0x707Fu32 & 0xFFFFFFFFu32 != 0) &&
            (((0x4003u32 ^ 0x100073u32) & 0x707Fu32 & 0xFFFFFFFFu32 != 0) &&
            ((0x4003u32 ^ 0x1Bu32) & 0x707Fu32 & 0x707Fu32 != 0)))))) &&
            ((((((0x4003u32 ^ 0x101Bu32) & 0x707Fu32 & 0xFE00707Fu32 != 0) &&
            ((0x4003u32 ^ 0x501Bu32) & 0x707Fu32 & 0xFE00707Fu32 != 0)) &&
            (((0x4003u32 ^ 0x4000501Bu32) & 0x707Fu32 & 0xFE00707Fu32 != 0) &&
            (((0x4003u32 ^ 0x3Bu32) & 0x707Fu32 & 0xFE00707Fu32 != 0) &&
            ((0x4003u32 ^ 0x4000003Bu32) & 0x707Fu32 & 0xFE00707Fu32 != 0)))) &&
            ((((0x4003u32 ^ 0x103Bu32) & 0x707Fu32 & 0xFE00707Fu32 != 0) &&
            (((0x4003u32 ^ 0x503Bu32) & 0x707Fu32 & 0xFE00707Fu32 != 0) &&
            ((0x4003u32 ^ 0x4000503Bu32) & 0x707Fu32 & 0xFE00707Fu32 != 0))) &&
            (((0x5003u32 ^ 0x6003u32) & 0x707Fu32 & 0x707Fu32 != 0) &&
            (((0x5003u32 ^ 0x23u32) & 0x707Fu32 & 0x707Fu32 != 0) &&
            ((0x5003u32 ^ 0x1023u32) & 0x707Fu32 & 0x707Fu32 != 0))))) &&
            (((((0x5003u32 ^ 0x2023u32) & 0x707Fu32 & 0x707Fu32 != 0) &&
            ((0x5003u32 ^ 0x3023u32) & 0x707Fu32 & 0x707Fu32 != 0)) &&
            (((0x5003u32 ^ 0x13u32) & 0x707Fu32 & 0x707Fu32 != 0) &&
            (((0x5003u32 ^ 0x2013u32) & 0x707Fu32 & 0x707Fu32 != 0) &&
            ((0x5003u32 ^ 0x3013u32) & 0x707Fu32 & 0x707Fu32 != 0)))) &&
            ((((0x5003u32 ^ 0x4013u32) & 0x707Fu32 & 0x707Fu32 != 0) &&
            (((0x5003u32 ^ 0x6013u32) & 0x707Fu32 & 0x707Fu32 != 0) &&
            ((0x5003u32 ^ 0x7013u32) & 0x707Fu32 & 0x707Fu32 != 0))) &&
            (((0x5003u32 ^ 0x1013u32) & 0x707Fu32 & 0xFC00707Fu32 != 0) &&
            (((0x5003u32 ^ 0x5013u32) & 0x707Fu32 & 0xFC00707Fu32 != 0) &&
            ((0x5003u32 ^ 0x40005013u32) & 0x707Fu32 & 0xFC00707Fu32 != 0))))))))))) &&
            (((((((((((0x5003u32 ^ 0x33u32) & 0x707Fu32 & 0xFE00707Fu32 != 0) &&
            ((0x5003u32 ^ 0x40000033u32) & 0x707Fu32 & 0xFE00707Fu32 != 0)) &&
            (((0x5003u32 ^ 0x1033u32) & 0x707Fu32 & 0xFE00707Fu32 != 0) &&
            (((0x5003u32 ^ 0x2033u32) & 0x707Fu32 & 0xFE00707Fu32 != 0) &&
            ((0x5003u32 ^ 0x3033u32) & 0x707Fu32 & 0xFE00707Fu32 != 0)))) &&
            ((((0x5003u32 ^ 0x4033u32) & 0x707Fu32 & 0xFE00707Fu32 != 0) &&
            ((0x5003u32 ^ 0x5033u32) & 0x707Fu32 & 0xFE00707Fu32 != 0)) &&
            (((0x5003u32 ^ 0x40005033u32) & 0x707Fu32 & 0xFE00707Fu32 != 0) &&
            (((0x5003u32 ^ 0x6033u32) & 0x707Fu32 & 0xFE00707Fu32 != 0) &&
            ((0x5003u32 ^ 0x7033u32) & 0x707Fu32 & 0xFE00707Fu32 != 0))))) &&
            (((((0x5003u32 ^ 0x0Fu32) & 0x707Fu32 & 0x000FFFFFu32 != 0) &&
            ((0x5003u32 ^ 0x100Fu32) & 0x707Fu32 & 0xFFFFFFFFu32 != 0)) &&
            (((0x5003u32 ^ 0x73u32) & 0x707Fu32 & 0xFFFFFFFFu32 != 0) &&
            (((0x5003u32 ^ 0x100073u32) & 0x707Fu32 & 0xFFFFFFFFu32 != 0) &&
            ((0x5003u32 ^ 0x1Bu32) & 0x707Fu32 & 0x707Fu32 != 0)))) &&
            ((((0x5003u32 ^ 0x101Bu32) & 0x707Fu32 & 0xFE00707Fu32 != 0) &&
            (((0x5003u32 ^ 0x501Bu32) & 0x707Fu32 & 0xFE00707Fu32 != 0) &&
            ((0x5003u32 ^ 0x4000501Bu32) & 0x707Fu32 & 0xFE00707Fu32 != 0))) &&
            (((0x5003u32 ^ 0x3Bu32) & 0x707Fu32 & 0xFE00707Fu32 != 0) &&
            (((0x5003u32 ^ 0x4000003Bu32) & 0x707Fu32 & 0xFE00707Fu32 != 0) &&
            ((0x5003u32 ^ 0x103Bu32) & 0x707Fu32 & 0xFE00707Fu32 != 0)))))) &&
            ((((((0x5003u32 ^ 0x503Bu32) & 0x707Fu32 & 0xFE00707Fu32 != 0) &&
            ((0x5003u32 ^ 0x4000503Bu32) & 0x707Fu32 & 0xFE00707Fu32 != 0)) &&
            (((0x6003u32 ^ 0x23u32) & 0x707Fu32 & 0x707Fu32 != 0) &&
            (((0x6003u32 ^ 0x1023u32) & 0x707Fu32 & 0x707Fu32 != 0) &&
            ((0x6003u32 ^ 0x2023u32) & 0x707Fu32 & 0x707Fu32 != 0)))) &&
            ((((0x6003u32 ^ 0x3023u32) & 0x707Fu32 & 0x707Fu32 != 0) &&
            (((0x6003u32 ^ 0x13u32) & 0x707Fu32 & 0x707Fu32 != 0) &&
            ((0x6003u32 ^ 0x2013u32) & 0x707Fu32 & 0x707Fu32 != 0))) &&
            (((0x6003u32 ^ 0x3013u32) & 0x707Fu32 & 0x707Fu32 != 0) &&
            (((0x6003u32 ^ 0x4013u32) & 0x707Fu32 & 0x707Fu32 != 0) &&
            ((0x6003u32 ^ 0x6013u32) & 0x707Fu32 & 0x707Fu32 != 0))))) &&
            (((((0x6003u32 ^ 0x7013u32) & 0x707Fu32 & 0x707Fu32 != 0) &&
            ((0x6003u32 ^ 0x1013u32) & 0x707Fu32 & 0xFC00707Fu32 != 0)) &&
            (((0x6003u32 ^ 0x5013u32) & 0x707Fu32 & 0xFC00707Fu32 != 0) &&
            (((0x6003u32 ^ 0x40005013u32) & 0x707Fu32 & 0xFC00707Fu32 != 0) &&
            ((0x6003u32 ^ 0x33u32) & 0x707Fu32 & 0xFE00707Fu32 != 0)))) &&
            ((((0x6003u32 ^ 0x40000033u32) & 0x707Fu32 & 0xFE00707Fu32 != 0) &&
            (((0x6003u32 ^ 0x1033u32) & 0x707Fu32 & 0xFE00707Fu32 != 0) &&
            ((0x6003u32 ^ 0x2033u32) & 0x707Fu32 & 0xFE00707Fu32 != 0))) &&
            (((0x6003u32 ^ 0x3033u32) & 0x707Fu32 & 0xFE00707Fu32 != 0) &&
            (((0x6003u32 ^ 0x4033u32) & 0x707Fu32 & 0xFE00707Fu32 != 0) &&
            ((0x6003u32 ^ 0x5033u32) & 0x707Fu32 & 0xFE00707Fu32 != 0))))))) &&
            (((((((0x6003u32 ^ 0x40005033u32) & 0x707Fu32 & 0xFE00707Fu32 != 0) &&
            ((0x6003u32 ^ 0x6033u32) & 0x707Fu32 & 0xFE00707Fu32 != 0)) &&
            (((0x6003u32 ^ 0x7033u32) & 0x707Fu32 & 0xFE00707Fu32 != 0) &&
            (((0x6003u32 ^ 0x0Fu32) & 0x707Fu32 & 0x000FFFFFu32 != 0) &&
            ((0x6003u32 ^ 0x100Fu32) & 0x707Fu32 & 0xFFFFFFFFu32 != 0)))) &&
            ((((0x6003u32 ^ 0x73u32) & 0x707Fu32 & 0xFFFFFFFFu32 != 0) &&
            ((0x6003u32 ^ 0x100073u32) & 0x707Fu32 & 0xFFFFFFFFu32 != 0)) &&
            (((0x6003u32 ^ 0x1Bu32) & 0x707Fu32 & 0x707Fu32 != 0) &&
            (((0x6003u32 ^ 0x101Bu32) & 0x707Fu32 & 0xFE00707Fu32 != 0) &&
            ((0x6003u32 ^ 0x501Bu32) & 0x707Fu32 & 0xFE00707Fu32 != 0))))) &&
            (((((0x6003u32 ^ 0x4000501Bu32) & 0x707Fu32 & 0xFE00707Fu32 != 0) &&
            ((0x6003u32 ^ 0x3Bu32) & 0x707Fu32 & 0xFE00707Fu32 != 0)) &&
            (((0x6003u32 ^ 0x4000003Bu32) & 0x707Fu32 & 0xFE00707Fu32 != 0) &&
            (((0x6003u32 ^ 0x103Bu32) & 0x707Fu32 & 0xFE00707Fu32 != 0) &&
            ((0x6003u32 ^ 0x503Bu32) & 0x707Fu32 & 0xFE00707Fu32 != 0)))) &&
            ((((0x6003u32 ^ 0x4000503Bu32) & 0x707Fu32 & 0xFE00707Fu32 != 0) &&
            (((0x23u32 ^ 0x1023u32) & 0x707Fu32 & 0x707Fu32 != 0) &&
            ((0x23u32 ^ 0x2023u32) & 0x707Fu32 & 0x707Fu32 != 0))) &&
            (((0x23u32 ^ 0x3023u32) & 0x707Fu32 & 0x707Fu32 != 0) &&
            (((0x23u32 ^ 0x13u32) & 0x707Fu32 & 0x707Fu32 != 0) &&
            ((0x23u32 ^ 0x2013u32) & 0x707Fu32 & 0x707Fu32 != 0)))))) &&
            ((((((0x23u32 ^ 0x3013u32) & 0x707Fu32 & 0x707Fu32 != 0) &&
            ((0x23u32 ^ 0x4013u32) & 0x707Fu32 & 0x707Fu32 != 0)) &&
            (((0x23u32 ^ 0x6013u32) & 0x707Fu32 & 0x707Fu32 != 0) &&
            (((0x23u32 ^ 0x7013u32) & 0x707Fu32 & 0x707Fu32 != 0) &&
            ((0x23u32 ^ 0x1013u32) & 0x707Fu32 & 0xFC00707Fu32 != 0)))) &&
            ((((0x23u32 ^ 0x5013u32) & 0x707Fu32 & 0xFC00707Fu32 != 0) &&
            (((0x23u32 ^ 0x40005013u32) & 0x707Fu32 & 0xFC00707Fu32 != 0) &&
            ((0x23u32 ^ 0x33u32) & 0x707Fu32 & 0xFE00707Fu32 != 0))) &&
            (((0x23u32 ^ 0x40000033u32) & 0x707Fu32 & 0xFE00707Fu32 != 0) &&
            (((0x23u32 ^ 0x1033u32) & 0x707Fu32 & 0xFE00707Fu32 != 0) &&
            ((0x23u32 ^ 0x2033u32) & 0x707Fu32 & 0xFE00707Fu32 != 0))))) &&
            (((((0x23u32 ^ 0x3033u32) & 0x707Fu32 & 0xFE00707Fu32 != 0) &&
            ((0x23u32 ^ 0x4033u32) & 0x707Fu32 & 0xFE00707Fu32 != 0)) &&
            (((0x23u32 ^ 0x5033u32) & 0x707Fu32 & 0xFE00707Fu32 != 0) &&
            (((0x23u32 ^ 0x40005033u32) & 0x707Fu32 & 0xFE00707Fu32 != 0) &&
            ((0x23u32 ^ 0x6033u32) & 0x707Fu32 & 0xFE00707Fu32 != 0)))) &&
            ((((0x23u32 ^ 0x7033u32) & 0x707Fu32 & 0xFE00707Fu32 != 0) &&
            (((0x23u32 ^ 0x0Fu32) & 0x707Fu32 & 0x000FFFFFu32 != 0) &&
            ((0x23u32 ^ 0x100Fu32) & 0x707Fu32 & 0xFFFFFFFFu32 != 0))) &&
            (((0x23u32 ^ 0x73u32) & 0x707Fu32 & 0xFFFFFFFFu32 != 0) &&
            (((0x23u32 ^ 0x100073u32) & 0x707Fu32 & 0xFFFFFFFFu32 != 0) &&
            ((0x23u32 ^ 0x1Bu32) & 0x707Fu32 & 0x707Fu32 != 0)))))))) &&
            ((((((((0x23u32 ^ 0x101Bu32) & 0x707Fu32 & 0xFE00707Fu32 != 0) &&
            ((0x23u32 ^ 0x501Bu32) & 0x707Fu32 & 0xFE00707Fu32 != 0)) &&
            (((0x23u32 ^ 0x4000501Bu32) & 0x707Fu32 & 0xFE00707Fu32 != 0) &&
            (((0x23u32 ^ 0x3Bu32) & 0x707Fu32 & 0xFE00707Fu32 != 0) &&
            ((0x23u32 ^ 0x4000003Bu32) & 0x707Fu32 & 0xFE00707Fu32 != 0)))) &&
            ((((0x23u32 ^ 0x103Bu32) & 0x707Fu32 & 0xFE00707Fu32 != 0) &&
            ((0x23u32 ^ 0x503Bu32) & 0x707Fu32 & 0xFE00707Fu32 != 0)) &&
            (((0x23u32 ^ 0x4000503Bu32) & 0x707Fu32 & 0xFE00707Fu32 != 0) &&
            (((0x1023u32 ^ 0x2023u32) & 0x707Fu32 & 0x707Fu32 != 0) &&
            ((0x1023u32 ^ 0x3023u32) & 0x707Fu32 & 0x707Fu32 != 0))))) &&
            (((((0x1023u32 ^ 0x13u32) & 0x707Fu32 & 0x707Fu32 != 0) &&
            ((0x1023u32 ^ 0x2013u32) & 0x707Fu32 & 0x707Fu32 != 0)) &&
            (((0x1023u32 ^ 0x3013u32) & 0x707Fu32 & 0x707Fu32 != 0) &&
            (((0x1023u32 ^ 0x4013u32) & 0x707Fu32 & 0x707Fu32 != 0) &&
            ((0x1023u32 ^ 0x6013u32) & 0x707Fu32 & 0x707Fu32 != 0)))) &&
            ((((0x1023u32 ^ 0x7013u32) & 0x707Fu32 & 0x707Fu32 != 0) &&
            (((0x1023u32 ^ 0x1013u32) & 0x707Fu32 & 0xFC00707Fu32 != 0) &&
            ((0x1023u32 ^ 0x5013u32) & 0x707Fu32 & 0xFC00707Fu32 != 0))) &&
            (((0x1023u32 ^ 0x40005013u32) & 0x707Fu32 & 0xFC00707Fu32 != 0) &&
            (((0x1023u32 ^ 0x33u32) & 0x707Fu32 & 0xFE00707Fu32 != 0) &&
            ((0x1023u32 ^ 0x40000033u32) & 0x707Fu32 & 0xFE00707Fu32 != 0)))))) &&
            ((((((0x1023u32 ^ 0x1033u32) & 0x707Fu32 & 0xFE00707Fu32 != 0) &&
            ((0x1023u32 ^ 0x2033u32) & 0x707Fu32 & 0xFE00707Fu32 != 0)) &&
            (((0x1023u32 ^ 0x3033u32) & 0x707Fu32 & 0xFE00707Fu32 != 0) &&
            (((0x1023u32 ^ 0x4033u32) & 0x707Fu32 & 0xFE00707Fu32 != 0) &&
            ((0x1023u32 ^ 0x5033u32) & 0x707Fu32 & 0xFE00707Fu32 != 0)))) &&
            ((((0x1023u32 ^ 0x40005033u32) & 0x707Fu32 & 0xFE00707Fu32 != 0) &&
            (((0x1023u32 ^ 0x6033u32) & 0x707Fu32 & 0xFE00707Fu32 != 0) &&
            ((0x1023u32 ^ 0x7033u32) & 0x707Fu32 & 0xFE00707Fu32 != 0))) &&
            (((0x1023u32 ^ 0x0Fu32) & 0x707Fu32 & 0x000FFFFFu32 != 0) &&
            (((0x1023u32 ^ 0x100Fu32) & 0x707Fu32 & 0xFFFFFFFFu32 != 0) &&
            ((0x1023u32 ^ 0x73u32) & 0x707Fu32 & 0xFFFFFFFFu32 != 0))))) &&
            (((((0x1023u32 ^ 0x100073u32) & 0x707Fu32 & 0xFFFFFFFFu32 != 0) &&
            ((0x1023u32 ^ 0x1Bu32) & 0x707Fu32 & 0x707Fu32 != 0)) &&
            (((0x1023u32 ^ 0x101Bu32) & 0x707Fu32 & 0xFE00707Fu32 != 0) &&
            (((0x1023u32 ^ 0x501Bu32) & 0x707Fu32 & 0xFE00707Fu32 != 0) &&
            ((0x1023u32 ^ 0x4000501Bu32) & 0x707Fu32 & 0xFE00707Fu32 != 0)))) &&
            ((((0x1023u32 ^ 0x3Bu32) & 0x707Fu32 & 0xFE00707Fu32 != 0) &&
            (((0x1023u32 ^ 0x4000003Bu32) & 0x707Fu32 & 0xFE00707Fu32 != 0) &&
            ((0x1023u32 ^ 0x103Bu32) & 0x707Fu32 & 0xFE00707Fu32 != 0))) &&
            (((0x1023u32 ^ 0x503Bu32) & 0x707Fu32 & 0xFE00707Fu32 != 0) &&
            (((0x1023u32 ^ 0x4000503Bu32) & 0x707Fu32 & 0xFE00707Fu32 != 0) &&
            ((0x2023u32 ^ 0x3023u32) & 0x707Fu32 & 0x707Fu32 != 0))))))) &&
            (((((((0x2023u32 ^ 0x13u32) & 0x707Fu32 & 0x707Fu32 != 0) &&
            ((0x2023u32 ^ 0x2013u32) & 0x707Fu32 & 0x707Fu32 != 0)) &&
            (((0x2023u32 ^ 0x3013u32) & 0x707Fu32 & 0x707Fu32 != 0) &&
            (((0x2023u32 ^ 0x4013u32) & 0x707Fu32 & 0x707Fu32 != 0) &&
            ((0x2023u32 ^ 0x6013u32) & 0x707Fu32 & 0x707Fu32 != 0)))) &&
            ((((0x2023u32 ^ 0x7013u32) & 0x707Fu32 & 0x707Fu32 != 0) &&
            ((0x2023u32 ^ 0x1013u32) & 0x707Fu32 & 0xFC00707Fu32 != 0)) &&
            (((0x2023u32 ^ 0x5013u32) & 0x707Fu32 & 0xFC00707Fu32 != 0) &&
            (((0x2023u32 ^ 0x40005013u32) & 0x707Fu32 & 0xFC00707Fu32 != 0) &&
            ((0x2023u32 ^ 0x33u32) & 0x707Fu32 & 0xFE00707Fu32 != 0))))) &&
            (((((0x2023u32 ^ 0x40000033u32) & 0x707Fu32 & 0xFE00707Fu32 != 0) &&
            ((0x2023u32 ^ 0x1033u32) & 0x707Fu32 & 0xFE00707Fu32 != 0)) &&
            (((0x2023u32 ^ 0x2033u32) & 0x707Fu32 & 0xFE00707Fu32 != 0) &&
            (((0x2023u32 ^ 0x3033u32) & 0x707Fu32 & 0xFE00707Fu32 != 0) &&
            ((0x2023u32 ^ 0x4033u32) & 0x707Fu32 & 0xFE00707Fu32 != 0)))) &&
            ((((0x2023u32 ^ 0x5033u32) & 0x707Fu32 & 0xFE00707Fu32 != 0) &&
            (((0x2023u32 ^ 0x40005033u32) & 0x707Fu32 & 0xFE00707Fu32 != 0) &&
            ((0x2023u32 ^ 0x6033u32) & 0x707Fu32 & 0xFE00707Fu32 != 0))) &&
            (((0x2023u32 ^ 0x7033u32) & 0x707Fu32 & 0xFE00707Fu32 != 0) &&
            (((0x2023u32 ^ 0x0Fu32) & 0x707Fu32 & 0x000FFFFFu32 != 0) &&
            ((0x2023u32 ^ 0x100Fu32) & 0x707Fu32 & 0xFFFFFFFFu32 != 0)))))) &&
            ((((((0x2023u32 ^ 0x73u32) & 0x707Fu32 & 0xFFFFFFFFu32 != 0) &&
            ((0x2023u32 ^ 0x100073u32) & 0x707Fu32 & 0xFFFFFFFFu32 != 0)) &&
            (((0x2023u32 ^ 0x1Bu32) & 0x707Fu32 & 0x707Fu32 != 0) &&
            (((0x2023u32 ^ 0x101Bu32) & 0x707Fu32 & 0xFE00707Fu32 != 0) &&
            ((0x2023u32 ^ 0x501Bu32) & 0x707Fu32 & 0xFE00707Fu32 != 0)))) &&
            ((((0x2023u32 ^ 0x4000501Bu32) & 0x707Fu32 & 0xFE00707Fu32 != 0) &&
            (((0x2023u32 ^ 0x3Bu32) & 0x707Fu32 & 0xFE00707Fu32 != 0) &&
            ((0x2023u32 ^ 0x4000003Bu32) & 0x707Fu32 & 0xFE00707Fu32 != 0))) &&
            (((0x2023u32 ^ 0x103Bu32) & 0x707Fu32 & 0xFE00707Fu32 != 0) &&
            (((0x2023u32 ^ 0x503Bu32) & 0x707Fu32 & 0xFE00707Fu32 != 0) &&
            ((0x2023u32 ^ 0x4000503Bu32) & 0x707Fu32 & 0xFE00707Fu32 != 0))))) &&
            (((((0x3023u32 ^ 0x13u32) & 0x707Fu32 & 0x707Fu32 != 0) &&
            ((0x3023u32 ^ 0x2013u32) & 0x707Fu32 & 0x707Fu32 != 0)) &&
            (((0x3023u32 ^ 0x3013u32) & 0x707Fu32 & 0x707Fu32 != 0) &&
            (((0x3023u32 ^ 0x4013u32) & 0x707Fu32 & 0x707Fu32 != 0) &&
            ((0x3023u32 ^ 0x6013u32) & 0x707Fu32 & 0x707Fu32 != 0)))) &&
            ((((0x3023u32 ^ 0x7013u32) & 0x707Fu32 & 0x707Fu32 != 0) &&
            (((0x3023u32 ^ 0x1013u32) & 0x707Fu32 & 0xFC00707Fu32 != 0) &&
            ((0x3023u32 ^ 0x5013u32) & 0x707Fu32 & 0xFC00707Fu32 != 0))) &&
            (((0x3023u32 ^ 0x40005013u32) & 0x707Fu32 & 0xFC00707Fu32 != 0) &&
            (((0x3023u32 ^ 0x33u32) & 0x707Fu32 & 0xFE00707Fu32 != 0) &&
            ((0x3023u32 ^ 0x40000033u32) & 0x707Fu32 & 0xFE00707Fu32 != 0))))))))) &&
            (((((((((0x3023u32 ^ 0x1033u32) & 0x707Fu32 & 0xFE00707Fu32 != 0) &&
            ((0x3023u32 ^ 0x2033u32) & 0x707Fu32 & 0xFE00707Fu32 != 0)) &&
            (((0x3023u32 ^ 0x3033u32) & 0x707Fu32 & 0xFE00707Fu32 != 0) &&
            (((0x3023u32 ^ 0x4033u32) & 0x707Fu32 & 0xFE00707Fu32 != 0) &&
            ((0x3023u32 ^ 0x5033u32) & 0x707Fu32 & 0xFE00707Fu32 != 0)))) &&
            ((((0x3023u32 ^ 0x40005033u32) & 0x707Fu32 & 0xFE00707Fu32 != 0) &&
            ((0x3023u32 ^ 0x6033u32) & 0x707Fu32 & 0xFE00707Fu32 != 0)) &&
            (((0x3023u32 ^ 0x7033u32) & 0x707Fu32 & 0xFE00707Fu32 != 0) &&
            (((0x3023u32 ^ 0x0Fu32) & 0x707Fu32 & 0x000FFFFFu32 != 0) &&
            ((0x3023u32 ^ 0x100Fu32) & 0x707Fu32 & 0xFFFFFFFFu32 != 0))))) &&
            (((((0x3023u32 ^ 0x73u32) & 0x707Fu32 & 0xFFFFFFFFu32 != 0) &&
            ((0x3023u32 ^ 0x100073u32) & 0x707Fu32 & 0xFFFFFFFFu32 != 0)) &&
            (((0x3023u32 ^ 0x1Bu32) & 0x707Fu32 & 0x707Fu32 != 0) &&
            (((0x3023u32 ^ 0x101Bu32) & 0x707Fu32 & 0xFE00707Fu32 != 0) &&
            ((0x3023u32 ^ 0x501Bu32) & 0x707Fu32 & 0xFE00707Fu32 != 0)))) &&
            ((((0x3023u32 ^ 0x4000501Bu32) & 0x707Fu32 & 0xFE00707Fu32 != 0) &&
            (((0x3023u32 ^ 0x3Bu32) & 0x707Fu32 & 0xFE00707Fu32 != 0) &&
            ((0x3023u32 ^ 0x4000003Bu32) & 0x707Fu32 & 0xFE00707Fu32 != 0))) &&
            (((0x3023u32 ^ 0x103Bu32) & 0x707Fu32 & 0xFE00707Fu32 != 0) &&
            (((0x3023u32 ^ 0x503Bu32) & 0x707Fu32 & 0xFE00707Fu32 != 0) &&
            ((0x3023u32 ^ 0x4000503Bu32) & 0x707Fu32 & 0xFE00707Fu32 != 0)))))) &&
            ((((((0x13u32 ^ 0x2013u32) & 0x707Fu32 & 0x707Fu32 != 0) &&
            ((0x13u32 ^ 0x3013u32) & 0x707Fu32 & 0x707Fu32 != 0)) &&
            (((0x13u32 ^ 0x4013u32) & 0x707Fu32 & 0x707Fu32 != 0) &&
            (((0x13u32 ^ 0x6013u32) & 0x707Fu32 & 0x707Fu32 != 0) &&
            ((0x13u32 ^ 0x7013u32) & 0x707Fu32 & 0x707Fu32 != 0)))) &&
            ((((0x13u32 ^ 0x1013u32) & 0x707Fu32 & 0xFC00707Fu32 != 0) &&
            (((0x13u32 ^ 0x5013u32) & 0x707Fu32 & 0xFC00707Fu32 != 0) &&
            ((0x13u32 ^ 0x40005013u32) & 0x707Fu32 & 0xFC00707Fu32 != 0))) &&
            (((0x13u32 ^ 0x33u32) & 0x707Fu32 & 0xFE00707Fu32 != 0) &&
            (((0x13u32 ^ 0x40000033u32) & 0x707Fu32 & 0xFE00707Fu32 != 0) &&
            ((0x13u32 ^ 0x1033u32) & 0x707Fu32 & 0xFE00707Fu32 != 0))))) &&
            (((((0x13u32 ^ 0x2033u32) & 0x707Fu32 & 0xFE00707Fu32 != 0) &&
            ((0x13u32 ^ 0x3033u32) & 0x707Fu32 & 0xFE00707Fu32 != 0)) &&
            (((0x13u32 ^ 0x4033u32) & 0x707Fu32 & 0xFE00707Fu32 != 0) &&
            (((0x13u32 ^ 0x5033u32) & 0x707Fu32 & 0xFE00707Fu32 != 0) &&
            ((0x13u32 ^ 0x40005033u32) & 0x707Fu32 & 0xFE00707Fu32 != 0)))) &&
            ((((0x13u32 ^ 0x6033u32) & 0x707Fu32 & 0xFE00707Fu32 != 0) &&
            (((0x13u32 ^ 0x7033u32) & 0x707Fu32 & 0xFE00707Fu32 != 0) &&
            ((0x13u32 ^ 0x0Fu32) & 0x707Fu32 & 0x000FFFFFu32 != 0))) &&
            (((0x13u32 ^ 0x100Fu32) & 0x707Fu32 & 0xFFFFFFFFu32 != 0) &&
            (((0x13u32 ^ 0x73u32) & 0x707Fu32 & 0xFFFFFFFFu32 != 0) &&
            ((0x13u32 ^ 0x100073u32) & 0x707Fu32 & 0xFFFFFFFFu32 != 0))))))) &&
            (((((((0x13u32 ^ 0x1Bu32) & 0x707Fu32 & 0x707Fu32 != 0) &&
            ((0x13u32 ^ 0x101Bu32) & 0x707Fu32 & 0xFE00707Fu32 != 0)) &&
            (((0x13u32 ^ 0x501Bu32) & 0x707Fu32 & 0xFE00707Fu32 != 0) &&
            (((0x13u32 ^ 0x4000501Bu32) & 0x707Fu32 & 0xFE00707Fu32 != 0) &&
            ((0x13u32 ^ 0x3Bu32) & 0x707Fu32 & 0xFE00707Fu32 != 0)))) &&
            ((((0x13u32 ^ 0x4000003Bu32) & 0x707Fu32 & 0xFE00707Fu32 != 0) &&
            ((0x13u32 ^ 0x103Bu32) & 0x707Fu32 & 0xFE00707Fu32 != 0)) &&
            (((0x13u32 ^ 0x503Bu32) & 0x707Fu32 & 0xFE00707Fu32 != 0) &&
            (((0x13u32 ^ 0x4000503Bu32) & 0x707Fu32 & 0xFE00707Fu32 != 0) &&
            ((0x2013u32 ^ 0x3013u32) & 0x707Fu32 & 0x707Fu32 != 0))))) &&
            (((((0x2013u32 ^ 0x4013u32) & 0x707Fu32 & 0x707Fu32 != 0) &&
            ((0x2013u32 ^ 0x6013u32) & 0x707Fu32 & 0x707Fu32 != 0)) &&
            (((0x2013u32 ^ 0x7013u32) & 0x707Fu32 & 0x707Fu32 != 0) &&
            (((0x2013u32 ^ 0x1013u32) & 0x707Fu32 & 0xFC00707Fu32 != 0) &&
            ((0x2013u32 ^ 0x5013u32) & 0x707Fu32 & 0xFC00707Fu32 != 0)))) &&
            ((((0x2013u32 ^ 0x40005013u32) & 0x707Fu32 & 0xFC00707Fu32 != 0) &&
            (((0x2013u32 ^ 0x33u32) & 0x707Fu32 & 0xFE00707Fu32 != 0) &&
            ((0x2013u32 ^ 0x40000033u32) & 0x707Fu32 & 0xFE00707Fu32 != 0))) &&
            (((0x2013u32 ^ 0x1033u32) & 0x707Fu32 & 0xFE00707Fu32 != 0) &&
            (((0x2013u32 ^ 0x2033u32) & 0x707Fu32 & 0xFE00707Fu32 != 0) &&
            ((0x2013u32 ^ 0x3033u32) & 0x707Fu32 & 0xFE00707Fu32 != 0)))))) &&
            ((((((0x2013u32 ^ 0x4033u32) & 0x707Fu32 & 0xFE00707Fu32 != 0) &&
            ((0x2013u32 ^ 0x5033u32) & 0x707Fu32 & 0xFE00707Fu32 != 0)) &&
            (((0x2013u32 ^ 0x40005033u32) & 0x707Fu32 & 0xFE00707Fu32 != 0) &&
            (((0x2013u32 ^ 0x6033u32) & 0x707Fu32 & 0xFE00707Fu32 != 0) &&
            ((0x2013u32 ^ 0x7033u32) & 0x707Fu32 & 0xFE00707Fu32 != 0)))) &&
            ((((0x2013u32 ^ 0x0Fu32) & 0x707Fu32 & 0x000FFFFFu32 != 0) &&
            (((0x2013u32 ^ 0x100Fu32) & 0x707Fu32 & 0xFFFFFFFFu32 != 0) &&
            ((0x2013u32 ^ 0x73u32) & 0x707Fu32 & 0xFFFFFFFFu32 != 0))) &&
            (((0x2013u32 ^ 0x100073u32) & 0x707Fu32 & 0xFFFFFFFFu32 != 0) &&
            (((0x2013u32 ^ 0x1Bu32) & 0x707Fu32 & 0x707Fu32 != 0) &&
            ((0x2013u32 ^ 0x101Bu32) & 0x707Fu32 & 0xFE00707Fu32 != 0))))) &&
            (((((0x2013u32 ^ 0x501Bu32) & 0x707Fu32 & 0xFE00707Fu32 != 0) &&
            ((0x2013u32 ^ 0x4000501Bu32) & 0x707Fu32 & 0xFE00707Fu32 != 0)) &&
            (((0x2013u32 ^ 0x3Bu32) & 0x707Fu32 & 0xFE00707Fu32 != 0) &&
            (((0x2013u32 ^ 0x4000003Bu32) & 0x707Fu32 & 0xFE00707Fu32 != 0) &&
            ((0x2013u32 ^ 0x103Bu32) & 0x707Fu32 & 0xFE00707Fu32 != 0)))) &&
            ((((0x2013u32 ^ 0x503Bu32) & 0x707Fu32 & 0xFE00707Fu32 != 0) &&
            (((0x2013u32 ^ 0x4000503Bu32) & 0x707Fu32 & 0xFE00707Fu32 != 0) &&
            ((0x3013u32 ^ 0x4013u32) & 0x707Fu32 & 0x707Fu32 != 0))) &&
            (((0x3013u32 ^ 0x6013u32) & 0x707Fu32 & 0x707Fu32 != 0) &&
            (((0x3013u32 ^ 0x7013u32) & 0x707Fu32 & 0x707Fu32 != 0) &&
            ((0x3013u32 ^ 0x1013u32) & 0x707Fu32 & 0xFC00707Fu32 != 0)))))))) &&
            ((((((((0x3013u32 ^ 0x5013u32) & 0x707Fu32 & 0xFC00707Fu32 != 0) &&
            ((0x3013u32 ^ 0x40005013u32) & 0x707Fu32 & 0xFC00707Fu32 != 0)) &&
            (((0x3013u32 ^ 0x33u32) & 0x707Fu32 & 0xFE00707Fu32 != 0) &&
            (((0x3013u32 ^ 0x40000033u32) & 0x707Fu32 & 0xFE00707Fu32 != 0) &&
            ((0x3013u32 ^ 0x1033u32) & 0x707Fu32 & 0xFE00707Fu32 != 0)))) &&
            ((((0x3013u32 ^ 0x2033u32) & 0x707Fu32 & 0xFE00707Fu32 != 0) &&
            ((0x3013u32 ^ 0x3033u32) & 0x707Fu32 & 0xFE00707Fu32 != 0)) &&
            (((0x3013u32 ^ 0x4033u32) & 0x707Fu32 & 0xFE00707Fu32 != 0) &&
            (((0x3013u32 ^ 0x5033u32) & 0x707Fu32 & 0xFE00707Fu32 != 0) &&
            ((0x3013u32 ^ 0x40005033u32) & 0x707Fu32 & 0xFE00707Fu32 != 0))))) &&
            (((((0x3013u32 ^ 0x6033u32) & 0x707Fu32 & 0xFE00707Fu32 != 0) &&
            ((0x3013u32 ^ 0x7033u32) & 0x707Fu32 & 0xFE00707Fu32 != 0)) &&
            (((0x3013u32 ^ 0x0Fu32) & 0x707Fu32 & 0x000FFFFFu32 != 0) &&
            (((0x3013u32 ^ 0x100Fu32) & 0x707Fu32 & 0xFFFFFFFFu32 != 0) &&
            ((0x3013u32 ^ 0x73u32) & 0x707Fu32 & 0xFFFFFFFFu32 != 0)))) &&
            ((((0x3013u32 ^ 0x100073u32) & 0x707Fu32 & 0xFFFFFFFFu32 != 0) &&
            (((0x3013u32 ^ 0x1Bu32) & 0x707Fu32 & 0x707Fu32 != 0) &&
            ((0x3013u32 ^ 0x101Bu32) & 0x707Fu32 & 0xFE00707Fu32 != 0))) &&
            (((0x3013u32 ^ 0x501Bu32) & 0x707Fu32 & 0xFE00707Fu32 != 0) &&
            (((0x3013u32 ^ 0x4000501Bu32) & 0x707Fu32 & 0xFE00707Fu32 != 0) &&
            ((0x3013u32 ^ 0x3Bu32) & 0x707Fu32 & 0xFE00707Fu32 != 0)))))) &&
            ((((((0x3013u32 ^ 0x4000003Bu32) & 0x707Fu32 & 0xFE00707Fu32 != 0) &&
            ((0x3013u32 ^ 0x103Bu32) & 0x707Fu32 & 0xFE00707Fu32 != 0)) &&
            (((0x3013u32 ^ 0x503Bu32) & 0x707Fu32 & 0xFE00707Fu32 != 0) &&
            (((0x3013u32 ^ 0x4000503Bu32) & 0x707Fu32 & 0xFE00707Fu32 != 0) &&
            ((0x4013u32 ^ 0x6013u32) & 0x707Fu32 & 0x707Fu32 != 0)))) &&
            ((((0x4013u32 ^ 0x7013u32) & 0x707Fu32 & 0x707Fu32 != 0) &&
            (((0x4013u32 ^ 0x1013u32) & 0x707Fu32 & 0xFC00707Fu32 != 0) &&
            ((0x4013u32 ^ 0x5013u32) & 0x707Fu32 & 0xFC00707Fu32 != 0))) &&
            (((0x4013u32 ^ 0x40005013u32) & 0x707Fu32 & 0xFC00707Fu32 != 0) &&
            (((0x4013u32 ^ 0x33u32) & 0x707Fu32 & 0xFE00707Fu32 != 0) &&
            ((0x4013u32 ^ 0x40000033u32) & 0x707Fu32 & 0xFE00707Fu32 != 0))))) &&
            (((((0x4013u32 ^ 0x1033u32) & 0x707Fu32 & 0xFE00707Fu32 != 0) &&
            ((0x4013u32 ^ 0x2033u32) & 0x707Fu32 & 0xFE00707Fu32 != 0)) &&
            (((0x4013u32 ^ 0x3033u32) & 0x707Fu32 & 0xFE00707Fu32 != 0) &&
            (((0x4013u32 ^ 0x4033u32) & 0x707Fu32 & 0xFE00707Fu32 != 0) &&
            ((0x4013u32 ^ 0x5033u32) & 0x707Fu32 & 0xFE00707Fu32 != 0)))) &&
            ((((0x4013u32 ^ 0x40005033u32) & 0x707Fu32 & 0xFE00707Fu32 != 0) &&
            (((0x4013u32 ^ 0x6033u32) & 0x707Fu32 & 0xFE00707Fu32 != 0) &&
            ((0x4013u32 ^ 0x7033u32) & 0x707Fu32 & 0xFE00707Fu32 != 0))) &&
            (((0x4013u32 ^ 0x0Fu32) & 0x707Fu32 & 0x000FFFFFu32 != 0) &&
            (((0x4013u32 ^ 0x100Fu32) & 0x707Fu32 & 0xFFFFFFFFu32 != 0) &&
            ((0x4013u32 ^ 0x73u32) & 0x707Fu32 & 0xFFFFFFFFu32 != 0))))))) &&
            (((((((0x4013u32 ^ 0x100073u32) & 0x707Fu32 & 0xFFFFFFFFu32 != 0) &&
            ((0x4013u32 ^ 0x1Bu32) & 0x707Fu32 & 0x707Fu32 != 0)) &&
            (((0x4013u32 ^ 0x101Bu32) & 0x707Fu32 & 0xFE00707Fu32 != 0) &&
            (((0x4013u32 ^ 0x501Bu32) & 0x707Fu32 & 0xFE00707Fu32 != 0) &&
            ((0x4013u32 ^ 0x4000501Bu32) & 0x707Fu32 & 0xFE00707Fu32 != 0)))) &&
            ((((0x4013u32 ^ 0x3Bu32) & 0x707Fu32 & 0xFE00707Fu32 != 0) &&
            ((0x4013u32 ^ 0x4000003Bu32) & 0x707Fu32 & 0xFE00707Fu32 != 0)) &&
            (((0x4013u32 ^ 0x103Bu32) & 0x707Fu32 & 0xFE00707Fu32 != 0) &&
            (((0x4013u32 ^ 0x503Bu32) & 0x707Fu32 & 0xFE00707Fu32 != 0) &&
            ((0x4013u32 ^ 0x4000503Bu32) & 0x707Fu32 & 0xFE00707Fu32 != 0))))) &&
            (((((0x6013u32 ^ 0x7013u32) & 0x707Fu32 & 0x707Fu32 != 0) &&
            ((0x6013u32 ^ 0x1013u32) & 0x707Fu32 & 0xFC00707Fu32 != 0)) &&
            (((0x6013u32 ^ 0x5013u32) & 0x707Fu32 & 0xFC00707Fu32 != 0) &&
            (((0x6013u32 ^ 0x40005013u32) & 0x707Fu32 & 0xFC00707Fu32 != 0) &&
            ((0x6013u32 ^ 0x33u32) & 0x707Fu32 & 0xFE00707Fu32 != 0)))) &&
            ((((0x6013u32 ^ 0x40000033u32) & 0x707Fu32 & 0xFE00707Fu32 != 0) &&
            (((0x6013u32 ^ 0x1033u32) & 0x707Fu32 & 0xFE00707Fu32 != 0) &&
            ((0x6013u32 ^ 0x2033u32) & 0x707Fu32 & 0xFE00707Fu32 != 0))) &&
            (((0x6013u32 ^ 0x3033u32) & 0x707Fu32 & 0xFE00707Fu32 != 0) &&
            (((0x6013u32 ^ 0x4033u32) & 0x707Fu32 & 0xFE00707Fu32 != 0) &&
            ((0x6013u32 ^ 0x5033u32) & 0x707Fu32 & 0xFE00707Fu32 != 0)))))) &&
            ((((((0x6013u32 ^ 0x40005033u32) & 0x707Fu32 & 0xFE00707Fu32 != 0) &&
            ((0x6013u32 ^ 0x6033u32) & 0x707Fu32 & 0xFE00707Fu32 != 0)) &&
            (((0x6013u32 ^ 0x7033u32) & 0x707Fu32 & 0xFE00707Fu32 != 0) &&
            (((0x6013u32 ^ 0x0Fu32) & 0x707Fu32 & 0x000FFFFFu32 != 0) &&
            ((0x6013u32 ^ 0x100Fu32) & 0x707Fu32 & 0xFFFFFFFFu32 != 0)))) &&
            ((((0x6013u32 ^ 0x73u32) & 0x707Fu32 & 0xFFFFFFFFu32 != 0) &&
            (((0x6013u32 ^ 0x100073u32) & 0x707Fu32 & 0xFFFFFFFFu32 != 0) &&
            ((0x6013u32 ^ 0x1Bu32) & 0x707Fu32 & 0x707Fu32 != 0))) &&
            (((0x6013u32 ^ 0x101Bu32) & 0x707Fu32 & 0xFE00707Fu32 != 0) &&
            (((0x6013u32 ^ 0x501Bu32) & 0x707Fu32 & 0xFE00707Fu32 != 0) &&
            ((0x6013u32 ^ 0x4000501Bu32) & 0x707Fu32 & 0xFE00707Fu32 != 0))))) &&
            (((((0x6013u32 ^ 0x3Bu32) & 0x707Fu32 & 0xFE00707Fu32 != 0) &&
            ((0x6013u32 ^ 0x4000003Bu32) & 0x707Fu32 & 0xFE00707Fu32 != 0)) &&
            (((0x6013u32 ^ 0x103Bu32) & 0x707Fu32 & 0xFE00707Fu32 != 0) &&
            (((0x6013u32 ^ 0x503Bu32) & 0x707Fu32 & 0xFE00707Fu32 != 0) &&
            ((0x6013u32 ^ 0x4000503Bu32) & 0x707Fu32 & 0xFE00707Fu32 != 0)))) &&
            ((((0x7013u32 ^ 0x1013u32) & 0x707Fu32 & 0xFC00707Fu32 != 0) &&
            (((0x7013u32 ^ 0x5013u32) & 0x707Fu32 & 0xFC00707Fu32 != 0) &&
            ((0x7013u32 ^ 0x40005013u32) & 0x707Fu32 & 0xFC00707Fu32 != 0))) &&
            (((0x7013u32 ^ 0x33u32) & 0x707Fu32 & 0xFE00707Fu32 != 0) &&
            (((0x7013u32 ^ 0x40000033u32) & 0x707Fu32 & 0xFE00707Fu32 != 0) &&
            ((0x7013u32 ^ 0x1033u32) & 0x707Fu32 & 0xFE00707Fu32 != 0)))))))))) &&
            ((((((((((0x7013u32 ^ 0x2033u32) & 0x707Fu32 & 0xFE00707Fu32 != 0) &&
            ((0x7013u32 ^ 0x3033u32) & 0x707Fu32 & 0xFE00707Fu32 != 0)) &&
            (((0x7013u32 ^ 0x4033u32) & 0x707Fu32 & 0xFE00707Fu32 != 0) &&
            (((0x7013u32 ^ 0x5033u32) & 0x707Fu32 & 0xFE00707Fu32 != 0) &&
            ((0x7013u32 ^ 0x40005033u32) & 0x707Fu32 & 0xFE00707Fu32 != 0)))) &&
            ((((0x7013u32 ^ 0x6033u32) & 0x707Fu32 & 0xFE00707Fu32 != 0) &&
            ((0x7013u32 ^ 0x7033u32) & 0x707Fu32 & 0xFE00707Fu32 != 0)) &&
            (((0x7013u32 ^ 0x0Fu32) & 0x707Fu32 & 0x000FFFFFu32 != 0) &&
            (((0x7013u32 ^ 0x100Fu32) & 0x707Fu32 & 0xFFFFFFFFu32 != 0) &&
            ((0x7013u32 ^ 0x73u32) & 0x707Fu32 & 0xFFFFFFFFu32 != 0))))) &&
            (((((0x7013u32 ^ 0x100073u32) & 0x707Fu32 & 0xFFFFFFFFu32 != 0) &&
            ((0x7013u32 ^ 0x1Bu32) & 0x707Fu32 & 0x707Fu32 != 0)) &&
            (((0x7013u32 ^ 0x101Bu32) & 0x707Fu32 & 0xFE00707Fu32 != 0) &&
            (((0x7013u32 ^ 0x501Bu32) & 0x707Fu32 & 0xFE00707Fu32 != 0) &&
            ((0x7013u32 ^ 0x4000501Bu32) & 0x707Fu32 & 0xFE00707Fu32 != 0)))) &&
            ((((0x7013u32 ^ 0x3Bu32) & 0x707Fu32 & 0xFE00707Fu32 != 0) &&
            (((0x7013u32 ^ 0x4000003Bu32) & 0x707Fu32 & 0xFE00707Fu32 != 0) &&
            ((0x7013u32 ^ 0x103Bu32) & 0x707Fu32 & 0xFE00707Fu32 != 0))) &&
            (((0x7013u32 ^ 0x503Bu32) & 0x707Fu32 & 0xFE00707Fu32 != 0) &&
            (((0x7013u32 ^ 0x4000503Bu32) & 0x707Fu32 & 0xFE00707Fu32 != 0) &&
            ((0x1013u32 ^ 0x5013u32) & 0xFC00707Fu32 & 0xFC00707Fu32 != 0)))))) &&
            ((((((0x1013u32 ^ 0x40005013u32) & 0xFC00707Fu32 & 0xFC00707Fu32 != 0) &&
            ((0x1013u32 ^ 0x33u32) & 0xFC00707Fu32 & 0xFE00707Fu32 != 0)) &&
            (((0x1013u32 ^ 0x40000033u32) & 0xFC00707Fu32 & 0xFE00707Fu32 != 0) &&
            (((0x1013u32 ^ 0x1033u32) & 0xFC00707Fu32 & 0xFE00707Fu32 != 0) &&
            ((0x1013u32 ^ 0x2033u32) & 0xFC00707Fu32 & 0xFE00707Fu32 != 0)))) &&
            ((((0x1013u32 ^ 0x3033u32) & 0xFC00707Fu32 & 0xFE00707Fu32 != 0) &&
            (((0x1013u32 ^ 0x4033u32) & 0xFC00707Fu32 & 0xFE00707Fu32 != 0) &&
            ((0x1013u32 ^ 0x5033u32) & 0xFC00707Fu32 & 0xFE00707Fu32 != 0))) &&
            (((0x1013u32 ^ 0x40005033u32) & 0xFC00707Fu32 & 0xFE00707Fu32 != 0) &&
            (((0x1013u32 ^ 0x6033u32) & 0xFC00707Fu32 & 0xFE00707Fu32 != 0) &&
            ((0x1013u32 ^ 0x7033u32) & 0xFC00707Fu32 & 0xFE00707Fu32 != 0))))) &&
            (((((0x1013u32 ^ 0x0Fu32) & 0xFC00707Fu32 & 0x000FFFFFu32 != 0) &&
            ((0x1013u32 ^ 0x100Fu32) & 0xFC00707Fu32 & 0xFFFFFFFFu32 != 0)) &&
            (((0x1013u32 ^ 0x73u32) & 0xFC00707Fu32 & 0xFFFFFFFFu32 != 0) &&
            (((0x1013u32 ^ 0x100073u32) & 0xFC00707Fu32 & 0xFFFFFFFFu32 != 0) &&
            ((0x1013u32 ^ 0x1Bu32) & 0xFC00707Fu32 & 0x707Fu32 != 0)))) &&
            ((((0x1013u32 ^ 0x101Bu32) & 0xFC00707Fu32 & 0xFE00707Fu32 != 0) &&
            (((0x1013u32 ^ 0x501Bu32) & 0xFC00707Fu32 & 0xFE00707Fu32 != 0) &&
            ((0x1013u32 ^ 0x4000501Bu32) & 0xFC00707Fu32 & 0xFE00707Fu32 != 0))) &&
            (((0x1013u32 ^ 0x3Bu32) & 0xFC00707Fu32 & 0xFE00707Fu32 != 0) &&
            (((0x1013u32 ^ 0x4000003Bu32) & 0xFC00707Fu32 & 0xFE00707Fu32 != 0) &&
            ((0x1013u32 ^ 0x103Bu32) & 0xFC00707Fu32 & 0xFE00707Fu32 != 0))))))) &&
            (((((((0x1013u32 ^ 0x503Bu32) & 0xFC00707Fu32 & 0xFE00707Fu32 != 0) &&
            ((0x1013u32 ^ 0x4000503Bu32) & 0xFC00707Fu32 & 0xFE00707Fu32 != 0)) &&
            (((0x5013u32 ^ 0x40005013u32) & 0xFC00707Fu32 & 0xFC00707Fu32 != 0) &&
            (((0x5013u32 ^ 0x33u32) & 0xFC00707Fu32 & 0xFE00707Fu32 != 0) &&
            ((0x5013u32 ^ 0x40000033u32) & 0xFC00707Fu32 & 0xFE00707Fu32 != 0)))) &&
            ((((0x5013u32 ^ 0x1033u32) & 0xFC00707Fu32 & 0xFE00707Fu32 != 0) &&
            ((0x5013u32 ^ 0x2033u32) & 0xFC00707Fu32 & 0xFE00707Fu32 != 0)) &&
            (((0x5013u32 ^ 0x3033u32) & 0xFC00707Fu32 & 0xFE00707Fu32 != 0) &&
            (((0x5013u32 ^ 0x4033u32) & 0xFC00707Fu32 & 0xFE00707Fu32 != 0) &&
            ((0x5013u32 ^ 0x5033u32) & 0xFC00707Fu32 & 0xFE00707Fu32 != 0))))) &&
            (((((0x5013u32 ^ 0x40005033u32) & 0xFC00707Fu32 & 0xFE00707Fu32 != 0) &&
            ((0x5013u32 ^ 0x6033u32) & 0xFC00707Fu32 & 0xFE00707Fu32 != 0)) &&
            (((0x5013u32 ^ 0x7033u32) & 0xFC00707Fu32 & 0xFE00707Fu32 != 0) &&
            (((0x5013u32 ^ 0x0Fu32) & 0xFC00707Fu32 & 0x000FFFFFu32 != 0) &&
            ((0x5013u32 ^ 0x100Fu32) & 0xFC00707Fu32 & 0xFFFFFFFFu32 != 0)))) &&
            ((((0x5013u32 ^ 0x73u32) & 0xFC00707Fu32 & 0xFFFFFFFFu32 != 0) &&
            (((0x5013u32 ^ 0x100073u32) & 0xFC00707Fu32 & 0xFFFFFFFFu32 != 0) &&
            ((0x5013u32 ^ 0x1Bu32) & 0xFC00707Fu32 & 0x707Fu32 != 0))) &&
            (((0x5013u32 ^ 0x101Bu32) & 0xFC00707Fu32 & 0xFE00707Fu32 != 0) &&
            (((0x5013u32 ^ 0x501Bu32) & 0xFC00707Fu32 & 0xFE00707Fu32 != 0) &&
            ((0x5013u32 ^ 0x4000501Bu32) & 0xFC00707Fu32 & 0xFE00707Fu32 != 0)))))) &&
            ((((((0x5013u32 ^ 0x3Bu32) & 0xFC00707Fu32 & 0xFE00707Fu32 != 0) &&
            ((0x5013u32 ^ 0x4000003Bu32) & 0xFC00707Fu32 & 0xFE00707Fu32 != 0)) &&
            (((0x5013u32 ^ 0x103Bu32) & 0xFC00707Fu32 & 0xFE00707Fu32 != 0) &&
            (((0x5013u32 ^ 0x503Bu32) & 0xFC00707Fu32 & 0xFE00707Fu32 != 0) &&
            ((0x5013u32 ^ 0x4000503Bu32) & 0xFC00707Fu32 & 0xFE00707Fu32 != 0)))) &&
            ((((0x40005013u32 ^ 0x33u32) & 0xFC00707Fu32 & 0xFE00707Fu32 != 0) &&
            (((0x40005013u32 ^ 0x40000033u32) & 0xFC00707Fu32 & 0xFE00707Fu32 != 0) &&
            ((0x40005013u32 ^ 0x1033u32) & 0xFC00707Fu32 & 0xFE00707Fu32 != 0))) &&
            (((0x40005013u32 ^ 0x2033u32) & 0xFC00707Fu32 & 0xFE00707Fu32 != 0) &&
            (((0x40005013u32 ^ 0x3033u32) & 0xFC00707Fu32 & 0xFE00707Fu32 != 0) &&
            ((0x40005013u32 ^ 0x4033u32) & 0xFC00707Fu32 & 0xFE00707Fu32 != 0))))) &&
            (((((0x40005013u32 ^ 0x5033u32) & 0xFC00707Fu32 & 0xFE00707Fu32 != 0) &&
            ((0x40005013u32 ^ 0x40005033u32) & 0xFC00707Fu32 & 0xFE00707Fu32 != 0)) &&
            (((0x40005013u32 ^ 0x6033u32) & 0xFC00707Fu32 & 0xFE00707Fu32 != 0) &&
            (((0x40005013u32 ^ 0x7033u32) & 0xFC00707Fu32 & 0xFE00707Fu32 != 0) &&
            ((0x40005013u32 ^ 0x0Fu32) & 0xFC00707Fu32 & 0x000FFFFFu32 != 0)))) &&
            ((((0x40005013u32 ^ 0x100Fu32) & 0xFC00707Fu32 & 0xFFFFFFFFu32 != 0) &&
            (((0x40005013u32 ^ 0x73u32) & 0xFC00707Fu32 & 0xFFFFFFFFu32 != 0) &&
            ((0x40005013u32 ^ 0x100073u32) & 0xFC00707Fu32 & 0xFFFFFFFFu32 != 0))) &&
            (((0x40005013u32 ^ 0x1Bu32) & 0xFC00707Fu32 & 0x707Fu32 != 0) &&
            (((0x40005013u32 ^ 0x101Bu32) & 0xFC00707Fu32 & 0xFE00707Fu32 != 0) &&
            ((0x40005013u32 ^ 0x501Bu32) & 0xFC00707Fu32 & 0xFE00707Fu32 != 0)))))))) &&
            ((((((((0x40005013u32 ^ 0x4000501Bu32) & 0xFC00707Fu32 & 0xFE00707Fu32 != 0) &&
            ((0x40005013u32 ^ 0x3Bu32) & 0xFC00707Fu32 & 0xFE00707Fu32 != 0)) &&
            (((0x40005013u32 ^ 0x4000003Bu32) & 0xFC00707Fu32 & 0xFE00707Fu32 != 0) &&
            (((0x40005013u32 ^ 0x103Bu32) & 0xFC00707Fu32 & 0xFE00707Fu32 != 0) &&
            ((0x40005013u32 ^ 0x503Bu32) & 0xFC00707Fu32 & 0xFE00707Fu32 != 0)))) &&
            ((((0x40005013u32 ^ 0x4000503Bu32) & 0xFC00707Fu32 & 0xFE00707Fu32 != 0) &&
            ((0x33u32 ^ 0x40000033u32) & 0xFE00707Fu32 & 0xFE00707Fu32 != 0)) &&
            (((0x33u32 ^ 0x1033u32) & 0xFE00707Fu32 & 0xFE00707Fu32 != 0) &&
            (((0x33u32 ^ 0x2033u32) & 0xFE00707Fu32 & 0xFE00707Fu32 != 0) &&
            ((0x33u32 ^ 0x3033u32) & 0xFE00707Fu32 & 0xFE00707Fu32 != 0))))) &&
            (((((0x33u32 ^ 0x4033u32) & 0xFE00707Fu32 & 0xFE00707Fu32 != 0) &&
            ((0x33u32 ^ 0x5033u32) & 0xFE00707Fu32 & 0xFE00707Fu32 != 0)) &&
            (((0x33u32 ^ 0x40005033u32) & 0xFE00707Fu32 & 0xFE00707Fu32 != 0) &&
            (((0x33u32 ^ 0x6033u32) & 0xFE00707Fu32 & 0xFE00707Fu32 != 0) &&
            ((0x33u32 ^ 0x7033u32) & 0xFE00707Fu32 & 0xFE00707Fu32 != 0)))) &&
            ((((0x33u32 ^ 0x0Fu32) & 0xFE00707Fu32 & 0x000FFFFFu32 != 0) &&
            (((0x33u32 ^ 0x100Fu32) & 0xFE00707Fu32 & 0xFFFFFFFFu32 != 0) &&
            ((0x33u32 ^ 0x73u32) & 0xFE00707Fu32 & 0xFFFFFFFFu32 != 0))) &&
            (((0x33u32 ^ 0x100073u32) & 0xFE00707Fu32 & 0xFFFFFFFFu32 != 0) &&
            (((0x33u32 ^ 0x1Bu32) & 0xFE00707Fu32 & 0x707Fu32 != 0) &&
            ((0x33u32 ^ 0x101Bu32) & 0xFE00707Fu32 & 0xFE00707Fu32 != 0)))))) &&
            ((((((0x33u32 ^ 0x501Bu32) & 0xFE00707Fu32 & 0xFE00707Fu32 != 0) &&
            ((0x33u32 ^ 0x4000501Bu32) & 0xFE00707Fu32 & 0xFE00707Fu32 != 0)) &&
            (((0x33u32 ^ 0x3Bu32) & 0xFE00707Fu32 & 0xFE00707Fu32 != 0) &&
            (((0x33u32 ^ 0x4000003Bu32) & 0xFE00707Fu32 & 0xFE00707Fu32 != 0) &&
            ((0x33u32 ^ 0x103Bu32) & 0xFE00707Fu32 & 0xFE00707Fu32 != 0)))) &&
            ((((0x33u32 ^ 0x503Bu32) & 0xFE00707Fu32 & 0xFE00707Fu32 != 0) &&
            (((0x33u32 ^ 0x4000503Bu32) & 0xFE00707Fu32 & 0xFE00707Fu32 != 0) &&
            ((0x40000033u32 ^ 0x1033u32) & 0xFE00707Fu32 & 0xFE00707Fu32 != 0))) &&
            (((0x40000033u32 ^ 0x2033u32) & 0xFE00707Fu32 & 0xFE00707Fu32 != 0) &&
            (((0x40000033u32 ^ 0x3033u32) & 0xFE00707Fu32 & 0xFE00707Fu32 != 0) &&
            ((0x40000033u32 ^ 0x4033u32) & 0xFE00707Fu32 & 0xFE00707Fu32 != 0))))) &&
            (((((0x40000033u32 ^ 0x5033u32) & 0xFE00707Fu32 & 0xFE00707Fu32 != 0) &&
            ((0x40000033u32 ^ 0x40005033u32) & 0xFE00707Fu32 & 0xFE00707Fu32 != 0)) &&
            (((0x40000033u32 ^ 0x6033u32) & 0xFE00707Fu32 & 0xFE00707Fu32 != 0) &&
            (((0x40000033u32 ^ 0x7033u32) & 0xFE00707Fu32 & 0xFE00707Fu32 != 0) &&
            ((0x40000033u32 ^ 0x0Fu32) & 0xFE00707Fu32 & 0x000FFFFFu32 != 0)))) &&
            ((((0x40000033u32 ^ 0x100Fu32) & 0xFE00707Fu32 & 0xFFFFFFFFu32 != 0) &&
            (((0x40000033u32 ^ 0x73u32) & 0xFE00707Fu32 & 0xFFFFFFFFu32 != 0) &&
            ((0x40000033u32 ^ 0x100073u32) & 0xFE00707Fu32 & 0xFFFFFFFFu32 != 0))) &&
            (((0x40000033u32 ^ 0x1Bu32) & 0xFE00707Fu32 & 0x707Fu32 != 0) &&
            (((0x40000033u32 ^ 0x101Bu32) & 0xFE00707Fu32 & 0xFE00707Fu32 != 0) &&
            ((0x40000033u32 ^ 0x501Bu32) & 0xFE00707Fu32 & 0xFE00707Fu32 != 0))))))) &&
            (((((((0x40000033u32 ^ 0x4000501Bu32) & 0xFE00707Fu32 & 0xFE00707Fu32 != 0) &&
            ((0x40000033u32 ^ 0x3Bu32) & 0xFE00707Fu32 & 0xFE00707Fu32 != 0)) &&
            (((0x40000033u32 ^ 0x4000003Bu32) & 0xFE00707Fu32 & 0xFE00707Fu32 != 0) &&
            (((0x40000033u32 ^ 0x103Bu32) & 0xFE00707Fu32 & 0xFE00707Fu32 != 0) &&
            ((0x40000033u32 ^ 0x503Bu32) & 0xFE00707Fu32 & 0xFE00707Fu32 != 0)))) &&
            ((((0x40000033u32 ^ 0x4000503Bu32) & 0xFE00707Fu32 & 0xFE00707Fu32 != 0) &&
            ((0x1033u32 ^ 0x2033u32) & 0xFE00707Fu32 & 0xFE00707Fu32 != 0)) &&
            (((0x1033u32 ^ 0x3033u32) & 0xFE00707Fu32 & 0xFE00707Fu32 != 0) &&
            (((0x1033u32 ^ 0x4033u32) & 0xFE00707Fu32 & 0xFE00707Fu32 != 0) &&
            ((0x1033u32 ^ 0x5033u32) & 0xFE00707Fu32 & 0xFE00707Fu32 != 0))))) &&
            (((((0x1033u32 ^ 0x40005033u32) & 0xFE00707Fu32 & 0xFE00707Fu32 != 0) &&
            ((0x1033u32 ^ 0x6033u32) & 0xFE00707Fu32 & 0xFE00707Fu32 != 0)) &&
            (((0x1033u32 ^ 0x7033u32) & 0xFE00707Fu32 & 0xFE00707Fu32 != 0) &&
            (((0x1033u32 ^ 0x0Fu32) & 0xFE00707Fu32 & 0x000FFFFFu32 != 0) &&
            ((0x1033u32 ^ 0x100Fu32) & 0xFE00707Fu32 & 0xFFFFFFFFu32 != 0)))) &&
            ((((0x1033u32 ^ 0x73u32) & 0xFE00707Fu32 & 0xFFFFFFFFu32 != 0) &&
            (((0x1033u32 ^ 0x100073u32) & 0xFE00707Fu32 & 0xFFFFFFFFu32 != 0) &&
            ((0x1033u32 ^ 0x1Bu32) & 0xFE00707Fu32 & 0x707Fu32 != 0))) &&
            (((0x1033u32 ^ 0x101Bu32) & 0xFE00707Fu32 & 0xFE00707Fu32 != 0) &&
            (((0x1033u32 ^ 0x501Bu32) & 0xFE00707Fu32 & 0xFE00707Fu32 != 0) &&
            ((0x1033u32 ^ 0x4000501Bu32) & 0xFE00707Fu32 & 0xFE00707Fu32 != 0)))))) &&
            ((((((0x1033u32 ^ 0x3Bu32) & 0xFE00707Fu32 & 0xFE00707Fu32 != 0) &&
            ((0x1033u32 ^ 0x4000003Bu32) & 0xFE00707Fu32 & 0xFE00707Fu32 != 0)) &&
            (((0x1033u32 ^ 0x103Bu32) & 0xFE00707Fu32 & 0xFE00707Fu32 != 0) &&
            (((0x1033u32 ^ 0x503Bu32) & 0xFE00707Fu32 & 0xFE00707Fu32 != 0) &&
            ((0x1033u32 ^ 0x4000503Bu32) & 0xFE00707Fu32 & 0xFE00707Fu32 != 0)))) &&
            ((((0x2033u32 ^ 0x3033u32) & 0xFE00707Fu32 & 0xFE00707Fu32 != 0) &&
            (((0x2033u32 ^ 0x4033u32) & 0xFE00707Fu32 & 0xFE00707Fu32 != 0) &&
            ((0x2033u32 ^ 0x5033u32) & 0xFE00707Fu32 & 0xFE00707Fu32 != 0))) &&
            (((0x2033u32 ^ 0x40005033u32) & 0xFE00707Fu32 & 0xFE00707Fu32 != 0) &&
            (((0x2033u32 ^ 0x6033u32) & 0xFE00707Fu32 & 0xFE00707Fu32 != 0) &&
            ((0x2033u32 ^ 0x7033u32) & 0xFE00707Fu32 & 0xFE00707Fu32 != 0))))) &&
            (((((0x2033u32 ^ 0x0Fu32) & 0xFE00707Fu32 & 0x000FFFFFu32 != 0) &&
            ((0x2033u32 ^ 0x100Fu32) & 0xFE00707Fu32 & 0xFFFFFFFFu32 != 0)) &&
            (((0x2033u32 ^ 0x73u32) & 0xFE00707Fu32 & 0xFFFFFFFFu32 != 0) &&
            (((0x2033u32 ^ 0x100073u32) & 0xFE00707Fu32 & 0xFFFFFFFFu32 != 0) &&
            ((0x2033u32 ^ 0x1Bu32) & 0xFE00707Fu32 & 0x707Fu32 != 0)))) &&
            ((((0x2033u32 ^ 0x101Bu32) & 0xFE00707Fu32 & 0xFE00707Fu32 != 0) &&
            (((0x2033u32 ^ 0x501Bu32) & 0xFE00707Fu32 & 0xFE00707Fu32 != 0) &&
            ((0x2033u32 ^ 0x4000501Bu32) & 0xFE00707Fu32 & 0xFE00707Fu32 != 0))) &&
            (((0x2033u32 ^ 0x3Bu32) & 0xFE00707Fu32 & 0xFE00707Fu32 != 0) &&
            (((0x2033u32 ^ 0x4000003Bu32) & 0xFE00707Fu32 & 0xFE00707Fu32 != 0) &&
            ((0x2033u32 ^ 0x103Bu32) & 0xFE00707Fu32 & 0xFE00707Fu32 != 0))))))))) &&
            (((((((((0x2033u32 ^ 0x503Bu32) & 0xFE00707Fu32 & 0xFE00707Fu32 != 0) &&
            ((0x2033u32 ^ 0x4000503Bu32) & 0xFE00707Fu32 & 0xFE00707Fu32 != 0)) &&
            (((0x3033u32 ^ 0x4033u32) & 0xFE00707Fu32 & 0xFE00707Fu32 != 0) &&
            (((0x3033u32 ^ 0x5033u32) & 0xFE00707Fu32 & 0xFE00707Fu32 != 0) &&
            ((0x3033u32 ^ 0x40005033u32) & 0xFE00707Fu32 & 0xFE00707Fu32 != 0)))) &&
            ((((0x3033u32 ^ 0x6033u32) & 0xFE00707Fu32 & 0xFE00707Fu32 != 0) &&
            ((0x3033u32 ^ 0x7033u32) & 0xFE00707Fu32 & 0xFE00707Fu32 != 0)) &&
            (((0x3033u32 ^ 0x0Fu32) & 0xFE00707Fu32 & 0x000FFFFFu32 != 0) &&
            (((0x3033u32 ^ 0x100Fu32) & 0xFE00707Fu32 & 0xFFFFFFFFu32 != 0) &&
            ((0x3033u32 ^ 0x73u32) & 0xFE00707Fu32 & 0xFFFFFFFFu32 != 0))))) &&
            (((((0x3033u32 ^ 0x100073u32) & 0xFE00707Fu32 & 0xFFFFFFFFu32 != 0) &&
            ((0x3033u32 ^ 0x1Bu32) & 0xFE00707Fu32 & 0x707Fu32 != 0)) &&
            (((0x3033u32 ^ 0x101Bu32) & 0xFE00707Fu32 & 0xFE00707Fu32 != 0) &&
            (((0x3033u32 ^ 0x501Bu32) & 0xFE00707Fu32 & 0xFE00707Fu32 != 0) &&
            ((0x3033u32 ^ 0x4000501Bu32) & 0xFE00707Fu32 & 0xFE00707Fu32 != 0)))) &&
            ((((0x3033u32 ^ 0x3Bu32) & 0xFE00707Fu32 & 0xFE00707Fu32 != 0) &&
            (((0x3033u32 ^ 0x4000003Bu32) & 0xFE00707Fu32 & 0xFE00707Fu32 != 0) &&
            ((0x3033u32 ^ 0x103Bu32) & 0xFE00707Fu32 & 0xFE00707Fu32 != 0))) &&
            (((0x3033u32 ^ 0x503Bu32) & 0xFE00707Fu32 & 0xFE00707Fu32 != 0) &&
            (((0x3033u32 ^ 0x4000503Bu32) & 0xFE00707Fu32 & 0xFE00707Fu32 != 0) &&
            ((0x4033u32 ^ 0x5033u32) & 0xFE00707Fu32 & 0xFE00707Fu32 != 0)))))) &&
            ((((((0x4033u32 ^ 0x40005033u32) & 0xFE00707Fu32 & 0xFE00707Fu32 != 0) &&
            ((0x4033u32 ^ 0x6033u32) & 0xFE00707Fu32 & 0xFE00707Fu32 != 0)) &&
            (((0x4033u32 ^ 0x7033u32) & 0xFE00707Fu32 & 0xFE00707Fu32 != 0) &&
            (((0x4033u32 ^ 0x0Fu32) & 0xFE00707Fu32 & 0x000FFFFFu32 != 0) &&
            ((0x4033u32 ^ 0x100Fu32) & 0xFE00707Fu32 & 0xFFFFFFFFu32 != 0)))) &&
            ((((0x4033u32 ^ 0x73u32) & 0xFE00707Fu32 & 0xFFFFFFFFu32 != 0) &&
            (((0x4033u32 ^ 0x100073u32) & 0xFE00707Fu32 & 0xFFFFFFFFu32 != 0) &&
            ((0x4033u32 ^ 0x1Bu32) & 0xFE00707Fu32 & 0x707Fu32 != 0))) &&
            (((0x4033u32 ^ 0x101Bu32) & 0xFE00707Fu32 & 0xFE00707Fu32 != 0) &&
            (((0x4033u32 ^ 0x501Bu32) & 0xFE00707Fu32 & 0xFE00707Fu32 != 0) &&
            ((0x4033u32 ^ 0x4000501Bu32) & 0xFE00707Fu32 & 0xFE00707Fu32 != 0))))) &&
            (((((0x4033u32 ^ 0x3Bu32) & 0xFE00707Fu32 & 0xFE00707Fu32 != 0) &&
            ((0x4033u32 ^ 0x4000003Bu32) & 0xFE00707Fu32 & 0xFE00707Fu32 != 0)) &&
            (((0x4033u32 ^ 0x103Bu32) & 0xFE00707Fu32 & 0xFE00707Fu32 != 0) &&
            (((0x4033u32 ^ 0x503Bu32) & 0xFE00707Fu32 & 0xFE00707Fu32 != 0) &&
            ((0x4033u32 ^ 0x4000503Bu32) & 0xFE00707Fu32 & 0xFE00707Fu32 != 0)))) &&
            ((((0x5033u32 ^ 0x40005033u32) & 0xFE00707Fu32 & 0xFE00707Fu32 != 0) &&
            (((0x5033u32 ^ 0x6033u32) & 0xFE00707Fu32 & 0xFE00707Fu32 != 0) &&
            ((0x5033u32 ^ 0x7033u32) & 0xFE00707Fu32 & 0xFE00707Fu32 != 0))) &&
            (((0x5033u32 ^ 0x0Fu32) & 0xFE00707Fu32 & 0x000FFFFFu32 != 0) &&
            (((0x5033u32 ^ 0x100Fu32) & 0xFE00707Fu32 & 0xFFFFFFFFu32 != 0) &&
            ((0x5033u32 ^ 0x73u32) & 0xFE00707Fu32 & 0xFFFFFFFFu32 != 0))))))) &&
            (((((((0x5033u32 ^ 0x100073u32) & 0xFE00707Fu32 & 0xFFFFFFFFu32 != 0) &&
            ((0x5033u32 ^ 0x1Bu32) & 0xFE00707Fu32 & 0x707Fu32 != 0)) &&
            (((0x5033u32 ^ 0x101Bu32) & 0xFE00707Fu32 & 0xFE00707Fu32 != 0) &&
            (((0x5033u32 ^ 0x501Bu32) & 0xFE00707Fu32 & 0xFE00707Fu32 != 0) &&
            ((0x5033u32 ^ 0x4000501Bu32) & 0xFE00707Fu32 & 0xFE00707Fu32 != 0)))) &&
            ((((0x5033u32 ^ 0x3Bu32) & 0xFE00707Fu32 & 0xFE00707Fu32 != 0) &&
            ((0x5033u32 ^ 0x4000003Bu32) & 0xFE00707Fu32 & 0xFE00707Fu32 != 0)) &&
            (((0x5033u32 ^ 0x103Bu32) & 0xFE00707Fu32 & 0xFE00707Fu32 != 0) &&
            (((0x5033u32 ^ 0x503Bu32) & 0xFE00707Fu32 & 0xFE00707Fu32 != 0) &&
            ((0x5033u32 ^ 0x4000503Bu32) & 0xFE00707Fu32 & 0xFE00707Fu32 != 0))))) &&
            (((((0x40005033u32 ^ 0x6033u32) & 0xFE00707Fu32 & 0xFE00707Fu32 != 0) &&
            ((0x40005033u32 ^ 0x7033u32) & 0xFE00707Fu32 & 0xFE00707Fu32 != 0)) &&
            (((0x40005033u32 ^ 0x0Fu32) & 0xFE00707Fu32 & 0x000FFFFFu32 != 0) &&
            (((0x40005033u32 ^ 0x100Fu32) & 0xFE00707Fu32 & 0xFFFFFFFFu32 != 0) &&
            ((0x40005033u32 ^ 0x73u32) & 0xFE00707Fu32 & 0xFFFFFFFFu32 != 0)))) &&
            ((((0x40005033u32 ^ 0x100073u32) & 0xFE00707Fu32 & 0xFFFFFFFFu32 != 0) &&
            (((0x40005033u32 ^ 0x1Bu32) & 0xFE00707Fu32 & 0x707Fu32 != 0) &&
            ((0x40005033u32 ^ 0x101Bu32) & 0xFE00707Fu32 & 0xFE00707Fu32 != 0))) &&
            (((0x40005033u32 ^ 0x501Bu32) & 0xFE00707Fu32 & 0xFE00707Fu32 != 0) &&
            (((0x40005033u32 ^ 0x4000501Bu32) & 0xFE00707Fu32 & 0xFE00707Fu32 != 0) &&
            ((0x40005033u32 ^ 0x3Bu32) & 0xFE00707Fu32 & 0xFE00707Fu32 != 0)))))) &&
            ((((((0x40005033u32 ^ 0x4000003Bu32) & 0xFE00707Fu32 & 0xFE00707Fu32 != 0) &&
            ((0x40005033u32 ^ 0x103Bu32) & 0xFE00707Fu32 & 0xFE00707Fu32 != 0)) &&
            (((0x40005033u32 ^ 0x503Bu32) & 0xFE00707Fu32 & 0xFE00707Fu32 != 0) &&
            (((0x40005033u32 ^ 0x4000503Bu32) & 0xFE00707Fu32 & 0xFE00707Fu32 != 0) &&
            ((0x6033u32 ^ 0x7033u32) & 0xFE00707Fu32 & 0xFE00707Fu32 != 0)))) &&
            ((((0x6033u32 ^ 0x0Fu32) & 0xFE00707Fu32 & 0x000FFFFFu32 != 0) &&
            (((0x6033u32 ^ 0x100Fu32) & 0xFE00707Fu32 & 0xFFFFFFFFu32 != 0) &&
            ((0x6033u32 ^ 0x73u32) & 0xFE00707Fu32 & 0xFFFFFFFFu32 != 0))) &&
            (((0x6033u32 ^ 0x100073u32) & 0xFE00707Fu32 & 0xFFFFFFFFu32 != 0) &&
            (((0x6033u32 ^ 0x1Bu32) & 0xFE00707Fu32 & 0x707Fu32 != 0) &&
            ((0x6033u32 ^ 0x101Bu32) & 0xFE00707Fu32 & 0xFE00707Fu32 != 0))))) &&
            (((((0x6033u32 ^ 0x501Bu32) & 0xFE00707Fu32 & 0xFE00707Fu32 != 0) &&
            ((0x6033u32 ^ 0x4000501Bu32) & 0xFE00707Fu32 & 0xFE00707Fu32 != 0)) &&
            (((0x6033u32 ^ 0x3Bu32) & 0xFE00707Fu32 & 0xFE00707Fu32 != 0) &&
            (((0x6033u32 ^ 0x4000003Bu32) & 0xFE00707Fu32 & 0xFE00707Fu32 != 0) &&
            ((0x6033u32 ^ 0x103Bu32) & 0xFE00707Fu32 & 0xFE00707Fu32 != 0)))) &&
            ((((0x6033u32 ^ 0x503Bu32) & 0xFE00707Fu32 & 0xFE00707Fu32 != 0) &&
            (((0x6033u32 ^ 0x4000503Bu32) & 0xFE00707Fu32 & 0xFE00707Fu32 != 0) &&
            ((0x7033u32 ^ 0x0Fu32) & 0xFE00707Fu32 & 0x000FFFFFu32 != 0))) &&
            (((0x7033u32 ^ 0x100Fu32) & 0xFE00707Fu32 & 0xFFFFFFFFu32 != 0) &&
            (((0x7033u32 ^ 0x73u32) & 0xFE00707Fu32 & 0xFFFFFFFFu32 != 0) &&
            ((0x7033u32 ^ 0x100073u32) & 0xFE00707Fu32 & 0xFFFFFFFFu32 != 0)))))))) &&
            ((((((((0x7033u32 ^ 0x1Bu32) & 0xFE00707Fu32 & 0x707Fu32 != 0) &&
            ((0x7033u32 ^ 0x101Bu32) & 0xFE00707Fu32 & 0xFE00707Fu32 != 0)) &&
            (((0x7033u32 ^ 0x501Bu32) & 0xFE00707Fu32 & 0xFE00707Fu32 != 0) &&
            (((0x7033u32 ^ 0x4000501Bu32) & 0xFE00707Fu32 & 0xFE00707Fu32 != 0) &&
            ((0x7033u32 ^ 0x3Bu32) & 0xFE00707Fu32 & 0xFE00707Fu32 != 0)))) &&
            ((((0x7033u32 ^ 0x4000003Bu32) & 0xFE00707Fu32 & 0xFE00707Fu32 != 0) &&
            ((0x7033u32 ^ 0x103Bu32) & 0xFE00707Fu32 & 0xFE00707Fu32 != 0)) &&
            (((0x7033u32 ^ 0x503Bu32) & 0xFE00707Fu32 & 0xFE00707Fu32 != 0) &&
            (((0x7033u32 ^ 0x4000503Bu32) & 0xFE00707Fu32 & 0xFE00707Fu32 != 0) &&
            ((0x0Fu32 ^ 0x100Fu32) & 0x000FFFFFu32 & 0xFFFFFFFFu32 != 0))))) &&
            (((((0x0Fu32 ^ 0x73u32) & 0x000FFFFFu32 & 0xFFFFFFFFu32 != 0) &&
            ((0x0Fu32 ^ 0x100073u32) & 0x000FFFFFu32 & 0xFFFFFFFFu32 != 0)) &&
            (((0x0Fu32 ^ 0x1Bu32) & 0x000FFFFFu32 & 0x707Fu32 != 0) &&
            (((0x0Fu32 ^ 0x101Bu32) & 0x000FFFFFu32 & 0xFE00707Fu32 != 0) &&
            ((0x0Fu32 ^ 0x501Bu32) & 0x000FFFFFu32 & 0xFE00707Fu32 != 0)))) &&
            ((((0x0Fu32 ^ 0x4000501Bu32) & 0x000FFFFFu32 & 0xFE00707Fu32 != 0) &&
            (((0x0Fu32 ^ 0x3Bu32) & 0x000FFFFFu32 & 0xFE00707Fu32 != 0) &&
            ((0x0Fu32 ^ 0x4000003Bu32) & 0x000FFFFFu32 & 0xFE00707Fu32 != 0))) &&
            (((0x0Fu32 ^ 0x103Bu32) & 0x000FFFFFu32 & 0xFE00707Fu32 != 0) &&
            (((0x0Fu32 ^ 0x503Bu32) & 0x000FFFFFu32 & 0xFE00707Fu32 != 0) &&
            ((0x0Fu32 ^ 0x4000503Bu32) & 0x000FFFFFu32 & 0xFE00707Fu32 != 0)))))) &&
            ((((((0x100Fu32 ^ 0x73u32) & 0xFFFFFFFFu32 & 0xFFFFFFFFu32 != 0) &&
            ((0x100Fu32 ^ 0x100073u32) & 0xFFFFFFFFu32 & 0xFFFFFFFFu32 != 0)) &&
            (((0x100Fu32 ^ 0x1Bu32) & 0xFFFFFFFFu32 & 0x707Fu32 != 0) &&
            (((0x100Fu32 ^ 0x101Bu32) & 0xFFFFFFFFu32 & 0xFE00707Fu32 != 0) &&
            ((0x100Fu32 ^ 0x501Bu32) & 0xFFFFFFFFu32 & 0xFE00707Fu32 != 0)))) &&
            ((((0x100Fu32 ^ 0x4000501Bu32) & 0xFFFFFFFFu32 & 0xFE00707Fu32 != 0) &&
            (((0x100Fu32 ^ 0x3Bu32) & 0xFFFFFFFFu32 & 0xFE00707Fu32 != 0) &&
            ((0x100Fu32 ^ 0x4000003Bu32) & 0xFFFFFFFFu32 & 0xFE00707Fu32 != 0))) &&
            (((0x100Fu32 ^ 0x103Bu32) & 0xFFFFFFFFu32 & 0xFE00707Fu32 != 0) &&
            (((0x100Fu32 ^ 0x503Bu32) & 0xFFFFFFFFu32 & 0xFE00707Fu32 != 0) &&
            ((0x100Fu32 ^ 0x4000503Bu32) & 0xFFFFFFFFu32 & 0xFE00707Fu32 != 0))))) &&
            (((((0x73u32 ^ 0x100073u32) & 0xFFFFFFFFu32 & 0xFFFFFFFFu32 != 0) &&
            ((0x73u32 ^ 0x1Bu32) & 0xFFFFFFFFu32 & 0x707Fu32 != 0)) &&
            (((0x73u32 ^ 0x101Bu32) & 0xFFFFFFFFu32 & 0xFE00707Fu32 != 0) &&
            (((0x73u32 ^ 0x501Bu32) & 0xFFFFFFFFu32 & 0xFE00707Fu32 != 0) &&
            ((0x73u32 ^ 0x4000501Bu32) & 0xFFFFFFFFu32 & 0xFE00707Fu32 != 0)))) &&
            ((((0x73u32 ^ 0x3Bu32) & 0xFFFFFFFFu32 & 0xFE00707Fu32 != 0) &&
            (((0x73u32 ^ 0x4000003Bu32) & 0xFFFFFFFFu32 & 0xFE00707Fu32 != 0) &&
            ((0x73u32 ^ 0x103Bu32) & 0xFFFFFFFFu32 & 0xFE00707Fu32 != 0))) &&
            (((0x73u32 ^ 0x503Bu32) & 0xFFFFFFFFu32 & 0xFE00707Fu32 != 0) &&
            (((0x73u32 ^ 0x4000503Bu32) & 0xFFFFFFFFu32 & 0xFE00707Fu32 != 0) &&
            ((0x100073u32 ^ 0x1Bu32) & 0xFFFFFFFFu32 & 0x707Fu32 != 0))))))) &&
            (((((((0x100073u32 ^ 0x101Bu32) & 0xFFFFFFFFu32 & 0xFE00707Fu32 != 0) &&
            ((0x100073u32 ^ 0x501Bu32) & 0xFFFFFFFFu32 & 0xFE00707Fu32 != 0)) &&
            (((0x100073u32 ^ 0x4000501Bu32) & 0xFFFFFFFFu32 & 0xFE00707Fu32 != 0) &&
            (((0x100073u32 ^ 0x3Bu32) & 0xFFFFFFFFu32 & 0xFE00707Fu32 != 0) &&
            ((0x100073u32 ^ 0x4000003Bu32) & 0xFFFFFFFFu32 & 0xFE00707Fu32 != 0)))) &&
            ((((0x100073u32 ^ 0x103Bu32) & 0xFFFFFFFFu32 & 0xFE00707Fu32 != 0) &&
            (((0x100073u32 ^ 0x503Bu32) & 0xFFFFFFFFu32 & 0xFE00707Fu32 != 0) &&
            ((0x100073u32 ^ 0x4000503Bu32) & 0xFFFFFFFFu32 & 0xFE00707Fu32 != 0))) &&
            (((0x1Bu32 ^ 0x101Bu32) & 0x707Fu32 & 0xFE00707Fu32 != 0) &&
            (((0x1Bu32 ^ 0x501Bu32) & 0x707Fu32 & 0xFE00707Fu32 != 0) &&
            ((0x1Bu32 ^ 0x4000501Bu32) & 0x707Fu32 & 0xFE00707Fu32 != 0))))) &&
            (((((0x1Bu32 ^ 0x3Bu32) & 0x707Fu32 & 0xFE00707Fu32 != 0) &&
            ((0x1Bu32 ^ 0x4000003Bu32) & 0x707Fu32 & 0xFE00707Fu32 != 0)) &&
            (((0x1Bu32 ^ 0x103Bu32) & 0x707Fu32 & 0xFE00707Fu32 != 0) &&
            (((0x1Bu32 ^ 0x503Bu32) & 0x707Fu32 & 0xFE00707Fu32 != 0) &&
            ((0x1Bu32 ^ 0x4000503Bu32) & 0x707Fu32 & 0xFE00707Fu32 != 0)))) &&
            ((((0x101Bu32 ^ 0x501Bu32) & 0xFE00707Fu32 & 0xFE00707Fu32 != 0) &&
            (((0x101Bu32 ^ 0x4000501Bu32) & 0xFE00707Fu32 & 0xFE00707Fu32 != 0) &&
            ((0x101Bu32 ^ 0x3Bu32) & 0xFE00707Fu32 & 0xFE00707Fu32 != 0))) &&
            (((0x101Bu32 ^ 0x4000003Bu32) & 0xFE00707Fu32 & 0xFE00707Fu32 != 0) &&
            (((0x101Bu32 ^ 0x103Bu32) & 0xFE00707Fu32 & 0xFE00707Fu32 != 0) &&
            ((0x101Bu32 ^ 0x503Bu32) & 0xFE00707Fu32 & 0xFE00707Fu32 != 0)))))) &&
            ((((((0x101Bu32 ^ 0x4000503Bu32) & 0xFE00707Fu32 & 0xFE00707Fu32 != 0) &&
            ((0x501Bu32 ^ 0x4000501Bu32) & 0xFE00707Fu32 & 0xFE00707Fu32 != 0)) &&
            (((0x501Bu32 ^ 0x3Bu32) & 0xFE00707Fu32 & 0xFE00707Fu32 != 0) &&
            (((0x501Bu32 ^ 0x4000003Bu32) & 0xFE00707Fu32 & 0xFE00707Fu32 != 0) &&
            ((0x501Bu32 ^ 0x103Bu32) & 0xFE00707Fu32 & 0xFE00707Fu32 != 0)))) &&
            ((((0x501Bu32 ^ 0x503Bu32) & 0xFE00707Fu32 & 0xFE00707Fu32 != 0) &&
            (((0x501Bu32 ^ 0x4000503Bu32) & 0xFE00707Fu32 & 0xFE00707Fu32 != 0) &&
            ((0x4000501Bu32 ^ 0x3Bu32) & 0xFE00707Fu32 & 0xFE00707Fu32 != 0))) &&
            (((0x4000501Bu32 ^ 0x4000003Bu32) & 0xFE00707Fu32 & 0xFE00707Fu32 != 0) &&
            (((0x4000501Bu32 ^ 0x103Bu32) & 0xFE00707Fu32 & 0xFE00707Fu32 != 0) &&
            ((0x4000501Bu32 ^ 0x503Bu32) & 0xFE00707Fu32 & 0xFE00707Fu32 != 0))))) &&
            (((((0x4000501Bu32 ^ 0x4000503Bu32) & 0xFE00707Fu32 & 0xFE00707Fu32 != 0) &&
            ((0x3Bu32 ^ 0x4000003Bu32) & 0xFE00707Fu32 & 0xFE00707Fu32 != 0)) &&
            (((0x3Bu32 ^ 0x103Bu32) & 0xFE00707Fu32 & 0xFE00707Fu32 != 0) &&
            (((0x3Bu32 ^ 0x503Bu32) & 0xFE00707Fu32 & 0xFE00707Fu32 != 0) &&
            ((0x3Bu32 ^ 0x4000503Bu32) & 0xFE00707Fu32 & 0xFE00707Fu32 != 0)))) &&
            ((((0x4000003Bu32 ^ 0x103Bu32) & 0xFE00707Fu32 & 0xFE00707Fu32 != 0) &&
            (((0x4000003Bu32 ^ 0x503Bu32) & 0xFE00707Fu32 & 0xFE00707Fu32 != 0) &&
            ((0x4000003Bu32 ^ 0x4000503Bu32) & 0xFE00707Fu32 & 0xFE00707Fu32 != 0))) &&
            (((0x103Bu32 ^ 0x503Bu32) & 0xFE00707Fu32 & 0xFE00707Fu32 != 0) &&
            (((0x103Bu32 ^ 0x4000503Bu32) & 0xFE00707Fu32 & 0xFE00707Fu32 != 0) &&
            ((0x503Bu32 ^ 0x4000503Bu32) & 0xFE00707Fu32 & 0xFE00707Fu32 != 0))))))))))))
    ) by (bit_vector);
}

/// The table of the RV64I base integer instructions, in decode order.
pub fn rvi_instruction_list() -> (r: Vec<InstructionInfo>)
    ensures
        r@.len() == 53,
        forall|k: int| 0 <= k < 53 ==> key_of(#[trigger] r@[k]) == rvi_key(k),
        forall|k: int| 0 <= k < 53 ==> meta_of(#[trigger] r@[k]) == rvi_meta(k),
        table_wf(r@),
        pairwise_disjoint(r@),
{
    let mut t: Vec<InstructionInfo> = Vec::new();
    let mut k: usize = 0;
    while k < 53
        invariant
            0 <= k <= 53,
            t@.len() == k,
            forall|i: int| 0 <= i < k ==> key_of(#[trigger] t@[i]) == rvi_key(i),
            forall|i: int| 0 <= i < k ==> meta_of(#[trigger] t@[i]) == rvi_meta(i),
        decreases 53 - k,
    {
        t.push(rvi_entry(k));
        k += 1;
    }
    proof {
        lemma_rvi_keys();
        assert forall|i: int| 0 <= i < t@.len() implies #[trigger] t@[i].wf() by {
            assert(key_of(t@[i]) == rvi_key(i));
        }
        lemma_keys_apart_all(t@);
    }
    t
}

/// The mask and match bits of entry `k` of the RVM table.
pub open spec fn rvm_key(k: int) -> (u32, u32) {
    if k == 0 {
        (0xFE00707Fu32, 0x02000033u32)
    } else if k == 1 {
        (0xFE00707Fu32, 0x02001033u32)
    } else if k == 2 {
        (0xFE00707Fu32, 0x02002033u32)
    } else if k == 3 {
        (0xFE00707Fu32, 0x02003033u32)
    } else if k == 4 {
        (0xFE00707Fu32, 0x02004033u32)
    } else if k == 5 {
        (0xFE00707Fu32, 0x02005033u32)
    } else if k == 6 {
        (0xFE00707Fu32, 0x02006033u32)
    } else if k == 7 {
        (0xFE00707Fu32, 0x02007033u32)
    } else if k == 8 {
        (0xFE00707Fu32, 0x0200003Bu32)
    } else if k == 9 {
        (0xFE00707Fu32, 0x0200403Bu32)
    } else if k == 10 {
        (0xFE00707Fu32, 0x0200503Bu32)
    } else if k == 11 {
        (0xFE00707Fu32, 0x0200603Bu32)
    } else if k == 12 {
        (0xFE00707Fu32, 0x0200703Bu32)
    } else {
        (0u32, 0u32)
    }
}

/// The opcode and the builder of entry `k` of the RVM table.
pub open spec fn rvm_meta(k: int) -> (InstructionOpcode, Builder) {
    if k == 0 {
        (OP_MUL, Builder::R)
    } else if k == 1 {
        (OP_MULH, Builder::R)
    } else if k == 2 {
        (OP_MULHSU, Builder::R)
    } else if k == 3 {
        (OP_MULHU, Builder::R)
    } else if k == 4 {
        (OP_DIV, Builder::R)
    } else if k == 5 {
        (OP_DIVU, Builder::R)
    } else if k == 6 {
        (OP_REM, Builder::R)
    } else if k == 7 {
        (OP_REMU, Builder::R)
    } else if k == 8 {
        (OP_MULW, Builder::R)
    } else if k == 9 {
        (OP_DIVW, Builder::R)
    } else if k == 10 {
        (OP_DIVUW, Builder::R)
    } else if k == 11 {
        (OP_REMW, Builder::R)
    } else if k == 12 {
        (OP_REMUW, Builder::R)
    } else {
        (0u16, Builder::Blank)
    }
}

/// Entry `k` of the RVM table.
fn rvm_entry(k: usize) -> (r: InstructionInfo)
    requires
        k < 13,
    ensures
        key_of(r) == rvm_key(k as int),
        meta_of(r) == rvm_meta(k as int),
{
    match k {
        0 => InstructionInfo::new(0xFE00707F, 0x02000033, OP_MUL, Builder::R),
        1 => InstructionInfo::new(0xFE00707F, 0x02001033, OP_MULH, Builder::R),
        2 => InstructionInfo::new(0xFE00707F, 0x02002033, OP_MULHSU, Builder::R),
        3 => InstructionInfo::new(0xFE00707F, 0x02003033, OP_MULHU, Builder::R),
        4 => InstructionInfo::new(0xFE00707F, 0x02004033, OP_DIV, Builder::R),
        5 => InstructionInfo::new(0xFE00707F, 0x02005033, OP_DIVU, Builder::R),
        6 => InstructionInfo::new(0xFE00707F, 0x02006033, OP_REM, Builder::R),
        7 => InstructionInfo::new(0xFE00707F, 0x02007033, OP_REMU, Builder::R),
        8 => InstructionInfo::new(0xFE00707F, 0x0200003B, OP_MULW, Builder::R),
        9 => InstructionInfo::new(0xFE00707F, 0x0200403B, OP_DIVW, Builder::R),
        10 => InstructionInfo::new(0xFE00707F, 0x0200503B, OP_DIVUW, Builder::R),
        11 => InstructionInfo::new(0xFE00707F, 0x0200603B, OP_REMW, Builder::R),
        _ => InstructionInfo::new(0xFE00707F, 0x0200703B, OP_REMUW, Builder::R),
    }
}

/// The entries of the RVM table are well formed, and their keys keep
/// apart every pair that the table does not share on purpose.
proof fn lemma_rvm_keys()
    ensures
        forall|k: int| 0 <= k < 13 ==> (#[trigger] rvm_key(k)).1 & !rvm_key(k).0 == 0,
        forall|i: int, j: int| 0 <= i < j < 13 ==> keys_apart(rvm_key(i), rvm_key(j)),
{
    assert(
            ((((0x02000033u32 & !0xFE00707Fu32 == 0) &&
            ((0x02001033u32 & !0xFE00707Fu32 == 0) &&
            (0x02002033u32 & !0xFE00707Fu32 == 0))) &&
            ((0x02003033u32 & !0xFE00707Fu32 == 0) &&
            ((0x02004033u32 & !0xFE00707Fu32 == 0) &&
            (0x02005033u32 & !0xFE00707Fu32 == 0)))) &&
            (((0x02006033u32 & !0xFE00707Fu32 == 0) &&
            ((0x02007033u32 & !0xFE00707Fu32 == 0) &&
            (0x0200003Bu32 & !0xFE00707Fu32 == 0))) &&
            (((0x0200403Bu32 & !0xFE00707Fu32 == 0) &&
            (0x0200503Bu32 & !0xFE00707Fu32 == 0)) &&
            ((0x0200603Bu32 & !0xFE00707Fu32 == 0) &&
            (0x0200703Bu32 & !0xFE00707Fu32 == 0)))))
    ) by (bit_vector);
    assert(
            ((((((((0x02000033u32 ^ 0x02001033u32) & 0xFE00707Fu32 & 0xFE00707Fu32 != 0) &&
            ((0x02000033u32 ^ 0x02002033u32) & 0xFE00707Fu32 & 0xFE00707Fu32 != 0)) &&
            (((0x02000033u32 ^ 0x02003033u32) & 0xFE00707Fu32 & 0xFE00707Fu32 != 0) &&
            ((0x02000033u32 ^ 0x02004033u32) & 0xFE00707Fu32 & 0xFE00707Fu32 != 0))) &&
            ((((0x02000033u32 ^ 0x02005033u32) & 0xFE00707Fu32 & 0xFE00707Fu32 != 0) &&
            ((0x02000033u32 ^ 0x02006033u32) & 0xFE00707Fu32 & 0xFE00707Fu32 != 0)) &&
            (((0x02000033u32 ^ 0x02007033u32) & 0xFE00707Fu32 & 0xFE00707Fu32 != 0) &&
            (((0x02000033u32 ^ 0x0200003Bu32) & 0xFE00707Fu32 & 0xFE00707Fu32 != 0) &&
            ((0x02000033u32 ^ 0x0200403Bu32) & 0xFE00707Fu32 & 0xFE00707Fu32 != 0))))) &&
            (((((0x02000033u32 ^ 0x0200503Bu32) & 0xFE00707Fu32 & 0xFE00707Fu32 != 0) &&
            ((0x02000033u32 ^ 0x0200603Bu32) & 0xFE00707Fu32 & 0xFE00707Fu32 != 0)) &&
            (((0x02000033u32 ^ 0x0200703Bu32) & 0xFE00707Fu32 & 0xFE00707Fu32 != 0) &&
            (((0x02001033u32 ^ 0x02002033u32) & 0xFE00707Fu32 & 0xFE00707Fu32 != 0) &&
            ((0x02001033u32 ^ 0x02003033u32) & 0xFE00707Fu32 & 0xFE00707Fu32 != 0)))) &&
            ((((0x02001033u32 ^ 0x02004033u32) & 0xFE00707Fu32 & 0xFE00707Fu32 != 0) &&
            ((0x02001033u32 ^ 0x02005033u32) & 0xFE00707Fu32 & 0xFE00707Fu32 != 0)) &&
            (((0x02001033u32 ^ 0x02006033u32) & 0xFE00707Fu32 & 0xFE00707Fu32 != 0) &&
            (((0x02001033u32 ^ 0x02007033u32) & 0xFE00707Fu32 & 0xFE00707Fu32 != 0) &&
            ((0x02001033u32 ^ 0x0200003Bu32) & 0xFE00707Fu32 & 0xFE00707Fu32 != 0)))))) &&
            ((((((0x02001033u32 ^ 0x0200403Bu32) & 0xFE00707Fu32 & 0xFE00707Fu32 != 0) &&
            ((0x02001033u32 ^ 0x0200503Bu32) & 0xFE00707Fu32 & 0xFE00707Fu32 != 0)) &&
            (((0x02001033u32 ^ 0x0200603Bu32) & 0xFE00707Fu32 & 0xFE00707Fu32 != 0) &&
            (((0x02001033u32 ^ 0x0200703Bu32) & 0xFE00707Fu32 & 0xFE00707Fu32 != 0) &&
            ((0x02002033u32 ^ 0x02003033u32) & 0xFE00707Fu32 & 0xFE00707Fu32 != 0)))) &&
            ((((0x02002033u32 ^ 0x02004033u32) & 0xFE00707Fu32 & 0xFE00707Fu32 != 0) &&
            ((0x02002033u32 ^ 0x02005033u32) & 0xFE00707Fu32 & 0xFE00707Fu32 != 0)) &&
            (((0x02002033u32 ^ 0x02006033u32) & 0xFE00707Fu32 & 0xFE00707Fu32 != 0) &&
            (((0x02002033u32 ^ 0x02007033u32) & 0xFE00707Fu32 & 0xFE00707Fu32 != 0) &&
            ((0x02002033u32 ^ 0x0200003Bu32) & 0xFE00707Fu32 & 0xFE00707Fu32 != 0))))) &&
            (((((0x02002033u32 ^ 0x0200403Bu32) & 0xFE00707Fu32 & 0xFE00707Fu32 != 0) &&
            ((0x02002033u32 ^ 0x0200503Bu32) & 0xFE00707Fu32 & 0xFE00707Fu32 != 0)) &&
            (((0x02002033u32 ^ 0x0200603Bu32) & 0xFE00707Fu32 & 0xFE00707Fu32 != 0) &&
            (((0x02002033u32 ^ 0x0200703Bu32) & 0xFE00707Fu32 & 0xFE00707Fu32 != 0) &&
            ((0x02003033u32 ^ 0x02004033u32) & 0xFE00707Fu32 & 0xFE00707Fu32 != 0)))) &&
            ((((0x02003033u32 ^ 0x02005033u32) & 0xFE00707Fu32 & 0xFE00707Fu32 != 0) &&
            ((0x02003033u32 ^ 0x02006033u32) & 0xFE00707Fu32 & 0xFE00707Fu32 != 0)) &&
            (((0x02003033u32 ^ 0x02007033u32) & 0xFE00707Fu32 & 0xFE00707Fu32 != 0) &&
            (((0x02003033u32 ^ 0x0200003Bu32) & 0xFE00707Fu32 & 0xFE00707Fu32 != 0) &&
            ((0x02003033u32 ^ 0x0200403Bu32) & 0xFE00707Fu32 & 0xFE00707Fu32 != 0))))))) &&
            (((((((0x02003033u32 ^ 0x0200503Bu32) & 0xFE00707Fu32 & 0xFE00707Fu32 != 0) &&
            ((0x02003033u32 ^ 0x0200603Bu32) & 0xFE00707Fu32 & 0xFE00707Fu32 != 0)) &&
            (((0x02003033u32 ^ 0x0200703Bu32) & 0xFE00707Fu32 & 0xFE00707Fu32 != 0) &&
            ((0x02004033u32 ^ 0x02005033u32) & 0xFE00707Fu32 & 0xFE00707Fu32 != 0))) &&
            ((((0x02004033u32 ^ 0x02006033u32) & 0xFE00707Fu32 & 0xFE00707Fu32 != 0) &&
            ((0x02004033u32 ^ 0x02007033u32) & 0xFE00707Fu32 & 0xFE00707Fu32 != 0)) &&
            (((0x02004033u32 ^ 0x0200003Bu32) & 0xFE00707Fu32 & 0xFE00707Fu32 != 0) &&
            (((0x02004033u32 ^ 0x0200403Bu32) & 0xFE00707Fu32 & 0xFE00707Fu32 != 0) &&
            ((0x02004033u32 ^ 0x0200503Bu32) & 0xFE00707Fu32 & 0xFE00707Fu32 != 0))))) &&
            (((((0x02004033u32 ^ 0x0200603Bu32) & 0xFE00707Fu32 & 0xFE00707Fu32 != 0) &&
            ((0x02004033u32 ^ 0x0200703Bu32) & 0xFE00707Fu32 & 0xFE00707Fu32 != 0)) &&
            (((0x02005033u32 ^ 0x02006033u32) & 0xFE00707Fu32 & 0xFE00707Fu32 != 0) &&
            (((0x02005033u32 ^ 0x02007033u32) & 0xFE00707Fu32 & 0xFE00707Fu32 != 0) &&
            ((0x02005033u32 ^ 0x0200003Bu32) & 0xFE00707Fu32 & 0xFE00707Fu32 != 0)))) &&
            ((((0x02005033u32 ^ 0x0200403Bu32) & 0xFE00707Fu32 & 0xFE00707Fu32 != 0) &&
            ((0x02005033u32 ^ 0x0200503Bu32) & 0xFE00707Fu32 & 0xFE00707Fu32 != 0)) &&
            (((0x02005033u32 ^ 0x0200603Bu32) & 0xFE00707Fu32 & 0xFE00707Fu32 != 0) &&
            (((0x02005033u32 ^ 0x0200703Bu32) & 0xFE00707Fu32 & 0xFE00707Fu32 != 0) &&
            ((0x02006033u32 ^ 0x02007033u32) & 0xFE00707Fu32 & 0xFE00707Fu32 != 0)))))) &&
            ((((((0x02006033u32 ^ 0x0200003Bu32) & 0xFE00707Fu32 & 0xFE00707Fu32 != 0) &&
            ((0x02006033u32 ^ 0x0200403Bu32) & 0xFE00707Fu32 & 0xFE00707Fu32 != 0)) &&
            (((0x02006033u32 ^ 0x0200503Bu32) & 0xFE00707Fu32 & 0xFE00707Fu32 != 0) &&
            (((0x02006033u32 ^ 0x0200603Bu32) & 0xFE00707Fu32 & 0xFE00707Fu32 != 0) &&
            ((0x02006033u32 ^ 0x0200703Bu32) & 0xFE00707Fu32 & 0xFE00707Fu32 != 0)))) &&
            ((((0x02007033u32 ^ 0x0200003Bu32) & 0xFE00707Fu32 & 0xFE00707Fu32 != 0) &&
            ((0x02007033u32 ^ 0x0200403Bu32) & 0xFE00707Fu32 & 0xFE00707Fu32 != 0)) &&
            (((0x02007033u32 ^ 0x0200503Bu32) & 0xFE00707Fu32 & 0xFE00707Fu32 != 0) &&
            (((0x02007033u32 ^ 0x0200603Bu32) & 0xFE00707Fu32 & 0xFE00707Fu32 != 0) &&
            ((0x02007033u32 ^ 0x0200703Bu32) & 0xFE00707Fu32 & 0xFE00707Fu32 != 0))))) &&
            (((((0x0200003Bu32 ^ 0x0200403Bu32) & 0xFE00707Fu32 & 0xFE00707Fu32 != 0) &&
            ((0x0200003Bu32 ^ 0x0200503Bu32) & 0xFE00707Fu32 & 0xFE00707Fu32 != 0)) &&
            (((0x0200003Bu32 ^ 0x0200603Bu32) & 0xFE00707Fu32 & 0xFE00707Fu32 != 0) &&
            (((0x0200003Bu32 ^ 0x0200703Bu32) & 0xFE00707Fu32 & 0xFE00707Fu32 != 0) &&
            ((0x0200403Bu32 ^ 0x0200503Bu32) & 0xFE00707Fu32 & 0xFE00707Fu32 != 0)))) &&
            ((((0x0200403Bu32 ^ 0x0200603Bu32) & 0xFE00707Fu32 & 0xFE00707Fu32 != 0) &&
            ((0x0200403Bu32 ^ 0x0200703Bu32) & 0xFE00707Fu32 & 0xFE00707Fu32 != 0)) &&
            (((0x0200503Bu32 ^ 0x0200603Bu32) & 0xFE00707Fu32 & 0xFE00707Fu32 != 0) &&
            (((0x0200503Bu32 ^ 0x0200703Bu32) & 0xFE00707Fu32 & 0xFE00707Fu32 != 0) &&
            ((0x0200603Bu32 ^ 0x0200703Bu32) & 0xFE00707Fu32 & 0xFE00707Fu32 != 0))))))))
    ) by (bit_vector);
}

/// The table of the M extension (multiplication and division), in decode
/// order.
pub fn rvm_instruction_list() -> (r: Vec<InstructionInfo>)
    ensures
        r@.len() == 13,
        forall|k: int| 0 <= k < 13 ==> key_of(#[trigger] r@[k]) == rvm_key(k),
        forall|k: int| 0 <= k < 13 ==> meta_of(#[trigger] r@[k]) == rvm_meta(k),
        table_wf(r@),
        pairwise_disjoint(r@),
{
    let mut t: Vec<InstructionInfo> = Vec::new();
    let mut k: usize = 0;
    while k < 13
        invariant
            0 <= k <= 13,
            t@.len() == k,
            forall|i: int| 0 <= i < k ==> key_of(#[trigger] t@[i]) == rvm_key(i),
            forall|i: int| 0 <= i < k ==> meta_of(#[trigger] t@[i]) == rvm_meta(i),
        decreases 13 - k,
    {
        t.push(rvm_entry(k));
        k += 1;
    }
    proof {
        lemma_rvm_keys();
        assert forall|i: int| 0 <= i < t@.len() implies #[trigger] t@[i].wf() by {
            assert(key_of(t@[i]) == rvm_key(i));
        }
        lemma_keys_apart_all(t@);
    }
    t
}

/// The mask and match bits of entry `k` of the RVB table.
pub open spec fn rvb_key(k: int) -> (u32, u32) {
    if k == 0 {
        (0xFE00707Fu32, 0x0800003Bu32)
    } else if k == 1 {
        (0xFE00707Fu32, 0x6000103Bu32)
    } else if k == 2 {
        (0xFE00707Fu32, 0x2000203Bu32)
    } else if k == 3 {
        (0xFFF0707Fu32, 0x0800403Bu32)
    } else if k == 4 {
        (0xFE00707Fu32, 0x2000403Bu32)
    } else if k == 5 {
        (0xFE00707Fu32, 0x6000503Bu32)
    } else if k == 6 {
        (0xFE00707Fu32, 0x2000603Bu32)
    } else if k == 7 {
        (0xFE00707Fu32, 0x40007033u32)
    } else if k == 8 {
        (0xFE00707Fu32, 0x40006033u32)
    } else if k == 9 {
        (0xFE00707Fu32, 0x40004033u32)
    } else if k == 10 {
        (0xFE00707Fu32, 0x60001033u32)
    } else if k == 11 {
        (0xFE00707Fu32, 0x60005033u32)
    } else if k == 12 {
        (0xFE00707Fu32, 0x68001033u32)
    } else if k == 13 {
        (0xFE00707Fu32, 0x28001033u32)
    } else if k == 14 {
        (0xFE00707Fu32, 0x48001033u32)
    } else if k == 15 {
        (0xFE00707Fu32, 0x48005033u32)
    } else if k == 16 {
        (0xFE00707Fu32, 0x20002033u32)
    } else if k == 17 {
        (0xFE00707Fu32, 0x20004033u32)
    } else if k == 18 {
        (0xFE00707Fu32, 0x20006033u32)
    } else if k == 19 {
        (0xFE00707Fu32, 0x0A001033u32)
    } else if k == 20 {
        (0xFE00707Fu32, 0x0A003033u32)
    } else if k == 21 {
        (0xFE00707Fu32, 0x0A002033u32)
    } else if k == 22 {
        (0xFE00707Fu32, 0x0A004033u32)
    } else if k == 23 {
        (0xFE00707Fu32, 0x0A005033u32)
    } else if k == 24 {
        (0xFE00707Fu32, 0x0A006033u32)
    } else if k == 25 {
        (0xFE00707Fu32, 0x0A007033u32)
    } else if k == 26 {
        (0xFFF0707Fu32, 0x28705013u32)
    } else if k == 27 {
        (0xFFF0707Fu32, 0x6B805013u32)
    } else if k == 28 {
        (0xFFF0707Fu32, 0x60001013u32)
    } else if k == 29 {
        (0xFFF0707Fu32, 0x60201013u32)
    } else if k == 30 {
        (0xFFF0707Fu32, 0x60101013u32)
    } else if k == 31 {
        (0xFFF0707Fu32, 0x60401013u32)
    } else if k == 32 {
        (0xFFF0707Fu32, 0x60501013u32)
    } else if k == 33 {
        (0xFC00707Fu32, 0x48001013u32)
    } else if k == 34 {
        (0xFC00707Fu32, 0x48005013u32)
    } else if k == 35 {
        (0xFC00707Fu32, 0x68001013u32)
    } else if k == 36 {
        (0xFC00707Fu32, 0x28001013u32)
    } else if k == 37 {
        (0xFC00707Fu32, 0x60005013u32)
    } else if k == 38 {
        (0xFFF0707Fu32, 0x6000101Bu32)
    } else if k == 39 {
        (0xFFF0707Fu32, 0x6020101Bu32)
    } else if k == 40 {
        (0xFFF0707Fu32, 0x6010101Bu32)
    } else if k == 41 {
        (0xFE00707Fu32, 0x6000501Bu32)
    } else if k == 42 {
        (0xFC00707Fu32, 0x0800101Bu32)
    } else {
        (0u32, 0u32)
    }
}

/// The opcode and the builder of entry `k` of the RVB table.
pub open spec fn rvb_meta(k: int) -> (InstructionOpcode, Builder) {
    if k == 0 {
        (OP_ADDUW, Builder::R)
    } else if k == 1 {
        (OP_ROLW, Builder::R)
    } else if k == 2 {
        (OP_SH1ADDUW, Builder::R)
    } else if k == 3 {
        (OP_ZEXTH, Builder::R)
    } else if k == 4 {
        (OP_SH2ADDUW, Builder::R)
    } else if k == 5 {
        (OP_RORW, Builder::R)
    } else if k == 6 {
        (OP_SH3ADDUW, Builder::R)
    } else if k == 7 {
        (OP_ANDN, Builder::R)
    } else if k == 8 {
        (OP_ORN, Builder::R)
    } else if k == 9 {
        (OP_XNOR, Builder::R)
    } else if k == 10 {
        (OP_ROL, Builder::R)
    } else if k == 11 {
        (OP_ROR, Builder::R)
    } else if k == 12 {
        (OP_BINV, Builder::R)
    } else if k == 13 {
        (OP_BSET, Builder::R)
    } else if k == 14 {
        (OP_BCLR, Builder::R)
    } else if k == 15 {
        (OP_BEXT, Builder::R)
    } else if k == 16 {
        (OP_SH1ADD, Builder::R)
    } else if k == 17 {
        (OP_SH2ADD, Builder::R)
    } else if k == 18 {
        (OP_SH3ADD, Builder::R)
    } else if k == 19 {
        (OP_CLMUL, Builder::R)
    } else if k == 20 {
        (OP_CLMULH, Builder::R)
    } else if k == 21 {
        (OP_CLMULR, Builder::R)
    } else if k == 22 {
        (OP_MIN, Builder::R)
    } else if k == 23 {
        (OP_MINU, Builder::R)
    } else if k == 24 {
        (OP_MAX, Builder::R)
    } else if k == 25 {
        (OP_MAXU, Builder::R)
    } else if k == 26 {
        (OP_ORCB, Builder::R)
    } else if k == 27 {
        (OP_REV8, Builder::R)
    } else if k == 28 {
        (OP_CLZ, Builder::R)
    } else if k == 29 {
        (OP_CPOP, Builder::R)
    } else if k == 30 {
        (OP_CTZ, Builder::R)
    } else if k == 31 {
        (OP_SEXTB, Builder::R)
    } else if k == 32 {
        (OP_SEXTH, Builder::R)
    } else if k == 33 {
        (OP_BCLRI, Builder::R64Imm)
    } else if k == 34 {
        (OP_BEXTI, Builder::R64Imm)
    } else if k == 35 {
        (OP_BINVI, Builder::R64Imm)
    } else if k == 36 {
        (OP_BSETI, Builder::R64Imm)
    } else if k == 37 {
        (OP_RORI, Builder::R64Imm)
    } else if k == 38 {
        (OP_CLZW, Builder::R)
    } else if k == 39 {
        (OP_CPOPW, Builder::R)
    } else if k == 40 {
        (OP_CTZW, Builder::R)
    } else if k == 41 {
        (OP_RORIW, Builder::Is1f)
    } else if k == 42 {
        (OP_SLLIUW, Builder::R64Imm)
    } else {
        (0u16, Builder::Blank)
    }
}

/// Entry `k` of the RVB table.
fn rvb_entry(k: usize) -> (r: InstructionInfo)
    requires
        k < 43,
    ensures
        key_of(r) == rvb_key(k as int),
        meta_of(r) == rvb_meta(k as int),
{
    match k {
        0 => InstructionInfo::new(0xFE00707F, 0x0800003B, OP_ADDUW, Builder::R),
        1 => InstructionInfo::new(0xFE00707F, 0x6000103B, OP_ROLW, Builder::R),
        2 => InstructionInfo::new(0xFE00707F, 0x2000203B, OP_SH1ADDUW, Builder::R),
        3 => InstructionInfo::new(0xFFF0707F, 0x0800403B, OP_ZEXTH, Builder::R),
        4 => InstructionInfo::new(0xFE00707F, 0x2000403B, OP_SH2ADDUW, Builder::R),
        5 => InstructionInfo::new(0xFE00707F, 0x6000503B, OP_RORW, Builder::R),
        6 => InstructionInfo::new(0xFE00707F, 0x2000603B, OP_SH3ADDUW, Builder::R),
        7 => InstructionInfo::new(0xFE00707F, 0x40007033, OP_ANDN, Builder::R),
        8 => InstructionInfo::new(0xFE00707F, 0x40006033, OP_ORN, Builder::R),
        9 => InstructionInfo::new(0xFE00707F, 0x40004033, OP_XNOR, Builder::R),
        10 => InstructionInfo::new(0xFE00707F, 0x60001033, OP_ROL, Builder::R),
        11 => InstructionInfo::new(0xFE00707F, 0x60005033, OP_ROR, Builder::R),
        12 => InstructionInfo::new(0xFE00707F, 0x68001033, OP_BINV, Builder::R),
        13 => InstructionInfo::new(0xFE00707F, 0x28001033, OP_BSET, Builder::R),
        14 => InstructionInfo::new(0xFE00707F, 0x48001033, OP_BCLR, Builder::R),
        15 => InstructionInfo::new(0xFE00707F, 0x48005033, OP_BEXT, Builder::R),
        16 => InstructionInfo::new(0xFE00707F, 0x20002033, OP_SH1ADD, Builder::R),
        17 => InstructionInfo::new(0xFE00707F, 0x20004033, OP_SH2ADD, Builder::R),
        18 => InstructionInfo::new(0xFE00707F, 0x20006033, OP_SH3ADD, Builder::R),
        19 => InstructionInfo::new(0xFE00707F, 0x0A001033, OP_CLMUL, Builder::R),
        20 => InstructionInfo::new(0xFE00707F, 0x0A003033, OP_CLMULH, Builder::R),
        21 => InstructionInfo::new(0xFE00707F, 0x0A002033, OP_CLMULR, Builder::R),
        22 => InstructionInfo::new(0xFE00707F, 0x0A004033, OP_MIN, Builder::R),
        23 => InstructionInfo::new(0xFE00707F, 0x0A005033, OP_MINU, Builder::R),
        24 => InstructionInfo::new(0xFE00707F, 0x0A006033, OP_MAX, Builder::R),
        25 => InstructionInfo::new(0xFE00707F, 0x0A007033, OP_MAXU, Builder::R),
        26 => InstructionInfo::new(0xFFF0707F, 0x28705013, OP_ORCB, Builder::R),
        27 => InstructionInfo::new(0xFFF0707F, 0x6B805013, OP_REV8, Builder::R),
        28 => InstructionInfo::new(0xFFF0707F, 0x60001013, OP_CLZ, Builder::R),
        29 => InstructionInfo::new(0xFFF0707F, 0x60201013, OP_CPOP, Builder::R),
        30 => InstructionInfo::new(0xFFF0707F, 0x60101013, OP_CTZ, Builder::R),
        31 => InstructionInfo::new(0xFFF0707F, 0x60401013, OP_SEXTB, Builder::R),
        32 => InstructionInfo::new(0xFFF0707F, 0x60501013, OP_SEXTH, Builder::R),
        33 => InstructionInfo::new(0xFC00707F, 0x48001013, OP_BCLRI, Builder::R64Imm),
        34 => InstructionInfo::new(0xFC00707F, 0x48005013, OP_BEXTI, Builder::R64Imm),
        35 => InstructionInfo::new(0xFC00707F, 0x68001013, OP_BINVI, Builder::R64Imm),
        36 => InstructionInfo::new(0xFC00707F, 0x28001013, OP_BSETI, Builder::R64Imm),
        37 => InstructionInfo::new(0xFC00707F, 0x60005013, OP_RORI, Builder::R64Imm),
        38 => InstructionInfo::new(0xFFF0707F, 0x6000101B, OP_CLZW, Builder::R),
        39 => InstructionInfo::new(0xFFF0707F, 0x6020101B, OP_CPOPW, Builder::R),
        40 => InstructionInfo::new(0xFFF0707F, 0x6010101B, OP_CTZW, Builder::R),
        41 => InstructionInfo::new(0xFE00707F, 0x6000501B, OP_RORIW, Builder::Is1f),
        _ => InstructionInfo::new(0xFC00707F, 0x0800101B, OP_SLLIUW, Builder::R64Imm),
    }
}

/// The entries of the RVB table are well formed, and their keys keep
/// apart every pair that the table does not share on purpose.
proof fn lemma_rvb_keys()
    ensures
        forall|k: int| 0 <= k < 43 ==> (#[trigger] rvb_key(k)).1 & !rvb_key(k).0 == 0,
        forall|i: int, j: int| 0 <= i < j < 43 ==> keys_apart(rvb_key(i), rvb_key(j)),
{
    assert(
            ((((((0x0800003Bu32 & !0xFE00707Fu32 == 0) &&
            (0x6000103Bu32 & !0xFE00707Fu32 == 0)) &&
            ((0x2000203Bu32 & !0xFE00707Fu32 == 0) &&
            ((0x0800403Bu32 & !0xFFF0707Fu32 == 0) &&
            (0x2000403Bu32 & !0xFE00707Fu32 == 0)))) &&
            (((0x6000503Bu32 & !0xFE00707Fu32 == 0) &&
            (0x2000603Bu32 & !0xFE00707Fu32 == 0)) &&
            ((0x40007033u32 & !0xFE00707Fu32 == 0) &&
            ((0x40006033u32 & !0xFE00707Fu32 == 0) &&
            (0x40004033u32 & !0xFE00707Fu32 == 0))))) &&
            ((((0x60001033u32 & !0xFE00707Fu32 == 0) &&
            (0x60005033u32 & !0xFE00707Fu32 == 0)) &&
            ((0x68001033u32 & !0xFE00707Fu32 == 0) &&
            ((0x28001033u32 & !0xFE00707Fu32 == 0) &&
            (0x48001033u32 & !0xFE00707Fu32 == 0)))) &&
            (((0x48005033u32 & !0xFE00707Fu32 == 0) &&
            ((0x20002033u32 & !0xFE00707Fu32 == 0) &&
            (0x20004033u32 & !0xFE00707Fu32 == 0))) &&
            ((0x20006033u32 & !0xFE00707Fu32 == 0) &&
            ((0x0A001033u32 & !0xFE00707Fu32 == 0) &&
            (0x0A003033u32 & !0xFE00707Fu32 == 0)))))) &&
            (((((0x0A002033u32 & !0xFE00707Fu32 == 0) &&
            (0x0A004033u32 & !0xFE00707Fu32 == 0)) &&
            ((0x0A005033u32 & !0xFE00707Fu32 == 0) &&
            ((0x0A006033u32 & !0xFE00707Fu32 == 0) &&
            (0x0A007033u32 & !0xFE00707Fu32 == 0)))) &&
            (((0x28705013u32 & !0xFFF0707Fu32 == 0) &&
            ((0x6B805013u32 & !0xFFF0707Fu32 == 0) &&
            (0x60001013u32 & !0xFFF0707Fu32 == 0))) &&
            ((0x60201013u32 & !0xFFF0707Fu32 == 0) &&
            ((0x60101013u32 & !0xFFF0707Fu32 == 0) &&
            (0x60401013u32 & !0xFFF0707Fu32 == 0))))) &&
            ((((0x60501013u32 & !0xFFF0707Fu32 == 0) &&
            (0x48001013u32 & !0xFC00707Fu32 == 0)) &&
            ((0x48005013u32 & !0xFC00707Fu32 == 0) &&
            ((0x68001013u32 & !0xFC00707Fu32 == 0) &&
            (0x28001013u32 & !0xFC00707Fu32 == 0)))) &&
            (((0x60005013u32 & !0xFC00707Fu32 == 0) &&
            ((0x6000101Bu32 & !0xFFF0707Fu32 == 0) &&
            (0x6020101Bu32 & !0xFFF0707Fu32 == 0))) &&
            ((0x6010101Bu32 & !0xFFF0707Fu32 == 0) &&
            ((0x6000501Bu32 & !0xFE00707Fu32 == 0) &&
            (0x0800101Bu32 & !0xFC00707Fu32 == 0)))))))
    ) by (bit_vector);
    assert(
            (((((((((((0x0800003Bu32 ^ 0x6000103Bu32) & 0xFE00707Fu32 & 0xFE00707Fu32 != 0) &&
            (((0x0800003Bu32 ^ 0x2000203Bu32) & 0xFE00707Fu32 & 0xFE00707Fu32 != 0) &&
            ((0x0800003Bu32 ^ 0x0800403Bu32) & 0xFE00707Fu32 & 0xFFF0707Fu32 != 0))) &&
            ((((0x0800003Bu32 ^ 0x2000403Bu32) & 0xFE00707Fu32 & 0xFE00707Fu32 != 0) &&
            ((0x0800003Bu32 ^ 0x6000503Bu32) & 0xFE00707Fu32 & 0xFE00707Fu32 != 0)) &&
            (((0x0800003Bu32 ^ 0x2000603Bu32) & 0xFE00707Fu32 & 0xFE00707Fu32 != 0) &&
            ((0x0800003Bu32 ^ 0x40007033u32) & 0xFE00707Fu32 & 0xFE00707Fu32 != 0)))) &&
            ((((0x0800003Bu32 ^ 0x40006033u32) & 0xFE00707Fu32 & 0xFE00707Fu32 != 0) &&
            (((0x0800003Bu32 ^ 0x40004033u32) & 0xFE00707Fu32 & 0xFE00707Fu32 != 0) &&
            ((0x0800003Bu32 ^ 0x60001033u32) & 0xFE00707Fu32 & 0xFE00707Fu32 != 0))) &&
            ((((0x0800003Bu32 ^ 0x60005033u32) & 0xFE00707Fu32 & 0xFE00707Fu32 != 0) &&
            ((0x0800003Bu32 ^ 0x68001033u32) & 0xFE00707Fu32 & 0xFE00707Fu32 != 0)) &&
            (((0x0800003Bu32 ^ 0x28001033u32) & 0xFE00707Fu32 & 0xFE00707Fu32 != 0) &&
            ((0x0800003Bu32 ^ 0x48001033u32) & 0xFE00707Fu32 & 0xFE00707Fu32 != 0))))) &&
            (((((0x0800003Bu32 ^ 0x48005033u32) & 0xFE00707Fu32 & 0xFE00707Fu32 != 0) &&
            (((0x0800003Bu32 ^ 0x20002033u32) & 0xFE00707Fu32 & 0xFE00707Fu32 != 0) &&
            ((0x0800003Bu32 ^ 0x20004033u32) & 0xFE00707Fu32 & 0xFE00707Fu32 != 0))) &&
            ((((0x0800003Bu32 ^ 0x20006033u32) & 0xFE00707Fu32 & 0xFE00707Fu32 != 0) &&
            ((0x0800003Bu32 ^ 0x0A001033u32) & 0xFE00707Fu32 & 0xFE00707Fu32 != 0)) &&
            (((0x0800003Bu32 ^ 0x0A003033u32) & 0xFE00707Fu32 & 0xFE00707Fu32 != 0) &&
            ((0x0800003Bu32 ^ 0x0A002033u32) & 0xFE00707Fu32 & 0xFE00707Fu32 != 0)))) &&
            ((((0x0800003Bu32 ^ 0x0A004033u32) & 0xFE00707Fu32 & 0xFE00707Fu32 != 0) &&
            (((0x0800003Bu32 ^ 0x0A005033u32) & 0xFE00707Fu32 & 0xFE00707Fu32 != 0) &&
            ((0x0800003Bu32 ^ 0x0A006033u32) & 0xFE00707Fu32 & 0xFE00707Fu32 != 0))) &&
            ((((0x0800003Bu32 ^ 0x0A007033u32) & 0xFE00707Fu32 & 0xFE00707Fu32 != 0) &&
            ((0x0800003Bu32 ^ 0x28705013u32) & 0xFE00707Fu32 & 0xFFF0707Fu32 != 0)) &&
            (((0x0800003Bu32 ^ 0x6B805013u32) & 0xFE00707Fu32 & 0xFFF0707Fu32 != 0) &&
            ((0x0800003Bu32 ^ 0x60001013u32) & 0xFE00707Fu32 & 0xFFF0707Fu32 != 0)))))) &&
            ((((((0x0800003Bu32 ^ 0x60201013u32) & 0xFE00707Fu32 & 0xFFF0707Fu32 != 0) &&
            (((0x0800003Bu32 ^ 0x60101013u32) & 0xFE00707Fu32 & 0xFFF0707Fu32 != 0) &&
            ((0x0800003Bu32 ^ 0x60401013u32) & 0xFE00707Fu32 & 0xFFF0707Fu32 != 0))) &&
            ((((0x0800003Bu32 ^ 0x60501013u32) & 0xFE00707Fu32 & 0xFFF0707Fu32 != 0) &&
            ((0x0800003Bu32 ^ 0x48001013u32) & 0xFE00707Fu32 & 0xFC00707Fu32 != 0)) &&
            (((0x0800003Bu32 ^ 0x48005013u32) & 0xFE00707Fu32 & 0xFC00707Fu32 != 0) &&
            ((0x0800003Bu32 ^ 0x68001013u32) & 0xFE00707Fu32 & 0xFC00707Fu32 != 0)))) &&
            ((((0x0800003Bu32 ^ 0x28001013u32) & 0xFE00707Fu32 & 0xFC00707Fu32 != 0) &&
            (((0x0800003Bu32 ^ 0x60005013u32) & 0xFE00707Fu32 & 0xFC00707Fu32 != 0) &&
            ((0x0800003Bu32 ^ 0x6000101Bu32) & 0xFE00707Fu32 & 0xFFF0707Fu32 != 0))) &&
            ((((0x0800003Bu32 ^ 0x6020101Bu32) & 0xFE00707Fu32 & 0xFFF0707Fu32 != 0) &&
            ((0x0800003Bu32 ^ 0x6010101Bu32) & 0xFE00707Fu32 & 0xFFF0707Fu32 != 0)) &&
            (((0x0800003Bu32 ^ 0x6000501Bu32) & 0xFE00707Fu32 & 0xFE00707Fu32 != 0) &&
            ((0x0800003Bu32 ^ 0x0800101Bu32) & 0xFE00707Fu32 & 0xFC00707Fu32 != 0))))) &&
            (((((0x6000103Bu32 ^ 0x2000203Bu32) & 0xFE00707Fu32 & 0xFE00707Fu32 != 0) &&
            (((0x6000103Bu32 ^ 0x0800403Bu32) & 0xFE00707Fu32 & 0xFFF0707Fu32 != 0) &&
            ((0x6000103Bu32 ^ 0x2000403Bu32) & 0xFE00707Fu32 & 0xFE00707Fu32 != 0))) &&
            ((((0x6000103Bu32 ^ 0x6000503Bu32) & 0xFE00707Fu32 & 0xFE00707Fu32 != 0) &&
            ((0x6000103Bu32 ^ 0x2000603Bu32) & 0xFE00707Fu32 & 0xFE00707Fu32 != 0)) &&
            (((0x6000103Bu32 ^ 0x40007033u32) & 0xFE00707Fu32 & 0xFE00707Fu32 != 0) &&
            ((0x6000103Bu32 ^ 0x40006033u32) & 0xFE00707Fu32 & 0xFE00707Fu32 != 0)))) &&
            ((((0x6000103Bu32 ^ 0x40004033u32) & 0xFE00707Fu32 & 0xFE00707Fu32 != 0) &&
            (((0x6000103Bu32 ^ 0x60001033u32) & 0xFE00707Fu32 & 0xFE00707Fu32 != 0) &&
            ((0x6000103Bu32 ^ 0x60005033u32) & 0xFE00707Fu32 & 0xFE00707Fu32 != 0))) &&
            ((((0x6000103Bu32 ^ 0x68001033u32) & 0xFE00707Fu32 & 0xFE00707Fu32 != 0) &&
            ((0x6000103Bu32 ^ 0x28001033u32) & 0xFE00707Fu32 & 0xFE00707Fu32 != 0)) &&
            (((0x6000103Bu32 ^ 0x48001033u32) & 0xFE00707Fu32 & 0xFE00707Fu32 != 0) &&
            ((0x6000103Bu32 ^ 0x48005033u32) & 0xFE00707Fu32 & 0xFE00707Fu32 != 0))))))) &&
            (((((((0x6000103Bu32 ^ 0x20002033u32) & 0xFE00707Fu32 & 0xFE00707Fu32 != 0) &&
            (((0x6000103Bu32 ^ 0x20004033u32) & 0xFE00707Fu32 & 0xFE00707Fu32 != 0) &&
            ((0x6000103Bu32 ^ 0x20006033u32) & 0xFE00707Fu32 & 0xFE00707Fu32 != 0))) &&
            ((((0x6000103Bu32 ^ 0x0A001033u32) & 0xFE00707Fu32 & 0xFE00707Fu32 != 0) &&
            ((0x6000103Bu32 ^ 0x0A003033u32) & 0xFE00707Fu32 & 0xFE00707Fu32 != 0)) &&
            (((0x6000103Bu32 ^ 0x0A002033u32) & 0xFE00707Fu32 & 0xFE00707Fu32 != 0) &&
            ((0x6000103Bu32 ^ 0x0A004033u32) & 0xFE00707Fu32 & 0xFE00707Fu32 != 0)))) &&
            ((((0x6000103Bu32 ^ 0x0A005033u32) & 0xFE00707Fu32 & 0xFE00707Fu32 != 0) &&
            (((0x6000103Bu32 ^ 0x0A006033u32) & 0xFE00707Fu32 & 0xFE00707Fu32 != 0) &&
            ((0x6000103Bu32 ^ 0x0A007033u32) & 0xFE00707Fu32 & 0xFE00707Fu32 != 0))) &&
            ((((0x6000103Bu32 ^ 0x28705013u32) & 0xFE00707Fu32 & 0xFFF0707Fu32 != 0) &&
            ((0x6000103Bu32 ^ 0x6B805013u32) & 0xFE00707Fu32 & 0xFFF0707Fu32 != 0)) &&
            (((0x6000103Bu32 ^ 0x60001013u32) & 0xFE00707Fu32 & 0xFFF0707Fu32 != 0) &&
            ((0x6000103Bu32 ^ 0x60201013u32) & 0xFE00707Fu32 & 0xFFF0707Fu32 != 0))))) &&
            (((((0x6000103Bu32 ^ 0x60101013u32) & 0xFE00707Fu32 & 0xFFF0707Fu32 != 0) &&
            (((0x6000103Bu32 ^ 0x60401013u32) & 0xFE00707Fu32 & 0xFFF0707Fu32 != 0) &&
            ((0x6000103Bu32 ^ 0x60501013u32) & 0xFE00707Fu32 & 0xFFF0707Fu32 != 0))) &&
            ((((0x6000103Bu32 ^ 0x48001013u32) & 0xFE00707Fu32 & 0xFC00707Fu32 != 0) &&
            ((0x6000103Bu32 ^ 0x48005013u32) & 0xFE00707Fu32 & 0xFC00707Fu32 != 0)) &&
            (((0x6000103Bu32 ^ 0x68001013u32) & 0xFE00707Fu32 & 0xFC00707Fu32 != 0) &&
            ((0x6000103Bu32 ^ 0x28001013u32) & 0xFE00707Fu32 & 0xFC00707Fu32 != 0)))) &&
            ((((0x6000103Bu32 ^ 0x60005013u32) & 0xFE00707Fu32 & 0xFC00707Fu32 != 0) &&
            (((0x6000103Bu32 ^ 0x6000101Bu32) & 0xFE00707Fu32 & 0xFFF0707Fu32 != 0) &&
            ((0x6000103Bu32 ^ 0x6020101Bu32) & 0xFE00707Fu32 & 0xFFF0707Fu32 != 0))) &&
            ((((0x6000103Bu32 ^ 0x6010101Bu32) & 0xFE00707Fu32 & 0xFFF0707Fu32 != 0) &&
            ((0x6000103Bu32 ^ 0x6000501Bu32) & 0xFE00707Fu32 & 0xFE00707Fu32 != 0)) &&
            (((0x6000103Bu32 ^ 0x0800101Bu32) & 0xFE00707Fu32 & 0xFC00707Fu32 != 0) &&
            ((0x2000203Bu32 ^ 0x0800403Bu32) & 0xFE00707Fu32 & 0xFFF0707Fu32 != 0)))))) &&
            ((((((0x2000203Bu32 ^ 0x2000403Bu32) & 0xFE00707Fu32 & 0xFE00707Fu32 != 0) &&
            (((0x2000203Bu32 ^ 0x6000503Bu32) & 0xFE00707Fu32 & 0xFE00707Fu32 != 0) &&
            ((0x2000203Bu32 ^ 0x2000603Bu32) & 0xFE00707Fu32 & 0xFE00707Fu32 != 0))) &&
            ((((0x2000203Bu32 ^ 0x40007033u32) & 0xFE00707Fu32 & 0xFE00707Fu32 != 0) &&
            ((0x2000203Bu32 ^ 0x40006033u32) & 0xFE00707Fu32 & 0xFE00707Fu32 != 0)) &&
            (((0x2000203Bu32 ^ 0x40004033u32) & 0xFE00707Fu32 & 0xFE00707Fu32 != 0) &&
            ((0x2000203Bu32 ^ 0x60001033u32) & 0xFE00707Fu32 & 0xFE00707Fu32 != 0)))) &&
            ((((0x2000203Bu32 ^ 0x60005033u32) & 0xFE00707Fu32 & 0xFE00707Fu32 != 0) &&
            (((0x2000203Bu32 ^ 0x68001033u32) & 0xFE00707Fu32 & 0xFE00707Fu32 != 0) &&
            ((0x2000203Bu32 ^ 0x28001033u32) & 0xFE00707Fu32 & 0xFE00707Fu32 != 0))) &&
            ((((0x2000203Bu32 ^ 0x48001033u32) & 0xFE00707Fu32 & 0xFE00707Fu32 != 0) &&
            ((0x2000203Bu32 ^ 0x48005033u32) & 0xFE00707Fu32 & 0xFE00707Fu32 != 0)) &&
            (((0x2000203Bu32 ^ 0x20002033u32) & 0xFE00707Fu32 & 0xFE00707Fu32 != 0) &&
            ((0x2000203Bu32 ^ 0x20004033u32) & 0xFE00707Fu32 & 0xFE00707Fu32 != 0))))) &&
            (((((0x2000203Bu32 ^ 0x20006033u32) & 0xFE00707Fu32 & 0xFE00707Fu32 != 0) &&
            (((0x2000203Bu32 ^ 0x0A001033u32) & 0xFE00707Fu32 & 0xFE00707Fu32 != 0) &&
            ((0x2000203Bu32 ^ 0x0A003033u32) & 0xFE00707Fu32 & 0xFE00707Fu32 != 0))) &&
            ((((0x2000203Bu32 ^ 0x0A002033u32) & 0xFE00707Fu32 & 0xFE00707Fu32 != 0) &&
            ((0x2000203Bu32 ^ 0x0A004033u32) & 0xFE00707Fu32 & 0xFE00707Fu32 != 0)) &&
            (((0x2000203Bu32 ^ 0x0A005033u32) & 0xFE00707Fu32 & 0xFE00707Fu32 != 0) &&
            ((0x2000203Bu32 ^ 0x0A006033u32) & 0xFE00707Fu32 & 0xFE00707Fu32 != 0)))) &&
            ((((0x2000203Bu32 ^ 0x0A007033u32) & 0xFE00707Fu32 & 0xFE00707Fu32 != 0) &&
            (((0x2000203Bu32 ^ 0x28705013u32) & 0xFE00707Fu32 & 0xFFF0707Fu32 != 0) &&
            ((0x2000203Bu32 ^ 0x6B805013u32) & 0xFE00707Fu32 & 0xFFF0707Fu32 != 0))) &&
            ((((0x2000203Bu32 ^ 0x60001013u32) & 0xFE00707Fu32 & 0xFFF0707Fu32 != 0) &&
            ((0x2000203Bu32 ^ 0x60201013u32) & 0xFE00707Fu32 & 0xFFF0707Fu32 != 0)) &&
            (((0x2000203Bu32 ^ 0x60101013u32) & 0xFE00707Fu32 & 0xFFF0707Fu32 != 0) &&
            ((0x2000203Bu32 ^ 0x60401013u32) & 0xFE00707Fu32 & 0xFFF0707Fu32 != 0)))))))) &&
            ((((((((0x2000203Bu32 ^ 0x60501013u32) & 0xFE00707Fu32 & 0xFFF0707Fu32 != 0) &&
            (((0x2000203Bu32 ^ 0x48001013u32) & 0xFE00707Fu32 & 0xFC00707Fu32 != 0) &&
            ((0x2000203Bu32 ^ 0x48005013u32) & 0xFE00707Fu32 & 0xFC00707Fu32 != 0))) &&
            ((((0x2000203Bu32 ^ 0x68001013u32) & 0xFE00707Fu32 & 0xFC00707Fu32 != 0) &&
            ((0x2000203Bu32 ^ 0x28001013u32) & 0xFE00707Fu32 & 0xFC00707Fu32 != 0)) &&
            (((0x2000203Bu32 ^ 0x60005013u32) & 0xFE00707Fu32 & 0xFC00707Fu32 != 0) &&
            ((0x2000203Bu32 ^ 0x6000101Bu32) & 0xFE00707Fu32 & 0xFFF0707Fu32 != 0)))) &&
            ((((0x2000203Bu32 ^ 0x6020101Bu32) & 0xFE00707Fu32 & 0xFFF0707Fu32 != 0) &&
            (((0x2000203Bu32 ^ 0x6010101Bu32) & 0xFE00707Fu32 & 0xFFF0707Fu32 != 0) &&
            ((0x2000203Bu32 ^ 0x6000501Bu32) & 0xFE00707Fu32 & 0xFE00707Fu32 != 0))) &&
            ((((0x2000203Bu32 ^ 0x0800101Bu32) & 0xFE00707Fu32 & 0xFC00707Fu32 != 0) &&
            ((0x0800403Bu32 ^ 0x2000403Bu32) & 0xFFF0707Fu32 & 0xFE00707Fu32 != 0)) &&
            (((0x0800403Bu32 ^ 0x6000503Bu32) & 0xFFF0707Fu32 & 0xFE00707Fu32 != 0) &&
            ((0x0800403Bu32 ^ 0x2000603Bu32) & 0xFFF0707Fu32 & 0xFE00707Fu32 != 0))))) &&
            (((((0x0800403Bu32 ^ 0x40007033u32) & 0xFFF0707Fu32 & 0xFE00707Fu32 != 0) &&
            (((0x0800403Bu32 ^ 0x40006033u32) & 0xFFF0707Fu32 & 0xFE00707Fu32 != 0) &&
            ((0x0800403Bu32 ^ 0x40004033u32) & 0xFFF0707Fu32 & 0xFE00707Fu32 != 0))) &&
            ((((0x0800403Bu32 ^ 0x60001033u32) & 0xFFF0707Fu32 & 0xFE00707Fu32 != 0) &&
            ((0x0800403Bu32 ^ 0x60005033u32) & 0xFFF0707Fu32 & 0xFE00707Fu32 != 0)) &&
            (((0x0800403Bu32 ^ 0x68001033u32) & 0xFFF0707Fu32 & 0xFE00707Fu32 != 0) &&
            ((0x0800403Bu32 ^ 0x28001033u32) & 0xFFF0707Fu32 & 0xFE00707Fu32 != 0)))) &&
            ((((0x0800403Bu32 ^ 0x48001033u32) & 0xFFF0707Fu32 & 0xFE00707Fu32 != 0) &&
            (((0x0800403Bu32 ^ 0x48005033u32) & 0xFFF0707Fu32 & 0xFE00707Fu32 != 0) &&
            ((0x0800403Bu32 ^ 0x20002033u32) & 0xFFF0707Fu32 & 0xFE00707Fu32 != 0))) &&
            ((((0x0800403Bu32 ^ 0x20004033u32) & 0xFFF0707Fu32 & 0xFE00707Fu32 != 0) &&
            ((0x0800403Bu32 ^ 0x20006033u32) & 0xFFF0707Fu32 & 0xFE00707Fu32 != 0)) &&
            (((0x0800403Bu32 ^ 0x0A001033u32) & 0xFFF0707Fu32 & 0xFE00707Fu32 != 0) &&
            ((0x0800403Bu32 ^ 0x0A003033u32) & 0xFFF0707Fu32 & 0xFE00707Fu32 != 0)))))) &&
            ((((((0x0800403Bu32 ^ 0x0A002033u32) & 0xFFF0707Fu32 & 0xFE00707Fu32 != 0) &&
            (((0x0800403Bu32 ^ 0x0A004033u32) & 0xFFF0707Fu32 & 0xFE00707Fu32 != 0) &&
            ((0x0800403Bu32 ^ 0x0A005033u32) & 0xFFF0707Fu32 & 0xFE00707Fu32 != 0))) &&
            ((((0x0800403Bu32 ^ 0x0A006033u32) & 0xFFF0707Fu32 & 0xFE00707Fu32 != 0) &&
            ((0x0800403Bu32 ^ 0x0A007033u32) & 0xFFF0707Fu32 & 0xFE00707Fu32 != 0)) &&
            (((0x0800403Bu32 ^ 0x28705013u32) & 0xFFF0707Fu32 & 0xFFF0707Fu32 != 0) &&
            ((0x0800403Bu32 ^ 0x6B805013u32) & 0xFFF0707Fu32 & 0xFFF0707Fu32 != 0)))) &&
            ((((0x0800403Bu32 ^ 0x60001013u32) & 0xFFF0707Fu32 & 0xFFF0707Fu32 != 0) &&
            (((0x0800403Bu32 ^ 0x60201013u32) & 0xFFF0707Fu32 & 0xFFF0707Fu32 != 0) &&
            ((0x0800403Bu32 ^ 0x60101013u32) & 0xFFF0707Fu32 & 0xFFF0707Fu32 != 0))) &&
            ((((0x0800403Bu32 ^ 0x60401013u32) & 0xFFF0707Fu32 & 0xFFF0707Fu32 != 0) &&
            ((0x0800403Bu32 ^ 0x60501013u32) & 0xFFF0707Fu32 & 0xFFF0707Fu32 != 0)) &&
            (((0x0800403Bu32 ^ 0x48001013u32) & 0xFFF0707Fu32 & 0xFC00707Fu32 != 0) &&
            ((0x0800403Bu32 ^ 0x48005013u32) & 0xFFF0707Fu32 & 0xFC00707Fu32 != 0))))) &&
            (((((0x0800403Bu32 ^ 0x68001013u32) & 0xFFF0707Fu32 & 0xFC00707Fu32 != 0) &&
            (((0x0800403Bu32 ^ 0x28001013u32) & 0xFFF0707Fu32 & 0xFC00707Fu32 != 0) &&
            ((0x0800403Bu32 ^ 0x60005013u32) & 0xFFF0707Fu32 & 0xFC00707Fu32 != 0))) &&
            ((((0x0800403Bu32 ^ 0x6000101Bu32) & 0xFFF0707Fu32 & 0xFFF0707Fu32 != 0) &&
            ((0x0800403Bu32 ^ 0x6020101Bu32) & 0xFFF0707Fu32 & 0xFFF0707Fu32 != 0)) &&
            (((0x0800403Bu32 ^ 0x6010101Bu32) & 0xFFF0707Fu32 & 0xFFF0707Fu32 != 0) &&
            ((0x0800403Bu32 ^ 0x6000501Bu32) & 0xFFF0707Fu32 & 0xFE00707Fu32 != 0)))) &&
            ((((0x0800403Bu32 ^ 0x0800101Bu32) & 0xFFF0707Fu32 & 0xFC00707Fu32 != 0) &&
            (((0x2000403Bu32 ^ 0x6000503Bu32) & 0xFE00707Fu32 & 0xFE00707Fu32 != 0) &&
            ((0x2000403Bu32 ^ 0x2000603Bu32) & 0xFE00707Fu32 & 0xFE00707Fu32 != 0))) &&
            ((((0x2000403Bu32 ^ 0x40007033u32) & 0xFE00707Fu32 & 0xFE00707Fu32 != 0) &&
            ((0x2000403Bu32 ^ 0x40006033u32) & 0xFE00707Fu32 & 0xFE00707Fu32 != 0)) &&
            (((0x2000403Bu32 ^ 0x40004033u32) & 0xFE00707Fu32 & 0xFE00707Fu32 != 0) &&
            ((0x2000403Bu32 ^ 0x60001033u32) & 0xFE00707Fu32 & 0xFE00707Fu32 != 0))))))) &&
            (((((((0x2000403Bu32 ^ 0x60005033u32) & 0xFE00707Fu32 & 0xFE00707Fu32 != 0) &&
            (((0x2000403Bu32 ^ 0x68001033u32) & 0xFE00707Fu32 & 0xFE00707Fu32 != 0) &&
            ((0x2000403Bu32 ^ 0x28001033u32) & 0xFE00707Fu32 & 0xFE00707Fu32 != 0))) &&
            ((((0x2000403Bu32 ^ 0x48001033u32) & 0xFE00707Fu32 & 0xFE00707Fu32 != 0) &&
            ((0x2000403Bu32 ^ 0x48005033u32) & 0xFE00707Fu32 & 0xFE00707Fu32 != 0)) &&
            (((0x2000403Bu32 ^ 0x20002033u32) & 0xFE00707Fu32 & 0xFE00707Fu32 != 0) &&
            ((0x2000403Bu32 ^ 0x20004033u32) & 0xFE00707Fu32 & 0xFE00707Fu32 != 0)))) &&
            ((((0x2000403Bu32 ^ 0x20006033u32) & 0xFE00707Fu32 & 0xFE00707Fu32 != 0) &&
            (((0x2000403Bu32 ^ 0x0A001033u32) & 0xFE00707Fu32 & 0xFE00707Fu32 != 0) &&
            ((0x2000403Bu32 ^ 0x0A003033u32) & 0xFE00707Fu32 & 0xFE00707Fu32 != 0))) &&
            ((((0x2000403Bu32 ^ 0x0A002033u32) & 0xFE00707Fu32 & 0xFE00707Fu32 != 0) &&
            ((0x2000403Bu32 ^ 0x0A004033u32) & 0xFE00707Fu32 & 0xFE00707Fu32 != 0)) &&
            (((0x2000403Bu32 ^ 0x0A005033u32) & 0xFE00707Fu32 & 0xFE00707Fu32 != 0) &&
            ((0x2000403Bu32 ^ 0x0A006033u32) & 0xFE00707Fu32 & 0xFE00707Fu32 != 0))))) &&
            (((((0x2000403Bu32 ^ 0x0A007033u32) & 0xFE00707Fu32 & 0xFE00707Fu32 != 0) &&
            (((0x2000403Bu32 ^ 0x28705013u32) & 0xFE00707Fu32 & 0xFFF0707Fu32 != 0) &&
            ((0x2000403Bu32 ^ 0x6B805013u32) & 0xFE00707Fu32 & 0xFFF0707Fu32 != 0))) &&
            ((((0x2000403Bu32 ^ 0x60001013u32) & 0xFE00707Fu32 & 0xFFF0707Fu32 != 0) &&
            ((0x2000403Bu32 ^ 0x60201013u32) & 0xFE00707Fu32 & 0xFFF0707Fu32 != 0)) &&
            (((0x2000403Bu32 ^ 0x60101013u32) & 0xFE00707Fu32 & 0xFFF0707Fu32 != 0) &&
            ((0x2000403Bu32 ^ 0x60401013u32) & 0xFE00707Fu32 & 0xFFF0707Fu32 != 0)))) &&
            ((((0x2000403Bu32 ^ 0x60501013u32) & 0xFE00707Fu32 & 0xFFF0707Fu32 != 0) &&
            (((0x2000403Bu32 ^ 0x48001013u32) & 0xFE00707Fu32 & 0xFC00707Fu32 != 0) &&
            ((0x2000403Bu32 ^ 0x48005013u32) & 0xFE00707Fu32 & 0xFC00707Fu32 != 0))) &&
            ((((0x2000403Bu32 ^ 0x68001013u32) & 0xFE00707Fu32 & 0xFC00707Fu32 != 0) &&
            ((0x2000403Bu32 ^ 0x28001013u32) & 0xFE00707Fu32 & 0xFC00707Fu32 != 0)) &&
            (((0x2000403Bu32 ^ 0x60005013u32) & 0xFE00707Fu32 & 0xFC00707Fu32 != 0) &&
            ((0x2000403Bu32 ^ 0x6000101Bu32) & 0xFE00707Fu32 & 0xFFF0707Fu32 != 0)))))) &&
            ((((((0x2000403Bu32 ^ 0x6020101Bu32) & 0xFE00707Fu32 & 0xFFF0707Fu32 != 0) &&
            (((0x2000403Bu32 ^ 0x6010101Bu32) & 0xFE00707Fu32 & 0xFFF0707Fu32 != 0) &&
            ((0x2000403Bu32 ^ 0x6000501Bu32) & 0xFE00707Fu32 & 0xFE00707Fu32 != 0))) &&
            ((((0x2000403Bu32 ^ 0x0800101Bu32) & 0xFE00707Fu32 & 0xFC00707Fu32 != 0) &&
            ((0x6000503Bu32 ^ 0x2000603Bu32) & 0xFE00707Fu32 & 0xFE00707Fu32 != 0)) &&
            (((0x6000503Bu32 ^ 0x40007033u32) & 0xFE00707Fu32 & 0xFE00707Fu32 != 0) &&
            ((0x6000503Bu32 ^ 0x40006033u32) & 0xFE00707Fu32 & 0xFE00707Fu32 != 0)))) &&
            ((((0x6000503Bu32 ^ 0x40004033u32) & 0xFE00707Fu32 & 0xFE00707Fu32 != 0) &&
            (((0x6000503Bu32 ^ 0x60001033u32) & 0xFE00707Fu32 & 0xFE00707Fu32 != 0) &&
            ((0x6000503Bu32 ^ 0x60005033u32) & 0xFE00707Fu32 & 0xFE00707Fu32 != 0))) &&
            ((((0x6000503Bu32 ^ 0x68001033u32) & 0xFE00707Fu32 & 0xFE00707Fu32 != 0) &&
            ((0x6000503Bu32 ^ 0x28001033u32) & 0xFE00707Fu32 & 0xFE00707Fu32 != 0)) &&
            (((0x6000503Bu32 ^ 0x48001033u32) & 0xFE00707Fu32 & 0xFE00707Fu32 != 0) &&
            ((0x6000503Bu32 ^ 0x48005033u32) & 0xFE00707Fu32 & 0xFE00707Fu32 != 0))))) &&
            (((((0x6000503Bu32 ^ 0x20002033u32) & 0xFE00707Fu32 & 0xFE00707Fu32 != 0) &&
            (((0x6000503Bu32 ^ 0x20004033u32) & 0xFE00707Fu32 & 0xFE00707Fu32 != 0) &&
            ((0x6000503Bu32 ^ 0x20006033u32) & 0xFE00707Fu32 & 0xFE00707Fu32 != 0))) &&
            ((((0x6000503Bu32 ^ 0x0A001033u32) & 0xFE00707Fu32 & 0xFE00707Fu32 != 0) &&
            ((0x6000503Bu32 ^ 0x0A003033u32) & 0xFE00707Fu32 & 0xFE00707Fu32 != 0)) &&
            (((0x6000503Bu32 ^ 0x0A002033u32) & 0xFE00707Fu32 & 0xFE00707Fu32 != 0) &&
            ((0x6000503Bu32 ^ 0x0A004033u32) & 0xFE00707Fu32 & 0xFE00707Fu32 != 0)))) &&
            (((((0x6000503Bu32 ^ 0x0A005033u32) & 0xFE00707Fu32 & 0xFE00707Fu32 != 0) &&
            ((0x6000503Bu32 ^ 0x0A006033u32) & 0xFE00707Fu32 & 0xFE00707Fu32 != 0)) &&
            (((0x6000503Bu32 ^ 0x0A007033u32) & 0xFE00707Fu32 & 0xFE00707Fu32 != 0) &&
            ((0x6000503Bu32 ^ 0x28705013u32) & 0xFE00707Fu32 & 0xFFF0707Fu32 != 0))) &&
            ((((0x6000503Bu32 ^ 0x6B805013u32) & 0xFE00707Fu32 & 0xFFF0707Fu32 != 0) &&
            ((0x6000503Bu32 ^ 0x60001013u32) & 0xFE00707Fu32 & 0xFFF0707Fu32 != 0)) &&
            (((0x6000503Bu32 ^ 0x60201013u32) & 0xFE00707Fu32 & 0xFFF0707Fu32 != 0) &&
            ((0x6000503Bu32 ^ 0x60101013u32) & 0xFE00707Fu32 & 0xFFF0707Fu32 != 0))))))))) &&
            (((((((((0x6000503Bu32 ^ 0x60401013u32) & 0xFE00707Fu32 & 0xFFF0707Fu32 != 0) &&
            (((0x6000503Bu32 ^ 0x60501013u32) & 0xFE00707Fu32 & 0xFFF0707Fu32 != 0) &&
            ((0x6000503Bu32 ^ 0x48001013u32) & 0xFE00707Fu32 & 0xFC00707Fu32 != 0))) &&
            ((((0x6000503Bu32 ^ 0x48005013u32) & 0xFE00707Fu32 & 0xFC00707Fu32 != 0) &&
            ((0x6000503Bu32 ^ 0x68001013u32) & 0xFE00707Fu32 & 0xFC00707Fu32 != 0)) &&
            (((0x6000503Bu32 ^ 0x28001013u32) & 0xFE00707Fu32 & 0xFC00707Fu32 != 0) &&
            ((0x6000503Bu32 ^ 0x60005013u32) & 0xFE00707Fu32 & 0xFC00707Fu32 != 0)))) &&
            ((((0x6000503Bu32 ^ 0x6000101Bu32) & 0xFE00707Fu32 & 0xFFF0707Fu32 != 0) &&
            (((0x6000503Bu32 ^ 0x6020101Bu32) & 0xFE00707Fu32 & 0xFFF0707Fu32 != 0) &&
            ((0x6000503Bu32 ^ 0x6010101Bu32) & 0xFE00707Fu32 & 0xFFF0707Fu32 != 0))) &&
            ((((0x6000503Bu32 ^ 0x6000501Bu32) & 0xFE00707Fu32 & 0xFE00707Fu32 != 0) &&
            ((0x6000503Bu32 ^ 0x0800101Bu32) & 0xFE00707Fu32 & 0xFC00707Fu32 != 0)) &&
            (((0x2000603Bu32 ^ 0x40007033u32) & 0xFE00707Fu32 & 0xFE00707Fu32 != 0) &&
            ((0x2000603Bu32 ^ 0x40006033u32) & 0xFE00707Fu32 & 0xFE00707Fu32 != 0))))) &&
            (((((0x2000603Bu32 ^ 0x40004033u32) & 0xFE00707Fu32 & 0xFE00707Fu32 != 0) &&
            (((0x2000603Bu32 ^ 0x60001033u32) & 0xFE00707Fu32 & 0xFE00707Fu32 != 0) &&
            ((0x2000603Bu32 ^ 0x60005033u32) & 0xFE00707Fu32 & 0xFE00707Fu32 != 0))) &&
            ((((0x2000603Bu32 ^ 0x68001033u32) & 0xFE00707Fu32 & 0xFE00707Fu32 != 0) &&
            ((0x2000603Bu32 ^ 0x28001033u32) & 0xFE00707Fu32 & 0xFE00707Fu32 != 0)) &&
            (((0x2000603Bu32 ^ 0x48001033u32) & 0xFE00707Fu32 & 0xFE00707Fu32 != 0) &&
            ((0x2000603Bu32 ^ 0x48005033u32) & 0xFE00707Fu32 & 0xFE00707Fu32 != 0)))) &&
            ((((0x2000603Bu32 ^ 0x20002033u32) & 0xFE00707Fu32 & 0xFE00707Fu32 != 0) &&
            (((0x2000603Bu32 ^ 0x20004033u32) & 0xFE00707Fu32 & 0xFE00707Fu32 != 0) &&
            ((0x2000603Bu32 ^ 0x20006033u32) & 0xFE00707Fu32 & 0xFE00707Fu32 != 0))) &&
            ((((0x2000603Bu32 ^ 0x0A001033u32) & 0xFE00707Fu32 & 0xFE00707Fu32 != 0) &&
            ((0x2000603Bu32 ^ 0x0A003033u32) & 0xFE00707Fu32 & 0xFE00707Fu32 != 0)) &&
            (((0x2000603Bu32 ^ 0x0A002033u32) & 0xFE00707Fu32 & 0xFE00707Fu32 != 0) &&
            ((0x2000603Bu32 ^ 0x0A004033u32) & 0xFE00707Fu32 & 0xFE00707Fu32 != 0)))))) &&
            ((((((0x2000603Bu32 ^ 0x0A005033u32) & 0xFE00707Fu32 & 0xFE00707Fu32 != 0) &&
            (((0x2000603Bu32 ^ 0x0A006033u32) & 0xFE00707Fu32 & 0xFE00707Fu32 != 0) &&
            ((0x2000603Bu32 ^ 0x0A007033u32) & 0xFE00707Fu32 & 0xFE00707Fu32 != 0))) &&
            ((((0x2000603Bu32 ^ 0x28705013u32) & 0xFE00707Fu32 & 0xFFF0707Fu32 != 0) &&
            ((0x2000603Bu32 ^ 0x6B805013u32) & 0xFE00707Fu32 & 0xFFF0707Fu32 != 0)) &&
            (((0x2000603Bu32 ^ 0x60001013u32) & 0xFE00707Fu32 & 0xFFF0707Fu32 != 0) &&
            ((0x2000603Bu32 ^ 0x60201013u32) & 0xFE00707Fu32 & 0xFFF0707Fu32 != 0)))) &&
            ((((0x2000603Bu32 ^ 0x60101013u32) & 0xFE00707Fu32 & 0xFFF0707Fu32 != 0) &&
            (((0x2000603Bu32 ^ 0x60401013u32) & 0xFE00707Fu32 & 0xFFF0707Fu32 != 0) &&
            ((0x2000603Bu32 ^ 0x60501013u32) & 0xFE00707Fu32 & 0xFFF0707Fu32 != 0))) &&
            ((((0x2000603Bu32 ^ 0x48001013u32) & 0xFE00707Fu32 & 0xFC00707Fu32 != 0) &&
            ((0x2000603Bu32 ^ 0x48005013u32) & 0xFE00707Fu32 & 0xFC00707Fu32 != 0)) &&
            (((0x2000603Bu32 ^ 0x68001013u32) & 0xFE00707Fu32 & 0xFC00707Fu32 != 0) &&
            ((0x2000603Bu32 ^ 0x28001013u32) & 0xFE00707Fu32 & 0xFC00707Fu32 != 0))))) &&
            (((((0x2000603Bu32 ^ 0x60005013u32) & 0xFE00707Fu32 & 0xFC00707Fu32 != 0) &&
            (((0x2000603Bu32 ^ 0x6000101Bu32) & 0xFE00707Fu32 & 0xFFF0707Fu32 != 0) &&
            ((0x2000603Bu32 ^ 0x6020101Bu32) & 0xFE00707Fu32 & 0xFFF0707Fu32 != 0))) &&
            ((((0x2000603Bu32 ^ 0x6010101Bu32) & 0xFE00707Fu32 & 0xFFF0707Fu32 != 0) &&
            ((0x2000603Bu32 ^ 0x6000501Bu32) & 0xFE00707Fu32 & 0xFE00707Fu32 != 0)) &&
            (((0x2000603Bu32 ^ 0x0800101Bu32) & 0xFE00707Fu32 & 0xFC00707Fu32 != 0) &&
            ((0x40007033u32 ^ 0x40006033u32) & 0xFE00707Fu32 & 0xFE00707Fu32 != 0)))) &&
            ((((0x40007033u32 ^ 0x40004033u32) & 0xFE00707Fu32 & 0xFE00707Fu32 != 0) &&
            (((0x40007033u32 ^ 0x60001033u32) & 0xFE00707Fu32 & 0xFE00707Fu32 != 0) &&
            ((0x40007033u32 ^ 0x60005033u32) & 0xFE00707Fu32 & 0xFE00707Fu32 != 0))) &&
            ((((0x40007033u32 ^ 0x68001033u32) & 0xFE00707Fu32 & 0xFE00707Fu32 != 0) &&
            ((0x40007033u32 ^ 0x28001033u32) & 0xFE00707Fu32 & 0xFE00707Fu32 != 0)) &&
            (((0x40007033u32 ^ 0x48001033u32) & 0xFE00707Fu32 & 0xFE00707Fu32 != 0) &&
            ((0x40007033u32 ^ 0x48005033u32) & 0xFE00707Fu32 & 0xFE00707Fu32 != 0))))))) &&
            (((((((0x40007033u32 ^ 0x20002033u32) & 0xFE00707Fu32 & 0xFE00707Fu32 != 0) &&
            (((0x40007033u32 ^ 0x20004033u32) & 0xFE00707Fu32 & 0xFE00707Fu32 != 0) &&
            ((0x40007033u32 ^ 0x20006033u32) & 0xFE00707Fu32 & 0xFE00707Fu32 != 0))) &&
            ((((0x40007033u32 ^ 0x0A001033u32) & 0xFE00707Fu32 & 0xFE00707Fu32 != 0) &&
            ((0x40007033u32 ^ 0x0A003033u32) & 0xFE00707Fu32 & 0xFE00707Fu32 != 0)) &&
            (((0x40007033u32 ^ 0x0A002033u32) & 0xFE00707Fu32 & 0xFE00707Fu32 != 0) &&
            ((0x40007033u32 ^ 0x0A004033u32) & 0xFE00707Fu32 & 0xFE00707Fu32 != 0)))) &&
            ((((0x40007033u32 ^ 0x0A005033u32) & 0xFE00707Fu32 & 0xFE00707Fu32 != 0) &&
            (((0x40007033u32 ^ 0x0A006033u32) & 0xFE00707Fu32 & 0xFE00707Fu32 != 0) &&
            ((0x40007033u32 ^ 0x0A007033u32) & 0xFE00707Fu32 & 0xFE00707Fu32 != 0))) &&
            ((((0x40007033u32 ^ 0x28705013u32) & 0xFE00707Fu32 & 0xFFF0707Fu32 != 0) &&
            ((0x40007033u32 ^ 0x6B805013u32) & 0xFE00707Fu32 & 0xFFF0707Fu32 != 0)) &&
            (((0x40007033u32 ^ 0x60001013u32) & 0xFE00707Fu32 & 0xFFF0707Fu32 != 0) &&
            ((0x40007033u32 ^ 0x60201013u32) & 0xFE00707Fu32 & 0xFFF0707Fu32 != 0))))) &&
            (((((0x40007033u32 ^ 0x60101013u32) & 0xFE00707Fu32 & 0xFFF0707Fu32 != 0) &&
            (((0x40007033u32 ^ 0x60401013u32) & 0xFE00707Fu32 & 0xFFF0707Fu32 != 0) &&
            ((0x40007033u32 ^ 0x60501013u32) & 0xFE00707Fu32 & 0xFFF0707Fu32 != 0))) &&
            ((((0x40007033u32 ^ 0x48001013u32) & 0xFE00707Fu32 & 0xFC00707Fu32 != 0) &&
            ((0x40007033u32 ^ 0x48005013u32) & 0xFE00707Fu32 & 0xFC00707Fu32 != 0)) &&
            (((0x40007033u32 ^ 0x68001013u32) & 0xFE00707Fu32 & 0xFC00707Fu32 != 0) &&
            ((0x40007033u32 ^ 0x28001013u32) & 0xFE00707Fu32 & 0xFC00707Fu32 != 0)))) &&
            ((((0x40007033u32 ^ 0x60005013u32) & 0xFE00707Fu32 & 0xFC00707Fu32 != 0) &&
            (((0x40007033u32 ^ 0x6000101Bu32) & 0xFE00707Fu32 & 0xFFF0707Fu32 != 0) &&
            ((0x40007033u32 ^ 0x6020101Bu32) & 0xFE00707Fu32 & 0xFFF0707Fu32 != 0))) &&
            ((((0x40007033u32 ^ 0x6010101Bu32) & 0xFE00707Fu32 & 0xFFF0707Fu32 != 0) &&
            ((0x40007033u32 ^ 0x6000501Bu32) & 0xFE00707Fu32 & 0xFE00707Fu32 != 0)) &&
            (((0x40007033u32 ^ 0x0800101Bu32) & 0xFE00707Fu32 & 0xFC00707Fu32 != 0) &&
            ((0x40006033u32 ^ 0x40004033u32) & 0xFE00707Fu32 & 0xFE00707Fu32 != 0)))))) &&
            ((((((0x40006033u32 ^ 0x60001033u32) & 0xFE00707Fu32 & 0xFE00707Fu32 != 0) &&
            (((0x40006033u32 ^ 0x60005033u32) & 0xFE00707Fu32 & 0xFE00707Fu32 != 0) &&
            ((0x40006033u32 ^ 0x68001033u32) & 0xFE00707Fu32 & 0xFE00707Fu32 != 0))) &&
            ((((0x40006033u32 ^ 0x28001033u32) & 0xFE00707Fu32 & 0xFE00707Fu32 != 0) &&
            ((0x40006033u32 ^ 0x48001033u32) & 0xFE00707Fu32 & 0xFE00707Fu32 != 0)) &&
            (((0x40006033u32 ^ 0x48005033u32) & 0xFE00707Fu32 & 0xFE00707Fu32 != 0) &&
            ((0x40006033u32 ^ 0x20002033u32) & 0xFE00707Fu32 & 0xFE00707Fu32 != 0)))) &&
            ((((0x40006033u32 ^ 0x20004033u32) & 0xFE00707Fu32 & 0xFE00707Fu32 != 0) &&
            (((0x40006033u32 ^ 0x20006033u32) & 0xFE00707Fu32 & 0xFE00707Fu32 != 0) &&
            ((0x40006033u32 ^ 0x0A001033u32) & 0xFE00707Fu32 & 0xFE00707Fu32 != 0))) &&
            ((((0x40006033u32 ^ 0x0A003033u32) & 0xFE00707Fu32 & 0xFE00707Fu32 != 0) &&
            ((0x40006033u32 ^ 0x0A002033u32) & 0xFE00707Fu32 & 0xFE00707Fu32 != 0)) &&
            (((0x40006033u32 ^ 0x0A004033u32) & 0xFE00707Fu32 & 0xFE00707Fu32 != 0) &&
            ((0x40006033u32 ^ 0x0A005033u32) & 0xFE00707Fu32 & 0xFE00707Fu32 != 0))))) &&
            (((((0x40006033u32 ^ 0x0A006033u32) & 0xFE00707Fu32 & 0xFE00707Fu32 != 0) &&
            (((0x40006033u32 ^ 0x0A007033u32) & 0xFE00707Fu32 & 0xFE00707Fu32 != 0) &&
            ((0x40006033u32 ^ 0x28705013u32) & 0xFE00707Fu32 & 0xFFF0707Fu32 != 0))) &&
            ((((0x40006033u32 ^ 0x6B805013u32) & 0xFE00707Fu32 & 0xFFF0707Fu32 != 0) &&
            ((0x40006033u32 ^ 0x60001013u32) & 0xFE00707Fu32 & 0xFFF0707Fu32 != 0)) &&
            (((0x40006033u32 ^ 0x60201013u32) & 0xFE00707Fu32 & 0xFFF0707Fu32 != 0) &&
            ((0x40006033u32 ^ 0x60101013u32) & 0xFE00707Fu32 & 0xFFF0707Fu32 != 0)))) &&
            (((((0x40006033u32 ^ 0x60401013u32) & 0xFE00707Fu32 & 0xFFF0707Fu32 != 0) &&
            ((0x40006033u32 ^ 0x60501013u32) & 0xFE00707Fu32 & 0xFFF0707Fu32 != 0)) &&
            (((0x40006033u32 ^ 0x48001013u32) & 0xFE00707Fu32 & 0xFC00707Fu32 != 0) &&
            ((0x40006033u32 ^ 0x48005013u32) & 0xFE00707Fu32 & 0xFC00707Fu32 != 0))) &&
            ((((0x40006033u32 ^ 0x68001013u32) & 0xFE00707Fu32 & 0xFC00707Fu32 != 0) &&
            ((0x40006033u32 ^ 0x28001013u32) & 0xFE00707Fu32 & 0xFC00707Fu32 != 0)) &&
            (((0x40006033u32 ^ 0x60005013u32) & 0xFE00707Fu32 & 0xFC00707Fu32 != 0) &&
            ((0x40006033u32 ^ 0x6000101Bu32) & 0xFE00707Fu32 & 0xFFF0707Fu32 != 0)))))))) &&
            ((((((((0x40006033u32 ^ 0x6020101Bu32) & 0xFE00707Fu32 & 0xFFF0707Fu32 != 0) &&
            (((0x40006033u32 ^ 0x6010101Bu32) & 0xFE00707Fu32 & 0xFFF0707Fu32 != 0) &&
            ((0x40006033u32 ^ 0x6000501Bu32) & 0xFE00707Fu32 & 0xFE00707Fu32 != 0))) &&
            ((((0x40006033u32 ^ 0x0800101Bu32) & 0xFE00707Fu32 & 0xFC00707Fu32 != 0) &&
            ((0x40004033u32 ^ 0x60001033u32) & 0xFE00707Fu32 & 0xFE00707Fu32 != 0)) &&
            (((0x40004033u32 ^ 0x60005033u32) & 0xFE00707Fu32 & 0xFE00707Fu32 != 0) &&
            ((0x40004033u32 ^ 0x68001033u32) & 0xFE00707Fu32 & 0xFE00707Fu32 != 0)))) &&
            ((((0x40004033u32 ^ 0x28001033u32) & 0xFE00707Fu32 & 0xFE00707Fu32 != 0) &&
            (((0x40004033u32 ^ 0x48001033u32) & 0xFE00707Fu32 & 0xFE00707Fu32 != 0) &&
            ((0x40004033u32 ^ 0x48005033u32) & 0xFE00707Fu32 & 0xFE00707Fu32 != 0))) &&
            ((((0x40004033u32 ^ 0x20002033u32) & 0xFE00707Fu32 & 0xFE00707Fu32 != 0) &&
            ((0x40004033u32 ^ 0x20004033u32) & 0xFE00707Fu32 & 0xFE00707Fu32 != 0)) &&
            (((0x40004033u32 ^ 0x20006033u32) & 0xFE00707Fu32 & 0xFE00707Fu32 != 0) &&
            ((0x40004033u32 ^ 0x0A001033u32) & 0xFE00707Fu32 & 0xFE00707Fu32 != 0))))) &&
            (((((0x40004033u32 ^ 0x0A003033u32) & 0xFE00707Fu32 & 0xFE00707Fu32 != 0) &&
            (((0x40004033u32 ^ 0x0A002033u32) & 0xFE00707Fu32 & 0xFE00707Fu32 != 0) &&
            ((0x40004033u32 ^ 0x0A004033u32) & 0xFE00707Fu32 & 0xFE00707Fu32 != 0))) &&
            ((((0x40004033u32 ^ 0x0A005033u32) & 0xFE00707Fu32 & 0xFE00707Fu32 != 0) &&
            ((0x40004033u32 ^ 0x0A006033u32) & 0xFE00707Fu32 & 0xFE00707Fu32 != 0)) &&
            (((0x40004033u32 ^ 0x0A007033u32) & 0xFE00707Fu32 & 0xFE00707Fu32 != 0) &&
            ((0x40004033u32 ^ 0x28705013u32) & 0xFE00707Fu32 & 0xFFF0707Fu32 != 0)))) &&
            ((((0x40004033u32 ^ 0x6B805013u32) & 0xFE00707Fu32 & 0xFFF0707Fu32 != 0) &&
            (((0x40004033u32 ^ 0x60001013u32) & 0xFE00707Fu32 & 0xFFF0707Fu32 != 0) &&
            ((0x40004033u32 ^ 0x60201013u32) & 0xFE00707Fu32 & 0xFFF0707Fu32 != 0))) &&
            ((((0x40004033u32 ^ 0x60101013u32) & 0xFE00707Fu32 & 0xFFF0707Fu32 != 0) &&
            ((0x40004033u32 ^ 0x60401013u32) & 0xFE00707Fu32 & 0xFFF0707Fu32 != 0)) &&
            (((0x40004033u32 ^ 0x60501013u32) & 0xFE00707Fu32 & 0xFFF0707Fu32 != 0) &&
            ((0x40004033u32 ^ 0x48001013u32) & 0xFE00707Fu32 & 0xFC00707Fu32 != 0)))))) &&
            ((((((0x40004033u32 ^ 0x48005013u32) & 0xFE00707Fu32 & 0xFC00707Fu32 != 0) &&
            (((0x40004033u32 ^ 0x68001013u32) & 0xFE00707Fu32 & 0xFC00707Fu32 != 0) &&
            ((0x40004033u32 ^ 0x28001013u32) & 0xFE00707Fu32 & 0xFC00707Fu32 != 0))) &&
            ((((0x40004033u32 ^ 0x60005013u32) & 0xFE00707Fu32 & 0xFC00707Fu32 != 0) &&
            ((0x40004033u32 ^ 0x6000101Bu32) & 0xFE00707Fu32 & 0xFFF0707Fu32 != 0)) &&
            (((0x40004033u32 ^ 0x6020101Bu32) & 0xFE00707Fu32 & 0xFFF0707Fu32 != 0) &&
            ((0x40004033u32 ^ 0x6010101Bu32) & 0xFE00707Fu32 & 0xFFF0707Fu32 != 0)))) &&
            ((((0x40004033u32 ^ 0x6000501Bu32) & 0xFE00707Fu32 & 0xFE00707Fu32 != 0) &&
            (((0x40004033u32 ^ 0x0800101Bu32) & 0xFE00707Fu32 & 0xFC00707Fu32 != 0) &&
            ((0x60001033u32 ^ 0x60005033u32) & 0xFE00707Fu32 & 0xFE00707Fu32 != 0))) &&
            ((((0x60001033u32 ^ 0x68001033u32) & 0xFE00707Fu32 & 0xFE00707Fu32 != 0) &&
            ((0x60001033u32 ^ 0x28001033u32) & 0xFE00707Fu32 & 0xFE00707Fu32 != 0)) &&
            (((0x60001033u32 ^ 0x48001033u32) & 0xFE00707Fu32 & 0xFE00707Fu32 != 0) &&
            ((0x60001033u32 ^ 0x48005033u32) & 0xFE00707Fu32 & 0xFE00707Fu32 != 0))))) &&
            (((((0x60001033u32 ^ 0x20002033u32) & 0xFE00707Fu32 & 0xFE00707Fu32 != 0) &&
            (((0x60001033u32 ^ 0x20004033u32) & 0xFE00707Fu32 & 0xFE00707Fu32 != 0) &&
            ((0x60001033u32 ^ 0x20006033u32) & 0xFE00707Fu32 & 0xFE00707Fu32 != 0))) &&
            ((((0x60001033u32 ^ 0x0A001033u32) & 0xFE00707Fu32 & 0xFE00707Fu32 != 0) &&
            ((0x60001033u32 ^ 0x0A003033u32) & 0xFE00707Fu32 & 0xFE00707Fu32 != 0)) &&
            (((0x60001033u32 ^ 0x0A002033u32) & 0xFE00707Fu32 & 0xFE00707Fu32 != 0) &&
            ((0x60001033u32 ^ 0x0A004033u32) & 0xFE00707Fu32 & 0xFE00707Fu32 != 0)))) &&
            ((((0x60001033u32 ^ 0x0A005033u32) & 0xFE00707Fu32 & 0xFE00707Fu32 != 0) &&
            (((0x60001033u32 ^ 0x0A006033u32) & 0xFE00707Fu32 & 0xFE00707Fu32 != 0) &&
            ((0x60001033u32 ^ 0x0A007033u32) & 0xFE00707Fu32 & 0xFE00707Fu32 != 0))) &&
            ((((0x60001033u32 ^ 0x28705013u32) & 0xFE00707Fu32 & 0xFFF0707Fu32 != 0) &&
            ((0x60001033u32 ^ 0x6B805013u32) & 0xFE00707Fu32 & 0xFFF0707Fu32 != 0)) &&
            (((0x60001033u32 ^ 0x60001013u32) & 0xFE00707Fu32 & 0xFFF0707Fu32 != 0) &&
            ((0x60001033u32 ^ 0x60201013u32) & 0xFE00707Fu32 & 0xFFF0707Fu32 != 0))))))) &&
            (((((((0x60001033u32 ^ 0x60101013u32) & 0xFE00707Fu32 & 0xFFF0707Fu32 != 0) &&
            (((0x60001033u32 ^ 0x60401013u32) & 0xFE00707Fu32 & 0xFFF0707Fu32 != 0) &&
            ((0x60001033u32 ^ 0x60501013u32) & 0xFE00707Fu32 & 0xFFF0707Fu32 != 0))) &&
            ((((0x60001033u32 ^ 0x48001013u32) & 0xFE00707Fu32 & 0xFC00707Fu32 != 0) &&
            ((0x60001033u32 ^ 0x48005013u32) & 0xFE00707Fu32 & 0xFC00707Fu32 != 0)) &&
            (((0x60001033u32 ^ 0x68001013u32) & 0xFE00707Fu32 & 0xFC00707Fu32 != 0) &&
            ((0x60001033u32 ^ 0x28001013u32) & 0xFE00707Fu32 & 0xFC00707Fu32 != 0)))) &&
            ((((0x60001033u32 ^ 0x60005013u32) & 0xFE00707Fu32 & 0xFC00707Fu32 != 0) &&
            (((0x60001033u32 ^ 0x6000101Bu32) & 0xFE00707Fu32 & 0xFFF0707Fu32 != 0) &&
            ((0x60001033u32 ^ 0x6020101Bu32) & 0xFE00707Fu32 & 0xFFF0707Fu32 != 0))) &&
            ((((0x60001033u32 ^ 0x6010101Bu32) & 0xFE00707Fu32 & 0xFFF0707Fu32 != 0) &&
            ((0x60001033u32 ^ 0x6000501Bu32) & 0xFE00707Fu32 & 0xFE00707Fu32 != 0)) &&
            (((0x60001033u32 ^ 0x0800101Bu32) & 0xFE00707Fu32 & 0xFC00707Fu32 != 0) &&
            ((0x60005033u32 ^ 0x68001033u32) & 0xFE00707Fu32 & 0xFE00707Fu32 != 0))))) &&
            (((((0x60005033u32 ^ 0x28001033u32) & 0xFE00707Fu32 & 0xFE00707Fu32 != 0) &&
            (((0x60005033u32 ^ 0x48001033u32) & 0xFE00707Fu32 & 0xFE00707Fu32 != 0) &&
            ((0x60005033u32 ^ 0x48005033u32) & 0xFE00707Fu32 & 0xFE00707Fu32 != 0))) &&
            ((((0x60005033u32 ^ 0x20002033u32) & 0xFE00707Fu32 & 0xFE00707Fu32 != 0) &&
            ((0x60005033u32 ^ 0x20004033u32) & 0xFE00707Fu32 & 0xFE00707Fu32 != 0)) &&
            (((0x60005033u32 ^ 0x20006033u32) & 0xFE00707Fu32 & 0xFE00707Fu32 != 0) &&
            ((0x60005033u32 ^ 0x0A001033u32) & 0xFE00707Fu32 & 0xFE00707Fu32 != 0)))) &&
            ((((0x60005033u32 ^ 0x0A003033u32) & 0xFE00707Fu32 & 0xFE00707Fu32 != 0) &&
            (((0x60005033u32 ^ 0x0A002033u32) & 0xFE00707Fu32 & 0xFE00707Fu32 != 0) &&
            ((0x60005033u32 ^ 0x0A004033u32) & 0xFE00707Fu32 & 0xFE00707Fu32 != 0))) &&
            ((((0x60005033u32 ^ 0x0A005033u32) & 0xFE00707Fu32 & 0xFE00707Fu32 != 0) &&
            ((0x60005033u32 ^ 0x0A006033u32) & 0xFE00707Fu32 & 0xFE00707Fu32 != 0)) &&
            (((0x60005033u32 ^ 0x0A007033u32) & 0xFE00707Fu32 & 0xFE00707Fu32 != 0) &&
            ((0x60005033u32 ^ 0x28705013u32) & 0xFE00707Fu32 & 0xFFF0707Fu32 != 0)))))) &&
            ((((((0x60005033u32 ^ 0x6B805013u32) & 0xFE00707Fu32 & 0xFFF0707Fu32 != 0) &&
            (((0x60005033u32 ^ 0x60001013u32) & 0xFE00707Fu32 & 0xFFF0707Fu32 != 0) &&
            ((0x60005033u32 ^ 0x60201013u32) & 0xFE00707Fu32 & 0xFFF0707Fu32 != 0))) &&
            ((((0x60005033u32 ^ 0x60101013u32) & 0xFE00707Fu32 & 0xFFF0707Fu32 != 0) &&
            ((0x60005033u32 ^ 0x60401013u32) & 0xFE00707Fu32 & 0xFFF0707Fu32 != 0)) &&
            (((0x60005033u32 ^ 0x60501013u32) & 0xFE00707Fu32 & 0xFFF0707Fu32 != 0) &&
            ((0x60005033u32 ^ 0x48001013u32) & 0xFE00707Fu32 & 0xFC00707Fu32 != 0)))) &&
            ((((0x60005033u32 ^ 0x48005013u32) & 0xFE00707Fu32 & 0xFC00707Fu32 != 0) &&
            (((0x60005033u32 ^ 0x68001013u32) & 0xFE00707Fu32 & 0xFC00707Fu32 != 0) &&
            ((0x60005033u32 ^ 0x28001013u32) & 0xFE00707Fu32 & 0xFC00707Fu32 != 0))) &&
            ((((0x60005033u32 ^ 0x60005013u32) & 0xFE00707Fu32 & 0xFC00707Fu32 != 0) &&
            ((0x60005033u32 ^ 0x6000101Bu32) & 0xFE00707Fu32 & 0xFFF0707Fu32 != 0)) &&
            (((0x60005033u32 ^ 0x6020101Bu32) & 0xFE00707Fu32 & 0xFFF0707Fu32 != 0) &&
            ((0x60005033u32 ^ 0x6010101Bu32) & 0xFE00707Fu32 & 0xFFF0707Fu32 != 0))))) &&
            (((((0x60005033u32 ^ 0x6000501Bu32) & 0xFE00707Fu32 & 0xFE00707Fu32 != 0) &&
            (((0x60005033u32 ^ 0x0800101Bu32) & 0xFE00707Fu32 & 0xFC00707Fu32 != 0) &&
            ((0x68001033u32 ^ 0x28001033u32) & 0xFE00707Fu32 & 0xFE00707Fu32 != 0))) &&
            ((((0x68001033u32 ^ 0x48001033u32) & 0xFE00707Fu32 & 0xFE00707Fu32 != 0) &&
            ((0x68001033u32 ^ 0x48005033u32) & 0xFE00707Fu32 & 0xFE00707Fu32 != 0)) &&
            (((0x68001033u32 ^ 0x20002033u32) & 0xFE00707Fu32 & 0xFE00707Fu32 != 0) &&
            ((0x68001033u32 ^ 0x20004033u32) & 0xFE00707Fu32 & 0xFE00707Fu32 != 0)))) &&
            (((((0x68001033u32 ^ 0x20006033u32) & 0xFE00707Fu32 & 0xFE00707Fu32 != 0) &&
            ((0x68001033u32 ^ 0x0A001033u32) & 0xFE00707Fu32 & 0xFE00707Fu32 != 0)) &&
            (((0x68001033u32 ^ 0x0A003033u32) & 0xFE00707Fu32 & 0xFE00707Fu32 != 0) &&
            ((0x68001033u32 ^ 0x0A002033u32) & 0xFE00707Fu32 & 0xFE00707Fu32 != 0))) &&
            ((((0x68001033u32 ^ 0x0A004033u32) & 0xFE00707Fu32 & 0xFE00707Fu32 != 0) &&
            ((0x68001033u32 ^ 0x0A005033u32) & 0xFE00707Fu32 & 0xFE00707Fu32 != 0)) &&
            (((0x68001033u32 ^ 0x0A006033u32) & 0xFE00707Fu32 & 0xFE00707Fu32 != 0) &&
            ((0x68001033u32 ^ 0x0A007033u32) & 0xFE00707Fu32 & 0xFE00707Fu32 != 0)))))))))) &&
            ((((((((((0x68001033u32 ^ 0x28705013u32) & 0xFE00707Fu32 & 0xFFF0707Fu32 != 0) &&
            (((0x68001033u32 ^ 0x6B805013u32) & 0xFE00707Fu32 & 0xFFF0707Fu32 != 0) &&
            ((0x68001033u32 ^ 0x60001013u32) & 0xFE00707Fu32 & 0xFFF0707Fu32 != 0))) &&
            ((((0x68001033u32 ^ 0x60201013u32) & 0xFE00707Fu32 & 0xFFF0707Fu32 != 0) &&
            ((0x68001033u32 ^ 0x60101013u32) & 0xFE00707Fu32 & 0xFFF0707Fu32 != 0)) &&
            (((0x68001033u32 ^ 0x60401013u32) & 0xFE00707Fu32 & 0xFFF0707Fu32 != 0) &&
            ((0x68001033u32 ^ 0x60501013u32) & 0xFE00707Fu32 & 0xFFF0707Fu32 != 0)))) &&
            ((((0x68001033u32 ^ 0x48001013u32) & 0xFE00707Fu32 & 0xFC00707Fu32 != 0) &&
            (((0x68001033u32 ^ 0x48005013u32) & 0xFE00707Fu32 & 0xFC00707Fu32 != 0) &&
            ((0x68001033u32 ^ 0x68001013u32) & 0xFE00707Fu32 & 0xFC00707Fu32 != 0))) &&
            ((((0x68001033u32 ^ 0x28001013u32) & 0xFE00707Fu32 & 0xFC00707Fu32 != 0) &&
            ((0x68001033u32 ^ 0x60005013u32) & 0xFE00707Fu32 & 0xFC00707Fu32 != 0)) &&
            (((0x68001033u32 ^ 0x6000101Bu32) & 0xFE00707Fu32 & 0xFFF0707Fu32 != 0) &&
            ((0x68001033u32 ^ 0x6020101Bu32) & 0xFE00707Fu32 & 0xFFF0707Fu32 != 0))))) &&
            (((((0x68001033u32 ^ 0x6010101Bu32) & 0xFE00707Fu32 & 0xFFF0707Fu32 != 0) &&
            (((0x68001033u32 ^ 0x6000501Bu32) & 0xFE00707Fu32 & 0xFE00707Fu32 != 0) &&
            ((0x68001033u32 ^ 0x0800101Bu32) & 0xFE00707Fu32 & 0xFC00707Fu32 != 0))) &&
            ((((0x28001033u32 ^ 0x48001033u32) & 0xFE00707Fu32 & 0xFE00707Fu32 != 0) &&
            ((0x28001033u32 ^ 0x48005033u32) & 0xFE00707Fu32 & 0xFE00707Fu32 != 0)) &&
            (((0x28001033u32 ^ 0x20002033u32) & 0xFE00707Fu32 & 0xFE00707Fu32 != 0) &&
            ((0x28001033u32 ^ 0x20004033u32) & 0xFE00707Fu32 & 0xFE00707Fu32 != 0)))) &&
            ((((0x28001033u32 ^ 0x20006033u32) & 0xFE00707Fu32 & 0xFE00707Fu32 != 0) &&
            (((0x28001033u32 ^ 0x0A001033u32) & 0xFE00707Fu32 & 0xFE00707Fu32 != 0) &&
            ((0x28001033u32 ^ 0x0A003033u32) & 0xFE00707Fu32 & 0xFE00707Fu32 != 0))) &&
            ((((0x28001033u32 ^ 0x0A002033u32) & 0xFE00707Fu32 & 0xFE00707Fu32 != 0) &&
            ((0x28001033u32 ^ 0x0A004033u32) & 0xFE00707Fu32 & 0xFE00707Fu32 != 0)) &&
            (((0x28001033u32 ^ 0x0A005033u32) & 0xFE00707Fu32 & 0xFE00707Fu32 != 0) &&
            ((0x28001033u32 ^ 0x0A006033u32) & 0xFE00707Fu32 & 0xFE00707Fu32 != 0)))))) &&
            ((((((0x28001033u32 ^ 0x0A007033u32) & 0xFE00707Fu32 & 0xFE00707Fu32 != 0) &&
            (((0x28001033u32 ^ 0x28705013u32) & 0xFE00707Fu32 & 0xFFF0707Fu32 != 0) &&
            ((0x28001033u32 ^ 0x6B805013u32) & 0xFE00707Fu32 & 0xFFF0707Fu32 != 0))) &&
            ((((0x28001033u32 ^ 0x60001013u32) & 0xFE00707Fu32 & 0xFFF0707Fu32 != 0) &&
            ((0x28001033u32 ^ 0x60201013u32) & 0xFE00707Fu32 & 0xFFF0707Fu32 != 0)) &&
            (((0x28001033u32 ^ 0x60101013u32) & 0xFE00707Fu32 & 0xFFF0707Fu32 != 0) &&
            ((0x28001033u32 ^ 0x60401013u32) & 0xFE00707Fu32 & 0xFFF0707Fu32 != 0)))) &&
            ((((0x28001033u32 ^ 0x60501013u32) & 0xFE00707Fu32 & 0xFFF0707Fu32 != 0) &&
            (((0x28001033u32 ^ 0x48001013u32) & 0xFE00707Fu32 & 0xFC00707Fu32 != 0) &&
            ((0x28001033u32 ^ 0x48005013u32) & 0xFE00707Fu32 & 0xFC00707Fu32 != 0))) &&
            ((((0x28001033u32 ^ 0x68001013u32) & 0xFE00707Fu32 & 0xFC00707Fu32 != 0) &&
            ((0x28001033u32 ^ 0x28001013u32) & 0xFE00707Fu32 & 0xFC00707Fu32 != 0)) &&
            (((0x28001033u32 ^ 0x60005013u32) & 0xFE00707Fu32 & 0xFC00707Fu32 != 0) &&
            ((0x28001033u32 ^ 0x6000101Bu32) & 0xFE00707Fu32 & 0xFFF0707Fu32 != 0))))) &&
            (((((0x28001033u32 ^ 0x6020101Bu32) & 0xFE00707Fu32 & 0xFFF0707Fu32 != 0) &&
            (((0x28001033u32 ^ 0x6010101Bu32) & 0xFE00707Fu32 & 0xFFF0707Fu32 != 0) &&
            ((0x28001033u32 ^ 0x6000501Bu32) & 0xFE00707Fu32 & 0xFE00707Fu32 != 0))) &&
            ((((0x28001033u32 ^ 0x0800101Bu32) & 0xFE00707Fu32 & 0xFC00707Fu32 != 0) &&
            ((0x48001033u32 ^ 0x48005033u32) & 0xFE00707Fu32 & 0xFE00707Fu32 != 0)) &&
            (((0x48001033u32 ^ 0x20002033u32) & 0xFE00707Fu32 & 0xFE00707Fu32 != 0) &&
            ((0x48001033u32 ^ 0x20004033u32) & 0xFE00707Fu32 & 0xFE00707Fu32 != 0)))) &&
            ((((0x48001033u32 ^ 0x20006033u32) & 0xFE00707Fu32 & 0xFE00707Fu32 != 0) &&
            (((0x48001033u32 ^ 0x0A001033u32) & 0xFE00707Fu32 & 0xFE00707Fu32 != 0) &&
            ((0x48001033u32 ^ 0x0A003033u32) & 0xFE00707Fu32 & 0xFE00707Fu32 != 0))) &&
            ((((0x48001033u32 ^ 0x0A002033u32) & 0xFE00707Fu32 & 0xFE00707Fu32 != 0) &&
            ((0x48001033u32 ^ 0x0A004033u32) & 0xFE00707Fu32 & 0xFE00707Fu32 != 0)) &&
            (((0x48001033u32 ^ 0x0A005033u32) & 0xFE00707Fu32 & 0xFE00707Fu32 != 0) &&
            ((0x48001033u32 ^ 0x0A006033u32) & 0xFE00707Fu32 & 0xFE00707Fu32 != 0))))))) &&
            (((((((0x48001033u32 ^ 0x0A007033u32) & 0xFE00707Fu32 & 0xFE00707Fu32 != 0) &&
            (((0x48001033u32 ^ 0x28705013u32) & 0xFE00707Fu32 & 0xFFF0707Fu32 != 0) &&
            ((0x48001033u32 ^ 0x6B805013u32) & 0xFE00707Fu32 & 0xFFF0707Fu32 != 0))) &&
            ((((0x48001033u32 ^ 0x60001013u32) & 0xFE00707Fu32 & 0xFFF0707Fu32 != 0) &&
            ((0x48001033u32 ^ 0x60201013u32) & 0xFE00707Fu32 & 0xFFF0707Fu32 != 0)) &&
            (((0x48001033u32 ^ 0x60101013u32) & 0xFE00707Fu32 & 0xFFF0707Fu32 != 0) &&
            ((0x48001033u32 ^ 0x60401013u32) & 0xFE00707Fu32 & 0xFFF0707Fu32 != 0)))) &&
            ((((0x48001033u32 ^ 0x60501013u32) & 0xFE00707Fu32 & 0xFFF0707Fu32 != 0) &&
            (((0x48001033u32 ^ 0x48001013u32) & 0xFE00707Fu32 & 0xFC00707Fu32 != 0) &&
            ((0x48001033u32 ^ 0x48005013u32) & 0xFE00707Fu32 & 0xFC00707Fu32 != 0))) &&
            ((((0x48001033u32 ^ 0x68001013u32) & 0xFE00707Fu32 & 0xFC00707Fu32 != 0) &&
            ((0x48001033u32 ^ 0x28001013u32) & 0xFE00707Fu32 & 0xFC00707Fu32 != 0)) &&
            (((0x48001033u32 ^ 0x60005013u32) & 0xFE00707Fu32 & 0xFC00707Fu32 != 0) &&
            ((0x48001033u32 ^ 0x6000101Bu32) & 0xFE00707Fu32 & 0xFFF0707Fu32 != 0))))) &&
            (((((0x48001033u32 ^ 0x6020101Bu32) & 0xFE00707Fu32 & 0xFFF0707Fu32 != 0) &&
            (((0x48001033u32 ^ 0x6010101Bu32) & 0xFE00707Fu32 & 0xFFF0707Fu32 != 0) &&
            ((0x48001033u32 ^ 0x6000501Bu32) & 0xFE00707Fu32 & 0xFE00707Fu32 != 0))) &&
            ((((0x48001033u32 ^ 0x0800101Bu32) & 0xFE00707Fu32 & 0xFC00707Fu32 != 0) &&
            ((0x48005033u32 ^ 0x20002033u32) & 0xFE00707Fu32 & 0xFE00707Fu32 != 0)) &&
            (((0x48005033u32 ^ 0x20004033u32) & 0xFE00707Fu32 & 0xFE00707Fu32 != 0) &&
            ((0x48005033u32 ^ 0x20006033u32) & 0xFE00707Fu32 & 0xFE00707Fu32 != 0)))) &&
            ((((0x48005033u32 ^ 0x0A001033u32) & 0xFE00707Fu32 & 0xFE00707Fu32 != 0) &&
            (((0x48005033u32 ^ 0x0A003033u32) & 0xFE00707Fu32 & 0xFE00707Fu32 != 0) &&
            ((0x48005033u32 ^ 0x0A002033u32) & 0xFE00707Fu32 & 0xFE00707Fu32 != 0))) &&
            ((((0x48005033u32 ^ 0x0A004033u32) & 0xFE00707Fu32 & 0xFE00707Fu32 != 0) &&
            ((0x48005033u32 ^ 0x0A005033u32) & 0xFE00707Fu32 & 0xFE00707Fu32 != 0)) &&
            (((0x48005033u32 ^ 0x0A006033u32) & 0xFE00707Fu32 & 0xFE00707Fu32 != 0) &&
            ((0x48005033u32 ^ 0x0A007033u32) & 0xFE00707Fu32 & 0xFE00707Fu32 != 0)))))) &&
            ((((((0x48005033u32 ^ 0x28705013u32) & 0xFE00707Fu32 & 0xFFF0707Fu32 != 0) &&
            (((0x48005033u32 ^ 0x6B805013u32) & 0xFE00707Fu32 & 0xFFF0707Fu32 != 0) &&
            ((0x48005033u32 ^ 0x60001013u32) & 0xFE00707Fu32 & 0xFFF0707Fu32 != 0))) &&
            ((((0x48005033u32 ^ 0x60201013u32) & 0xFE00707Fu32 & 0xFFF0707Fu32 != 0) &&
            ((0x48005033u32 ^ 0x60101013u32) & 0xFE00707Fu32 & 0xFFF0707Fu32 != 0)) &&
            (((0x48005033u32 ^ 0x60401013u32) & 0xFE00707Fu32 & 0xFFF0707Fu32 != 0) &&
            ((0x48005033u32 ^ 0x60501013u32) & 0xFE00707Fu32 & 0xFFF0707Fu32 != 0)))) &&
            ((((0x48005033u32 ^ 0x48001013u32) & 0xFE00707Fu32 & 0xFC00707Fu32 != 0) &&
            (((0x48005033u32 ^ 0x48005013u32) & 0xFE00707Fu32 & 0xFC00707Fu32 != 0) &&
            ((0x48005033u32 ^ 0x68001013u32) & 0xFE00707Fu32 & 0xFC00707Fu32 != 0))) &&
            ((((0x48005033u32 ^ 0x28001013u32) & 0xFE00707Fu32 & 0xFC00707Fu32 != 0) &&
            ((0x48005033u32 ^ 0x60005013u32) & 0xFE00707Fu32 & 0xFC00707Fu32 != 0)) &&
            (((0x48005033u32 ^ 0x6000101Bu32) & 0xFE00707Fu32 & 0xFFF0707Fu32 != 0) &&
            ((0x48005033u32 ^ 0x6020101Bu32) & 0xFE00707Fu32 & 0xFFF0707Fu32 != 0))))) &&
            (((((0x48005033u32 ^ 0x6010101Bu32) & 0xFE00707Fu32 & 0xFFF0707Fu32 != 0) &&
            (((0x48005033u32 ^ 0x6000501Bu32) & 0xFE00707Fu32 & 0xFE00707Fu32 != 0) &&
            ((0x48005033u32 ^ 0x0800101Bu32) & 0xFE00707Fu32 & 0xFC00707Fu32 != 0))) &&
            ((((0x20002033u32 ^ 0x20004033u32) & 0xFE00707Fu32 & 0xFE00707Fu32 != 0) &&
            ((0x20002033u32 ^ 0x20006033u32) & 0xFE00707Fu32 & 0xFE00707Fu32 != 0)) &&
            (((0x20002033u32 ^ 0x0A001033u32) & 0xFE00707Fu32 & 0xFE00707Fu32 != 0) &&
            ((0x20002033u32 ^ 0x0A003033u32) & 0xFE00707Fu32 & 0xFE00707Fu32 != 0)))) &&
            (((((0x20002033u32 ^ 0x0A002033u32) & 0xFE00707Fu32 & 0xFE00707Fu32 != 0) &&
            ((0x20002033u32 ^ 0x0A004033u32) & 0xFE00707Fu32 & 0xFE00707Fu32 != 0)) &&
            (((0x20002033u32 ^ 0x0A005033u32) & 0xFE00707Fu32 & 0xFE00707Fu32 != 0) &&
            ((0x20002033u32 ^ 0x0A006033u32) & 0xFE00707Fu32 & 0xFE00707Fu32 != 0))) &&
            ((((0x20002033u32 ^ 0x0A007033u32) & 0xFE00707Fu32 & 0xFE00707Fu32 != 0) &&
            ((0x20002033u32 ^ 0x28705013u32) & 0xFE00707Fu32 & 0xFFF0707Fu32 != 0)) &&
            (((0x20002033u32 ^ 0x6B805013u32) & 0xFE00707Fu32 & 0xFFF0707Fu32 != 0) &&
            ((0x20002033u32 ^ 0x60001013u32) & 0xFE00707Fu32 & 0xFFF0707Fu32 != 0)))))))) &&
            ((((((((0x20002033u32 ^ 0x60201013u32) & 0xFE00707Fu32 & 0xFFF0707Fu32 != 0) &&
            (((0x20002033u32 ^ 0x60101013u32) & 0xFE00707Fu32 & 0xFFF0707Fu32 != 0) &&
            ((0x20002033u32 ^ 0x60401013u32) & 0xFE00707Fu32 & 0xFFF0707Fu32 != 0))) &&
            ((((0x20002033u32 ^ 0x60501013u32) & 0xFE00707Fu32 & 0xFFF0707Fu32 != 0) &&
            ((0x20002033u32 ^ 0x48001013u32) & 0xFE00707Fu32 & 0xFC00707Fu32 != 0)) &&
            (((0x20002033u32 ^ 0x48005013u32) & 0xFE00707Fu32 & 0xFC00707Fu32 != 0) &&
            ((0x20002033u32 ^ 0x68001013u32) & 0xFE00707Fu32 & 0xFC00707Fu32 != 0)))) &&
            ((((0x20002033u32 ^ 0x28001013u32) & 0xFE00707Fu32 & 0xFC00707Fu32 != 0) &&
            (((0x20002033u32 ^ 0x60005013u32) & 0xFE00707Fu32 & 0xFC00707Fu32 != 0) &&
            ((0x20002033u32 ^ 0x6000101Bu32) & 0xFE00707Fu32 & 0xFFF0707Fu32 != 0))) &&
            ((((0x20002033u32 ^ 0x6020101Bu32) & 0xFE00707Fu32 & 0xFFF0707Fu32 != 0) &&
            ((0x20002033u32 ^ 0x6010101Bu32) & 0xFE00707Fu32 & 0xFFF0707Fu32 != 0)) &&
            (((0x20002033u32 ^ 0x6000501Bu32) & 0xFE00707Fu32 & 0xFE00707Fu32 != 0) &&
            ((0x20002033u32 ^ 0x0800101Bu32) & 0xFE00707Fu32 & 0xFC00707Fu32 != 0))))) &&
            (((((0x20004033u32 ^ 0x20006033u32) & 0xFE00707Fu32 & 0xFE00707Fu32 != 0) &&
            (((0x20004033u32 ^ 0x0A001033u32) & 0xFE00707Fu32 & 0xFE00707Fu32 != 0) &&
            ((0x20004033u32 ^ 0x0A003033u32) & 0xFE00707Fu32 & 0xFE00707Fu32 != 0))) &&
            ((((0x20004033u32 ^ 0x0A002033u32) & 0xFE00707Fu32 & 0xFE00707Fu32 != 0) &&
            ((0x20004033u32 ^ 0x0A004033u32) & 0xFE00707Fu32 & 0xFE00707Fu32 != 0)) &&
            (((0x20004033u32 ^ 0x0A005033u32) & 0xFE00707Fu32 & 0xFE00707Fu32 != 0) &&
            ((0x20004033u32 ^ 0x0A006033u32) & 0xFE00707Fu32 & 0xFE00707Fu32 != 0)))) &&
            ((((0x20004033u32 ^ 0x0A007033u32) & 0xFE00707Fu32 & 0xFE00707Fu32 != 0) &&
            (((0x20004033u32 ^ 0x28705013u32) & 0xFE00707Fu32 & 0xFFF0707Fu32 != 0) &&
            ((0x20004033u32 ^ 0x6B805013u32) & 0xFE00707Fu32 & 0xFFF0707Fu32 != 0))) &&
            ((((0x20004033u32 ^ 0x60001013u32) & 0xFE00707Fu32 & 0xFFF0707Fu32 != 0) &&
            ((0x20004033u32 ^ 0x60201013u32) & 0xFE00707Fu32 & 0xFFF0707Fu32 != 0)) &&
            (((0x20004033u32 ^ 0x60101013u32) & 0xFE00707Fu32 & 0xFFF0707Fu32 != 0) &&
            ((0x20004033u32 ^ 0x60401013u32) & 0xFE00707Fu32 & 0xFFF0707Fu32 != 0)))))) &&
            ((((((0x20004033u32 ^ 0x60501013u32) & 0xFE00707Fu32 & 0xFFF0707Fu32 != 0) &&
            (((0x20004033u32 ^ 0x48001013u32) & 0xFE00707Fu32 & 0xFC00707Fu32 != 0) &&
            ((0x20004033u32 ^ 0x48005013u32) & 0xFE00707Fu32 & 0xFC00707Fu32 != 0))) &&
            ((((0x20004033u32 ^ 0x68001013u32) & 0xFE00707Fu32 & 0xFC00707Fu32 != 0) &&
            ((0x20004033u32 ^ 0x28001013u32) & 0xFE00707Fu32 & 0xFC00707Fu32 != 0)) &&
            (((0x20004033u32 ^ 0x60005013u32) & 0xFE00707Fu32 & 0xFC00707Fu32 != 0) &&
            ((0x20004033u32 ^ 0x6000101Bu32) & 0xFE00707Fu32 & 0xFFF0707Fu32 != 0)))) &&
            ((((0x20004033u32 ^ 0x6020101Bu32) & 0xFE00707Fu32 & 0xFFF0707Fu32 != 0) &&
            (((0x20004033u32 ^ 0x6010101Bu32) & 0xFE00707Fu32 & 0xFFF0707Fu32 != 0) &&
            ((0x20004033u32 ^ 0x6000501Bu32) & 0xFE00707Fu32 & 0xFE00707Fu32 != 0))) &&
            ((((0x20004033u32 ^ 0x0800101Bu32) & 0xFE00707Fu32 & 0xFC00707Fu32 != 0) &&
            ((0x20006033u32 ^ 0x0A001033u32) & 0xFE00707Fu32 & 0xFE00707Fu32 != 0)) &&
            (((0x20006033u32 ^ 0x0A003033u32) & 0xFE00707Fu32 & 0xFE00707Fu32 != 0) &&
            ((0x20006033u32 ^ 0x0A002033u32) & 0xFE00707Fu32 & 0xFE00707Fu32 != 0))))) &&
            (((((0x20006033u32 ^ 0x0A004033u32) & 0xFE00707Fu32 & 0xFE00707Fu32 != 0) &&
            (((0x20006033u32 ^ 0x0A005033u32) & 0xFE00707Fu32 & 0xFE00707Fu32 != 0) &&
            ((0x20006033u32 ^ 0x0A006033u32) & 0xFE00707Fu32 & 0xFE00707Fu32 != 0))) &&
            ((((0x20006033u32 ^ 0x0A007033u32) & 0xFE00707Fu32 & 0xFE00707Fu32 != 0) &&
            ((0x20006033u32 ^ 0x28705013u32) & 0xFE00707Fu32 & 0xFFF0707Fu32 != 0)) &&
            (((0x20006033u32 ^ 0x6B805013u32) & 0xFE00707Fu32 & 0xFFF0707Fu32 != 0) &&
            ((0x20006033u32 ^ 0x60001013u32) & 0xFE00707Fu32 & 0xFFF0707Fu32 != 0)))) &&
            ((((0x20006033u32 ^ 0x60201013u32) & 0xFE00707Fu32 & 0xFFF0707Fu32 != 0) &&
            (((0x20006033u32 ^ 0x60101013u32) & 0xFE00707Fu32 & 0xFFF0707Fu32 != 0) &&
            ((0x20006033u32 ^ 0x60401013u32) & 0xFE00707Fu32 & 0xFFF0707Fu32 != 0))) &&
            ((((0x20006033u32 ^ 0x60501013u32) & 0xFE00707Fu32 & 0xFFF0707Fu32 != 0) &&
            ((0x20006033u32 ^ 0x48001013u32) & 0xFE00707Fu32 & 0xFC00707Fu32 != 0)) &&
            (((0x20006033u32 ^ 0x48005013u32) & 0xFE00707Fu32 & 0xFC00707Fu32 != 0) &&
            ((0x20006033u32 ^ 0x68001013u32) & 0xFE00707Fu32 & 0xFC00707Fu32 != 0))))))) &&
            (((((((0x20006033u32 ^ 0x28001013u32) & 0xFE00707Fu32 & 0xFC00707Fu32 != 0) &&
            (((0x20006033u32 ^ 0x60005013u32) & 0xFE00707Fu32 & 0xFC00707Fu32 != 0) &&
            ((0x20006033u32 ^ 0x6000101Bu32) & 0xFE00707Fu32 & 0xFFF0707Fu32 != 0))) &&
            ((((0x20006033u32 ^ 0x6020101Bu32) & 0xFE00707Fu32 & 0xFFF0707Fu32 != 0) &&
            ((0x20006033u32 ^ 0x6010101Bu32) & 0xFE00707Fu32 & 0xFFF0707Fu32 != 0)) &&
            (((0x20006033u32 ^ 0x6000501Bu32) & 0xFE00707Fu32 & 0xFE00707Fu32 != 0) &&
            ((0x20006033u32 ^ 0x0800101Bu32) & 0xFE00707Fu32 & 0xFC00707Fu32 != 0)))) &&
            ((((0x0A001033u32 ^ 0x0A003033u32) & 0xFE00707Fu32 & 0xFE00707Fu32 != 0) &&
            (((0x0A001033u32 ^ 0x0A002033u32) & 0xFE00707Fu32 & 0xFE00707Fu32 != 0) &&
            ((0x0A001033u32 ^ 0x0A004033u32) & 0xFE00707Fu32 & 0xFE00707Fu32 != 0))) &&
            ((((0x0A001033u32 ^ 0x0A005033u32) & 0xFE00707Fu32 & 0xFE00707Fu32 != 0) &&
            ((0x0A001033u32 ^ 0x0A006033u32) & 0xFE00707Fu32 & 0xFE00707Fu32 != 0)) &&
            (((0x0A001033u32 ^ 0x0A007033u32) & 0xFE00707Fu32 & 0xFE00707Fu32 != 0) &&
            ((0x0A001033u32 ^ 0x28705013u32) & 0xFE00707Fu32 & 0xFFF0707Fu32 != 0))))) &&
            (((((0x0A001033u32 ^ 0x6B805013u32) & 0xFE00707Fu32 & 0xFFF0707Fu32 != 0) &&
            (((0x0A001033u32 ^ 0x60001013u32) & 0xFE00707Fu32 & 0xFFF0707Fu32 != 0) &&
            ((0x0A001033u32 ^ 0x60201013u32) & 0xFE00707Fu32 & 0xFFF0707Fu32 != 0))) &&
            ((((0x0A001033u32 ^ 0x60101013u32) & 0xFE00707Fu32 & 0xFFF0707Fu32 != 0) &&
            ((0x0A001033u32 ^ 0x60401013u32) & 0xFE00707Fu32 & 0xFFF0707Fu32 != 0)) &&
            (((0x0A001033u32 ^ 0x60501013u32) & 0xFE00707Fu32 & 0xFFF0707Fu32 != 0) &&
            ((0x0A001033u32 ^ 0x48001013u32) & 0xFE00707Fu32 & 0xFC00707Fu32 != 0)))) &&
            ((((0x0A001033u32 ^ 0x48005013u32) & 0xFE00707Fu32 & 0xFC00707Fu32 != 0) &&
            (((0x0A001033u32 ^ 0x68001013u32) & 0xFE00707Fu32 & 0xFC00707Fu32 != 0) &&
            ((0x0A001033u32 ^ 0x28001013u32) & 0xFE00707Fu32 & 0xFC00707Fu32 != 0))) &&
            ((((0x0A001033u32 ^ 0x60005013u32) & 0xFE00707Fu32 & 0xFC00707Fu32 != 0) &&
            ((0x0A001033u32 ^ 0x6000101Bu32) & 0xFE00707Fu32 & 0xFFF0707Fu32 != 0)) &&
            (((0x0A001033u32 ^ 0x6020101Bu32) & 0xFE00707Fu32 & 0xFFF0707Fu32 != 0) &&
            ((0x0A001033u32 ^ 0x6010101Bu32) & 0xFE00707Fu32 & 0xFFF0707Fu32 != 0)))))) &&
            ((((((0x0A001033u32 ^ 0x6000501Bu32) & 0xFE00707Fu32 & 0xFE00707Fu32 != 0) &&
            (((0x0A001033u32 ^ 0x0800101Bu32) & 0xFE00707Fu32 & 0xFC00707Fu32 != 0) &&
            ((0x0A003033u32 ^ 0x0A002033u32) & 0xFE00707Fu32 & 0xFE00707Fu32 != 0))) &&
            ((((0x0A003033u32 ^ 0x0A004033u32) & 0xFE00707Fu32 & 0xFE00707Fu32 != 0) &&
            ((0x0A003033u32 ^ 0x0A005033u32) & 0xFE00707Fu32 & 0xFE00707Fu32 != 0)) &&
            (((0x0A003033u32 ^ 0x0A006033u32) & 0xFE00707Fu32 & 0xFE00707Fu32 != 0) &&
            ((0x0A003033u32 ^ 0x0A007033u32) & 0xFE00707Fu32 & 0xFE00707Fu32 != 0)))) &&
            ((((0x0A003033u32 ^ 0x28705013u32) & 0xFE00707Fu32 & 0xFFF0707Fu32 != 0) &&
            (((0x0A003033u32 ^ 0x6B805013u32) & 0xFE00707Fu32 & 0xFFF0707Fu32 != 0) &&
            ((0x0A003033u32 ^ 0x60001013u32) & 0xFE00707Fu32 & 0xFFF0707Fu32 != 0))) &&
            ((((0x0A003033u32 ^ 0x60201013u32) & 0xFE00707Fu32 & 0xFFF0707Fu32 != 0) &&
            ((0x0A003033u32 ^ 0x60101013u32) & 0xFE00707Fu32 & 0xFFF0707Fu32 != 0)) &&
            (((0x0A003033u32 ^ 0x60401013u32) & 0xFE00707Fu32 & 0xFFF0707Fu32 != 0) &&
            ((0x0A003033u32 ^ 0x60501013u32) & 0xFE00707Fu32 & 0xFFF0707Fu32 != 0))))) &&
            (((((0x0A003033u32 ^ 0x48001013u32) & 0xFE00707Fu32 & 0xFC00707Fu32 != 0) &&
            (((0x0A003033u32 ^ 0x48005013u32) & 0xFE00707Fu32 & 0xFC00707Fu32 != 0) &&
            ((0x0A003033u32 ^ 0x68001013u32) & 0xFE00707Fu32 & 0xFC00707Fu32 != 0))) &&
            ((((0x0A003033u32 ^ 0x28001013u32) & 0xFE00707Fu32 & 0xFC00707Fu32 != 0) &&
            ((0x0A003033u32 ^ 0x60005013u32) & 0xFE00707Fu32 & 0xFC00707Fu32 != 0)) &&
            (((0x0A003033u32 ^ 0x6000101Bu32) & 0xFE00707Fu32 & 0xFFF0707Fu32 != 0) &&
            ((0x0A003033u32 ^ 0x6020101Bu32) & 0xFE00707Fu32 & 0xFFF0707Fu32 != 0)))) &&
            (((((0x0A003033u32 ^ 0x6010101Bu32) & 0xFE00707Fu32 & 0xFFF0707Fu32 != 0) &&
            ((0x0A003033u32 ^ 0x6000501Bu32) & 0xFE00707Fu32 & 0xFE00707Fu32 != 0)) &&
            (((0x0A003033u32 ^ 0x0800101Bu32) & 0xFE00707Fu32 & 0xFC00707Fu32 != 0) &&
            ((0x0A002033u32 ^ 0x0A004033u32) & 0xFE00707Fu32 & 0xFE00707Fu32 != 0))) &&
            ((((0x0A002033u32 ^ 0x0A005033u32) & 0xFE00707Fu32 & 0xFE00707Fu32 != 0) &&
            ((0x0A002033u32 ^ 0x0A006033u32) & 0xFE00707Fu32 & 0xFE00707Fu32 != 0)) &&
            (((0x0A002033u32 ^ 0x0A007033u32) & 0xFE00707Fu32 & 0xFE00707Fu32 != 0) &&
            ((0x0A002033u32 ^ 0x28705013u32) & 0xFE00707Fu32 & 0xFFF0707Fu32 != 0))))))))) &&
            (((((((((0x0A002033u32 ^ 0x6B805013u32) & 0xFE00707Fu32 & 0xFFF0707Fu32 != 0) &&
            (((0x0A002033u32 ^ 0x60001013u32) & 0xFE00707Fu32 & 0xFFF0707Fu32 != 0) &&
            ((0x0A002033u32 ^ 0x60201013u32) & 0xFE00707Fu32 & 0xFFF0707Fu32 != 0))) &&
            ((((0x0A002033u32 ^ 0x60101013u32) & 0xFE00707Fu32 & 0xFFF0707Fu32 != 0) &&
            ((0x0A002033u32 ^ 0x60401013u32) & 0xFE00707Fu32 & 0xFFF0707Fu32 != 0)) &&
            (((0x0A002033u32 ^ 0x60501013u32) & 0xFE00707Fu32 & 0xFFF0707Fu32 != 0) &&
            ((0x0A002033u32 ^ 0x48001013u32) & 0xFE00707Fu32 & 0xFC00707Fu32 != 0)))) &&
            ((((0x0A002033u32 ^ 0x48005013u32) & 0xFE00707Fu32 & 0xFC00707Fu32 != 0) &&
            (((0x0A002033u32 ^ 0x68001013u32) & 0xFE00707Fu32 & 0xFC00707Fu32 != 0) &&
            ((0x0A002033u32 ^ 0x28001013u32) & 0xFE00707Fu32 & 0xFC00707Fu32 != 0))) &&
            ((((0x0A002033u32 ^ 0x60005013u32) & 0xFE00707Fu32 & 0xFC00707Fu32 != 0) &&
            ((0x0A002033u32 ^ 0x6000101Bu32) & 0xFE00707Fu32 & 0xFFF0707Fu32 != 0)) &&
            (((0x0A002033u32 ^ 0x6020101Bu32) & 0xFE00707Fu32 & 0xFFF0707Fu32 != 0) &&
            ((0x0A002033u32 ^ 0x6010101Bu32) & 0xFE00707Fu32 & 0xFFF0707Fu32 != 0))))) &&
            (((((0x0A002033u32 ^ 0x6000501Bu32) & 0xFE00707Fu32 & 0xFE00707Fu32 != 0) &&
            (((0x0A002033u32 ^ 0x0800101Bu32) & 0xFE00707Fu32 & 0xFC00707Fu32 != 0) &&
            ((0x0A004033u32 ^ 0x0A005033u32) & 0xFE00707Fu32 & 0xFE00707Fu32 != 0))) &&
            ((((0x0A004033u32 ^ 0x0A006033u32) & 0xFE00707Fu32 & 0xFE00707Fu32 != 0) &&
            ((0x0A004033u32 ^ 0x0A007033u32) & 0xFE00707Fu32 & 0xFE00707Fu32 != 0)) &&
            (((0x0A004033u32 ^ 0x28705013u32) & 0xFE00707Fu32 & 0xFFF0707Fu32 != 0) &&
            ((0x0A004033u32 ^ 0x6B805013u32) & 0xFE00707Fu32 & 0xFFF0707Fu32 != 0)))) &&
            ((((0x0A004033u32 ^ 0x60001013u32) & 0xFE00707Fu32 & 0xFFF0707Fu32 != 0) &&
            (((0x0A004033u32 ^ 0x60201013u32) & 0xFE00707Fu32 & 0xFFF0707Fu32 != 0) &&
            ((0x0A004033u32 ^ 0x60101013u32) & 0xFE00707Fu32 & 0xFFF0707Fu32 != 0))) &&
            ((((0x0A004033u32 ^ 0x60401013u32) & 0xFE00707Fu32 & 0xFFF0707Fu32 != 0) &&
            ((0x0A004033u32 ^ 0x60501013u32) & 0xFE00707Fu32 & 0xFFF0707Fu32 != 0)) &&
            (((0x0A004033u32 ^ 0x48001013u32) & 0xFE00707Fu32 & 0xFC00707Fu32 != 0) &&
            ((0x0A004033u32 ^ 0x48005013u32) & 0xFE00707Fu32 & 0xFC00707Fu32 != 0)))))) &&
            ((((((0x0A004033u32 ^ 0x68001013u32) & 0xFE00707Fu32 & 0xFC00707Fu32 != 0) &&
            (((0x0A004033u32 ^ 0x28001013u32) & 0xFE00707Fu32 & 0xFC00707Fu32 != 0) &&
            ((0x0A004033u32 ^ 0x60005013u32) & 0xFE00707Fu32 & 0xFC00707Fu32 != 0))) &&
            ((((0x0A004033u32 ^ 0x6000101Bu32) & 0xFE00707Fu32 & 0xFFF0707Fu32 != 0) &&
            ((0x0A004033u32 ^ 0x6020101Bu32) & 0xFE00707Fu32 & 0xFFF0707Fu32 != 0)) &&
            (((0x0A004033u32 ^ 0x6010101Bu32) & 0xFE00707Fu32 & 0xFFF0707Fu32 != 0) &&
            ((0x0A004033u32 ^ 0x6000501Bu32) & 0xFE00707Fu32 & 0xFE00707Fu32 != 0)))) &&
            ((((0x0A004033u32 ^ 0x0800101Bu32) & 0xFE00707Fu32 & 0xFC00707Fu32 != 0) &&
            (((0x0A005033u32 ^ 0x0A006033u32) & 0xFE00707Fu32 & 0xFE00707Fu32 != 0) &&
            ((0x0A005033u32 ^ 0x0A007033u32) & 0xFE00707Fu32 & 0xFE00707Fu32 != 0))) &&
            ((((0x0A005033u32 ^ 0x28705013u32) & 0xFE00707Fu32 & 0xFFF0707Fu32 != 0) &&
            ((0x0A005033u32 ^ 0x6B805013u32) & 0xFE00707Fu32 & 0xFFF0707Fu32 != 0)) &&
            (((0x0A005033u32 ^ 0x60001013u32) & 0xFE00707Fu32 & 0xFFF0707Fu32 != 0) &&
            ((0x0A005033u32 ^ 0x60201013u32) & 0xFE00707Fu32 & 0xFFF0707Fu32 != 0))))) &&
            (((((0x0A005033u32 ^ 0x60101013u32) & 0xFE00707Fu32 & 0xFFF0707Fu32 != 0) &&
            (((0x0A005033u32 ^ 0x60401013u32) & 0xFE00707Fu32 & 0xFFF0707Fu32 != 0) &&
            ((0x0A005033u32 ^ 0x60501013u32) & 0xFE00707Fu32 & 0xFFF0707Fu32 != 0))) &&
            ((((0x0A005033u32 ^ 0x48001013u32) & 0xFE00707Fu32 & 0xFC00707Fu32 != 0) &&
            ((0x0A005033u32 ^ 0x48005013u32) & 0xFE00707Fu32 & 0xFC00707Fu32 != 0)) &&
            (((0x0A005033u32 ^ 0x68001013u32) & 0xFE00707Fu32 & 0xFC00707Fu32 != 0) &&
            ((0x0A005033u32 ^ 0x28001013u32) & 0xFE00707Fu32 & 0xFC00707Fu32 != 0)))) &&
            ((((0x0A005033u32 ^ 0x60005013u32) & 0xFE00707Fu32 & 0xFC00707Fu32 != 0) &&
            (((0x0A005033u32 ^ 0x6000101Bu32) & 0xFE00707Fu32 & 0xFFF0707Fu32 != 0) &&
            ((0x0A005033u32 ^ 0x6020101Bu32) & 0xFE00707Fu32 & 0xFFF0707Fu32 != 0))) &&
            ((((0x0A005033u32 ^ 0x6010101Bu32) & 0xFE00707Fu32 & 0xFFF0707Fu32 != 0) &&
            ((0x0A005033u32 ^ 0x6000501Bu32) & 0xFE00707Fu32 & 0xFE00707Fu32 != 0)) &&
            (((0x0A005033u32 ^ 0x0800101Bu32) & 0xFE00707Fu32 & 0xFC00707Fu32 != 0) &&
            ((0x0A006033u32 ^ 0x0A007033u32) & 0xFE00707Fu32 & 0xFE00707Fu32 != 0))))))) &&
            (((((((0x0A006033u32 ^ 0x28705013u32) & 0xFE00707Fu32 & 0xFFF0707Fu32 != 0) &&
            (((0x0A006033u32 ^ 0x6B805013u32) & 0xFE00707Fu32 & 0xFFF0707Fu32 != 0) &&
            ((0x0A006033u32 ^ 0x60001013u32) & 0xFE00707Fu32 & 0xFFF0707Fu32 != 0))) &&
            ((((0x0A006033u32 ^ 0x60201013u32) & 0xFE00707Fu32 & 0xFFF0707Fu32 != 0) &&
            ((0x0A006033u32 ^ 0x60101013u32) & 0xFE00707Fu32 & 0xFFF0707Fu32 != 0)) &&
            (((0x0A006033u32 ^ 0x60401013u32) & 0xFE00707Fu32 & 0xFFF0707Fu32 != 0) &&
            ((0x0A006033u32 ^ 0x60501013u32) & 0xFE00707Fu32 & 0xFFF0707Fu32 != 0)))) &&
            ((((0x0A006033u32 ^ 0x48001013u32) & 0xFE00707Fu32 & 0xFC00707Fu32 != 0) &&
            (((0x0A006033u32 ^ 0x48005013u32) & 0xFE00707Fu32 & 0xFC00707Fu32 != 0) &&
            ((0x0A006033u32 ^ 0x68001013u32) & 0xFE00707Fu32 & 0xFC00707Fu32 != 0))) &&
            ((((0x0A006033u32 ^ 0x28001013u32) & 0xFE00707Fu32 & 0xFC00707Fu32 != 0) &&
            ((0x0A006033u32 ^ 0x60005013u32) & 0xFE00707Fu32 & 0xFC00707Fu32 != 0)) &&
            (((0x0A006033u32 ^ 0x6000101Bu32) & 0xFE00707Fu32 & 0xFFF0707Fu32 != 0) &&
            ((0x0A006033u32 ^ 0x6020101Bu32) & 0xFE00707Fu32 & 0xFFF0707Fu32 != 0))))) &&
            (((((0x0A006033u32 ^ 0x6010101Bu32) & 0xFE00707Fu32 & 0xFFF0707Fu32 != 0) &&
            (((0x0A006033u32 ^ 0x6000501Bu32) & 0xFE00707Fu32 & 0xFE00707Fu32 != 0) &&
            ((0x0A006033u32 ^ 0x0800101Bu32) & 0xFE00707Fu32 & 0xFC00707Fu32 != 0))) &&
            ((((0x0A007033u32 ^ 0x28705013u32) & 0xFE00707Fu32 & 0xFFF0707Fu32 != 0) &&
            ((0x0A007033u32 ^ 0x6B805013u32) & 0xFE00707Fu32 & 0xFFF0707Fu32 != 0)) &&
            (((0x0A007033u32 ^ 0x60001013u32) & 0xFE00707Fu32 & 0xFFF0707Fu32 != 0) &&
            ((0x0A007033u32 ^ 0x60201013u32) & 0xFE00707Fu32 & 0xFFF0707Fu32 != 0)))) &&
            ((((0x0A007033u32 ^ 0x60101013u32) & 0xFE00707Fu32 & 0xFFF0707Fu32 != 0) &&
            (((0x0A007033u32 ^ 0x60401013u32) & 0xFE00707Fu32 & 0xFFF0707Fu32 != 0) &&
            ((0x0A007033u32 ^ 0x60501013u32) & 0xFE00707Fu32 & 0xFFF0707Fu32 != 0))) &&
            ((((0x0A007033u32 ^ 0x48001013u32) & 0xFE00707Fu32 & 0xFC00707Fu32 != 0) &&
            ((0x0A007033u32 ^ 0x48005013u32) & 0xFE00707Fu32 & 0xFC00707Fu32 != 0)) &&
            (((0x0A007033u32 ^ 0x68001013u32) & 0xFE00707Fu32 & 0xFC00707Fu32 != 0) &&
            ((0x0A007033u32 ^ 0x28001013u32) & 0xFE00707Fu32 & 0xFC00707Fu32 != 0)))))) &&
            ((((((0x0A007033u32 ^ 0x60005013u32) & 0xFE00707Fu32 & 0xFC00707Fu32 != 0) &&
            (((0x0A007033u32 ^ 0x6000101Bu32) & 0xFE00707Fu32 & 0xFFF0707Fu32 != 0) &&
            ((0x0A007033u32 ^ 0x6020101Bu32) & 0xFE00707Fu32 & 0xFFF0707Fu32 != 0))) &&
            ((((0x0A007033u32 ^ 0x6010101Bu32) & 0xFE00707Fu32 & 0xFFF0707Fu32 != 0) &&
            ((0x0A007033u32 ^ 0x6000501Bu32) & 0xFE00707Fu32 & 0xFE00707Fu32 != 0)) &&
            (((0x0A007033u32 ^ 0x0800101Bu32) & 0xFE00707Fu32 & 0xFC00707Fu32 != 0) &&
            ((0x28705013u32 ^ 0x6B805013u32) & 0xFFF0707Fu32 & 0xFFF0707Fu32 != 0)))) &&
            ((((0x28705013u32 ^ 0x60001013u32) & 0xFFF0707Fu32 & 0xFFF0707Fu32 != 0) &&
            (((0x28705013u32 ^ 0x60201013u32) & 0xFFF0707Fu32 & 0xFFF0707Fu32 != 0) &&
            ((0x28705013u32 ^ 0x60101013u32) & 0xFFF0707Fu32 & 0xFFF0707Fu32 != 0))) &&
            ((((0x28705013u32 ^ 0x60401013u32) & 0xFFF0707Fu32 & 0xFFF0707Fu32 != 0) &&
            ((0x28705013u32 ^ 0x60501013u32) & 0xFFF0707Fu32 & 0xFFF0707Fu32 != 0)) &&
            (((0x28705013u32 ^ 0x48001013u32) & 0xFFF0707Fu32 & 0xFC00707Fu32 != 0) &&
            ((0x28705013u32 ^ 0x48005013u32) & 0xFFF0707Fu32 & 0xFC00707Fu32 != 0))))) &&
            (((((0x28705013u32 ^ 0x68001013u32) & 0xFFF0707Fu32 & 0xFC00707Fu32 != 0) &&
            (((0x28705013u32 ^ 0x28001013u32) & 0xFFF0707Fu32 & 0xFC00707Fu32 != 0) &&
            ((0x28705013u32 ^ 0x60005013u32) & 0xFFF0707Fu32 & 0xFC00707Fu32 != 0))) &&
            ((((0x28705013u32 ^ 0x6000101Bu32) & 0xFFF0707Fu32 & 0xFFF0707Fu32 != 0) &&
            ((0x28705013u32 ^ 0x6020101Bu32) & 0xFFF0707Fu32 & 0xFFF0707Fu32 != 0)) &&
            (((0x28705013u32 ^ 0x6010101Bu32) & 0xFFF0707Fu32 & 0xFFF0707Fu32 != 0) &&
            ((0x28705013u32 ^ 0x6000501Bu32) & 0xFFF0707Fu32 & 0xFE00707Fu32 != 0)))) &&
            (((((0x28705013u32 ^ 0x0800101Bu32) & 0xFFF0707Fu32 & 0xFC00707Fu32 != 0) &&
            ((0x6B805013u32 ^ 0x60001013u32) & 0xFFF0707Fu32 & 0xFFF0707Fu32 != 0)) &&
            (((0x6B805013u32 ^ 0x60201013u32) & 0xFFF0707Fu32 & 0xFFF0707Fu32 != 0) &&
            ((0x6B805013u32 ^ 0x60101013u32) & 0xFFF0707Fu32 & 0xFFF0707Fu32 != 0))) &&
            ((((0x6B805013u32 ^ 0x60401013u32) & 0xFFF0707Fu32 & 0xFFF0707Fu32 != 0) &&
            ((0x6B805013u32 ^ 0x60501013u32) & 0xFFF0707Fu32 & 0xFFF0707Fu32 != 0)) &&
            (((0x6B805013u32 ^ 0x48001013u32) & 0xFFF0707Fu32 & 0xFC00707Fu32 != 0) &&
            ((0x6B805013u32 ^ 0x48005013u32) & 0xFFF0707Fu32 & 0xFC00707Fu32 != 0)))))))) &&
            ((((((((0x6B805013u32 ^ 0x68001013u32) & 0xFFF0707Fu32 & 0xFC00707Fu32 != 0) &&
            (((0x6B805013u32 ^ 0x28001013u32) & 0xFFF0707Fu32 & 0xFC00707Fu32 != 0) &&
            ((0x6B805013u32 ^ 0x60005013u32) & 0xFFF0707Fu32 & 0xFC00707Fu32 != 0))) &&
            ((((0x6B805013u32 ^ 0x6000101Bu32) & 0xFFF0707Fu32 & 0xFFF0707Fu32 != 0) &&
            ((0x6B805013u32 ^ 0x6020101Bu32) & 0xFFF0707Fu32 & 0xFFF0707Fu32 != 0)) &&
            (((0x6B805013u32 ^ 0x6010101Bu32) & 0xFFF0707Fu32 & 0xFFF0707Fu32 != 0) &&
            ((0x6B805013u32 ^ 0x6000501Bu32) & 0xFFF0707Fu32 & 0xFE00707Fu32 != 0)))) &&
            ((((0x6B805013u32 ^ 0x0800101Bu32) & 0xFFF0707Fu32 & 0xFC00707Fu32 != 0) &&
            (((0x60001013u32 ^ 0x60201013u32) & 0xFFF0707Fu32 & 0xFFF0707Fu32 != 0) &&
            ((0x60001013u32 ^ 0x60101013u32) & 0xFFF0707Fu32 & 0xFFF0707Fu32 != 0))) &&
            ((((0x60001013u32 ^ 0x60401013u32) & 0xFFF0707Fu32 & 0xFFF0707Fu32 != 0) &&
            ((0x60001013u32 ^ 0x60501013u32) & 0xFFF0707Fu32 & 0xFFF0707Fu32 != 0)) &&
            (((0x60001013u32 ^ 0x48001013u32) & 0xFFF0707Fu32 & 0xFC00707Fu32 != 0) &&
            ((0x60001013u32 ^ 0x48005013u32) & 0xFFF0707Fu32 & 0xFC00707Fu32 != 0))))) &&
            (((((0x60001013u32 ^ 0x68001013u32) & 0xFFF0707Fu32 & 0xFC00707Fu32 != 0) &&
            (((0x60001013u32 ^ 0x28001013u32) & 0xFFF0707Fu32 & 0xFC00707Fu32 != 0) &&
            ((0x60001013u32 ^ 0x60005013u32) & 0xFFF0707Fu32 & 0xFC00707Fu32 != 0))) &&
            ((((0x60001013u32 ^ 0x6000101Bu32) & 0xFFF0707Fu32 & 0xFFF0707Fu32 != 0) &&
            ((0x60001013u32 ^ 0x6020101Bu32) & 0xFFF0707Fu32 & 0xFFF0707Fu32 != 0)) &&
            (((0x60001013u32 ^ 0x6010101Bu32) & 0xFFF0707Fu32 & 0xFFF0707Fu32 != 0) &&
            ((0x60001013u32 ^ 0x6000501Bu32) & 0xFFF0707Fu32 & 0xFE00707Fu32 != 0)))) &&
            ((((0x60001013u32 ^ 0x0800101Bu32) & 0xFFF0707Fu32 & 0xFC00707Fu32 != 0) &&
            (((0x60201013u32 ^ 0x60101013u32) & 0xFFF0707Fu32 & 0xFFF0707Fu32 != 0) &&
            ((0x60201013u32 ^ 0x60401013u32) & 0xFFF0707Fu32 & 0xFFF0707Fu32 != 0))) &&
            ((((0x60201013u32 ^ 0x60501013u32) & 0xFFF0707Fu32 & 0xFFF0707Fu32 != 0) &&
            ((0x60201013u32 ^ 0x48001013u32) & 0xFFF0707Fu32 & 0xFC00707Fu32 != 0)) &&
            (((0x60201013u32 ^ 0x48005013u32) & 0xFFF0707Fu32 & 0xFC00707Fu32 != 0) &&
            ((0x60201013u32 ^ 0x68001013u32) & 0xFFF0707Fu32 & 0xFC00707Fu32 != 0)))))) &&
            ((((((0x60201013u32 ^ 0x28001013u32) & 0xFFF0707Fu32 & 0xFC00707Fu32 != 0) &&
            (((0x60201013u32 ^ 0x60005013u32) & 0xFFF0707Fu32 & 0xFC00707Fu32 != 0) &&
            ((0x60201013u32 ^ 0x6000101Bu32) & 0xFFF0707Fu32 & 0xFFF0707Fu32 != 0))) &&
            ((((0x60201013u32 ^ 0x6020101Bu32) & 0xFFF0707Fu32 & 0xFFF0707Fu32 != 0) &&
            ((0x60201013u32 ^ 0x6010101Bu32) & 0xFFF0707Fu32 & 0xFFF0707Fu32 != 0)) &&
            (((0x60201013u32 ^ 0x6000501Bu32) & 0xFFF0707Fu32 & 0xFE00707Fu32 != 0) &&
            ((0x60201013u32 ^ 0x0800101Bu32) & 0xFFF0707Fu32 & 0xFC00707Fu32 != 0)))) &&
            ((((0x60101013u32 ^ 0x60401013u32) & 0xFFF0707Fu32 & 0xFFF0707Fu32 != 0) &&
            (((0x60101013u32 ^ 0x60501013u32) & 0xFFF0707Fu32 & 0xFFF0707Fu32 != 0) &&
            ((0x60101013u32 ^ 0x48001013u32) & 0xFFF0707Fu32 & 0xFC00707Fu32 != 0))) &&
            ((((0x60101013u32 ^ 0x48005013u32) & 0xFFF0707Fu32 & 0xFC00707Fu32 != 0) &&
            ((0x60101013u32 ^ 0x68001013u32) & 0xFFF0707Fu32 & 0xFC00707Fu32 != 0)) &&
            (((0x60101013u32 ^ 0x28001013u32) & 0xFFF0707Fu32 & 0xFC00707Fu32 != 0) &&
            ((0x60101013u32 ^ 0x60005013u32) & 0xFFF0707Fu32 & 0xFC00707Fu32 != 0))))) &&
            (((((0x60101013u32 ^ 0x6000101Bu32) & 0xFFF0707Fu32 & 0xFFF0707Fu32 != 0) &&
            (((0x60101013u32 ^ 0x6020101Bu32) & 0xFFF0707Fu32 & 0xFFF0707Fu32 != 0) &&
            ((0x60101013u32 ^ 0x6010101Bu32) & 0xFFF0707Fu32 & 0xFFF0707Fu32 != 0))) &&
            ((((0x60101013u32 ^ 0x6000501Bu32) & 0xFFF0707Fu32 & 0xFE00707Fu32 != 0) &&
            ((0x60101013u32 ^ 0x0800101Bu32) & 0xFFF0707Fu32 & 0xFC00707Fu32 != 0)) &&
            (((0x60401013u32 ^ 0x60501013u32) & 0xFFF0707Fu32 & 0xFFF0707Fu32 != 0) &&
            ((0x60401013u32 ^ 0x48001013u32) & 0xFFF0707Fu32 & 0xFC00707Fu32 != 0)))) &&
            ((((0x60401013u32 ^ 0x48005013u32) & 0xFFF0707Fu32 & 0xFC00707Fu32 != 0) &&
            (((0x60401013u32 ^ 0x68001013u32) & 0xFFF0707Fu32 & 0xFC00707Fu32 != 0) &&
            ((0x60401013u32 ^ 0x28001013u32) & 0xFFF0707Fu32 & 0xFC00707Fu32 != 0))) &&
            ((((0x60401013u32 ^ 0x60005013u32) & 0xFFF0707Fu32 & 0xFC00707Fu32 != 0) &&
            ((0x60401013u32 ^ 0x6000101Bu32) & 0xFFF0707Fu32 & 0xFFF0707Fu32 != 0)) &&
            (((0x60401013u32 ^ 0x6020101Bu32) & 0xFFF0707Fu32 & 0xFFF0707Fu32 != 0) &&
            ((0x60401013u32 ^ 0x6010101Bu32) & 0xFFF0707Fu32 & 0xFFF0707Fu32 != 0))))))) &&
            (((((((0x60401013u32 ^ 0x6000501Bu32) & 0xFFF0707Fu32 & 0xFE00707Fu32 != 0) &&
            (((0x60401013u32 ^ 0x0800101Bu32) & 0xFFF0707Fu32 & 0xFC00707Fu32 != 0) &&
            ((0x60501013u32 ^ 0x48001013u32) & 0xFFF0707Fu32 & 0xFC00707Fu32 != 0))) &&
            ((((0x60501013u32 ^ 0x48005013u32) & 0xFFF0707Fu32 & 0xFC00707Fu32 != 0) &&
            ((0x60501013u32 ^ 0x68001013u32) & 0xFFF0707Fu32 & 0xFC00707Fu32 != 0)) &&
            (((0x60501013u32 ^ 0x28001013u32) & 0xFFF0707Fu32 & 0xFC00707Fu32 != 0) &&
            ((0x60501013u32 ^ 0x60005013u32) & 0xFFF0707Fu32 & 0xFC00707Fu32 != 0)))) &&
            ((((0x60501013u32 ^ 0x6000101Bu32) & 0xFFF0707Fu32 & 0xFFF0707Fu32 != 0) &&
            (((0x60501013u32 ^ 0x6020101Bu32) & 0xFFF0707Fu32 & 0xFFF0707Fu32 != 0) &&
            ((0x60501013u32 ^ 0x6010101Bu32) & 0xFFF0707Fu32 & 0xFFF0707Fu32 != 0))) &&
            ((((0x60501013u32 ^ 0x6000501Bu32) & 0xFFF0707Fu32 & 0xFE00707Fu32 != 0) &&
            ((0x60501013u32 ^ 0x0800101Bu32) & 0xFFF0707Fu32 & 0xFC00707Fu32 != 0)) &&
            (((0x48001013u32 ^ 0x48005013u32) & 0xFC00707Fu32 & 0xFC00707Fu32 != 0) &&
            ((0x48001013u32 ^ 0x68001013u32) & 0xFC00707Fu32 & 0xFC00707Fu32 != 0))))) &&
            (((((0x48001013u32 ^ 0x28001013u32) & 0xFC00707Fu32 & 0xFC00707Fu32 != 0) &&
            (((0x48001013u32 ^ 0x60005013u32) & 0xFC00707Fu32 & 0xFC00707Fu32 != 0) &&
            ((0x48001013u32 ^ 0x6000101Bu32) & 0xFC00707Fu32 & 0xFFF0707Fu32 != 0))) &&
            ((((0x48001013u32 ^ 0x6020101Bu32) & 0xFC00707Fu32 & 0xFFF0707Fu32 != 0) &&
            ((0x48001013u32 ^ 0x6010101Bu32) & 0xFC00707Fu32 & 0xFFF0707Fu32 != 0)) &&
            (((0x48001013u32 ^ 0x6000501Bu32) & 0xFC00707Fu32 & 0xFE00707Fu32 != 0) &&
            ((0x48001013u32 ^ 0x0800101Bu32) & 0xFC00707Fu32 & 0xFC00707Fu32 != 0)))) &&
            ((((0x48005013u32 ^ 0x68001013u32) & 0xFC00707Fu32 & 0xFC00707Fu32 != 0) &&
            (((0x48005013u32 ^ 0x28001013u32) & 0xFC00707Fu32 & 0xFC00707Fu32 != 0) &&
            ((0x48005013u32 ^ 0x60005013u32) & 0xFC00707Fu32 & 0xFC00707Fu32 != 0))) &&
            ((((0x48005013u32 ^ 0x6000101Bu32) & 0xFC00707Fu32 & 0xFFF0707Fu32 != 0) &&
            ((0x48005013u32 ^ 0x6020101Bu32) & 0xFC00707Fu32 & 0xFFF0707Fu32 != 0)) &&
            (((0x48005013u32 ^ 0x6010101Bu32) & 0xFC00707Fu32 & 0xFFF0707Fu32 != 0) &&
            ((0x48005013u32 ^ 0x6000501Bu32) & 0xFC00707Fu32 & 0xFE00707Fu32 != 0)))))) &&
            ((((((0x48005013u32 ^ 0x0800101Bu32) & 0xFC00707Fu32 & 0xFC00707Fu32 != 0) &&
            (((0x68001013u32 ^ 0x28001013u32) & 0xFC00707Fu32 & 0xFC00707Fu32 != 0) &&
            ((0x68001013u32 ^ 0x60005013u32) & 0xFC00707Fu32 & 0xFC00707Fu32 != 0))) &&
            ((((0x68001013u32 ^ 0x6000101Bu32) & 0xFC00707Fu32 & 0xFFF0707Fu32 != 0) &&
            ((0x68001013u32 ^ 0x6020101Bu32) & 0xFC00707Fu32 & 0xFFF0707Fu32 != 0)) &&
            (((0x68001013u32 ^ 0x6010101Bu32) & 0xFC00707Fu32 & 0xFFF0707Fu32 != 0) &&
            ((0x68001013u32 ^ 0x6000501Bu32) & 0xFC00707Fu32 & 0xFE00707Fu32 != 0)))) &&
            ((((0x68001013u32 ^ 0x0800101Bu32) & 0xFC00707Fu32 & 0xFC00707Fu32 != 0) &&
            (((0x28001013u32 ^ 0x60005013u32) & 0xFC00707Fu32 & 0xFC00707Fu32 != 0) &&
            ((0x28001013u32 ^ 0x6000101Bu32) & 0xFC00707Fu32 & 0xFFF0707Fu32 != 0))) &&
            ((((0x28001013u32 ^ 0x6020101Bu32) & 0xFC00707Fu32 & 0xFFF0707Fu32 != 0) &&
            ((0x28001013u32 ^ 0x6010101Bu32) & 0xFC00707Fu32 & 0xFFF0707Fu32 != 0)) &&
            (((0x28001013u32 ^ 0x6000501Bu32) & 0xFC00707Fu32 & 0xFE00707Fu32 != 0) &&
            ((0x28001013u32 ^ 0x0800101Bu32) & 0xFC00707Fu32 & 0xFC00707Fu32 != 0))))) &&
            (((((0x60005013u32 ^ 0x6000101Bu32) & 0xFC00707Fu32 & 0xFFF0707Fu32 != 0) &&
            (((0x60005013u32 ^ 0x6020101Bu32) & 0xFC00707Fu32 & 0xFFF0707Fu32 != 0) &&
            ((0x60005013u32 ^ 0x6010101Bu32) & 0xFC00707Fu32 & 0xFFF0707Fu32 != 0))) &&
            ((((0x60005013u32 ^ 0x6000501Bu32) & 0xFC00707Fu32 & 0xFE00707Fu32 != 0) &&
            ((0x60005013u32 ^ 0x0800101Bu32) & 0xFC00707Fu32 & 0xFC00707Fu32 != 0)) &&
            (((0x6000101Bu32 ^ 0x6020101Bu32) & 0xFFF0707Fu32 & 0xFFF0707Fu32 != 0) &&
            ((0x6000101Bu32 ^ 0x6010101Bu32) & 0xFFF0707Fu32 & 0xFFF0707Fu32 != 0)))) &&
            (((((0x6000101Bu32 ^ 0x6000501Bu32) & 0xFFF0707Fu32 & 0xFE00707Fu32 != 0) &&
            ((0x6000101Bu32 ^ 0x0800101Bu32) & 0xFFF0707Fu32 & 0xFC00707Fu32 != 0)) &&
            (((0x6020101Bu32 ^ 0x6010101Bu32) & 0xFFF0707Fu32 & 0xFFF0707Fu32 != 0) &&
            ((0x6020101Bu32 ^ 0x6000501Bu32) & 0xFFF0707Fu32 & 0xFE00707Fu32 != 0))) &&
            ((((0x6020101Bu32 ^ 0x0800101Bu32) & 0xFFF0707Fu32 & 0xFC00707Fu32 != 0) &&
            ((0x6010101Bu32 ^ 0x6000501Bu32) & 0xFFF0707Fu32 & 0xFE00707Fu32 != 0)) &&
            (((0x6010101Bu32 ^ 0x0800101Bu32) & 0xFFF0707Fu32 & 0xFC00707Fu32 != 0) &&
            ((0x6000501Bu32 ^ 0x0800101Bu32) & 0xFE00707Fu32 & 0xFC00707Fu32 != 0)))))))))))
    ) by (bit_vector);
}

/// The table of the B extension (Zba, Zbb, Zbc and Zbs), in decode order.
pub fn rvb_instruction_list() -> (r: Vec<InstructionInfo>)
    ensures
        r@.len() == 43,
        forall|k: int| 0 <= k < 43 ==> key_of(#[trigger] r@[k]) == rvb_key(k),
        forall|k: int| 0 <= k < 43 ==> meta_of(#[trigger] r@[k]) == rvb_meta(k),
        table_wf(r@),
        pairwise_disjoint(r@),
{
    let mut t: Vec<InstructionInfo> = Vec::new();
    let mut k: usize = 0;
    while k < 43
        invariant
            0 <= k <= 43,
            t@.len() == k,
            forall|i: int| 0 <= i < k ==> key_of(#[trigger] t@[i]) == rvb_key(i),
            forall|i: int| 0 <= i < k ==> meta_of(#[trigger] t@[i]) == rvb_meta(i),
        decreases 43 - k,
    {
        t.push(rvb_entry(k));
        k += 1;
    }
    proof {
        lemma_rvb_keys();
        assert forall|i: int| 0 <= i < t@.len() implies #[trigger] t@[i].wf() by {
            assert(key_of(t@[i]) == rvb_key(i));
        }
        lemma_keys_apart_all(t@);
    }
    t
}

} // verus!
