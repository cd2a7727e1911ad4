use ckb_vm::instructions::{blank_instruction, i::nop, Itype, Rtype, Stype, Utype};
use ckb_vm::Register;
use ckb_vm_decoder::builders::{
    blank_inst_builder, fencei_builder, is_1f_builder, is_alu_builder, is_builder,
    r64_imm_builder, r_builder, roriw_builder, sb_builder, ss_builder, uj_builder, us_builder,
    FenceType,
};
use ckb_vm_decoder::dispatch::{baseline_factory, is_disjoint, DecodeIndex};
use ckb_vm_decoder::opcodes;
use ckb_vm_decoder::rvc::{
    cadd_ebreak_jalr, caddi16sp, caddi4spn, caddi_cnop, caddiw_jal, caddw, cand, candi, cbeqz,
    cbnez, cj, cjr_cmv, cld, cldsp, cli, clui, clw, clwsp, cor, csd, csdsp, cslli, csrai, csrli,
    csub, csubw, csw, cswsp, cxor,
};
use ckb_vm_decoder::table::{
    entries_overlap, rvb_instruction_list, rvc_instruction_list,
    rvi_instruction_list, rvm_instruction_list, Builder, InstructionInfo,
};
use ckb_vm_decoder::vector::{
    vi_builder, vsetivli_builder, vsetvl_builder, vsetvli_builder, vv_builder, vx_builder,
    VectorInstruction,
};
use ckb_vm_decoder::FactoryConfig;
use ckb_vm_definitions::instructions as insts;
use ckb_vm_definitions::registers::SP;

fn rv32(version: u32) -> FactoryConfig {
    FactoryConfig::new(<u32 as Register>::BITS, version)
}

fn rv64(version: u32) -> FactoryConfig {
    FactoryConfig::new(<u64 as Register>::BITS, version)
}

#[test]
fn opcode_numbers_are_ckb_vm_ones() {
    let pairs = [
        (opcodes::OP_ADD, insts::OP_ADD),
        (opcodes::OP_ADDI, insts::OP_ADDI),
        (opcodes::OP_ADDIW, insts::OP_ADDIW),
        (opcodes::OP_ADDUW, insts::OP_ADDUW),
        (opcodes::OP_ADDW, insts::OP_ADDW),
        (opcodes::OP_AND, insts::OP_AND),
        (opcodes::OP_ANDI, insts::OP_ANDI),
        (opcodes::OP_ANDN, insts::OP_ANDN),
        (opcodes::OP_AUIPC, insts::OP_AUIPC),
        (opcodes::OP_BCLR, insts::OP_BCLR),
        (opcodes::OP_BCLRI, insts::OP_BCLRI),
        (opcodes::OP_BEQ, insts::OP_BEQ),
        (opcodes::OP_BEXT, insts::OP_BEXT),
        (opcodes::OP_BEXTI, insts::OP_BEXTI),
        (opcodes::OP_BGE, insts::OP_BGE),
        (opcodes::OP_BGEU, insts::OP_BGEU),
        (opcodes::OP_BINV, insts::OP_BINV),
        (opcodes::OP_BINVI, insts::OP_BINVI),
        (opcodes::OP_BLT, insts::OP_BLT),
        (opcodes::OP_BLTU, insts::OP_BLTU),
        (opcodes::OP_BNE, insts::OP_BNE),
        (opcodes::OP_BSET, insts::OP_BSET),
        (opcodes::OP_BSETI, insts::OP_BSETI),
        (opcodes::OP_CLMUL, insts::OP_CLMUL),
        (opcodes::OP_CLMULH, insts::OP_CLMULH),
        (opcodes::OP_CLMULR, insts::OP_CLMULR),
        (opcodes::OP_CLZ, insts::OP_CLZ),
        (opcodes::OP_CLZW, insts::OP_CLZW),
        (opcodes::OP_CPOP, insts::OP_CPOP),
        (opcodes::OP_CPOPW, insts::OP_CPOPW),
        (opcodes::OP_CTZ, insts::OP_CTZ),
        (opcodes::OP_CTZW, insts::OP_CTZW),
        (opcodes::OP_DIV, insts::OP_DIV),
        (opcodes::OP_DIVU, insts::OP_DIVU),
        (opcodes::OP_DIVUW, insts::OP_DIVUW),
        (opcodes::OP_DIVW, insts::OP_DIVW),
        (opcodes::OP_EBREAK, insts::OP_EBREAK),
        (opcodes::OP_ECALL, insts::OP_ECALL),
        (opcodes::OP_FENCE, insts::OP_FENCE),
        (opcodes::OP_FENCEI, insts::OP_FENCEI),
        (opcodes::OP_JAL, insts::OP_JAL),
        (opcodes::OP_JALR, insts::OP_JALR),
        (opcodes::OP_LB, insts::OP_LB),
        (opcodes::OP_LBU, insts::OP_LBU),
        (opcodes::OP_LD, insts::OP_LD),
        (opcodes::OP_LH, insts::OP_LH),
        (opcodes::OP_LHU, insts::OP_LHU),
        (opcodes::OP_LUI, insts::OP_LUI),
        (opcodes::OP_LW, insts::OP_LW),
        (opcodes::OP_LWU, insts::OP_LWU),
        (opcodes::OP_MAX, insts::OP_MAX),
        (opcodes::OP_MAXU, insts::OP_MAXU),
        (opcodes::OP_MIN, insts::OP_MIN),
        (opcodes::OP_MINU, insts::OP_MINU),
        (opcodes::OP_MUL, insts::OP_MUL),
        (opcodes::OP_MULH, insts::OP_MULH),
        (opcodes::OP_MULHSU, insts::OP_MULHSU),
        (opcodes::OP_MULHU, insts::OP_MULHU),
        (opcodes::OP_MULW, insts::OP_MULW),
        (opcodes::OP_OR, insts::OP_OR),
        (opcodes::OP_ORCB, insts::OP_ORCB),
        (opcodes::OP_ORI, insts::OP_ORI),
        (opcodes::OP_ORN, insts::OP_ORN),
        (opcodes::OP_REM, insts::OP_REM),
        (opcodes::OP_REMU, insts::OP_REMU),
        (opcodes::OP_REMUW, insts::OP_REMUW),
        (opcodes::OP_REMW, insts::OP_REMW),
        (opcodes::OP_REV8, insts::OP_REV8),
        (opcodes::OP_ROL, insts::OP_ROL),
        (opcodes::OP_ROLW, insts::OP_ROLW),
        (opcodes::OP_ROR, insts::OP_ROR),
        (opcodes::OP_RORI, insts::OP_RORI),
        (opcodes::OP_RORIW, insts::OP_RORIW),
        (opcodes::OP_RORW, insts::OP_RORW),
        (opcodes::OP_SB, insts::OP_SB),
        (opcodes::OP_SD, insts::OP_SD),
        (opcodes::OP_SEXTB, insts::OP_SEXTB),
        (opcodes::OP_SEXTH, insts::OP_SEXTH),
        (opcodes::OP_SH, insts::OP_SH),
        (opcodes::OP_SH1ADD, insts::OP_SH1ADD),
        (opcodes::OP_SH1ADDUW, insts::OP_SH1ADDUW),
        (opcodes::OP_SH2ADD, insts::OP_SH2ADD),
        (opcodes::OP_SH2ADDUW, insts::OP_SH2ADDUW),
        (opcodes::OP_SH3ADD, insts::OP_SH3ADD),
        (opcodes::OP_SH3ADDUW, insts::OP_SH3ADDUW),
        (opcodes::OP_SLL, insts::OP_SLL),
        (opcodes::OP_SLLI, insts::OP_SLLI),
        (opcodes::OP_SLLIUW, insts::OP_SLLIUW),
        (opcodes::OP_SLLIW, insts::OP_SLLIW),
        (opcodes::OP_SLLW, insts::OP_SLLW),
        (opcodes::OP_SLT, insts::OP_SLT),
        (opcodes::OP_SLTI, insts::OP_SLTI),
        (opcodes::OP_SLTIU, insts::OP_SLTIU),
        (opcodes::OP_SLTU, insts::OP_SLTU),
        (opcodes::OP_SRA, insts::OP_SRA),
        (opcodes::OP_SRAI, insts::OP_SRAI),
        (opcodes::OP_SRAIW, insts::OP_SRAIW),
        (opcodes::OP_SRAW, insts::OP_SRAW),
        (opcodes::OP_SRL, insts::OP_SRL),
        (opcodes::OP_SRLI, insts::OP_SRLI),
        (opcodes::OP_SRLIW, insts::OP_SRLIW),
        (opcodes::OP_SRLW, insts::OP_SRLW),
        (opcodes::OP_SUB, insts::OP_SUB),
        (opcodes::OP_SUBW, insts::OP_SUBW),
        (opcodes::OP_SW, insts::OP_SW),
        (opcodes::OP_XNOR, insts::OP_XNOR),
        (opcodes::OP_XOR, insts::OP_XOR),
        (opcodes::OP_XORI, insts::OP_XORI),
        (opcodes::OP_ZEXTH, insts::OP_ZEXTH),
    ];
    for (ours, theirs) in pairs {
        assert_eq!(ours, theirs);
    }
    assert_eq!(opcodes::SP, SP);
    assert_eq!(opcodes::RA, ckb_vm_definitions::registers::RA);
}

#[test]
fn config_flags_follow_register_width() {
    let c = rv32(1);
    assert!(c.rv32() && !c.rv64());
    assert_eq!(c.shift_masks(), 0x1F);
    assert_eq!(c.version(), 1);
    let c = rv64(0);
    assert!(!c.rv32() && c.rv64());
    assert_eq!(c.shift_masks(), 0x3F);
    assert_eq!(rv32(0).shift_masks(), <u32 as Register>::SHIFT_MASK);
    assert_eq!(rv64(0).shift_masks(), <u64 as Register>::SHIFT_MASK);
    let c = FactoryConfig::new(128, 2);
    assert!(!c.rv32() && !c.rv64());
    assert_eq!(c.shift_masks(), 0x7F);
}

#[test]
fn format_builders_pack_fields() {
    let c = rv64(1);
    // lui x1, 0x12345
    assert_eq!(us_builder(0x1234_50B7, insts::OP_LUI, &c), Some(Utype::new_s(insts::OP_LUI, 1, 0x1234_5000).0));
    // jal x1, 2048
    assert_eq!(uj_builder(0x0010_00EF, insts::OP_JAL, &c), Some(Utype::new_s(insts::OP_JAL, 1, 2048).0));
    // addi x1, x2, -1
    assert_eq!(is_builder(0xFFF1_0093, insts::OP_ADDI, &c), Some(Itype::new_s(insts::OP_ADDI, 1, 2, -1).0));
    // bne x1, x2, -4
    assert_eq!(sb_builder(0xFE20_9EE3, insts::OP_BNE, &c), Some(Stype::new_s(insts::OP_BNE, -4, 1, 2).0));
    // sw x2, -8(x1)
    assert_eq!(ss_builder(0xFE20_AC23, insts::OP_SW, &c), Some(Stype::new_s(insts::OP_SW, -8, 1, 2).0));
    assert_eq!(blank_inst_builder(0x73, insts::OP_ECALL, &c), Some(blank_instruction(insts::OP_ECALL)));
    // add x3, x1, x2
    assert_eq!(r_builder(0x0020_81B3, insts::OP_ADD, &c), Some(Rtype::new(insts::OP_ADD, 3, 1, 2).0));
}

#[test]
fn shift_builders_cut_amounts() {
    // srai x1, x2, 35 (bit 30 set in the immediate)
    let w = 0x4231_5093;
    assert_eq!(is_alu_builder(w, insts::OP_SRAI, &rv64(1)), Some(Itype::new_u(insts::OP_SRAI, 1, 2, 35).0));
    assert_eq!(is_alu_builder(w, insts::OP_SRAI, &rv32(1)), Some(Itype::new_u(insts::OP_SRAI, 1, 2, 3).0));
    // sraiw x1, x2, 3
    assert_eq!(is_1f_builder(0x4031_509B, insts::OP_SRAIW, &rv64(1)), Some(Itype::new_u(insts::OP_SRAIW, 1, 2, 3).0));
    // a six-bit amount of 35
    assert_eq!(r64_imm_builder(0x0231_1093, insts::OP_SLLI, &rv64(1)), Some(Itype::new_u(insts::OP_SLLI, 1, 2, 35).0));
    assert_eq!(roriw_builder(0x0231_1093, insts::OP_SLLI, &rv64(1)), Some(Itype::new_u(insts::OP_SLLIUW, 1, 2, 3).0));
}

#[test]
fn fence_fields() {
    // fence with fm = 8, pred = 3, succ = 3
    let w = 0x8330_000F;
    let f = FenceType::new(8, 3, 3);
    assert_eq!(fencei_builder(w, insts::OP_FENCE, &rv64(1)), Some(f.instruction()));
    assert_eq!(f.instruction(), Rtype::new(insts::OP_FENCE, 8, 3, 3).0);
    assert_eq!(f.fm(), 8);
    assert_eq!(f.pred(), 3);
    assert_eq!(f.succ(), 3);
}

#[test]
fn vector_builders() {
    let c = rv64(1);
    // vadd.vv v1, v2, v3 with vm = 1
    let w = 0x0221_80D7;
    let vv = vv_builder(w, 0x200, &c).unwrap();
    assert_eq!(vv, VectorInstruction { opcode: 0x200, vd: 1, operand: 3, vs2: 2, vm: true });
    let vx = vx_builder(w & !0x0200_0000, 0x201, &c).unwrap();
    assert_eq!(vx, VectorInstruction { opcode: 0x201, vd: 1, operand: 3, vs2: 2, vm: false });
    let vi = vi_builder(0x022F_80D7, 0x202, &c).unwrap();
    assert_eq!(vi, VectorInstruction { opcode: 0x202, vd: 1, operand: 31, vs2: 2, vm: true });
    // every type-immediate bit set: 11 bits for vsetvli, 10 for vsetivli
    let w = 0x7FF0_F0D7;
    assert_eq!(vsetvli_builder(w, 0x300, &c), Some(Itype::new_u(0x300, 1, 1, 0x7FF).0));
    assert_eq!(vsetivli_builder(w, 0x301, &c), Some(Itype::new_u(0x301, 1, 1, 0x3FF).0));
    assert_eq!(vsetvl_builder(0x8020_F0D7, 0x302, &c), Some(Rtype::new(0x302, 1, 1, 2).0));
}

#[test]
fn c_addi_hint_is_gated_by_version() {
    // c.addi x0, 0
    assert_eq!(caddi_cnop(0x0001, 0, &rv64(0)), None);
    assert_eq!(caddi_cnop(0x0001, 0, &rv64(1)), Some(nop()));
    assert_eq!(caddi_cnop(0x0001, 0, &rv32(2)), Some(nop()));
    // c.addi x1, -1
    assert_eq!(caddi_cnop(0x10FD, 0, &rv64(0)), Some(Itype::new_s(insts::OP_ADDI, 1, 1, -1).0));
    // c.addi x1, 0 and c.addi x0, 1 are HINTs
    assert_eq!(caddi_cnop(0x0081, 0, &rv64(0)), None);
    assert_eq!(caddi_cnop(0x0081, 0, &rv64(1)), Some(nop()));
    assert_eq!(caddi_cnop(0x0005, 0, &rv64(1)), Some(nop()));
}

#[test]
fn c_ld_needs_wide_registers() {
    // c.ld x8, 0(x9)
    assert_eq!(cld(0x6080, 0, &rv32(1)), None);
    assert_eq!(cld(0x6080, 0, &rv64(1)), Some(Itype::new_u(insts::OP_LD, 8, 9, 0).0));
    // c.sd x8, 8(x9)
    assert_eq!(csd(0xE480, 0, &rv32(1)), None);
    assert_eq!(csd(0xE480, 0, &rv64(1)), Some(Stype::new_u(insts::OP_SD, 8, 9, 8).0));
    // c.ldsp x1, 8(sp)
    assert_eq!(cldsp(0x60A2, 0, &rv32(1)), None);
    assert_eq!(cldsp(0x60A2, 0, &rv64(1)), Some(Itype::new_u(insts::OP_LD, 1, SP, 8).0));
    assert_eq!(cldsp(0x6022, 0, &rv64(1)), None);
    // c.sdsp x1, 8(sp)
    assert_eq!(csdsp(0xE406, 0, &rv32(1)), None);
    assert_eq!(csdsp(0xE406, 0, &rv64(1)), Some(Stype::new_u(insts::OP_SD, 8, SP, 1).0));
    // c.subw x8, x9 and c.addw x8, x9
    assert_eq!(csubw(0x9C05, 0, &rv32(1)), None);
    assert_eq!(csubw(0x9C05, 0, &rv64(1)), Some(Rtype::new(insts::OP_SUBW, 8, 8, 9).0));
    assert_eq!(caddw(0x9C25, 0, &rv32(1)), None);
    assert_eq!(caddw(0x9C25, 0, &rv64(1)), Some(Rtype::new(insts::OP_ADDW, 8, 8, 9).0));
}

#[test]
fn c_shift_amount_is_masked() {
    // c.srli x8, 35: shamt[5] in bit 12, shamt[4:0] = 3
    assert_eq!(csrli(0x900D, 0, &rv32(1)), Some(Itype::new_u(insts::OP_SRLI, 8, 8, 3).0));
    assert_eq!(csrli(0x900D, 0, &rv64(1)), Some(Itype::new_u(insts::OP_SRLI, 8, 8, 35).0));
    assert_eq!(csrai(0x940D, 0, &rv32(1)), Some(Itype::new_u(insts::OP_SRAI, 8, 8, 3).0));
    assert_eq!(csrai(0x940D, 0, &rv64(1)), Some(Itype::new_u(insts::OP_SRAI, 8, 8, 35).0));
    // c.slli x1, 35
    assert_eq!(cslli(0x108E, 0, &rv32(1)), Some(Itype::new_u(insts::OP_SLLI, 1, 1, 3).0));
    assert_eq!(cslli(0x108E, 0, &rv64(1)), Some(Itype::new_u(insts::OP_SLLI, 1, 1, 35).0));
    // c.slli x1, 0 is a HINT
    assert_eq!(cslli(0x0082, 0, &rv64(0)), None);
    assert_eq!(cslli(0x0082, 0, &rv64(1)), Some(nop()));
}

#[test]
fn c_reserved_encodings_fail() {
    // c.addi16sp with a zero immediate
    assert_eq!(caddi16sp(0x6101, 0, &rv64(1)), None);
    // c.addi16sp sp, -16
    assert_eq!(caddi16sp(0x717D, 0, &rv64(1)), Some(Itype::new_s(insts::OP_ADDI, SP, SP, -16).0));
    // c.addi4spn with a zero immediate
    assert_eq!(caddi4spn(0x0000, 0, &rv64(1)), None);
    // c.addi4spn x8, sp, 4
    assert_eq!(caddi4spn(0x0040, 0, &rv64(1)), Some(Itype::new_u(insts::OP_ADDI, 8, SP, 4).0));
    // c.lwsp with rd = 0
    assert_eq!(clwsp(0x4002, 0, &rv64(1)), None);
    // c.lwsp x1, 4(sp)
    assert_eq!(clwsp(0x4092, 0, &rv64(1)), Some(Itype::new_u(insts::OP_LW, 1, SP, 4).0));
    // c.jr with rs1 = 0
    assert_eq!(cjr_cmv(0x8002, 0, &rv64(1)), None);
}

#[test]
fn c_jr_mv_split() {
    // c.jr x1
    assert_eq!(cjr_cmv(0x8082, 0, &rv64(0)), Some(Itype::new_s(insts::OP_JALR, 0, 1, 0).0));
    // c.mv x1, x2
    assert_eq!(cjr_cmv(0x808A, 0, &rv64(0)), Some(Rtype::new(insts::OP_ADD, 1, 0, 2).0));
    // c.mv x0, x2 is a HINT
    assert_eq!(cjr_cmv(0x800A, 0, &rv64(0)), None);
    assert_eq!(cjr_cmv(0x800A, 0, &rv64(1)), Some(nop()));
}

#[test]
fn c_add_ebreak_jalr_split() {
    assert_eq!(cadd_ebreak_jalr(0x9002, 0, &rv64(0)), Some(blank_instruction(insts::OP_EBREAK)));
    // c.jalr x1
    assert_eq!(cadd_ebreak_jalr(0x9082, 0, &rv64(0)), Some(Itype::new_s(insts::OP_JALR, 1, 1, 0).0));
    // c.add x1, x2
    assert_eq!(cadd_ebreak_jalr(0x908A, 0, &rv64(0)), Some(Rtype::new(insts::OP_ADD, 1, 1, 2).0));
    // c.add x0, x2 is a HINT
    assert_eq!(cadd_ebreak_jalr(0x900A, 0, &rv64(0)), None);
    assert_eq!(cadd_ebreak_jalr(0x900A, 0, &rv64(1)), Some(nop()));
}

#[test]
fn c_addiw_jal_by_width() {
    // c.jal 16 on 32-bit registers; the same bits are c.addiw x16, 0 elsewhere
    assert_eq!(caddiw_jal(0x2801, 0, &rv32(1)), Some(Utype::new_s(insts::OP_JAL, 1, 16).0));
    assert_eq!(caddiw_jal(0x2801, 0, &rv64(1)), Some(Itype::new_s(insts::OP_ADDIW, 16, 16, 0).0));
    // c.addiw with rd = 0 is reserved
    assert_eq!(caddiw_jal(0x2005, 0, &rv64(1)), None);
}

#[test]
fn c_li_lui() {
    // c.li x1, -1
    assert_eq!(cli(0x50FD, 0, &rv64(0)), Some(Itype::new_s(insts::OP_ADDI, 1, 0, -1).0));
    // c.li x0, 1 is a HINT
    assert_eq!(cli(0x4005, 0, &rv64(0)), None);
    assert_eq!(cli(0x4005, 0, &rv64(1)), Some(nop()));
    // c.lui x3, 1
    assert_eq!(clui(0x6185, 0, &rv64(1)), Some(Utype::new_s(insts::OP_LUI, 3, 4096).0));
    // c.lui x3, -1
    assert_eq!(clui(0x71FD, 0, &rv64(1)), Some(Utype::new_s(insts::OP_LUI, 3, -4096).0));
    // a zero immediate is reserved
    assert_eq!(clui(0x6181, 0, &rv64(1)), None);
    // rd = 2 is c.addi16sp: sp, -16, and the reserved zero immediate
    assert_eq!(clui(0x717D, 0, &rv64(1)), Some(Itype::new_s(insts::OP_ADDI, SP, SP, -16).0));
    assert_eq!(clui(0x6101, 0, &rv64(1)), None);
    // rd = 0 is a HINT
    assert_eq!(clui(0x6005, 0, &rv64(2)), Some(nop()));
}

#[test]
fn c_loads_stores_and_alu() {
    let c = rv64(1);
    // c.lw x8, 4(x9)
    assert_eq!(clw(0x40C0, 0, &c), Some(Itype::new_u(insts::OP_LW, 8, 9, 4).0));
    // c.sw x8, 4(x9)
    assert_eq!(csw(0xC0C0, 0, &c), Some(Stype::new_u(insts::OP_SW, 4, 9, 8).0));
    // c.swsp x1, 4(sp)
    assert_eq!(cswsp(0xC206, 0, &c), Some(Stype::new_u(insts::OP_SW, 4, SP, 1).0));
    // c.sub, c.xor, c.or, c.and x8, x9
    assert_eq!(csub(0x8C05, 0, &c), Some(Rtype::new(insts::OP_SUB, 8, 8, 9).0));
    assert_eq!(cxor(0x8C25, 0, &c), Some(Rtype::new(insts::OP_XOR, 8, 8, 9).0));
    assert_eq!(cor(0x8C45, 0, &c), Some(Rtype::new(insts::OP_OR, 8, 8, 9).0));
    assert_eq!(cand(0x8C65, 0, &c), Some(Rtype::new(insts::OP_AND, 8, 8, 9).0));
    // c.andi x8, -1
    assert_eq!(candi(0x987D, 0, &c), Some(Itype::new_s(insts::OP_ANDI, 8, 8, -1).0));
    // c.beqz x8, -2 and c.bnez x8, 6
    assert_eq!(cbeqz(0xDC7D, 0, &c), Some(Stype::new_s(insts::OP_BEQ, -2, 8, 0).0));
    assert_eq!(cbnez(0xE019, 0, &c), Some(Stype::new_s(insts::OP_BNE, 6, 8, 0).0));
    // c.j -2
    assert_eq!(cj(0xBFFD, 0, &c), Some(Utype::new_s(insts::OP_JAL, 0, -2).0));
}

fn configs() -> Vec<FactoryConfig> {
    vec![rv32(0), rv32(1), rv32(2), rv64(0), rv64(1), rv64(2), FactoryConfig::new(128, 1)]
}

#[test]
fn index_agrees_with_scan_on_every_compressed_word() {
    let table = rvc_instruction_list();
    let index = DecodeIndex::new(rvc_instruction_list());
    for c in configs() {
        for w in 0u32..0x1_0000 {
            let scanned = baseline_factory(&table, w, &c);
            assert_eq!(index.factory(w, &c), scanned, "word {:#x}", w);
        }
    }
}

#[test]
fn index_agrees_with_scan_on_full_words() {
    let table = rvi_instruction_list();
    let index = DecodeIndex::new(rvi_instruction_list());
    let mut words: Vec<u32> = table.iter().map(|e| e.get_match_bits()).collect();
    let mut s: u32 = 0x1234_5678;
    for _ in 0..200_000 {
        s = s.wrapping_mul(1_664_525).wrapping_add(1_013_904_223);
        words.push(s);
        // keep the opcode of some entry and draw the other bits
        let e = &table[(s >> 24) as usize % table.len()];
        words.push((s & !e.get_mask()) | e.get_match_bits());
    }
    for c in configs() {
        for &w in &words {
            assert_eq!(index.factory(w, &c), baseline_factory(&table, w, &c), "word {:#x}", w);
        }
    }
}

#[test]
fn canonical_nop_word_is_addi() {
    let c = rv64(1);
    let expected = Some(Itype::new_s(insts::OP_ADDI, 0, 0, 0).0);
    let table = rvi_instruction_list();
    assert_eq!(baseline_factory(&table, 0x0000_0013, &c), expected);
    let index = DecodeIndex::new(rvi_instruction_list());
    assert_eq!(index.factory(0x0000_0013, &c), expected);
}

#[test]
fn decoding_twice_gives_the_same_result() {
    let index = DecodeIndex::new(rvc_instruction_list());
    let c = rv64(1);
    for w in [0x0001u32, 0x6080, 0x900D, 0x9002, 0xBFFD, 0x0000] {
        let first = index.factory(w, &c);
        for _ in 0..3 {
            assert_eq!(index.factory(w, &c), first);
        }
    }
}

#[test]
fn full_word_table_decodes() {
    let c = rv64(1);
    let index = DecodeIndex::new(rvi_instruction_list());
    assert_eq!(index.factory(0xFFDF_F06F, &c), Some(Utype::new_s(insts::OP_JAL, 0, -4).0));
    assert_eq!(index.factory(0x4020_81B3, &c), Some(Rtype::new(insts::OP_SUB, 3, 1, 2).0));
    assert_eq!(index.factory(0x0000_0073, &c), Some(blank_instruction(insts::OP_ECALL)));
    assert_eq!(index.factory(0x0010_0073, &c), Some(blank_instruction(insts::OP_EBREAK)));
    assert_eq!(index.factory(0x0020_A623, &c), Some(Stype::new_s(insts::OP_SW, 12, 1, 2).0));
    // no entry: an all-ones word
    assert_eq!(index.factory(0xFFFF_FFFF, &c), None);
}

#[test]
fn compressed_table_decodes() {
    let c = rv64(1);
    let index = DecodeIndex::new(rvc_instruction_list());
    // c.addi16sp sp, -16 shares the entry of c.lui
    assert_eq!(index.factory(0x717D, &c), Some(Itype::new_s(insts::OP_ADDI, SP, SP, -16).0));
    assert_eq!(index.factory(0x6185, &c), Some(Utype::new_s(insts::OP_LUI, 3, 4096).0));
    assert_eq!(index.factory(0x6080, &rv32(1)), None);
    // a full-width word belongs to no compressed entry
    assert_eq!(index.factory(0x0000_0013 | 3, &c), None);
}

#[test]
fn table_disjointness() {
    for table in [rvi_instruction_list(), rvm_instruction_list(), rvb_instruction_list(), rvc_instruction_list()] {
        assert!(is_disjoint(&table));
        for i in 0..table.len() {
            for j in i + 1..table.len() {
                assert!(!entries_overlap(&table[i], &table[j]));
            }
        }
    }
}

#[test]
fn entry_overlap_exact() {
    let a = InstructionInfo::new(0xE003, 0x6001, insts::OP_LUI, Builder::CLui);
    let b = InstructionInfo::new(0xEF83, 0x6101, insts::OP_ADDI, Builder::CAddi16sp);
    let c = InstructionInfo::new(0xE003, 0x4001, insts::OP_ADDI, Builder::CLi);
    assert!(entries_overlap(&a, &b));
    assert!(!entries_overlap(&a, &c));
    assert!(a.is_match(0x6185));
    assert!(!c.is_match(0x6185));
    assert_eq!(a.get_mask(), 0xE003);
    assert_eq!(a.get_opcode(), insts::OP_LUI);
}

#[test]
fn c_lui_hint_is_gated_by_version() {
    // c.lui x0, 1
    assert_eq!(clui(0x6005, 0, &rv64(0)), None);
    assert_eq!(clui(0x6005, 0, &rv64(1)), Some(nop()));
    assert_eq!(clui(0x6005, 0, &rv32(2)), Some(nop()));
    let index = DecodeIndex::new(rvc_instruction_list());
    assert_eq!(index.factory(0x6005, &rv64(0)), None);
    assert_eq!(index.factory(0x6005, &rv64(1)), Some(nop()));
}

#[test]
fn c_wide_only_instructions_on_128_bit_registers() {
    let c = FactoryConfig::new(128, 1);
    // c.addw x8, x9 and c.subw x8, x9
    assert_eq!(caddw(0x9C25, 0, &c), Some(Rtype::new(insts::OP_ADDW, 8, 8, 9).0));
    assert_eq!(csubw(0x9C05, 0, &c), Some(Rtype::new(insts::OP_SUBW, 8, 8, 9).0));
    // c.ld x8, 0(x9)
    assert_eq!(cld(0x6080, 0, &c), Some(Itype::new_u(insts::OP_LD, 8, 9, 0).0));
}

#[test]
fn multiply_table_decodes() {
    let c = rv64(1);
    let table = rvm_instruction_list();
    assert!(is_disjoint(&table));
    let index = DecodeIndex::new(rvm_instruction_list());
    // mul x3, x1, x2
    assert_eq!(index.factory(0x0220_81B3, &c), Some(Rtype::new(insts::OP_MUL, 3, 1, 2).0));
    // remuw x3, x1, x2
    assert_eq!(index.factory(0x0220_F1BB, &c), Some(Rtype::new(insts::OP_REMUW, 3, 1, 2).0));
    // add is no M instruction
    assert_eq!(index.factory(0x0020_81B3, &c), None);
    let mut s: u32 = 7;
    for _ in 0..100_000 {
        s = s.wrapping_mul(1_664_525).wrapping_add(1_013_904_223);
        let e = &table[(s >> 24) as usize % table.len()];
        for w in [s, (s & !e.get_mask()) | e.get_match_bits()] {
            assert_eq!(index.factory(w, &c), baseline_factory(&table, w, &c));
        }
    }
}

#[test]
fn two_indexes_of_one_table_agree() {
    let a = DecodeIndex::new(rvc_instruction_list());
    let b = DecodeIndex::new(rvc_instruction_list());
    let c = rv32(1);
    for w in 0u32..0x1_0000 {
        assert_eq!(a.factory(w, &c), b.factory(w, &c));
    }
}

#[test]
fn bit_manipulation_table_matches_ckb_vm() {
    let table = rvb_instruction_list();
    assert!(is_disjoint(&table));
    let index = DecodeIndex::new(rvb_instruction_list());
    let c = rv64(1);
    let mut s: u32 = 99;
    for _ in 0..100_000 {
        s = s.wrapping_mul(1_664_525).wrapping_add(1_013_904_223);
        let e = &table[(s >> 24) as usize % table.len()];
        let w = (s & !e.get_mask()) | e.get_match_bits();
        let ours = index.factory(w, &c);
        assert_eq!(ours, baseline_factory(&table, w, &c));
        // ckb-vm's own decoder also records the instruction length in the
        // flag byte, bits 24 to 31, which the builders leave clear
        let theirs = ckb_vm::instructions::b::factory::<u64>(w, 1).map(|i| i & !0xFF00_0000);
        assert_eq!(ours, theirs, "word {:#x}", w);
    }
    // rori x1, x2, 35
    assert_eq!(index.factory(0x6231_5093, &c), Some(Itype::new_u(insts::OP_RORI, 1, 2, 35).0));
    // roriw x1, x2, 3
    assert_eq!(index.factory(0x6031_509B, &c), Some(Itype::new_u(insts::OP_RORIW, 1, 2, 3).0));
}

#[test]
fn base_and_multiply_tables_match_ckb_vm() {
    let c = rv64(1);
    for (table, theirs) in [
        (rvi_instruction_list(), ckb_vm::instructions::i::factory::<u64> as fn(u32, u32) -> Option<u64>),
        (rvm_instruction_list(), ckb_vm::instructions::m::factory::<u64>),
    ] {
        let index = DecodeIndex::new(table.clone());
        let mut s: u32 = 5;
        for _ in 0..100_000 {
            s = s.wrapping_mul(1_664_525).wrapping_add(1_013_904_223);
            let e = &table[(s >> 24) as usize % table.len()];
            let w = (s & !e.get_mask()) | e.get_match_bits();
            let expected = theirs(w, 1).map(|i| i & !0xFF00_0000);
            assert_eq!(index.factory(w, &c), expected, "word {:#x}", w);
        }
    }
}

#[test]
fn compressed_table_against_ckb_vm() {
    let index = DecodeIndex::new(rvc_instruction_list());
    let mut differ = Vec::new();
    for (c, bits) in [(rv64(1), 64), (rv32(1), 32)] {
        for w in 0u32..0x1_0000 {
            if w & 3 == 3 {
                continue;
            }
            let ours = index.factory(w, &c);
            let theirs = if bits == 64 {
                ckb_vm::instructions::rvc::factory::<u64>(w, 1)
            } else {
                ckb_vm::instructions::rvc::factory::<u32>(w, 1)
            }
            .map(|i| i & !0xFF00_0000);
            if ours != theirs {
                differ.push((bits, w & 0xE003, w));
            }
        }
    }
    // C.SRLI and C.SRAI with a zero amount are built as a shift by zero,
    // where ckb-vm's decoder reads a HINT; no other word differs
    for &(_, _, w) in &differ {
        assert_eq!(w & 0xF87F, 0x8001, "word {:#x}", w);
    }
    assert_eq!(differ.len(), 32);
}

#[test]
fn tables_list_their_keys() {
    let rvc = rvc_instruction_list();
    assert_eq!(rvc.len(), 28);
    assert_eq!((rvc[8].get_mask(), rvc[8].get_match_bits()), (0xE003, 0x6001));
    assert_eq!(rvc[8].get_builder(), Builder::CLui);
    assert_eq!(rvc[8].get_opcode(), insts::OP_LUI);
    assert_eq!(rvi_instruction_list().len(), 53);
    assert_eq!(rvm_instruction_list().len(), 13);
    assert_eq!(rvb_instruction_list().len(), 43);
    let rvi = rvi_instruction_list();
    assert_eq!((rvi[0].get_mask(), rvi[0].get_match_bits(), rvi[0].get_opcode()), (0x7F, 0x37, insts::OP_LUI));
}
