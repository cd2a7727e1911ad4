//! Opcode numbers of ckb-vm's packed instruction form, and the register
//! numbers that the compressed extension names implicitly.
use vstd::prelude::*;

verus! {

pub const OP_ADD: u16 = 0x11;
pub const OP_ADDI: u16 = 0x12;
pub const OP_ADDIW: u16 = 0x13;
pub const OP_ADDW: u16 = 0x14;
pub const OP_AND: u16 = 0x15;
pub const OP_ANDI: u16 = 0x16;
pub const OP_AUIPC: u16 = 0x17;
pub const OP_BEQ: u16 = 0x18;
pub const OP_BGE: u16 = 0x19;
pub const OP_BGEU: u16 = 0x1a;
pub const OP_BLT: u16 = 0x1b;
pub const OP_BLTU: u16 = 0x1c;
pub const OP_BNE: u16 = 0x1d;
pub const OP_DIV: u16 = 0x1e;
pub const OP_DIVU: u16 = 0x1f;
pub const OP_DIVUW: u16 = 0x20;
pub const OP_DIVW: u16 = 0x21;
pub const OP_EBREAK: u16 = 0x22;
pub const OP_ECALL: u16 = 0x23;
pub const OP_FENCE: u16 = 0x24;
pub const OP_FENCEI: u16 = 0x25;
pub const OP_JAL: u16 = 0x26;
pub const OP_JALR: u16 = 0x27;
pub const OP_LB: u16 = 0x28;
pub const OP_LBU: u16 = 0x29;
pub const OP_LD: u16 = 0x2a;
pub const OP_LH: u16 = 0x2b;
pub const OP_LHU: u16 = 0x2c;
pub const OP_LUI: u16 = 0x2d;
pub const OP_LW: u16 = 0x2e;
pub const OP_LWU: u16 = 0x2f;
pub const OP_MUL: u16 = 0x30;
pub const OP_MULH: u16 = 0x31;
pub const OP_MULHSU: u16 = 0x32;
pub const OP_MULHU: u16 = 0x33;
pub const OP_MULW: u16 = 0x34;
pub const OP_OR: u16 = 0x35;
pub const OP_ORI: u16 = 0x36;
pub const OP_REM: u16 = 0x37;
pub const OP_REMU: u16 = 0x38;
pub const OP_REMUW: u16 = 0x39;
pub const OP_REMW: u16 = 0x3a;
pub const OP_SB: u16 = 0x3b;
pub const OP_SD: u16 = 0x3c;
pub const OP_SH: u16 = 0x3d;
pub const OP_SLL: u16 = 0x3e;
pub const OP_SLLI: u16 = 0x3f;
pub const OP_SLLIW: u16 = 0x40;
pub const OP_SLLW: u16 = 0x41;
pub const OP_SLT: u16 = 0x42;
pub const OP_SLTI: u16 = 0x43;
pub const OP_SLTIU: u16 = 0x44;
pub const OP_SLTU: u16 = 0x45;
pub const OP_SRA: u16 = 0x46;
pub const OP_SRAI: u16 = 0x47;
pub const OP_SRAIW: u16 = 0x48;
pub const OP_SRAW: u16 = 0x49;
pub const OP_SRL: u16 = 0x4a;
pub const OP_SRLI: u16 = 0x4b;
pub const OP_SRLIW: u16 = 0x4c;
pub const OP_SRLW: u16 = 0x4d;
pub const OP_SUB: u16 = 0x4e;
pub const OP_SUBW: u16 = 0x4f;
pub const OP_SW: u16 = 0x50;
pub const OP_XOR: u16 = 0x51;
pub const OP_XORI: u16 = 0x52;
pub const OP_ADDUW: u16 = 0x53;
pub const OP_ANDN: u16 = 0x54;
pub const OP_BCLR: u16 = 0x55;
pub const OP_BCLRI: u16 = 0x56;
pub const OP_BEXT: u16 = 0x57;
pub const OP_BEXTI: u16 = 0x58;
pub const OP_BINV: u16 = 0x59;
pub const OP_BINVI: u16 = 0x5a;
pub const OP_BSET: u16 = 0x5b;
pub const OP_BSETI: u16 = 0x5c;
pub const OP_CLMUL: u16 = 0x5d;
pub const OP_CLMULH: u16 = 0x5e;
pub const OP_CLMULR: u16 = 0x5f;
pub const OP_CLZ: u16 = 0x60;
pub const OP_CLZW: u16 = 0x61;
pub const OP_CPOP: u16 = 0x62;
pub const OP_CPOPW: u16 = 0x63;
pub const OP_CTZ: u16 = 0x64;
pub const OP_CTZW: u16 = 0x65;
pub const OP_MAX: u16 = 0x66;
pub const OP_MAXU: u16 = 0x67;
pub const OP_MIN: u16 = 0x68;
pub const OP_MINU: u16 = 0x69;
pub const OP_ORCB: u16 = 0x6a;
pub const OP_ORN: u16 = 0x6b;
pub const OP_REV8: u16 = 0x6c;
pub const OP_ROL: u16 = 0x6d;
pub const OP_ROLW: u16 = 0x6e;
pub const OP_ROR: u16 = 0x6f;
pub const OP_RORI: u16 = 0x70;
pub const OP_RORIW: u16 = 0x71;
pub const OP_RORW: u16 = 0x72;
pub const OP_SEXTB: u16 = 0x73;
pub const OP_SEXTH: u16 = 0x74;
pub const OP_SH1ADD: u16 = 0x75;
pub const OP_SH1ADDUW: u16 = 0x76;
pub const OP_SH2ADD: u16 = 0x77;
pub const OP_SH2ADDUW: u16 = 0x78;
pub const OP_SH3ADD: u16 = 0x79;
pub const OP_SH3ADDUW: u16 = 0x7a;
pub const OP_SLLIUW: u16 = 0x7b;
pub const OP_XNOR: u16 = 0x7c;
pub const OP_ZEXTH: u16 = 0x7d;

/// The return-address register `ra`.
pub const RA: usize = 1;

/// The stack pointer `sp`.
pub const SP: usize = 2;

} // verus!
