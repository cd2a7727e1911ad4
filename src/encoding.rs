//! ckb-vm's packed instruction layouts, and the trusted calls into ckb-vm
//! that produce them.
//!
//! An opcode `op` sits in the low byte and, for its high byte, in bits 16 to
//! 23; a register index takes one byte, an immediate the bits from 32 or 40
//! upwards.
use crate::codec::bits32;
use crate::opcodes::OP_ADDI;
use ckb_vm::instructions::{blank_instruction, i::nop, Itype, Rtype, Stype, Utype};
use vstd::prelude::*;

verus! {

/// The opcode bits of the packed form.
pub open spec fn op_bits(op: u16) -> u64 {
    (((op as u64) >> 8u64) << 16u64) | ((op as u64) & 0xffu64)
}

/// A register index cut to the byte that holds it.
pub open spec fn reg_byte(r: usize) -> u64 {
    (r % 256) as u64
}

/// Register-register form.
pub open spec fn rtype(op: u16, rd: usize, rs1: usize, rs2: usize) -> u64 {
    op_bits(op) | (reg_byte(rd) << 8u64) | (reg_byte(rs1) << 32u64) | (reg_byte(rs2) << 40u64)
}

/// Register-immediate form.
pub open spec fn itype(op: u16, rd: usize, rs1: usize, imm: u32) -> u64 {
    op_bits(op) | (reg_byte(rd) << 8u64) | (reg_byte(rs1) << 32u64) | ((imm as u64) << 40u64)
}

/// Store and branch form.
pub open spec fn stype(op: u16, imm: u32, rs1: usize, rs2: usize) -> u64 {
    op_bits(op) | (reg_byte(rs2) << 8u64) | (reg_byte(rs1) << 32u64) | ((imm as u64) << 40u64)
}

/// Upper-immediate and jump form.
pub open spec fn utype(op: u16, rd: usize, imm: u32) -> u64 {
    op_bits(op) | (reg_byte(rd) << 8u64) | ((imm as u64) << 32u64)
}

/// An instruction with no operands.
pub open spec fn blank(op: u16) -> u64 {
    op_bits(op)
}

/// The no-op, `addi x0, x0, 0`.
pub open spec fn nop_inst() -> u64 {
    itype(OP_ADDI, 0, 0, 0)
}

/// Relies on ckb_vm::instructions::Rtype::new: packs an opcode and three
/// register indices.
#[verifier::external_body]
pub(crate) fn rtype_new(op: u16, rd: usize, rs1: usize, rs2: usize) -> (r: u64)
    ensures
        r == rtype(op, rd, rs1, rs2),
{
    Rtype::new(op, rd, rs1, rs2).0
}

/// Relies on ckb_vm::instructions::Itype::new_u: packs an opcode, two
/// register indices and an unsigned immediate.
#[verifier::external_body]
pub(crate) fn itype_new_u(op: u16, rd: usize, rs1: usize, imm: u32) -> (r: u64)
    ensures
        r == itype(op, rd, rs1, imm),
{
    Itype::new_u(op, rd, rs1, imm).0
}

/// Relies on ckb_vm::instructions::Itype::new_s: packs an opcode, two
/// register indices and the 32-bit pattern of a signed immediate.
#[verifier::external_body]
pub(crate) fn itype_new_s(op: u16, rd: usize, rs1: usize, imm: i32) -> (r: u64)
    ensures
        r == itype(op, rd, rs1, bits32(imm as int)),
{
    Itype::new_s(op, rd, rs1, imm).0
}

/// Relies on ckb_vm::instructions::Stype::new_u: packs an opcode, an
/// unsigned immediate and two register indices.
#[verifier::external_body]
pub(crate) fn stype_new_u(op: u16, imm: u32, rs1: usize, rs2: usize) -> (r: u64)
    ensures
        r == stype(op, imm, rs1, rs2),
{
    Stype::new_u(op, imm, rs1, rs2).0
}

/// Relies on ckb_vm::instructions::Stype::new_s: packs an opcode, the
/// 32-bit pattern of a signed immediate and two register indices.
#[verifier::external_body]
pub(crate) fn stype_new_s(op: u16, imm: i32, rs1: usize, rs2: usize) -> (r: u64)
    ensures
        r == stype(op, bits32(imm as int), rs1, rs2),
{
    Stype::new_s(op, imm, rs1, rs2).0
}

/// Relies on ckb_vm::instructions::Utype::new_s: packs an opcode, a register
/// index and the 32-bit pattern of a signed immediate.
#[verifier::external_body]
pub(crate) fn utype_new_s(op: u16, rd: usize, imm: i32) -> (r: u64)
    ensures
        r == utype(op, rd, bits32(imm as int)),
{
    Utype::new_s(op, rd, imm).0
}

/// Relies on ckb_vm::instructions::blank_instruction: the opcode bits alone.
#[verifier::external_body]
pub(crate) fn blank_new(op: u16) -> (r: u64)
    ensures
        r == blank(op),
{
    blank_instruction(op)
}

/// Relies on ckb_vm::instructions::i::nop: `addi x0, x0, 0`.
#[verifier::external_body]
pub(crate) fn nop_new() -> (r: u64)
    ensures
        r == nop_inst(),
{
    nop()
}

/// Relies on ckb_vm::instructions::Rtype::rd: the byte at bits 8 to 15.
#[verifier::external_body]
pub(crate) fn rtype_rd(i: u64) -> (r: usize)
    ensures
        r as u64 == (i >> 8u64) & 0xffu64,
{
    Rtype(i).rd()
}

/// Relies on ckb_vm::instructions::Rtype::rs1: the byte at bits 32 to 39.
#[verifier::external_body]
pub(crate) fn rtype_rs1(i: u64) -> (r: usize)
    ensures
        r as u64 == (i >> 32u64) & 0xffu64,
{
    Rtype(i).rs1()
}

/// Relies on ckb_vm::instructions::Rtype::rs2: the byte at bits 40 to 47.
#[verifier::external_body]
pub(crate) fn rtype_rs2(i: u64) -> (r: usize)
    ensures
        r as u64 == (i >> 40u64) & 0xffu64,
{
    Rtype(i).rs2()
}

} // verus!
