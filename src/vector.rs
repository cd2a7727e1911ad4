//! Builders for the vector extension.
//!
//! ckb-vm's packed form has no vector shapes, so the vector-vector,
//! vector-scalar and vector-immediate builders return their operands as a
//! `VectorInstruction`; the configuration-setting instructions use the
//! I-type and R-type forms.
use crate::codec::{bits, lemma_bits_bound, rd, rd_of, rs1, rs1_of, rs2, rs2_of, x};
use crate::encoding::{itype, itype_new_u, rtype, rtype_new};
use crate::{FactoryConfig, Instruction, InstructionOpcode};
use vstd::arithmetic::power2::lemma2_to64;
use vstd::prelude::*;

verus! {

/// A decoded vector instruction: its opcode, destination `vd`, source
/// `vs2`, the first operand (a register index, or the 5-bit immediate of
/// the vector-immediate shape) and whether it is unmasked (`vm`).
#[derive(Clone, Copy, Debug, PartialEq, Eq, Structural)]
pub struct VectorInstruction {
    pub opcode: InstructionOpcode,
    pub vd: usize,
    pub operand: u32,
    pub vs2: usize,
    pub vm: bool,
}

/// The `vm` flag, bit 25.
pub open spec fn vm_of(w: u32) -> bool {
    bits(w, 25, 1) == 1
}

/// The `vm` flag of `w`, bit 25.
pub fn vm(w: u32) -> (r: bool)
    ensures
        r == vm_of(w),
{
    proof {
        lemma2_to64();
        lemma_bits_bound(w, 25, 1);
    }
    x(w, 25, 1, 0) != 0
}

/// Vector-scalar shape: `vd`, `rs1`, `vs2` and `vm`.
pub fn vx_builder(w: u32, opcode: InstructionOpcode, _config: &FactoryConfig) -> (r: Option<
    VectorInstruction,
>)
    ensures
        r == Some(
            (VectorInstruction {
                opcode,
                vd: rd_of(w),
                operand: rs1_of(w) as u32,
                vs2: rs2_of(w),
                vm: vm_of(w),
            }),
        ),
{
    Some(VectorInstruction { opcode, vd: rd(w), operand: rs1(w) as u32, vs2: rs2(w), vm: vm(w) })
}

/// Vector-vector shape: `vd`, `vs1`, `vs2` and `vm`.
pub fn vv_builder(w: u32, opcode: InstructionOpcode, _config: &FactoryConfig) -> (r: Option<
    VectorInstruction,
>)
    ensures
        r == Some(
            (VectorInstruction {
                opcode,
                vd: rd_of(w),
                operand: rs1_of(w) as u32,
                vs2: rs2_of(w),
                vm: vm_of(w),
            }),
        ),
{
    Some(VectorInstruction { opcode, vd: rd(w), operand: rs1(w) as u32, vs2: rs2(w), vm: vm(w) })
}

/// Vector-immediate shape: `vd`, the 5-bit immediate in bits 15 to 19,
/// `vs2` and `vm`.
pub fn vi_builder(w: u32, opcode: InstructionOpcode, _config: &FactoryConfig) -> (r: Option<
    VectorInstruction,
>)
    ensures
        r == Some(
            (VectorInstruction {
                opcode,
                vd: rd_of(w),
                operand: bits(w, 15, 5) as u32,
                vs2: rs2_of(w),
                vm: vm_of(w),
            }),
        ),
{
    proof {
        lemma2_to64();
    }
    Some(
        VectorInstruction {
            opcode,
            vd: rd(w),
            operand: x(w, 15, 5, 0),
            vs2: rs2(w),
            vm: vm(w),
        },
    )
}

/// VSETVLI: `rd`, `rs1` and the 11-bit type immediate in bits 20 to 30.
pub fn vsetvli_builder(w: u32, opcode: InstructionOpcode, _config: &FactoryConfig) -> (r: Option<
    Instruction,
>)
    ensures
        r == Some(itype(opcode, rd_of(w), rs1_of(w), bits(w, 20, 11) as u32)),
{
    proof {
        lemma2_to64();
    }
    Some(itype_new_u(opcode, rd(w), rs1(w), x(w, 20, 11, 0)))
}

/// VSETIVLI: `rd`, the field in bits 15 to 19 and the 10-bit type
/// immediate in bits 20 to 29.
pub fn vsetivli_builder(w: u32, opcode: InstructionOpcode, _config: &FactoryConfig) -> (r: Option<
    Instruction,
>)
    ensures
        r == Some(itype(opcode, rd_of(w), rs1_of(w), bits(w, 20, 10) as u32)),
{
    proof {
        lemma2_to64();
    }
    Some(itype_new_u(opcode, rd(w), rs1(w), x(w, 20, 10, 0)))
}

/// VSETVL: `rd`, `rs1` and `rs2`, the type taken from a register.
pub fn vsetvl_builder(w: u32, opcode: InstructionOpcode, _config: &FactoryConfig) -> (r: Option<
    Instruction,
>)
    ensures
        r == Some(rtype(opcode, rd_of(w), rs1_of(w), rs2_of(w))),
{
    Some(rtype_new(opcode, rd(w), rs1(w), rs2(w)))
}

} // verus!
