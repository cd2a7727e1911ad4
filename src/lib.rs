//! Decoding of RISC-V instruction words into ckb-vm's packed instruction form.
use vstd::prelude::*;

pub mod builders;
pub mod codec;
pub mod dispatch;
pub mod encoding;
pub mod opcodes;
pub mod rvc;
pub mod table;
pub mod vector;

verus! {

/// An instruction in ckb-vm's packed 64-bit form.
pub type Instruction = u64;

/// An opcode number of ckb-vm's packed form.
pub type InstructionOpcode = u16;

/// What a decode needs to know of its target: the register width, the
/// version of the instruction-set rules, and the mask that a shift amount
/// is cut to.
pub struct FactoryConfig {
    rv32: bool,
    rv64: bool,
    version: u32,
    shift_masks: u8,
}

impl FactoryConfig {
    /// Registers are 32 bits wide.
    pub closed spec fn is_rv32(&self) -> bool {
        self.rv32
    }

    /// Registers are 64 bits wide.
    pub closed spec fn is_rv64(&self) -> bool {
        self.rv64
    }

    /// The version of the instruction-set rules in force.
    pub closed spec fn spec_version(&self) -> u32 {
        self.version
    }

    /// The mask that shift amounts are cut to.
    pub closed spec fn shift_mask(&self) -> u8 {
        self.shift_masks
    }

    /// At most one width flag is set.
    pub closed spec fn wf(&self) -> bool {
        !(self.rv32 && self.rv64)
    }

    /// The configuration for registers of `register_bits` bits (32, 64 or
    /// 128) under rules of version `version`. Shift amounts are cut to
    /// `register_bits - 1`, so that they stay below the width.
    pub fn new(register_bits: u8, version: u32) -> (r: Self)
        requires
            register_bits == 32 || register_bits == 64 || register_bits == 128,
        ensures
            r.is_rv32() == (register_bits == 32),
            r.is_rv64() == (register_bits == 64),
            !(r.is_rv32() && r.is_rv64()),
            r.spec_version() == version,
            r.shift_mask() == register_bits - 1,
            register_bits == 32 ==> r.shift_mask() == 0x1F,
            register_bits == 64 ==> r.shift_mask() == 0x3F,
            register_bits == 128 ==> r.shift_mask() == 0x7F,
            r.wf(),
    {
        FactoryConfig {
            rv32: register_bits == 32,
            rv64: register_bits == 64,
            version,
            shift_masks: register_bits - 1,
        }
    }

    /// Whether registers are 32 bits wide.
    pub fn rv32(&self) -> (r: bool)
        ensures
            r == self.is_rv32(),
    {
        self.rv32
    }

    /// Whether registers are 64 bits wide.
    pub fn rv64(&self) -> (r: bool)
        ensures
            r == self.is_rv64(),
    {
        self.rv64
    }

    /// The version of the instruction-set rules in force.
    pub fn version(&self) -> (r: u32)
        ensures
            r == self.spec_version(),
    {
        self.version
    }

    /// The mask that shift amounts are cut to.
    pub fn shift_masks(&self) -> (r: u8)
        ensures
            r == self.shift_mask(),
    {
        self.shift_masks
    }
}

} // verus!
