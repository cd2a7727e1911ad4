use ckb_vm_decoder::codec::{
    btype_immediate, funct3, funct7, itype_immediate, jtype_immediate, rd, rs1, rs2,
    stype_immediate, utype_immediate, x, xs,
};
use ckb_vm_decoder::rvc::{
    b_immediate, c_rs2, compact_register_number, fld_uimmediate, fldsp_uimmediate,
    fsdsp_uimmediate, immediate, j_immediate, lwsp_uimmediate, sw_uimmediate, swsp_uimmediate,
    uimmediate,
};
use ckb_vm_decoder::vector::vm;

#[test]
fn extract_reads_a_field() {
    assert_eq!(x(0xABCD_1234, 4, 8, 0), 0x23);
    assert_eq!(x(0xABCD_1234, 4, 8, 4), 0x230);
    assert_eq!(x(0xFFFF_FFFF, 0, 31, 0), 0x7FFF_FFFF);
    assert_eq!(x(0x8000_0000, 31, 1, 0), 1);
    assert_eq!(x(0x0000_00F0, 0, 4, 0), 0);
}

#[test]
fn extract_signed_twelve_bit_all_ones_is_minus_one() {
    assert_eq!(xs(0xFFF << 20, 20, 12, 0) as i32, -1);
    assert_eq!(xs(0x7FF << 20, 20, 12, 0) as i32, 0x7FF);
    assert_eq!(xs(0x800 << 20, 20, 12, 0) as i32, -2048);
    assert_eq!(xs(1 << 12, 12, 1, 5) as i32, -32);
    assert_eq!(xs(0, 12, 1, 5) as i32, 0);
    assert_eq!(xs(0x8000_0000, 0, 32, 0), 0x8000_0000);
    assert_eq!(xs(0xFFFF_F000, 12, 20, 12) as i32, -4096);
}

#[test]
fn standard_fields() {
    // add x3, x1, x2
    let w = 0x0020_81B3;
    assert_eq!(rd(w), 3);
    assert_eq!(rs1(w), 1);
    assert_eq!(rs2(w), 2);
    assert_eq!(funct3(w), 0);
    assert_eq!(funct7(0x4020_81B3), 0x20);
    assert_eq!(funct3(0x0000_7033), 7);
}

#[test]
fn standard_immediates() {
    // addi x1, x0, -1
    assert_eq!(itype_immediate(0xFFF0_0093), -1);
    // beq x1, x2, 8
    assert_eq!(btype_immediate(0x0020_8463), 8);
    // bne x1, x2, -4
    assert_eq!(btype_immediate(0xFE20_9EE3), -4);
    // sw x2, 12(x1)
    assert_eq!(stype_immediate(0x0020_A623), 12);
    // sw x2, -8(x1)
    assert_eq!(stype_immediate(0xFE20_AC23), -8);
    // lui x1, 0x12345
    assert_eq!(utype_immediate(0x1234_50B7), 0x1234_5000);
    // lui x1, 0xFFFFF
    assert_eq!(utype_immediate(0xFFFF_F0B7), -4096);
    // jal x0, -4
    assert_eq!(jtype_immediate(0xFFDF_F06F), -4);
    // jal x1, 2048
    assert_eq!(jtype_immediate(0x0010_00EF), 2048);
}

#[test]
fn compact_register_remapping() {
    assert_eq!(compact_register_number(0, 2), 8);
    assert_eq!(compact_register_number(0b111 << 2, 2), 15);
    assert_eq!(compact_register_number(0b111 << 7, 7), 15);
    assert_eq!(compact_register_number(0b011 << 7, 7), 11);
    assert_eq!(compact_register_number(0b111 << 7, 2), 8);
}

#[test]
fn compressed_immediates() {
    // c.addi x1, -1: imm[5] = 1, imm[4:0] = 31
    assert_eq!(immediate(0x10FD), -1);
    assert_eq!(immediate(0x0085), 1);
    assert_eq!(uimmediate(0x107D), 63);
    assert_eq!(c_rs2(0x908A), 2);
    // c.j -2: every offset bit set
    assert_eq!(j_immediate(0xBFFD), -2);
    // c.j 2: offset[1] in bit 3
    assert_eq!(j_immediate(0xA009), 2);
    // c.j 16: offset[4] in bit 11
    assert_eq!(j_immediate(0xA801), 16);
    // c.beqz x8, -2
    assert_eq!(b_immediate(0xDC7D), -2);
    // c.beqz x8, 6: offset[2:1] in bits 4:3
    assert_eq!(b_immediate(0xC019), 6);
    // c.ld: uimm[5:3] = 7, uimm[7:6] = 3
    assert_eq!(fld_uimmediate(0x1C60), 0xF8);
    // c.lw: uimm[2] = 1 (bit 6), uimm[6] = 1 (bit 5)
    assert_eq!(sw_uimmediate(0x0060), 0x44);
    assert_eq!(sw_uimmediate(0x1C00), 0x38);
    // c.lwsp: uimm[4:2] in bits 6:4, uimm[5] in bit 12, uimm[7:6] in bits 3:2
    assert_eq!(lwsp_uimmediate(0x107C), 0xFC);
    assert_eq!(lwsp_uimmediate(0x000C), 0xC0);
    // c.ldsp: uimm[4:3] in bits 6:5, uimm[5] in bit 12, uimm[8:6] in bits 4:2
    assert_eq!(fldsp_uimmediate(0x107C), 0x1F8);
    assert_eq!(fldsp_uimmediate(0x0060), 0x18);
    // c.sdsp: uimm[5:3] in bits 12:10, uimm[8:6] in bits 9:7
    assert_eq!(fsdsp_uimmediate(0x1F80), 0x1F8);
    assert_eq!(fsdsp_uimmediate(0x0380), 0x1C0);
    // c.swsp: uimm[5:2] in bits 12:9, uimm[7:6] in bits 8:7
    assert_eq!(swsp_uimmediate(0x1F80), 0xFC);
    assert_eq!(swsp_uimmediate(0x0180), 0xC0);
}

#[test]
fn vector_mask_flag() {
    assert!(vm(0x0200_0000));
    assert!(!vm(0x01FF_FFFF));
}
