//! Bit-field codec: reading plain and sign-extended fields out of an
//! instruction word.
use vstd::arithmetic::div_mod::lemma_small_mod;
use vstd::arithmetic::mul::lemma_mul_inequality;
use vstd::arithmetic::power2::{
    lemma2_to64, lemma2_to64_rest, lemma_pow2_adds, lemma_pow2_pos, lemma_pow2_strictly_increases, lemma_pow2_unfold, pow2,
};
use vstd::bits::{
    lemma_u32_low_bits_mask_is_mod, lemma_u32_pow2_no_overflow, lemma_u32_shl_is_mul, lemma_u32_shr_is_div, lemma_u64_pow2_no_overflow, lemma_u64_shl_is_mul,
    low_bits_mask,
};
use vstd::prelude::*;

verus! {

/// The `length` bits of `w` that start at bit `lower`, as a number.
pub open spec fn bits(w: u32, lower: nat, length: nat) -> nat {
    (w as nat / pow2(lower)) % pow2(length)
}

/// The two's-complement value of a `length`-bit field `v`.
pub open spec fn sext(v: nat, length: nat) -> int {
    if length > 0 && v >= pow2((length - 1) as nat) {
        v - pow2(length)
    } else {
        v as int
    }
}

proof fn lemma_pow2_le(a: nat, b: nat)
    requires
        a <= b,
    ensures
        pow2(a) <= pow2(b),
{
    if a < b {
        lemma_pow2_strictly_increases(a, b);
    }
}

/// Returns bits `[lower, lower + length)` of `w`, right-justified and then
/// shifted left by `shifts`.
pub fn x(w: u32, lower: usize, length: usize, shifts: usize) -> (r: u32)
    requires
        1 <= length,
        lower + length <= 32,
        length + shifts <= 32,
    ensures
        r as nat == bits(w, lower as nat, length as nat) * pow2(shifts as nat),
{
    if length == 32 {
        proof {
            lemma2_to64();
            lemma2_to64_rest();
            assert(lower == 0 && shifts == 0);
            assert(w as nat / 1 == w as nat);
            lemma_small_mod(w as nat, 0x1_0000_0000);
            assert(bits(w, 0, 32) == w as nat);
        }
        return w;
    }
    let lo = lower as u32;
    let len = length as u32;
    let sh = shifts as u32;
    proof {
        lemma_u32_pow2_no_overflow(len as nat);
        lemma_u32_shl_is_mul(1, len);
    }
    let shifted = w >> lo;
    let mask = (1u32 << len) - 1;
    let field = shifted & mask;
    proof {
        lemma_u32_shr_is_div(w, lo);
        lemma_u32_low_bits_mask_is_mod(shifted, len as nat);
        assert(mask == low_bits_mask(len as nat) as u32);
        lemma_pow2_pos(len as nat);
        lemma_pow2_pos(sh as nat);
        assert(field < pow2(len as nat));
        lemma_mul_inequality(field as int, pow2(len as nat) as int, pow2(sh as nat) as int);
        lemma_pow2_adds(len as nat, sh as nat);
        lemma_pow2_le((len + sh) as nat, 32);
        lemma2_to64();
        lemma2_to64_rest();
        assert(field * pow2(sh as nat) <= u32::MAX) by (nonlinear_arith)
            requires
                field < pow2(len as nat),
                pow2(len as nat) * pow2(sh as nat) <= pow2(32),
                pow2(32) == 0x1_0000_0000,
                pow2(sh as nat) > 0,
        ;
        lemma_u32_shl_is_mul(field, sh);
    }
    field << sh
}

/// The value of the 32-bit pattern `r` read as a two's-complement integer.
pub open spec fn i32_of(r: u32) -> int {
    if r >= 0x8000_0000 {
        r - 0x1_0000_0000
    } else {
        r as int
    }
}

/// Reads the 32-bit pattern `r` as a two's-complement `i32`.
pub fn to_signed(r: u32) -> (v: i32)
    ensures
        v as int == i32_of(r),
{
    if r >= 0x8000_0000 {
        ((r - 0x8000_0000) as i32) - 0x4000_0000 - 0x4000_0000
    } else {
        r as i32
    }
}

/// Returns bits `[lower, lower + length)` of `w` with the top one of them
/// taken as the sign, sign-extended to 32 bits and then shifted left by
/// `shifts`; the result is the bit pattern of that `i32`.
pub fn xs(w: u32, lower: usize, length: usize, shifts: usize) -> (r: u32)
    requires
        1 <= length,
        lower + length <= 32,
        length + shifts <= 32,
    ensures
        i32_of(r) == sext(bits(w, lower as nat, length as nat), length as nat) * pow2(shifts as nat),
{
    proof {
        lemma2_to64();
        lemma2_to64_rest();
    }
    if length == 32 {
        proof {
            assert(lower == 0 && shifts == 0);
            assert(w as nat / 1 == w as nat);
            lemma_small_mod(w as nat, 0x1_0000_0000);
            assert(bits(w, 0, 32) == w as nat);
            assert(sext(w as nat, 32) == i32_of(w));
        }
        return w;
    }
    let field = x(w, lower, length, 0);
    let len = length as u32;
    let sh = shifts as u32;
    proof {
        lemma_u32_pow2_no_overflow((len - 1) as nat);
        lemma_u32_shl_is_mul(1, (len - 1) as u32);
        lemma_u64_pow2_no_overflow(len as nat);
        lemma_u64_shl_is_mul(1, len as u64);
        lemma_u64_pow2_no_overflow(sh as nat);
        lemma_u64_shl_is_mul(1, sh as u64);
        lemma_pow2_unfold(len as nat);
        lemma_pow2_pos((len - 1) as nat);
        lemma_pow2_pos(sh as nat);
        lemma_pow2_adds((len - 1) as nat, sh as nat);
        lemma_pow2_le((len - 1 + sh) as nat, 31);
    }
    let half = 1u32 << (len - 1);
    let full = 1u64 << (len as u64);
    let scale = 1u64 << (sh as u64);
    let v: i64 = if field >= half {
        field as i64 - full as i64
    } else {
        field as i64
    };
    proof {
        let h = pow2((len - 1) as nat) as int;
        let p = pow2(sh as nat) as int;
        assert(-h <= v < h);
        assert(h * p <= 0x8000_0000);
        assert(-0x8000_0000 <= v * p < 0x8000_0000) by (nonlinear_arith)
            requires
                -h <= v < h,
                h * p <= 0x8000_0000,
                p > 0,
        ;
    }
    let prod: i64 = v * (scale as i64);
    if prod < 0 {
        (prod + 0x1_0000_0000) as u32
    } else {
        prod as u32
    }
}


/// A field read, with the bound that its width gives.
pub proof fn lemma_bits_bound(w: u32, lower: nat, length: nat)
    ensures
        bits(w, lower, length) < pow2(length),
{
    lemma_pow2_pos(length);
    lemma_pow2_pos(lower);
}

/// Or-ing the `k` low bits `acc` with a field placed at or above bit `k`
/// adds the two.
pub proof fn lemma_join(acc: u32, p: u32, k: u32)
    requires
        k < 32,
        acc < pow2(k as nat),
        p as nat % pow2(k as nat) == 0,
    ensures
        acc | p == acc + p,
{
    lemma_u32_pow2_no_overflow(k as nat);
    lemma_u32_shl_is_mul(1, k);
    lemma_u32_low_bits_mask_is_mod(p, k as nat);
    let m: u32 = (1u32 << k);
    assert(low_bits_mask(k as nat) as u32 == (m - 1) as u32);
    assert(p & ((m - 1) as u32) == 0);
    assert(acc < m);
    assert((acc | p) == (acc + p) as u32 && acc <= (0xFFFF_FFFFu32 - p) as u32) by (bit_vector)
        requires
            acc < m,
            p & ((m - 1) as u32) == 0,
            m == 1u32 << k,
            k < 32,
    ;
}

/// The `funct3` field, bits 12 to 14.
pub fn funct3(w: u32) -> (r: u32)
    ensures
        r as nat == bits(w, 12, 3),
{
    proof {
        lemma2_to64();
    }
    x(w, 12, 3, 0)
}

/// The `funct7` field, bits 25 to 31.
pub fn funct7(w: u32) -> (r: u32)
    ensures
        r as nat == bits(w, 25, 7),
{
    proof {
        lemma2_to64();
    }
    x(w, 25, 7, 0)
}

/// The destination register field of a full-width word.
pub open spec fn rd_of(w: u32) -> usize {
    bits(w, 7, 5) as usize
}

/// The first source register field of a full-width word.
pub open spec fn rs1_of(w: u32) -> usize {
    bits(w, 15, 5) as usize
}

/// The second source register field of a full-width word.
pub open spec fn rs2_of(w: u32) -> usize {
    bits(w, 20, 5) as usize
}

/// The 32-bit two's-complement pattern of `v`.
pub open spec fn bits32(v: int) -> u32 {
    (v % 0x1_0000_0000) as u32
}

/// The 32-bit two's-complement pattern of `v`.
pub fn to_unsigned(v: i32) -> (r: u32)
    ensures
        r == bits32(v as int),
{
    if v < 0 {
        (v as i64 + 0x1_0000_0000) as u32
    } else {
        v as u32
    }
}

/// The destination register, bits 7 to 11.
pub fn rd(w: u32) -> (r: usize)
    ensures
        r as nat == bits(w, 7, 5),
        r == rd_of(w),
        r < 32,
{
    proof {
        lemma2_to64();
        lemma_bits_bound(w, 7, 5);
    }
    x(w, 7, 5, 0) as usize
}

/// The first source register, bits 15 to 19.
pub fn rs1(w: u32) -> (r: usize)
    ensures
        r as nat == bits(w, 15, 5),
        r == rs1_of(w),
        r < 32,
{
    proof {
        lemma2_to64();
        lemma_bits_bound(w, 15, 5);
    }
    x(w, 15, 5, 0) as usize
}

/// The second source register, bits 20 to 24.
pub fn rs2(w: u32) -> (r: usize)
    ensures
        r as nat == bits(w, 20, 5),
        r == rs2_of(w),
        r < 32,
{
    proof {
        lemma2_to64();
        lemma_bits_bound(w, 20, 5);
    }
    x(w, 20, 5, 0) as usize
}

/// The U-type immediate: bits 12 to 31 as the upper 20 bits of an `i32`.
pub open spec fn utype_imm(w: u32) -> int {
    sext(bits(w, 12, 20), 20) * 4096
}

/// The I-type immediate: bits 20 to 31, sign-extended.
pub open spec fn itype_imm(w: u32) -> int {
    sext(bits(w, 20, 12), 12)
}

/// The B-type offset, `imm[12|10:5]` in bits 25 to 31 and `imm[4:1|11]` in
/// bits 7 to 11.
pub open spec fn btype_imm(w: u32) -> int {
    bits(w, 8, 4) * 2 + bits(w, 25, 6) * 32 + bits(w, 7, 1) * 2048 + sext(bits(w, 31, 1), 1)
        * 4096
}

/// The J-type offset, `imm[20|10:1|11|19:12]` in bits 31 to 12.
pub open spec fn jtype_imm(w: u32) -> int {
    bits(w, 21, 10) * 2 + bits(w, 20, 1) * 2048 + bits(w, 12, 8) * 4096 + sext(bits(w, 31, 1), 1)
        * 0x10_0000
}

/// The S-type immediate, `imm[11:5]` in bits 25 to 31 and `imm[4:0]` in bits
/// 7 to 11.
pub open spec fn stype_imm(w: u32) -> int {
    bits(w, 7, 5) + sext(bits(w, 25, 7), 7) * 32
}

/// The U-type immediate of `w`.
pub fn utype_immediate(w: u32) -> (r: i32)
    ensures
        r as int == utype_imm(w),
{
    proof {
        lemma2_to64();
    }
    to_signed(xs(w, 12, 20, 12))
}

/// The I-type immediate of `w`.
pub fn itype_immediate(w: u32) -> (r: i32)
    ensures
        r as int == itype_imm(w),
{
    proof {
        lemma2_to64();
    }
    to_signed(xs(w, 20, 12, 0))
}

/// The B-type offset of `w`.
pub fn btype_immediate(w: u32) -> (r: i32)
    ensures
        r as int == btype_imm(w),
{
    proof {
        lemma2_to64();
        lemma2_to64_rest();
    }
    let a = x(w, 8, 4, 1);
    let b = x(w, 25, 6, 5);
    let c = x(w, 7, 1, 11);
    let d = xs(w, 31, 1, 12);
    proof {
        lemma_bits_bound(w, 8, 4);
        lemma_bits_bound(w, 25, 6);
        lemma_bits_bound(w, 7, 1);
        lemma_join(a, b, 5);
        lemma_join(a | b, c, 11);
        lemma_join(a | b | c, d, 12);
    }
    to_signed(a | b | c | d)
}

/// The S-type immediate of `w`.
pub fn stype_immediate(w: u32) -> (r: i32)
    ensures
        r as int == stype_imm(w),
{
    proof {
        lemma2_to64();
        lemma2_to64_rest();
    }
    let a = x(w, 7, 5, 0);
    let b = xs(w, 25, 7, 5);
    proof {
        lemma_bits_bound(w, 7, 5);
        lemma_join(a, b, 5);
    }
    to_signed(a | b)
}


/// The J-type offset of `w`.
pub fn jtype_immediate(w: u32) -> (r: i32)
    ensures
        r as int == jtype_imm(w),
{
    proof {
        lemma2_to64();
        lemma2_to64_rest();
    }
    let a = x(w, 21, 10, 1);
    let b = x(w, 20, 1, 11);
    let c = x(w, 12, 8, 12);
    let d = xs(w, 31, 1, 20);
    proof {
        lemma_bits_bound(w, 21, 10);
        lemma_bits_bound(w, 20, 1);
        lemma_bits_bound(w, 12, 8);
        lemma_join(a, b, 11);
        lemma_join(a | b, c, 12);
        lemma_join(a | b | c, d, 20);
    }
    to_signed(a | b | c | d)
}

} // verus!
