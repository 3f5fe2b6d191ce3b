use vstd::prelude::*;
use vstd::arithmetic::power2::{pow2, lemma2_to64, lemma_pow2_pos};
use vstd::arithmetic::div_mod::{lemma_fundamental_div_mod, lemma_fundamental_div_mod_converse, lemma_div_nonincreasing};
use vstd::bits::{lemma_u32_shr_is_div, lemma_u64_shl_is_mul, lemma_u32_pow2_no_overflow};

verus! {

/// The 32-bit word that holds the integer `v` modulo 2^32.
pub open spec fn wrap32(v: int) -> u32 {
    (v % 0x1_0000_0000) as u32
}

/// The integer that the word `x` stands for in two's complement.
pub open spec fn signed(x: u32) -> int {
    if x < 0x8000_0000 {
        x as int
    } else {
        x as int - 0x1_0000_0000
    }
}

/// The `width` bits of `word` that start at bit `lo`, as a number.
pub open spec fn field(word: u32, lo: nat, width: nat) -> u32 {
    ((word as nat / pow2(lo)) % pow2(width)) as u32
}

/// The signed value of the 12-bit immediate held in the low 12 bits of `imm`.
pub open spec fn imm12(imm: u32) -> int {
    let v = imm % 4096;
    if v < 2048 {
        v as int
    } else {
        v as int - 4096
    }
}

/// The low 12 bits of `imm`, sign-extended to a 32-bit word.
pub open spec fn sext12(imm: u32) -> u32 {
    wrap32(imm12(imm))
}

/// `a + b` modulo 2^32.
pub open spec fn add32(a: u32, b: u32) -> u32 {
    wrap32(a + b)
}

/// `a - b` modulo 2^32.
pub open spec fn sub32(a: u32, b: u32) -> u32 {
    wrap32(a - b)
}

/// The word that a set-less-than instruction writes: 1 if `c` holds, else 0.
pub open spec fn flag(c: bool) -> u32 {
    if c {
        1
    } else {
        0
    }
}

/// The shift amount that a 32-bit shift takes from `s`: its low 5 bits.
pub open spec fn shamt(s: u32) -> nat {
    (s % 32) as nat
}

/// Logical left shift of `x` by the low 5 bits of `s`.
pub open spec fn sll32(x: u32, s: u32) -> u32 {
    wrap32(x * pow2(shamt(s)))
}

/// Logical right shift of `x` by the low 5 bits of `s`.
pub open spec fn srl32(x: u32, s: u32) -> u32 {
    (x as nat / pow2(shamt(s))) as u32
}

/// Arithmetic right shift of `x` by the low 5 bits of `s`: the signed value
/// divided by a power of two, rounded towards minus infinity.
pub open spec fn sra32(x: u32, s: u32) -> u32 {
    wrap32(signed(x) / pow2(shamt(s)) as int)
}

proof fn lemma_mask_is_mod32(s: u32)
    ensures
        s & 31 == s % 32,
{
    assert(s & 31 == s % 32) by (bit_vector);
}

/// Sign extension copies bit 11 of the immediate into bits 12 to 31 and keeps
/// bits 0 to 11.
pub proof fn law_sign_extension_copies_bit_11(imm: u32)
    ensures
        sext12(imm) == (if imm & 0x800 == 0 {
            imm & 0xFFF
        } else {
            imm | 0xFFFF_F000
        }),
{
    let v: u32 = imm & 0xFFF;
    assert(v == imm % 4096 && v < 4096 && (imm & 0x800 == 0 <==> v < 2048)
        && v | 0xFFFF_F000 == v + 0xFFFF_F000 && imm | 0xFFFF_F000 == v | 0xFFFF_F000)
        by (bit_vector)
        requires
            v == imm & 0xFFF,
    ;
}

/// A left shift by the low 5 bits of `s` is Rust's `<<` by those bits: the bits
/// shifted past bit 31 are lost and zeros come in at the bottom.
pub proof fn law_shift_left_is_shl(x: u32, s: u32)
    ensures
        sll32(x, s) == x << (s & 31),
{
    let t: u32 = s & 31;
    lemma_mask_is_mod32(s);
    let y: u64 = (x as u64) << (t as u64);
    assert(x << t == ((x as u64) << (t as u64)) as u32) by (bit_vector)
        requires
            t < 32,
    ;
    lemma_u32_pow2_no_overflow(t as nat);
    lemma_pow2_pos(t as nat);
    assert((x as u64) * pow2(t as nat) <= u64::MAX) by (nonlinear_arith)
        requires
            x <= 0xFFFF_FFFF,
            pow2(t as nat) <= 0xFFFF_FFFF,
    ;
    lemma_u64_shl_is_mul(x as u64, t as u64);
    assert(y as u32 == (y % 0x1_0000_0000) as u32) by (bit_vector);
}

/// A logical right shift by the low 5 bits of `s` is Rust's `>>` on the unsigned
/// word by those bits.
pub proof fn law_shift_right_logical_is_shr(x: u32, s: u32)
    ensures
        srl32(x, s) == x >> (s & 31),
{
    lemma_mask_is_mod32(s);
    lemma_u32_shr_is_div(x, s & 31);
}

/// The word that `x` holds after an arithmetic right shift by `t` bits, read
/// bit by bit: a non-negative word shifts in zeros, a negative one shifts in ones.
pub open spec fn sra_bits(x: u32, t: u32) -> u32 {
    if x < 0x8000_0000 {
        x >> t
    } else {
        !((!x) >> t)
    }
}

/// The bitwise form of an arithmetic right shift agrees with its arithmetic form.
proof fn lemma_sra_bits_is_floor_div(x: u32, t: u32)
    requires
        t < 32,
    ensures
        sra_bits(x, t) == wrap32(signed(x) / pow2(t as nat) as int),
{
    let p: int = pow2(t as nat) as int;
    lemma_pow2_pos(t as nat);
    lemma_u32_pow2_no_overflow(t as nat);
    if x < 0x8000_0000 {
        lemma_u32_shr_is_div(x, t);
        lemma_div_nonincreasing(x as int, p);
        assert(x as int / p >= 0) by (nonlinear_arith)
            requires x >= 0, p > 0;
    } else {
        let n: u32 = !x;
        assert(n == 0xFFFF_FFFF - x) by (bit_vector)
            requires n == !x;
        let m: u32 = n >> t;
        lemma_u32_shr_is_div(n, t);
        assert(m == n as int / p);
        lemma_fundamental_div_mod(n as int, p);
        let r: int = n as int % p;
        assert(0 <= r < p) by (nonlinear_arith)
            requires p > 0, r == n as int % p;
        assert(-(n as int) - 1 == (-(m as int) - 1) * p + (p - 1 - r)) by (nonlinear_arith)
            requires n as int == p * (m as int) + r;
        lemma_fundamental_div_mod_converse(-(n as int) - 1, p, -(m as int) - 1, p - 1 - r);
        assert(signed(x) == -(n as int) - 1);
        assert(!m == 0xFFFF_FFFF - m) by (bit_vector);
    }
}

/// An arithmetic right shift by the low 5 bits of `s` is Rust's `>>` on the word
/// read as an `i32`.
pub proof fn law_shift_right_arith_is_signed_shr(x: u32, s: u32)
    ensures
        sra32(x, s) == ((x as i32) >> (s & 31)) as u32,
{
    let t: u32 = s & 31;
    lemma_mask_is_mod32(s);
    assert(((x as i32) >> t) as u32 == sra_bits(x, t)) by (bit_vector)
        requires
            t < 32,
    ;
    lemma_sra_bits_is_floor_div(x, t);
}

/// The two's complement reading of a word is the one Rust's `as i32` gives:
/// comparing two readings is comparing the words as `i32`. Each reading lies in
/// the `i32` range and differs from the word by a multiple of 2^32.
pub proof fn law_signed_is_i32(a: u32, b: u32)
    ensures
        (signed(a) < signed(b)) == ((a as i32) < (b as i32)),
        -0x8000_0000 <= signed(a) < 0x8000_0000,
        signed(a) == a || signed(a) == a - 0x1_0000_0000,
{
    assert((a as i32) < (b as i32) <==> (a ^ 0x8000_0000) < (b ^ 0x8000_0000)) by (bit_vector);
    assert(a ^ 0x8000_0000 == (if a < 0x8000_0000 {
        a + 0x8000_0000
    } else {
        a - 0x8000_0000
    })) by (bit_vector);
    assert(b ^ 0x8000_0000 == (if b < 0x8000_0000 {
        b + 0x8000_0000
    } else {
        b - 0x8000_0000
    })) by (bit_vector);
}

/// Wrapping addition gives `a + b`, less 2^32 when the sum overflows; wrapping
/// subtraction gives `a - b`, plus 2^32 when the difference is negative.
pub proof fn law_wrapping_add_sub(a: u32, b: u32)
    ensures
        add32(a, b) as int == (if a + b < 0x1_0000_0000 {
            a + b
        } else {
            a + b - 0x1_0000_0000
        }),
        sub32(a, b) as int == (if a >= b {
            a - b
        } else {
            a - b + 0x1_0000_0000
        }),
{
}

/// Sign-extends the 12-bit immediate held in the low 12 bits of `imm`.
pub fn sign_extend_imm12(imm: u32) -> (r: u32)
    ensures
        r == sext12(imm),
{
    proof {
        law_sign_extension_copies_bit_11(imm);
    }
    if imm & 0x800 != 0 {
        imm | 0xFFFF_F000
    } else {
        imm & 0xFFF
    }
}

/// Shifts `x` left by the low 5 bits of `s`.
pub fn shift_left(x: u32, s: u32) -> (r: u32)
    ensures
        r == sll32(x, s),
{
    proof {
        lemma_mask_is_mod32(s);
        law_shift_left_is_shl(x, s);
    }
    x << (s & 31)
}

/// Shifts `x` right by the low 5 bits of `s`, filling with zeros.
pub fn shift_right_logical(x: u32, s: u32) -> (r: u32)
    ensures
        r == srl32(x, s),
{
    proof {
        lemma_mask_is_mod32(s);
        law_shift_right_logical_is_shr(x, s);
    }
    x >> (s & 31)
}

/// Shifts `x` right by the low 5 bits of `s`, filling with copies of its sign bit.
pub fn shift_right_arith(x: u32, s: u32) -> (r: u32)
    ensures
        r == sra32(x, s),
{
    proof {
        lemma_mask_is_mod32(s);
        law_shift_right_arith_is_signed_shr(x, s);
    }
    ((x as i32) >> (s & 31)) as u32
}

/// Compares `a` and `b` as two's complement integers.
pub fn less_than_signed(a: u32, b: u32) -> (r: bool)
    ensures
        r == (signed(a) < signed(b)),
{
    proof {
        law_signed_is_i32(a, b);
    }
    (a as i32) < (b as i32)
}

/// Sign extension keeps the value of a 12-bit immediate: read in two's
/// complement, the extended word is the immediate's signed value.
pub proof fn law_sign_extension_keeps_value(imm: u32)
    ensures
        signed(sext12(imm)) == imm12(imm),
        -2048 <= imm12(imm) < 2048,
{
    let v: int = imm12(imm);
    if v < 0 {
        assert(v % 0x1_0000_0000 == v + 0x1_0000_0000);
    } else {
        assert(v % 0x1_0000_0000 == v);
    }
}

/// Subtraction undoes addition and addition undoes subtraction, overflow or not.
pub proof fn law_sub_undoes_add(a: u32, b: u32)
    ensures
        sub32(add32(a, b), b) == a,
        add32(sub32(a, b), b) == a,
{
}

/// `ADDI rd, rs1, 0` copies `rs1` (the MV pseudoinstruction).
pub proof fn law_addi_zero_is_move(a: u32)
    ensures
        add32(a, sext12(0)) == a,
{
}

/// `XORI rd, rs1, -1` inverts every bit of `rs1` (the NOT pseudoinstruction):
/// the 12-bit immediate -1 is the field 0xFFF.
pub proof fn law_xori_minus_one_is_not(a: u32)
    ensures
        imm12(0xFFF) == -1,
        a ^ sext12(0xFFF) == !a,
{
    assert(sext12(0xFFF) == 0xFFFF_FFFFu32);
    assert(a ^ 0xFFFF_FFFFu32 == !a) by (bit_vector);
}

/// `SLTIU rd, rs1, 1` sets `rd` to 1 if `rs1` is zero and to 0 otherwise (the SEQZ
/// pseudoinstruction).
pub proof fn law_sltiu_one_is_seqz(a: u32)
    ensures
        flag(a < sext12(1)) == flag(a == 0),
        flag(a < sext12(1)) == 1 <==> a == 0,
        flag(a < sext12(1)) == 0 <==> a != 0,
{
}

/// An arithmetic right shift copies the sign bit into the vacated upper bits: a
/// non-negative word shifts as a logical right shift does, a negative one is the
/// inverse of its inverse shifted logically.
pub proof fn law_sra_fills_with_sign_bit(x: u32, s: u32)
    ensures
        sra32(x, s) == sra_bits(x, (s % 32) as u32),
        x < 0x8000_0000 ==> sra32(x, s) == srl32(x, s),
{
    let t: u32 = (s % 32) as u32;
    lemma_sra_bits_is_floor_div(x, t);
    lemma_u32_shr_is_div(x, t);
}

/// LUI fills the lowest 12 bits of the word it builds with zeros.
pub proof fn law_upper_immediate_low_bits_zero(imm: u32)
    ensures
        sll32(imm, 12) % 4096 == 0,
{
    lemma2_to64();
    let p: int = imm as int * 4096;
    assert((p % 0x1_0000_0000) % 4096 == 0) by (nonlinear_arith)
        requires p == imm as int * 4096;
}

/// Adds `a` and `b`, ignoring overflow.
pub fn add_wrapping(a: u32, b: u32) -> (r: u32)
    ensures
        r == add32(a, b),
{
    a.wrapping_add(b)
}

/// Subtracts `b` from `a`, ignoring overflow.
pub fn sub_wrapping(a: u32, b: u32) -> (r: u32)
    ensures
        r == sub32(a, b),
{
    a.wrapping_sub(b)
}

} // verus!
