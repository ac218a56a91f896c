//! Laws of the arithmetic units, stated over the numbers involved: how the
//! result and the carries relate to the operands.

use vstd::prelude::*;
use crate::cpu::registers::Flags;
use super::alu::{BinaryOp, UnaryOp, add16, bit_set, daa};

verus! {

/// 1 for a set flag, 0 for a clear one.
pub open spec fn one_if(b: bool) -> int {
    if b {
        1
    } else {
        0
    }
}

/// ADD and ADC: the result plus 256 times the carry out is the sum of the
/// operands and the carry in; H is the carry out of the low nibbles; Z tells
/// a zero result; N is clear.
pub proof fn lemma_add(a: u8, x: u8, f: Flags)
    ensures
        ({
            let (r, g) = BinaryOp::Add.apply(a, x, f);
            &&& r + 256 * one_if(g.c) == a + x
            &&& g.h == (a % 16 + x % 16 >= 16)
            &&& g.z == (r == 0)
            &&& !g.n
        }),
        ({
            let ci = one_if(f.c);
            let (r, g) = BinaryOp::Adc.apply(a, x, f);
            &&& r + 256 * one_if(g.c) == a + x + ci
            &&& g.h == (a % 16 + x % 16 + ci >= 16)
            &&& g.z == (r == 0)
            &&& !g.n
        }),
{
}

/// SUB and SBC: the result is the difference of the operands, less the
/// carry in, plus 256 when that borrows, and C tells the borrow; H is the
/// borrow from the high nibble; Z tells a zero result; N is set.
pub proof fn lemma_sub(a: u8, x: u8, f: Flags)
    ensures
        ({
            let (r, g) = BinaryOp::Sub.apply(a, x, f);
            &&& r == a - x + 256 * one_if(g.c)
            &&& g.c == (a < x)
            &&& g.h == (a % 16 < x % 16)
            &&& g.z == (r == 0)
            &&& g.n
        }),
        ({
            let ci = one_if(f.c);
            let (r, g) = BinaryOp::Sbc.apply(a, x, f);
            &&& r == a - x - ci + 256 * one_if(g.c)
            &&& g.c == (a < x + ci)
            &&& g.h == (a % 16 < x % 16 + ci)
            &&& g.z == (r == 0)
            &&& g.n
        }),
{
}

/// INC and DEC: one more or one less, wrapping; H on a carry out of or a
/// borrow into the low nibble; C is kept.
pub proof fn lemma_inc_dec(v: u8, f: Flags)
    ensures
        ({
            let (r, g) = UnaryOp::Inc.apply(v, f);
            &&& r == (v + 1) % 256
            &&& g == Flags { z: r == 0, n: false, h: v % 16 == 15, c: f.c }
        }),
        ({
            let (r, g) = UnaryOp::Dec.apply(v, f);
            &&& r == (v + 255) % 256
            &&& g == Flags { z: r == 0, n: true, h: v % 16 == 0, c: f.c }
        }),
        UnaryOp::Dec.apply(UnaryOp::Inc.apply(v, f).0, f).0 == v,
{
}

/// RLC: the top bit goes round to bit 0 and to C.
pub proof fn lemma_rlc(v: u8, f: Flags)
    ensures
        ({
            let (r, g) = UnaryOp::Rlc.apply(v, f);
            &&& r + 256 * one_if(g.c) == 2 * v + one_if(g.c)
            &&& g == Flags { z: r == 0, n: false, h: false, c: v >= 128 }
        }),
{
}

/// RRC: bit 0 goes round to the top bit and to C.
pub proof fn lemma_rrc(v: u8, f: Flags)
    ensures
        ({
            let (r, g) = UnaryOp::Rrc.apply(v, f);
            &&& 2 * r + one_if(g.c) == v + 256 * one_if(g.c)
            &&& g == Flags { z: r == 0, n: false, h: false, c: v % 2 == 1 }
        }),
{
}

/// RL: a nine-bit rotation through C, to the left.
pub proof fn lemma_rl(v: u8, f: Flags)
    ensures
        ({
            let (r, g) = UnaryOp::Rl.apply(v, f);
            &&& r + 256 * one_if(g.c) == 2 * v + one_if(f.c)
            &&& g == Flags { z: r == 0, n: false, h: false, c: v >= 128 }
        }),
{
}

/// RR: a nine-bit rotation through C, to the right.
pub proof fn lemma_rr(v: u8, f: Flags)
    ensures
        ({
            let (r, g) = UnaryOp::Rr.apply(v, f);
            &&& 2 * r + one_if(g.c) == v + 256 * one_if(f.c)
            &&& g == Flags { z: r == 0, n: false, h: false, c: v % 2 == 1 }
        }),
{
}

/// SLA: twice the value, the top bit to C.
pub proof fn lemma_sla(v: u8, f: Flags)
    ensures
        ({
            let (r, g) = UnaryOp::Sla.apply(v, f);
            &&& r + 256 * one_if(g.c) == 2 * v
            &&& g == Flags { z: r == 0, n: false, h: false, c: v >= 128 }
        }),
{
}

/// SRL: half the value, bit 0 to C.
pub proof fn lemma_srl(v: u8, f: Flags)
    ensures
        ({
            let (r, g) = UnaryOp::Srl.apply(v, f);
            &&& 2 * r + one_if(g.c) == v
            &&& g == Flags { z: r == 0, n: false, h: false, c: v % 2 == 1 }
        }),
{
}

/// SRA: half the value keeping the sign bit, bit 0 to C.
pub proof fn lemma_sra(v: u8, f: Flags)
    ensures
        ({
            let (r, g) = UnaryOp::Sra.apply(v, f);
            &&& 2 * r + one_if(g.c) == v + 256 * one_if(v >= 128)
            &&& g == Flags { z: r == 0, n: false, h: false, c: v % 2 == 1 }
        }),
{
}

/// SWAP: the two nibbles exchanged.
pub proof fn lemma_swap(v: u8, f: Flags)
    ensures
        ({
            let (r, g) = UnaryOp::Swap.apply(v, f);
            &&& r == 16 * (v % 16) + v / 16
            &&& g == Flags { z: v == 0, n: false, h: false, c: false }
        }),
{
}

/// RLC then RRC gives the value back.
pub proof fn lemma_rlc_rrc_inverse(v: u8, f: Flags)
    ensures
        UnaryOp::Rrc.apply(UnaryOp::Rlc.apply(v, f).0, f).0 == v,
{
}

/// SWAP twice gives the value back.
pub proof fn lemma_swap_involution(v: u8, f: Flags)
    ensures
        UnaryOp::Swap.apply(UnaryOp::Swap.apply(v, f).0, f).0 == v,
{
}

/// The weight of bit `b`: 2 to the power `b`.
pub open spec fn bit_weight(b: u8) -> int {
    if b == 0 {
        1
    } else if b == 1 {
        2
    } else if b == 2 {
        4
    } else if b == 3 {
        8
    } else if b == 4 {
        16
    } else if b == 5 {
        32
    } else if b == 6 {
        64
    } else {
        128
    }
}

/// BIT, SET and RES on bit `b`: the bit is the `b`-th binary digit; SET adds
/// its weight when it is clear and RES takes it off when it is set; neither
/// touches the flags.
pub proof fn lemma_bits(v: u8, b: u8, f: Flags)
    requires
        b < 8,
    ensures
        bit_set(v, b) == ((v as int / bit_weight(b)) % 2 == 1),
        UnaryOp::SetBit(b).apply(v, f) == (
            (if bit_set(v, b) { v as int } else { v + bit_weight(b) }) as u8,
            f,
        ),
        UnaryOp::Res(b).apply(v, f) == (
            (if bit_set(v, b) { v - bit_weight(b) } else { v as int }) as u8,
            f,
        ),
{
    if b == 0 {
        assert(((v >> 0u8) & 1u8 == 1u8) == ((v / 1) % 2 == 1)) by (bit_vector);
        assert(v | (1u8 << 0u8) == if (v / 1) % 2 == 1 { v } else { (v + 1) as u8 }) by (bit_vector);
        assert(v & !(1u8 << 0u8) == if (v / 1) % 2 == 1 { (v - 1) as u8 } else { v }) by (bit_vector);
    } else if b == 1 {
        assert(((v >> 1u8) & 1u8 == 1u8) == ((v / 2) % 2 == 1)) by (bit_vector);
        assert(v | (1u8 << 1u8) == if (v / 2) % 2 == 1 { v } else { (v + 2) as u8 }) by (bit_vector);
        assert(v & !(1u8 << 1u8) == if (v / 2) % 2 == 1 { (v - 2) as u8 } else { v }) by (bit_vector);
    } else if b == 2 {
        assert(((v >> 2u8) & 1u8 == 1u8) == ((v / 4) % 2 == 1)) by (bit_vector);
        assert(v | (1u8 << 2u8) == if (v / 4) % 2 == 1 { v } else { (v + 4) as u8 }) by (bit_vector);
        assert(v & !(1u8 << 2u8) == if (v / 4) % 2 == 1 { (v - 4) as u8 } else { v }) by (bit_vector);
    } else if b == 3 {
        assert(((v >> 3u8) & 1u8 == 1u8) == ((v / 8) % 2 == 1)) by (bit_vector);
        assert(v | (1u8 << 3u8) == if (v / 8) % 2 == 1 { v } else { (v + 8) as u8 }) by (bit_vector);
        assert(v & !(1u8 << 3u8) == if (v / 8) % 2 == 1 { (v - 8) as u8 } else { v }) by (bit_vector);
    } else if b == 4 {
        assert(((v >> 4u8) & 1u8 == 1u8) == ((v / 16) % 2 == 1)) by (bit_vector);
        assert(v | (1u8 << 4u8) == if (v / 16) % 2 == 1 { v } else { (v + 16) as u8 }) by (bit_vector);
        assert(v & !(1u8 << 4u8) == if (v / 16) % 2 == 1 { (v - 16) as u8 } else { v }) by (bit_vector);
    } else if b == 5 {
        assert(((v >> 5u8) & 1u8 == 1u8) == ((v / 32) % 2 == 1)) by (bit_vector);
        assert(v | (1u8 << 5u8) == if (v / 32) % 2 == 1 { v } else { (v + 32) as u8 }) by (bit_vector);
        assert(v & !(1u8 << 5u8) == if (v / 32) % 2 == 1 { (v - 32) as u8 } else { v }) by (bit_vector);
    } else if b == 6 {
        assert(((v >> 6u8) & 1u8 == 1u8) == ((v / 64) % 2 == 1)) by (bit_vector);
        assert(v | (1u8 << 6u8) == if (v / 64) % 2 == 1 { v } else { (v + 64) as u8 }) by (bit_vector);
        assert(v & !(1u8 << 6u8) == if (v / 64) % 2 == 1 { (v - 64) as u8 } else { v }) by (bit_vector);
    } else {
        assert(((v >> 7u8) & 1u8 == 1u8) == ((v / 128) % 2 == 1)) by (bit_vector);
        assert(v | (1u8 << 7u8) == if (v / 128) % 2 == 1 { v } else { (v + 128) as u8 }) by (bit_vector);
        assert(v & !(1u8 << 7u8) == if (v / 128) % 2 == 1 { (v - 128) as u8 } else { v }) by (bit_vector);
    }
}

/// 16-bit ADD: the result plus 65536 times the carry out is the sum; H is the
/// carry out of bit 11; Z is kept and N cleared.
pub proof fn lemma_add16(a: u16, x: u16, f: Flags)
    ensures
        ({
            let (r, g) = add16(a, x, f);
            &&& r + 65536 * one_if(g.c) == a + x
            &&& g.h == (a % 4096 + x % 4096 >= 4096)
            &&& g.z == f.z
            &&& !g.n
        }),
{
}

/// `w` when `b` holds, else zero.
pub open spec fn weight_of(b: bool, w: int) -> int {
    if b {
        w
    } else {
        0
    }
}

/// The decimal value of a byte holding two BCD digits.
pub open spec fn bcd_value(b: u8) -> int {
    (b / 16) * 10 + b % 16
}

/// A byte holds two decimal digits.
pub open spec fn is_bcd(b: u8) -> bool {
    b / 16 < 10 && b % 16 < 10
}

/// The byte that ADD then DAA leave in A, as plain arithmetic on operands
/// below 256.
pub open spec fn add_then_adjust(a: u16, x: u16) -> u16 {
    let sum: u16 = ((a + x) % 256) as u16;
    let hi: bool = a + x > 255 || sum > 0x99;
    let lo: bool = a % 16 + x % 16 > 15 || sum % 16 > 9;
    ((sum + (if hi { 0x60u16 } else { 0u16 }) + (if lo { 6u16 } else { 0u16 })) % 256) as u16
}

/// Whether ADD then DAA set C, as plain arithmetic on operands below 256.
pub open spec fn add_then_adjust_carry(a: u16, x: u16) -> bool {
    a + x > 255 || ((a + x) % 256) as u16 > 0x99
}

/// The byte that SUB then DAA leave in A, as plain arithmetic on operands
/// below 256.
pub open spec fn sub_then_adjust(a: u16, x: u16) -> u16 {
    let diff: u16 = ((256 + a - x) % 256) as u16;
    let hi: bool = a < x;
    let lo: bool = a % 16 < x % 16;
    ((diff + 512 - (if hi { 0x60u16 } else { 0u16 }) - (if lo { 6u16 } else { 0u16 })) % 256) as u16
}

/// DAA after adding two BCD bytes gives the BCD byte of their decimal sum
/// modulo 100, with C telling whether the sum reached 100.
#[verifier::spinoff_prover]
#[verifier::rlimit(40)]
pub proof fn lemma_daa_after_add(a: u8, x: u8, f: Flags)
    requires
        is_bcd(a),
        is_bcd(x),
    ensures
        ({
            let (sum, g) = BinaryOp::Add.apply(a, x, f);
            let (d, h) = daa(sum, g);
            let total = bcd_value(a) + bcd_value(x);
            &&& is_bcd(d)
            &&& bcd_value(d) == total % 100
            &&& h.c == (total >= 100)
            &&& h.z == (d == 0)
        }),
{
    let (sum, g) = BinaryOp::Add.apply(a, x, f);
    let (a16, x16) = (a as u16, x as u16);
    assert(daa(sum, g).0 == add_then_adjust(a16, x16));
    assert(daa(sum, g).1.c == add_then_adjust_carry(a16, x16));
    let d = add_then_adjust(a16, x16);
    let carry = add_then_adjust_carry(a16, x16);
    assert({
        &&& d / 16 < 10
        &&& d % 16 < 10
        &&& (d / 16) * 10 + d % 16 == ((a16 / 16) * 10 + a16 % 16 + (x16 / 16) * 10 + x16 % 16) % 100
        &&& carry == ((a16 / 16) * 10 + a16 % 16 + (x16 / 16) * 10 + x16 % 16 >= 100)
    }) by (bit_vector)
        requires
            a16 < 256,
            x16 < 256,
            a16 / 16 < 10,
            a16 % 16 < 10,
            x16 / 16 < 10,
            x16 % 16 < 10,
            d == add_then_adjust(a16, x16),
            carry == add_then_adjust_carry(a16, x16),
    ;
}

/// DAA after subtracting two BCD bytes gives the BCD byte of their decimal
/// difference modulo 100, with C telling whether it borrowed.
#[verifier::spinoff_prover]
#[verifier::rlimit(40)]
pub proof fn lemma_daa_after_sub(a: u8, x: u8, f: Flags)
    requires
        is_bcd(a),
        is_bcd(x),
    ensures
        ({
            let (diff, g) = BinaryOp::Sub.apply(a, x, f);
            let (d, h) = daa(diff, g);
            let total = bcd_value(a) - bcd_value(x);
            &&& is_bcd(d)
            &&& bcd_value(d) == (total + 100) % 100
            &&& h.c == (total < 0)
        }),
{
    let (diff, g) = BinaryOp::Sub.apply(a, x, f);
    let (a16, x16) = (a as u16, x as u16);
    assert(diff as int == (a - x + 256) % 256);
    assert(g.n && g.c == (a < x) && g.h == (a % 16 < x % 16));
    let adj = weight_of(g.c, 0x60) + weight_of(g.h, 6);
    assert(daa(diff, g).0 as int == (diff - adj) % 256);
    assert((diff - adj) % 256 == (diff + 512 - adj) % 256);
    assert(daa(diff, g).0 == sub_then_adjust(a16, x16));
    lemma_sub_then_adjust(a16, x16);
}

proof fn lemma_sub_then_adjust(a16: u16, x16: u16)
    by (bit_vector)
    requires
        a16 < 256,
        x16 < 256,
        a16 / 16 < 10,
        a16 % 16 < 10,
        x16 / 16 < 10,
        x16 % 16 < 10,
    ensures
        sub_then_adjust(a16, x16) / 16 < 10,
        sub_then_adjust(a16, x16) % 16 < 10,
        (sub_then_adjust(a16, x16) / 16) * 10 + sub_then_adjust(a16, x16) % 16 == ((a16 / 16) * 10
            + a16 % 16 + 100 - (x16 / 16) * 10 - x16 % 16) % 100,
        (a16 < x16) == ((a16 / 16) * 10 + a16 % 16 < (x16 / 16) * 10 + x16 % 16),
{
}

} // verus!
