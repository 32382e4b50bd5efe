//! Bit-field decoding of 16-bit instruction words: operand register fields,
//! mode bits, and sign-extended immediates of opcode-specific width.

use vstd::prelude::*;

verus! {

/// Destination-register field: bits 11-9.
pub open spec fn spec_dr(op: u16) -> u16 {
    (op >> 9) & 0x7
}

/// First source-register field: bits 8-6.
pub open spec fn spec_sr1(op: u16) -> u16 {
    (op >> 6) & 0x7
}

/// Second source-register field: bits 2-0.
pub open spec fn spec_sr2(op: u16) -> u16 {
    op & 0x7
}

/// Immediate-mode bit: bit 5.
pub open spec fn spec_fimm(op: u16) -> u16 {
    (op >> 5) & 0x1
}

/// Long-immediate-mode bit: bit 11.
pub open spec fn spec_jimm(op: u16) -> u16 {
    (op >> 11) & 0x1
}

/// The low `b` bits of `op`.
pub open spec fn spec_imm(op: u16, b: u16) -> u16
    recommends
        1 <= b <= 15,
{
    op & (((1u16 << b) - 1) as u16)
}

/// The low `b` bits of `op`, sign-extended to the full 16-bit width: every
/// bit at position `b` or above takes the value of bit `b - 1`.
pub open spec fn spec_sximm(op: u16, b: u16) -> u16
    recommends
        1 <= b <= 15,
{
    if (op >> ((b - 1) as u16)) & 1 == 1 {
        (0xFFFFu16 << b) | spec_imm(op, b)
    } else {
        spec_imm(op, b)
    }
}

pub fn dr(op: u16) -> (r: u16)
    ensures
        r == spec_dr(op),
        r < 8,
{
    proof {
        assert((op >> 9) & 0x7 < 8) by (bit_vector);
    }
    (op >> 9) & 0x7
}

pub fn sr1(op: u16) -> (r: u16)
    ensures
        r == spec_sr1(op),
        r < 8,
{
    proof {
        assert((op >> 6) & 0x7 < 8) by (bit_vector);
    }
    (op >> 6) & 0x7
}

pub fn sr2(op: u16) -> (r: u16)
    ensures
        r == spec_sr2(op),
        r < 8,
{
    proof {
        assert(op & 0x7 < 8) by (bit_vector);
    }
    op & 0x7
}

pub fn fimm(op: u16) -> (r: u16)
    ensures
        r == spec_fimm(op),
{
    (op >> 5) & 0x1
}

pub fn jimm(op: u16) -> (r: u16)
    ensures
        r == spec_jimm(op),
{
    (op >> 11) & 0x1
}

pub fn imm(op: u16, b: u16) -> (r: u16)
    requires
        1 <= b <= 15,
    ensures
        r == spec_imm(op, b),
{
    proof {
        assert(1u16 << b >= 1) by (bit_vector)
            requires
                b <= 15,
        ;
    }
    op & ((1u16 << b) - 1)
}

pub fn sximm(op: u16, b: u16) -> (r: u16)
    requires
        1 <= b <= 15,
    ensures
        r == spec_sximm(op, b),
{
    let low: u16 = imm(op, b);
    if ((op >> (b - 1)) & 1) == 1 {
        (0xFFFF << b) | low
    } else {
        low
    }
}

/// Sign extension is exact: the low `b` bits of the extended value are the
/// low `b` bits of `op`, and every bit at position `b` or above equals bit
/// `b - 1` of `op`.
pub proof fn lemma_sign_extension(op: u16, b: u16, i: u16)
    requires
        1 <= b <= 15,
        i < 16,
    ensures
        i < b ==> (spec_sximm(op, b) >> i) & 1 == (op >> i) & 1,
        b <= i ==> (spec_sximm(op, b) >> i) & 1 == (op >> ((b - 1) as u16)) & 1,
{
    assert(i < b ==> (spec_sximm(op, b) >> i) & 1 == (op >> i) & 1) by (bit_vector)
        requires
            1 <= b <= 15 && i < 16,
    ;
    assert(b <= i ==> (spec_sximm(op, b) >> i) & 1 == (op >> ((b - 1) as u16)) & 1) by (bit_vector)
        requires
            1 <= b <= 15 && i < 16,
    ;
}

} // verus!
