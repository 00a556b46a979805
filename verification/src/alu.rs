//! The arithmetic of the machine, computed.

use vstd::prelude::*;
use crate::machine::{
    alu, arithmetic_flags, arithmetic_shift, fits_signed, logical_flags, logical_shift, shift_left,
    shift_right, shift_right_signed, signed, signed_result, truncated_quotient, unsigned_result,
    AluOp, AluResult, Flags,
};
use crate::text::int_word;

verus! {

/// What an operation gives, before the flags are set: the new value of the
/// register, the word by which the sign and zero flags go, which of the two
/// conventions they follow, and whether there was an overflow.
pub struct Computed {
    pub value: u16,
    pub flag_word: u16,
    pub signed: bool,
    pub overflow: bool,
}

impl Computed {
    /// The flags that go with the computed value.
    pub open spec fn flags(self) -> Flags {
        if self.signed {
            arithmetic_flags(self.flag_word, self.overflow)
        } else {
            logical_flags(self.flag_word, self.overflow)
        }
    }

    /// The computed value with its flags.
    pub open spec fn result(self) -> AluResult {
        AluResult { value: self.value, flags: self.flags() }
    }
}

/// The number that a word stands for in two's complement.
pub fn to_signed(w: u16) -> (n: i32)
    ensures
        n == signed(w),
        -0x8000 <= n <= 0x7fff,
{
    if w >= 0x8000 {
        w as i32 - 0x10000
    } else {
        w as i32
    }
}

/// A number narrowed to a word.
pub fn to_word(n: i64) -> (w: u16)
    requires
        -0x100_0000_0000 <= n <= 0x100_0000_0000,
    ensures
        w == int_word(n as int),
{
    ((n + 0x100_0000_0000) % 0x10000) as u16
}

fn signed_computed(exact: i64) -> (c: Computed)
    requires
        -0x100_0000_0000 <= exact <= 0x100_0000_0000,
    ensures
        c.result() == signed_result(exact as int),
{
    let value = to_word(exact);
    Computed { value, flag_word: value, signed: true, overflow: exact < -0x8000 || exact > 0x7fff }
}

fn unsigned_computed(exact: i64) -> (c: Computed)
    requires
        -0x100_0000_0000 <= exact <= 0x100_0000_0000,
    ensures
        c.result() == unsigned_result(exact as int),
{
    let value = to_word(exact);
    Computed { value, flag_word: value, signed: false, overflow: exact < 0 || exact > 0xffff }
}

/// Zero shifted left stays zero.
pub proof fn lemma_shift_left_zero(n: nat)
    ensures
        shift_left(0, n) == 0,
    decreases n,
{
    if n > 0 {
        lemma_shift_left_zero((n - 1) as nat);
    }
}

/// Zero shifted right stays zero.
pub proof fn lemma_shift_right_zero(n: nat)
    ensures
        shift_right(0, n) == 0,
        shift_right_signed(0, n) == 0,
    decreases n,
{
    if n > 0 {
        lemma_shift_right_zero((n - 1) as nat);
    }
}

/// The word of all ones, which stands for -1, stays as it is under a
/// shift that keeps the sign.
pub proof fn lemma_shift_right_signed_ones(n: nat)
    ensures
        shift_right_signed(0xffff, n) == 0xffff,
    decreases n,
{
    if n > 0 {
        lemma_shift_right_signed_ones((n - 1) as nat);
    }
}

/// A word shifted left by `n` bits.
pub fn shift_left_by(w: u16, n: u32) -> (r: u16)
    ensures
        r == shift_left(w, n as nat),
{
    let mut value: u16 = w;
    let mut k: u32 = 0;
    while k < n && value != 0
        invariant
            k <= n,
            shift_left(w, n as nat) == shift_left(value, (n - k) as nat),
        decreases n - k,
    {
        value = ((value as u32 * 2) % 0x10000) as u16;
        k += 1;
    }
    proof {
        if value == 0 {
            lemma_shift_left_zero((n - k) as nat);
        }
    }
    value
}

/// A word shifted right by `n` bits, with zeros coming in.
pub fn shift_right_by(w: u16, n: u32) -> (r: u16)
    ensures
        r == shift_right(w, n as nat),
{
    let mut value: u16 = w;
    let mut k: u32 = 0;
    while k < n && value != 0
        invariant
            k <= n,
            shift_right(w, n as nat) == shift_right(value, (n - k) as nat),
        decreases n - k,
    {
        value = value / 2;
        k += 1;
    }
    proof {
        if value == 0 {
            lemma_shift_right_zero((n - k) as nat);
        }
    }
    value
}

/// A word shifted right by `n` bits, with the sign bit kept.
pub fn shift_right_signed_by(w: u16, n: u32) -> (r: u16)
    ensures
        r == shift_right_signed(w, n as nat),
{
    let mut value: u16 = w;
    let mut k: u32 = 0;
    while k < n && value != 0 && value != 0xffff
        invariant
            k <= n,
            shift_right_signed(w, n as nat) == shift_right_signed(value, (n - k) as nat),
        decreases n - k,
    {
        value = if value >= 0x8000 {
            0x8000 + value / 2
        } else {
            value / 2
        };
        k += 1;
    }
    proof {
        if value == 0 {
            lemma_shift_right_zero((n - k) as nat);
        } else if value == 0xffff {
            lemma_shift_right_signed_ones((n - k) as nat);
        }
    }
    value
}

fn shifted(w: u16, count_word: u16, left: bool, keep_sign: bool) -> (r: u16)
    ensures
        r == if keep_sign {
            arithmetic_shift(w, signed(count_word), left)
        } else {
            logical_shift(w, signed(count_word), left)
        },
{
    let count: i32 = to_signed(count_word);
    let n: u32 = if count >= 0 {
        count as u32
    } else {
        (-count) as u32
    };
    if (count >= 0) == left {
        shift_left_by(w, n)
    } else if keep_sign {
        shift_right_signed_by(w, n)
    } else {
        shift_right_by(w, n)
    }
}

/// The quotient of two signed numbers, rounded towards zero.
fn divide_signed(a: i32, b: i32) -> (q: i32)
    requires
        -0x8000 <= a <= 0x7fff,
        -0x8000 <= b <= 0x7fff,
        b != 0,
    ensures
        q == truncated_quotient(a as int, b as int),
        -0x8000 <= q <= 0x8000,
{
    let ma: u32 = if a < 0 {
        (-a) as u32
    } else {
        a as u32
    };
    let mb: u32 = if b < 0 {
        (-b) as u32
    } else {
        b as u32
    };
    let q: u32 = ma / mb;
    assert(q <= ma) by (nonlinear_arith)
        requires
            q == ma / mb,
            mb >= 1,
    ;
    if (a < 0) != (b < 0) {
        -(q as i32)
    } else {
        q as i32
    }
}

/// Computes an operation on the register's value `a` and the second
/// operand `b`.
pub fn compute(op: AluOp, a: u16, b: u16) -> (c: Computed)
    ensures
        c.result() == alu(op, a, b),
{
    let sa: i32 = to_signed(a);
    let sb: i32 = to_signed(b);
    match op {
        AluOp::Adda => signed_computed((sa + sb) as i64),
        AluOp::Suba => signed_computed((sa - sb) as i64),
        AluOp::Addl => unsigned_computed(a as i64 + b as i64),
        AluOp::Subl => unsigned_computed(a as i64 - b as i64),
        AluOp::Mula => {
            assert(-0x4000_0000 <= sa * sb <= 0x4000_0000) by (nonlinear_arith)
                requires
                    -0x8000 <= sa <= 0x7fff,
                    -0x8000 <= sb <= 0x7fff,
            ;
            signed_computed((sa * sb) as i64)
        },
        AluOp::Mull => {
            assert(0 <= a * b <= 0xffff * 0xffff) by (nonlinear_arith)
                requires
                    0 <= a <= 0xffff,
                    0 <= b <= 0xffff,
            ;
            unsigned_computed(a as i64 * b as i64)
        },
        AluOp::Diva => {
            if b == 0 {
                Computed { value: a, flag_word: a, signed: true, overflow: false }
            } else {
                signed_computed(divide_signed(sa, sb) as i64)
            }
        },
        AluOp::Divl => {
            if b == 0 {
                Computed { value: a, flag_word: a, signed: false, overflow: false }
            } else {
                unsigned_computed((a / b) as i64)
            }
        },
        AluOp::And => Computed { value: a & b, flag_word: a & b, signed: false, overflow: false },
        AluOp::Or => Computed { value: a | b, flag_word: a | b, signed: false, overflow: false },
        AluOp::Xor => Computed { value: a ^ b, flag_word: a ^ b, signed: false, overflow: false },
        AluOp::Cpa => Computed {
            value: a,
            flag_word: to_word((sa - sb) as i64),
            signed: true,
            overflow: false,
        },
        AluOp::Cpl => Computed {
            value: a,
            flag_word: to_word(a as i64 - b as i64),
            signed: false,
            overflow: false,
        },
        AluOp::Sla => {
            let value = shifted(a, b, true, true);
            Computed { value, flag_word: value, signed: true, overflow: false }
        },
        AluOp::Sra => {
            let value = shifted(a, b, false, true);
            Computed { value, flag_word: value, signed: true, overflow: false }
        },
        AluOp::Sll => {
            let value = shifted(a, b, true, false);
            Computed { value, flag_word: value, signed: false, overflow: false }
        },
        AluOp::Srl => {
            let value = shifted(a, b, false, false);
            Computed { value, flag_word: value, signed: false, overflow: false }
        },
    }
}

/// The sign flag and the zero flag are never both set by an operation.
pub proof fn lemma_sign_zero_exclusive(op: AluOp, a: u16, b: u16)
    ensures
        !(alu(op, a, b).flags.sign && alu(op, a, b).flags.zero),
{
}

/// The sign of a word: whether it stands for a negative number.
pub open spec fn is_negative(w: u16) -> bool {
    w >= 0x8000
}

/// After `ADDA` the overflow flag is set exactly where both operands have
/// the same sign and the result has the other one.
pub proof fn lemma_adda_overflow(a: u16, b: u16)
    ensures
        alu(AluOp::Adda, a, b).flags.overflow == (is_negative(a) == is_negative(b) && is_negative(
            alu(AluOp::Adda, a, b).value,
        ) != is_negative(a)),
        alu(AluOp::Adda, a, b).flags.overflow == !fits_signed(signed(a) + signed(b)),
{
}

/// After `SUBA` the overflow flag is set exactly where the operands have
/// different signs and the result has not the sign of the first.
pub proof fn lemma_suba_overflow(a: u16, b: u16)
    ensures
        alu(AluOp::Suba, a, b).flags.overflow == (is_negative(a) != is_negative(b) && is_negative(
            alu(AluOp::Suba, a, b).value,
        ) != is_negative(a)),
        alu(AluOp::Suba, a, b).flags.overflow == !fits_signed(signed(a) - signed(b)),
{
}

/// After `ADDL` the overflow flag is the carry out of the top bit: it is
/// set exactly where the sum does not fit in a word, which is where the
/// result is below the first operand.
pub proof fn lemma_addl_overflow(a: u16, b: u16)
    ensures
        alu(AluOp::Addl, a, b).flags.overflow == (a + b > 0xffff),
        alu(AluOp::Addl, a, b).flags.overflow == (alu(AluOp::Addl, a, b).value < a),
{
}

/// After `SUBL` the overflow flag is the borrow: it is set exactly where
/// the second operand is above the first.
pub proof fn lemma_subl_overflow(a: u16, b: u16)
    ensures
        alu(AluOp::Subl, a, b).flags.overflow == (a < b),
{
}

} // verus!
