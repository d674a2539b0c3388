use vstd::arithmetic::div_mod::{
    lemma_div_basics, lemma_div_is_ordered, lemma_div_is_ordered_by_denominator,
    lemma_div_multiples_vanish, lemma_div_nonincreasing, lemma_div_pos_is_pos,
    lemma_fundamental_div_mod, lemma_mod_division_less_than_divisor, lemma_mod_multiples_vanish,
    lemma_small_mod,
};
use vstd::prelude::*;
use vstd::wrapping::i32_specs;

verus! {

/// A single integer register of the machine, addressed by its position in
/// the accumulator list. A freshly created accumulator holds no value.
pub struct Accumulator {
    /// Position of this accumulator in the machine's accumulator list.
    pub id: i32,
    /// The stored value; `None` until the first assignment defines it.
    pub data: Option<i32>,
}

impl Accumulator {
    /// Creates a new, still undefined accumulator.
    pub fn new(id: i32) -> (a: Accumulator)
        ensures
            a.id == id,
            a.data is None,
    {
        Accumulator { id, data: None }
    }
}

/// A labelled integer storage location, addressed by its label.
/// A freshly created cell holds no value.
pub struct MemoryCell {
    /// The unique name under which the cell is addressed.
    pub label: String,
    /// The stored value; `None` until the first assignment defines it.
    pub data: Option<i32>,
}

impl MemoryCell {
    /// Creates a new, still undefined memory cell.
    pub fn new(label: &str) -> (c: MemoryCell)
        ensures
            c.label@ == label@,
            c.data is None,
    {
        MemoryCell { label: label.to_owned(), data: None }
    }
}

/// The five ways of comparing two values.
pub enum Comparison {
    Less,
    LessOrEqual,
    Equal,
    MoreOrEqual,
    More,
}

/// What each comparison means on unbounded integers.
pub open spec fn cmp_spec(c: Comparison, x: int, y: int) -> bool {
    match c {
        Comparison::Less => x < y,
        Comparison::LessOrEqual => x <= y,
        Comparison::Equal => x == y,
        Comparison::MoreOrEqual => x >= y,
        Comparison::More => x > y,
    }
}

impl Comparison {
    /// Compares two values with the selected method of comparison.
    pub fn cmp(&self, x: i32, y: i32) -> (r: bool)
        ensures
            r == cmp_spec(*self, x as int, y as int),
    {
        match self {
            Self::Less => x < y,
            Self::LessOrEqual => x <= y,
            Self::Equal => x == y,
            Self::MoreOrEqual => x >= y,
            Self::More => x > y,
        }
    }
}

/// The four arithmetic operators of the machine.
pub enum Operation {
    Plus,
    Minus,
    Multiplication,
    Division,
}

/// Integer division that truncates toward zero: the quotient of the
/// magnitudes, carrying the sign of the exact quotient.
pub open spec fn div_tz(x: int, d: int) -> int
    recommends
        d != 0,
{
    if x == 0 {
        0
    } else if x > 0 && d > 0 {
        x / d
    } else if x < 0 && d < 0 {
        (x * -1) / (d * -1)
    } else if x < 0 {
        ((x * -1) / d) * -1
    } else {
        (x / (d * -1)) * -1
    }
}

/// The exact mathematical result of an operator, on unbounded integers.
pub open spec fn op_exact(op: Operation, x: int, y: int) -> int
    recommends
        op is Division ==> y != 0,
{
    match op {
        Operation::Plus => x + y,
        Operation::Minus => x - y,
        Operation::Multiplication => x * y,
        Operation::Division => div_tz(x, y),
    }
}

/// The machine-level result of an operator: the exact result reduced to the
/// 32-bit two's-complement range.
pub open spec fn op_value(op: Operation, x: i32, y: i32) -> i32
    recommends
        op is Division ==> y != 0,
{
    match op {
        Operation::Plus => i32_specs::wrapping_add(x, y),
        Operation::Minus => i32_specs::wrapping_sub(x, y),
        Operation::Multiplication => i32_specs::wrapping_mul(x, y),
        Operation::Division => i32_specs::signed_crop(div_tz(x as int, y as int)),
    }
}

/// Reducing a value that already lies in the 32-bit range changes nothing.
pub proof fn lemma_signed_crop_identity(v: int)
    requires
        i32::MIN <= v <= i32::MAX,
    ensures
        i32_specs::signed_crop(v) == v as i32,
        i32_specs::signed_crop(v) as int == v,
{
    if v >= 0 {
        lemma_small_mod(v as nat, 0x1_0000_0000nat);
    } else {
        lemma_mod_multiples_vanish(1, v, 0x1_0000_0000);
        lemma_small_mod((v + 0x1_0000_0000) as nat, 0x1_0000_0000nat);
    }
}

/// The truncating quotient of two in-range operands is itself in range,
/// except for the one pair whose exact quotient overflows.
pub proof fn lemma_div_tz_range(x: int, d: int)
    requires
        i32::MIN <= x <= i32::MAX,
        i32::MIN <= d <= i32::MAX,
        d != 0,
        !(x == i32::MIN && d == -1),
    ensures
        i32::MIN <= div_tz(x, d) <= i32::MAX,
{
    let a = if x >= 0 { x } else { x * -1 };
    let b = if d >= 0 { d } else { d * -1 };
    let q = a / b;
    lemma_div_pos_is_pos(a, b);
    lemma_div_nonincreasing(a, b);
    assert(0 <= q <= a);
    if b >= 2 {
        lemma_div_is_ordered_by_denominator(a, 2, b);
        lemma_div_is_ordered(a, 0x8000_0000, 2);
        lemma_div_multiples_vanish(0x4000_0000, 2);
        assert(q <= 0x4000_0000);
    } else {
        lemma_div_basics(a);
        assert(q == a);
    }
    if x > 0 && d > 0 {
        assert(div_tz(x, d) == q);
    } else if x < 0 && d < 0 {
        assert(div_tz(x, d) == q);
        assert(q <= i32::MAX);
    } else if x != 0 {
        assert(div_tz(x, d) == q * -1);
    }
}

/// Helper for [`lemma_division_truncates`]: the defining property of
/// truncating division on non-negative operands.
proof fn lemma_div_tz_nonneg(a: int, b: int)
    requires
        0 <= a,
        1 <= b,
    ensures
        0 <= a - (a / b) * b < b,
        0 <= (a / b) * b <= a,
{
    lemma_fundamental_div_mod(a, b);
    lemma_mod_division_less_than_divisor(a, b);
    lemma_div_pos_is_pos(a, b);
    assert(a % b == a - b * (a / b));
    assert(b * (a / b) == (a / b) * b) by (nonlinear_arith);
    assert((a / b) * b >= 0) by (nonlinear_arith)
        requires 0 <= a / b && 1 <= b;
}

/// Division truncates toward zero: the remainder it leaves is smaller in
/// magnitude than the divisor and never of the opposite sign to the
/// dividend, and the reconstructed product never overshoots the dividend.
pub proof fn lemma_division_truncates(x: int, d: int)
    requires
        d != 0,
    ensures
        x == div_tz(x, d) * d + (x - div_tz(x, d) * d),
        vstd::math::abs(x - div_tz(x, d) * d) < vstd::math::abs(d),
        x - div_tz(x, d) * d == 0 || ((x - div_tz(x, d) * d < 0) <==> (x < 0)),
        vstd::math::abs(div_tz(x, d) * d) <= vstd::math::abs(x),
{
    let a = if x >= 0 { x } else { x * -1 };
    let b = if d >= 0 { d } else { d * -1 };
    let q = a / b;
    lemma_div_tz_nonneg(a, b);
    if x == 0 {
        lemma_div_basics(0);
    } else if x > 0 && d > 0 {
        assert(div_tz(x, d) == q);
    } else if x < 0 && d < 0 {
        assert(div_tz(x, d) == q);
        assert(q * d == -(q * b)) by (nonlinear_arith)
            requires d == b * -1;
    } else if x < 0 {
        assert(div_tz(x, d) == q * -1);
        assert((q * -1) * d == -(q * b)) by (nonlinear_arith)
            requires d == b;
    } else {
        assert(div_tz(x, d) == q * -1);
        assert((q * -1) * d == q * b) by (nonlinear_arith)
            requires d == b * -1;
    }
}

/// On operands whose exact result fits in the 32-bit range, the machine
/// operator agrees with exact integer arithmetic: addition, subtraction and
/// multiplication are exact, and division is the truncating quotient.
pub proof fn lemma_operation_exact(op: Operation, x: i32, y: i32)
    requires
        op is Division ==> y != 0,
        i32::MIN <= op_exact(op, x as int, y as int) <= i32::MAX,
    ensures
        op_value(op, x, y) as int == op_exact(op, x as int, y as int),
{
    match op {
        Operation::Plus => {},
        Operation::Minus => {},
        Operation::Multiplication => {
            lemma_signed_crop_identity(x as int * y as int);
        },
        Operation::Division => {
            lemma_signed_crop_identity(div_tz(x as int, y as int));
        },
    }
}

impl Operation {
    /// Applies the operator to two machine words, reducing the exact result
    /// to the 32-bit range. Division by zero is excluded by contract; the
    /// caller reports it as a run-time fault instead.
    pub fn calc(&self, x: i32, y: i32) -> (r: i32)
        requires
            *self is Division ==> y != 0,
        ensures
            r == op_value(*self, x, y),
    {
        match self {
            Self::Plus => x.wrapping_add(y),
            Self::Minus => x.wrapping_sub(y),
            Self::Multiplication => x.wrapping_mul(y),
            Self::Division => {
                if x == i32::MIN && y == -1 {
                    proof {
                        lemma_div_basics(0x8000_0000);
                        assert(div_tz(x as int, y as int) == 0x8000_0000);
                        lemma_small_mod(0x8000_0000nat, 0x1_0000_0000nat);
                    }
                    i32::MIN
                } else {
                    proof {
                        lemma_div_tz_range(x as int, y as int);
                        lemma_signed_crop_identity(div_tz(x as int, y as int));
                    }
                    let q = x.checked_div(y);
                    q.unwrap()
                }
            },
        }
    }
}

} // verus!
