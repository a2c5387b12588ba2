use crate::big_integer::{bitwise, floor_mod, int_abs, trunc_div, trunc_rem, BigInteger, BitOp};
use crate::jump_table::operands::{bool_arg, bool_at, int_arg, int_at, one, single};
use crate::types::stack_item::{items_view, ItemView, StackItem};
use crate::vm::reference_counter::{CounterView, ReferenceCounter};
use crate::types::primitive_types::vm_integer::{fits_integer, VMInteger};
use crate::vm::execution_engine_limits::ExecutionEngineLimits;
use crate::vm::op_code::OpCode;
use vstd::arithmetic::power::pow;
use crate::jump_table::JumpTable;
use crate::vm::execution_engine::ExecutionEngine;
use crate::vm::instruction::Instruction;
use vstd::prelude::*;

verus! {

/// Whether `r` is the square root of `x` rounded down.
pub open spec fn is_sqrt(x: int, r: int) -> bool {
    r >= 0 && r * r <= x < (r + 1) * (r + 1)
}

/// The square root of `x` rounded down.
pub open spec fn int_sqrt(x: int) -> int {
    choose|r: int| is_sqrt(x, r)
}

/// A number has at most one square root rounded down.
pub proof fn lemma_sqrt_unique(x: int, r: int, s: int)
    requires
        is_sqrt(x, r),
        is_sqrt(x, s),
    ensures
        r == s,
{
    if r < s {
        assert((r + 1) * (r + 1) <= s * s) by (nonlinear_arith)
            requires
                0 <= r + 1 <= s,
        ;
    } else if s < r {
        assert((s + 1) * (s + 1) <= r * r) by (nonlinear_arith)
            requires
                0 <= s + 1 <= r,
        ;
    }
}

/// Whether `x` is the inverse of `v` modulo `m` in `[0, m)`.
pub open spec fn is_inverse(v: int, m: int, x: int) -> bool {
    0 <= x < m && (v * x) % m == 1
}

/// The inverse of `v` modulo `m`: the `x` in `[0, m)` with `v * x`
/// congruent to 1. There is none where `v` is not positive, where `m` is
/// under 2, and where no such `x` exists.
pub open spec fn mod_inverse_of(v: int, m: int) -> Option<int> {
    if v > 0 && m >= 2 && exists|x: int| is_inverse(v, m, x) {
        Some(choose|x: int| is_inverse(v, m, x))
    } else {
        None
    }
}

/// A number has at most one inverse modulo `m` in `[0, m)`.
pub proof fn lemma_inverse_unique(v: int, m: int, x: int, y: int)
    requires
        m >= 2,
        is_inverse(v, m, x),
        is_inverse(v, m, y),
    ensures
        x == y,
{
    vstd::arithmetic::div_mod::lemma_mul_mod_noop_right(x, v * y, m);
    vstd::arithmetic::div_mod::lemma_mul_mod_noop_left(x * v, y, m);
    assert(x * (v * y) == (x * v) * y) by (nonlinear_arith);
    assert(x * v == v * x) by (nonlinear_arith);
    vstd::arithmetic::div_mod::lemma_small_mod(x as nat, m as nat);
    vstd::arithmetic::div_mod::lemma_small_mod(y as nat, m as nat);
    assert((x * 1) % m == x);
    assert((1 * y) % m == y);
}

/// The number if it fits the 32 bytes of an integer.
pub open spec fn bounded(v: int) -> Option<int> {
    if fits_integer(v) {
        Some(v)
    } else {
        None
    }
}

/// The result of an operation on one integer, where it has one that fits
/// 32 bytes: the sign, the absolute value, the negation, the successor, the
/// predecessor, the square root of a number that is not negative, and the
/// number with all bits flipped.
pub open spec fn unary_result(op: OpCode, x: int) -> Option<int> {
    match op {
        OpCode::SIGN => Some(
            if x < 0 {
                -1int
            } else if x == 0 {
                0
            } else {
                1
            },
        ),
        OpCode::ABS => bounded(int_abs(x) as int),
        OpCode::NEGATE => bounded(-x),
        OpCode::INC => bounded(x + 1),
        OpCode::DEC => bounded(x - 1),
        OpCode::SQRT => if x < 0 {
            None
        } else {
            bounded(int_sqrt(x))
        },
        OpCode::INVERT => bounded(-x - 1),
        _ => None,
    }
}

/// The result of an operation on the integers `a` and `b`, where it has one
/// that fits 32 bytes. Division and remainder round toward zero and have
/// no result for a zero divisor; the exponent of a power and the amount of
/// a shift must lie between 0 and the limit; a shift to the right rounds
/// down.
pub open spec fn binary_result(op: OpCode, a: int, b: int, limits: ExecutionEngineLimits) -> Option<
    int,
> {
    match op {
        OpCode::ADD => bounded(a + b),
        OpCode::SUB => bounded(a - b),
        OpCode::MUL => bounded(a * b),
        OpCode::DIV => if b == 0 {
            None
        } else {
            bounded(trunc_div(a, b))
        },
        OpCode::MOD => if b == 0 {
            None
        } else {
            bounded(trunc_rem(a, b))
        },
        OpCode::POW => if limits.spec_shift_ok(b) {
            bounded(pow(a, b as nat))
        } else {
            None
        },
        OpCode::SHL => if limits.spec_shift_ok(b) {
            bounded(a * pow(2, b as nat))
        } else {
            None
        },
        OpCode::SHR => if limits.spec_shift_ok(b) {
            bounded(a / pow(2, b as nat))
        } else {
            None
        },
        OpCode::AND => bounded(bitwise(BitOp::And, a, b)),
        OpCode::OR => bounded(bitwise(BitOp::Or, a, b)),
        OpCode::XOR => bounded(bitwise(BitOp::Xor, a, b)),
        OpCode::MIN => Some(
            if a <= b {
                a
            } else {
                b
            },
        ),
        OpCode::MAX => Some(
            if a >= b {
                a
            } else {
                b
            },
        ),
        _ => None,
    }
}

/// The result of `MODMUL` and `MODPOW` on `value`, `factor` and `modulus`.
/// `MODMUL` is the remainder of the product, rounded toward zero, and has
/// no result for a zero modulus. `MODPOW` with the exponent -1 is the
/// inverse modulo `modulus`; with another exponent it is the power reduced
/// by the modulus, with the sign of the modulus, and has no result for a
/// negative exponent or a zero modulus.
pub open spec fn ternary_result(op: OpCode, value: int, factor: int, modulus: int) -> Option<int> {
    match op {
        OpCode::MODMUL => if modulus == 0 {
            None
        } else {
            bounded(trunc_rem(value * factor, modulus))
        },
        OpCode::MODPOW => if factor == -1 {
            match mod_inverse_of(value, modulus) {
                Some(x) => bounded(x),
                None => None,
            }
        } else if factor < 0 || modulus == 0 {
            None
        } else {
            bounded(floor_mod(pow(value, factor as nat), modulus))
        },
        _ => None,
    }
}

/// The truth of a comparison of two integers.
pub open spec fn compare_result(op: OpCode, a: int, b: int) -> Option<bool> {
    match op {
        OpCode::NUMEQUAL => Some(a == b),
        OpCode::NUMNOTEQUAL => Some(a != b),
        OpCode::LT => Some(a < b),
        OpCode::LE => Some(a <= b),
        OpCode::GT => Some(a > b),
        OpCode::GE => Some(a >= b),
        _ => None,
    }
}

/// The integer with the given value, if the value fits 32 bytes.
fn bound(value: BigInteger) -> (r: Option<VMInteger>)
    ensures
        r is Some <==> bounded(value@) is Some,
        r is Some ==> r->Some_0@ == value@,
{
    VMInteger::try_new(value)
}

/// Computes an operation on one integer.
pub fn unary_numeric(op: OpCode, x: &VMInteger) -> (r: Option<VMInteger>)
    ensures
        r is Some <==> unary_result(op, x@) is Some,
        r is Some ==> r->Some_0@ == unary_result(op, x@)->Some_0,
{
    let v = x.value();
    match op {
        OpCode::SIGN => {
            let s = v.signum();
            proof {
                crate::types::primitive_types::vm_integer::lemma_i128_fits(s@);
            }
            bound(s)
        },
        OpCode::ABS => bound(v.abs()),
        OpCode::NEGATE => bound(v.negate()),
        OpCode::INC => bound(v.plus(&BigInteger::from_i128(1))),
        OpCode::DEC => bound(v.minus(&BigInteger::from_i128(1))),
        OpCode::SQRT => match v.checked_sqrt() {
            Some(s) => {
                proof {
                    lemma_sqrt_unique(v@, s@, int_sqrt(v@));
                }
                bound(s)
            },
            None => None,
        },
        OpCode::INVERT => bound(v.invert()),
        _ => None,
    }
}

/// Computes an operation on two integers.
pub fn binary_numeric(op: OpCode, a: &VMInteger, b: &VMInteger, limits: &ExecutionEngineLimits) -> (r:
    Option<VMInteger>)
    ensures
        r is Some <==> binary_result(op, a@, b@, *limits) is Some,
        r is Some ==> r->Some_0@ == binary_result(op, a@, b@, *limits)->Some_0,
{
    let x = a.value();
    let y = b.value();
    match op {
        OpCode::ADD => bound(x.plus(y)),
        OpCode::SUB => bound(x.minus(y)),
        OpCode::MUL => bound(x.times(y)),
        OpCode::DIV => match x.checked_div(y) {
            Some(q) => bound(q),
            None => None,
        },
        OpCode::MOD => match x.checked_rem(y) {
            Some(q) => bound(q),
            None => None,
        },
        OpCode::POW => match shift_amount(y, limits) {
            Some(e) => bound(x.power(e)),
            None => None,
        },
        OpCode::SHL => match shift_amount(y, limits) {
            Some(e) => bound(x.shift_left(e)),
            None => None,
        },
        OpCode::SHR => match shift_amount(y, limits) {
            Some(e) => bound(x.shift_right(e)),
            None => None,
        },
        OpCode::AND => bound(x.bit_op(BitOp::And, y)),
        OpCode::OR => bound(x.bit_op(BitOp::Or, y)),
        OpCode::XOR => bound(x.bit_op(BitOp::Xor, y)),
        OpCode::MIN => Some(
            if x.le(y) {
                a.clone()
            } else {
                b.clone()
            },
        ),
        OpCode::MAX => Some(
            if y.le(x) {
                a.clone()
            } else {
                b.clone()
            },
        ),
        _ => None,
    }
}

/// The amount of a shift, or the exponent of a power, if it lies between 0
/// and the limit.
pub fn shift_amount(value: &BigInteger, limits: &ExecutionEngineLimits) -> (r: Option<u32>)
    ensures
        r is Some <==> limits.spec_shift_ok(value@),
        r is Some ==> r->Some_0 == value@,
{
    match value.to_i128() {
        Some(v) => if limits.assert_shift(v) {
            Some(v as u32)
        } else {
            None
        },
        None => None,
    }
}

/// Computes `MODMUL` and `MODPOW`.
pub fn ternary_numeric(op: OpCode, value: &VMInteger, factor: &VMInteger, modulus: &VMInteger) -> (r:
    Option<VMInteger>)
    ensures
        r is Some <==> ternary_result(op, value@, factor@, modulus@) is Some,
        r is Some ==> r->Some_0@ == ternary_result(op, value@, factor@, modulus@)->Some_0,
{
    let v = value.value();
    let f = factor.value();
    let m = modulus.value();
    match op {
        OpCode::MODMUL => match v.times(f).checked_rem(m) {
            Some(q) => bound(q),
            None => None,
        },
        OpCode::MODPOW => {
            let minus_one = BigInteger::from_i128(-1);
            if f.equals(&minus_one) {
                match crate::utility::mod_inverse(v, m) {
                    Some(x) => {
                        proof {
                            assert(is_inverse(v@, m@, x@));
                            lemma_inverse_unique(v@, m@, x@, mod_inverse_of(v@, m@)->Some_0);
                        }
                        bound(x)
                    },
                    None => {
                        proof {
                            if v@ > 0 && m@ >= 2 {
                                assert forall|x: int| !is_inverse(v@, m@, x) by {
                                    if 0 <= x < m@ {
                                        assert((v@ * x) % m@ != 1);
                                    }
                                }
                            }
                        }
                        None
                    },
                }
            } else {
                match v.checked_modpow(f, m) {
                    Some(q) => bound(q),
                    None => None,
                }
            }
        },
        _ => None,
    }
}

/// Computes a comparison of two integers.
pub fn compare_numeric(op: OpCode, a: &VMInteger, b: &VMInteger) -> (r: Option<bool>)
    ensures
        r == compare_result(op, a@, b@),
{
    let x = a.value();
    let y = b.value();
    match op {
        OpCode::NUMEQUAL => Some(x.equals(y)),
        OpCode::NUMNOTEQUAL => Some(!x.equals(y)),
        OpCode::LT => Some(x.lt(y)),
        OpCode::LE => Some(x.le(y)),
        OpCode::GT => Some(y.lt(x)),
        OpCode::GE => Some(y.le(x)),
        _ => None,
    }
}

/// Whether the code takes one integer and gives an integer.
pub open spec fn is_unary_numeric(op: OpCode) -> bool {
    op == OpCode::SIGN || op == OpCode::ABS || op == OpCode::NEGATE || op == OpCode::INC || op
        == OpCode::DEC || op == OpCode::SQRT || op == OpCode::INVERT
}

/// Whether the code takes two integers and gives an integer.
pub open spec fn is_binary_numeric(op: OpCode) -> bool {
    op == OpCode::ADD || op == OpCode::SUB || op == OpCode::MUL || op == OpCode::DIV || op
        == OpCode::MOD || op == OpCode::POW || op == OpCode::AND || op == OpCode::OR || op
        == OpCode::XOR || op == OpCode::MIN || op == OpCode::MAX
}

/// Whether the code compares two integers.
pub open spec fn is_comparison(op: OpCode) -> bool {
    op == OpCode::NUMEQUAL || op == OpCode::NUMNOTEQUAL || op == OpCode::LT || op == OpCode::LE
        || op == OpCode::GT || op == OpCode::GE
}

/// Whether the comparison is false as soon as one operand is null.
pub open spec fn is_ordering(op: OpCode) -> bool {
    op == OpCode::LT || op == OpCode::LE || op == OpCode::GT || op == OpCode::GE
}

/// The number of operands of a code of the numeric family.
pub open spec fn numeric_arity(op: OpCode) -> Option<nat> {
    if is_unary_numeric(op) || op == OpCode::NOT || op == OpCode::NZ {
        Some(1)
    } else if is_binary_numeric(op) || is_comparison(op) || op == OpCode::SHL || op == OpCode::SHR
        || op == OpCode::BOOLAND || op == OpCode::BOOLOR {
        Some(2)
    } else if op == OpCode::MODMUL || op == OpCode::MODPOW || op == OpCode::WITHIN {
        Some(3)
    } else {
        None
    }
}

/// The item that a code of the numeric family pushes for the operands
/// `args`, which are in the order in which they were popped: the first is
/// the former top of the stack. The operands of an arithmetic operation
/// are taken as integers, those of `NOT`, `BOOLAND` and `BOOLOR` as truth
/// values. A shift by zero gives back the shifted item as it is.
pub open spec fn numeric_compute(
    op: OpCode,
    args: Seq<ItemView>,
    heap: CounterView,
    limits: ExecutionEngineLimits,
) -> Option<Seq<ItemView>> {
    if is_unary_numeric(op) {
        match int_at(heap, args, 0) {
            Some(x) => match unary_result(op, x) {
                Some(r) => Some(single(ItemView::Integer(r))),
                None => None,
            },
            None => None,
        }
    } else if is_binary_numeric(op) {
        match (int_at(heap, args, 1), int_at(heap, args, 0)) {
            (Some(a), Some(b)) => match binary_result(op, a, b, limits) {
                Some(r) => Some(single(ItemView::Integer(r))),
                None => None,
            },
            _ => None,
        }
    } else if op == OpCode::SHL || op == OpCode::SHR {
        match int_at(heap, args, 0) {
            Some(shift) => if !limits.spec_shift_ok(shift) || args.len() < 2 {
                None
            } else if shift == 0 {
                Some(single(args[1]))
            } else {
                match int_at(heap, args, 1) {
                    Some(a) => match binary_result(op, a, shift, limits) {
                        Some(r) => Some(single(ItemView::Integer(r))),
                        None => None,
                    },
                    None => None,
                }
            },
            None => None,
        }
    } else if op == OpCode::MODMUL || op == OpCode::MODPOW {
        match (int_at(heap, args, 2), int_at(heap, args, 1), int_at(heap, args, 0)) {
            (Some(value), Some(factor), Some(modulus)) => match ternary_result(
                op,
                value,
                factor,
                modulus,
            ) {
                Some(r) => Some(single(ItemView::Integer(r))),
                None => None,
            },
            _ => None,
        }
    } else if op == OpCode::NOT {
        match bool_at(heap, args, 0) {
            Some(b) => Some(single(ItemView::Boolean(!b))),
            None => None,
        }
    } else if op == OpCode::BOOLAND || op == OpCode::BOOLOR {
        match (bool_at(heap, args, 1), bool_at(heap, args, 0)) {
            (Some(a), Some(b)) => Some(
                single(
                    ItemView::Boolean(
                        if op == OpCode::BOOLAND {
                            a && b
                        } else {
                            a || b
                        },
                    ),
                ),
            ),
            _ => None,
        }
    } else if op == OpCode::NZ {
        match int_at(heap, args, 0) {
            Some(x) => Some(single(ItemView::Boolean(x != 0))),
            None => None,
        }
    } else if is_comparison(op) {
        if args.len() < 2 {
            None
        } else if is_ordering(op) && (args[0] is Null || args[1] is Null) {
            Some(single(ItemView::Boolean(false)))
        } else {
            match (int_at(heap, args, 1), int_at(heap, args, 0)) {
                (Some(a), Some(b)) => match compare_result(op, a, b) {
                    Some(r) => Some(single(ItemView::Boolean(r))),
                    None => None,
                },
                _ => None,
            }
        }
    } else if op == OpCode::WITHIN {
        match (int_at(heap, args, 2), int_at(heap, args, 1), int_at(heap, args, 0)) {
            (Some(x), Some(a), Some(b)) => Some(single(ItemView::Boolean(a <= x && x < b))),
            _ => None,
        }
    } else {
        None
    }
}

/// Computes what a code of the numeric family pushes.
pub fn numeric_op(
    op: OpCode,
    args: &Vec<StackItem>,
    heap: &ReferenceCounter,
    limits: &ExecutionEngineLimits,
) -> (r: Option<Vec<StackItem>>)
    ensures
        r is Some <==> numeric_compute(op, items_view(args@), heap@, *limits) is Some,
        r is Some ==> items_view(r->Some_0@) == numeric_compute(
            op,
            items_view(args@),
            heap@,
            *limits,
        )->Some_0,
{
    assert(items_view(args@).len() == args@.len());
    match op {
        OpCode::SIGN
        | OpCode::ABS
        | OpCode::NEGATE
        | OpCode::INC
        | OpCode::DEC
        | OpCode::SQRT
        | OpCode::INVERT => {
            let x = match int_arg(heap, args, 0) {
                Some(x) => x,
                None => {
                    return None;
                },
            };
            match unary_numeric(op, &x) {
                Some(r) => Some(one(StackItem::Integer(r))),
                None => None,
            }
        },
        OpCode::ADD
        | OpCode::SUB
        | OpCode::MUL
        | OpCode::DIV
        | OpCode::MOD
        | OpCode::POW
        | OpCode::AND
        | OpCode::OR
        | OpCode::XOR
        | OpCode::MIN
        | OpCode::MAX => {
            let a = match int_arg(heap, args, 1) {
                Some(x) => x,
                None => {
                    return None;
                },
            };
            let b = match int_arg(heap, args, 0) {
                Some(x) => x,
                None => {
                    return None;
                },
            };
            match binary_numeric(op, &a, &b, limits) {
                Some(r) => Some(one(StackItem::Integer(r))),
                None => None,
            }
        },
        OpCode::SHL | OpCode::SHR => {
            let shift = match int_arg(heap, args, 0) {
                Some(x) => x,
                None => {
                    return None;
                },
            };
            if shift_amount(shift.value(), limits).is_none() || args.len() < 2 {
                return None;
            }
            if shift.value().is_zero() {
                return Some(one(args[1].clone()));
            }
            let a = match int_arg(heap, args, 1) {
                Some(x) => x,
                None => {
                    return None;
                },
            };
            match binary_numeric(op, &a, &shift, limits) {
                Some(r) => Some(one(StackItem::Integer(r))),
                None => None,
            }
        },
        OpCode::MODMUL | OpCode::MODPOW => {
            let value = match int_arg(heap, args, 2) {
                Some(x) => x,
                None => {
                    return None;
                },
            };
            let factor = match int_arg(heap, args, 1) {
                Some(x) => x,
                None => {
                    return None;
                },
            };
            let modulus = match int_arg(heap, args, 0) {
                Some(x) => x,
                None => {
                    return None;
                },
            };
            match ternary_numeric(op, &value, &factor, &modulus) {
                Some(r) => Some(one(StackItem::Integer(r))),
                None => None,
            }
        },
        OpCode::NOT => match bool_arg(heap, args, 0) {
            Some(b) => Some(one(StackItem::Boolean(!b))),
            None => None,
        },
        OpCode::BOOLAND | OpCode::BOOLOR => {
            let a = match bool_arg(heap, args, 1) {
                Some(x) => x,
                None => {
                    return None;
                },
            };
            let b = match bool_arg(heap, args, 0) {
                Some(x) => x,
                None => {
                    return None;
                },
            };
            let both: bool = matches!(op, OpCode::BOOLAND);
            Some(one(StackItem::Boolean(if both { a && b } else { a || b })))
        },
        OpCode::NZ => match int_arg(heap, args, 0) {
            Some(x) => Some(one(StackItem::Boolean(x.get_boolean()))),
            None => None,
        },
        OpCode::NUMEQUAL
        | OpCode::NUMNOTEQUAL
        | OpCode::LT
        | OpCode::LE
        | OpCode::GT
        | OpCode::GE => {
            if args.len() < 2 {
                return None;
            }
            let ordering: bool = matches!(op, OpCode::LT | OpCode::LE | OpCode::GT | OpCode::GE);
            if ordering && (args[0].is_null() || args[1].is_null()) {
                return Some(one(StackItem::Boolean(false)));
            }
            let a = match int_arg(heap, args, 1) {
                Some(x) => x,
                None => {
                    return None;
                },
            };
            let b = match int_arg(heap, args, 0) {
                Some(x) => x,
                None => {
                    return None;
                },
            };
            match compare_numeric(op, &a, &b) {
                Some(r) => Some(one(StackItem::Boolean(r))),
                None => None,
            }
        },
        OpCode::WITHIN => {
            let x = match int_arg(heap, args, 2) {
                Some(x) => x,
                None => {
                    return None;
                },
            };
            let a = match int_arg(heap, args, 1) {
                Some(x) => x,
                None => {
                    return None;
                },
            };
            let b = match int_arg(heap, args, 0) {
                Some(x) => x,
                None => {
                    return None;
                },
            };
            Some(one(StackItem::Boolean(a.value().le(x.value()) && x.value().lt(b.value()))))
        },
        _ => None,
    }
}

impl JumpTable {
    /// Replaces the integer on top of the stack by its sign. Where the handler fails, the engine faults and is otherwise as it was.
    pub fn sign(&self, engine: &mut ExecutionEngine, instruction: &Instruction)
        ensures
            final(engine)@ == old(engine)@.executed(OpCode::SIGN, instruction.operand@),
    {
        engine.perform(OpCode::SIGN, instruction);
    }

    /// Replaces the integer on top of the stack by its absolute value. Where the handler fails, the engine faults and is otherwise as it was.
    pub fn abs(&self, engine: &mut ExecutionEngine, instruction: &Instruction)
        ensures
            final(engine)@ == old(engine)@.executed(OpCode::ABS, instruction.operand@),
    {
        engine.perform(OpCode::ABS, instruction);
    }

    /// Replaces the integer on top of the stack by its negation. Where the handler fails, the engine faults and is otherwise as it was.
    pub fn negate(&self, engine: &mut ExecutionEngine, instruction: &Instruction)
        ensures
            final(engine)@ == old(engine)@.executed(OpCode::NEGATE, instruction.operand@),
    {
        engine.perform(OpCode::NEGATE, instruction);
    }

    /// Adds 1 to the integer on top of the stack. Where the handler fails, the engine faults and is otherwise as it was.
    pub fn inc(&self, engine: &mut ExecutionEngine, instruction: &Instruction)
        ensures
            final(engine)@ == old(engine)@.executed(OpCode::INC, instruction.operand@),
    {
        engine.perform(OpCode::INC, instruction);
    }

    /// Subtracts 1 from the integer on top of the stack. Where the handler fails, the engine faults and is otherwise as it was.
    pub fn dec(&self, engine: &mut ExecutionEngine, instruction: &Instruction)
        ensures
            final(engine)@ == old(engine)@.executed(OpCode::DEC, instruction.operand@),
    {
        engine.perform(OpCode::DEC, instruction);
    }

    /// Replaces the two integers on top of the stack by their sum. Where the handler fails, the engine faults and is otherwise as it was.
    pub fn add(&self, engine: &mut ExecutionEngine, instruction: &Instruction)
        ensures
            final(engine)@ == old(engine)@.executed(OpCode::ADD, instruction.operand@),
    {
        engine.perform(OpCode::ADD, instruction);
    }

    /// Replaces the two integers on top of the stack by their difference. Where the handler fails, the engine faults and is otherwise as it was.
    pub fn sub(&self, engine: &mut ExecutionEngine, instruction: &Instruction)
        ensures
            final(engine)@ == old(engine)@.executed(OpCode::SUB, instruction.operand@),
    {
        engine.perform(OpCode::SUB, instruction);
    }

    /// Replaces the two integers on top of the stack by their product. Where the handler fails, the engine faults and is otherwise as it was.
    pub fn mul(&self, engine: &mut ExecutionEngine, instruction: &Instruction)
        ensures
            final(engine)@ == old(engine)@.executed(OpCode::MUL, instruction.operand@),
    {
        engine.perform(OpCode::MUL, instruction);
    }

    /// Replaces the two integers on top of the stack by their quotient, rounded toward zero. Where the handler fails, the engine faults and is otherwise as it was.
    pub fn div(&self, engine: &mut ExecutionEngine, instruction: &Instruction)
        ensures
            final(engine)@ == old(engine)@.executed(OpCode::DIV, instruction.operand@),
    {
        engine.perform(OpCode::DIV, instruction);
    }

    /// Replaces the two integers on top of the stack by the remainder of their division. Where the handler fails, the engine faults and is otherwise as it was.
    pub fn mod_op(&self, engine: &mut ExecutionEngine, instruction: &Instruction)
        ensures
            final(engine)@ == old(engine)@.executed(OpCode::MOD, instruction.operand@),
    {
        engine.perform(OpCode::MOD, instruction);
    }

    /// Replaces a number and an exponent by the power. Where the handler fails, the engine faults and is otherwise as it was.
    pub fn pow(&self, engine: &mut ExecutionEngine, instruction: &Instruction)
        ensures
            final(engine)@ == old(engine)@.executed(OpCode::POW, instruction.operand@),
    {
        engine.perform(OpCode::POW, instruction);
    }

    /// Replaces the integer on top of the stack by its square root, rounded down. Where the handler fails, the engine faults and is otherwise as it was.
    pub fn sqrt(&self, engine: &mut ExecutionEngine, instruction: &Instruction)
        ensures
            final(engine)@ == old(engine)@.executed(OpCode::SQRT, instruction.operand@),
    {
        engine.perform(OpCode::SQRT, instruction);
    }

    /// Replaces two numbers and a modulus by the remainder of the product. Where the handler fails, the engine faults and is otherwise as it was.
    pub fn mod_mul(&self, engine: &mut ExecutionEngine, instruction: &Instruction)
        ensures
            final(engine)@ == old(engine)@.executed(OpCode::MODMUL, instruction.operand@),
    {
        engine.perform(OpCode::MODMUL, instruction);
    }

    /// Replaces a number, an exponent and a modulus by the power modulo the modulus. Where the handler fails, the engine faults and is otherwise as it was.
    pub fn mod_pow(&self, engine: &mut ExecutionEngine, instruction: &Instruction)
        ensures
            final(engine)@ == old(engine)@.executed(OpCode::MODPOW, instruction.operand@),
    {
        engine.perform(OpCode::MODPOW, instruction);
    }

    /// Shifts a number to the left by the amount on top of the stack. Where the handler fails, the engine faults and is otherwise as it was.
    pub fn shl(&self, engine: &mut ExecutionEngine, instruction: &Instruction)
        ensures
            final(engine)@ == old(engine)@.executed(OpCode::SHL, instruction.operand@),
    {
        engine.perform(OpCode::SHL, instruction);
    }

    /// Shifts a number to the right by the amount on top of the stack. Where the handler fails, the engine faults and is otherwise as it was.
    pub fn shr(&self, engine: &mut ExecutionEngine, instruction: &Instruction)
        ensures
            final(engine)@ == old(engine)@.executed(OpCode::SHR, instruction.operand@),
    {
        engine.perform(OpCode::SHR, instruction);
    }

    /// Replaces the truth value on top of the stack by its negation. Where the handler fails, the engine faults and is otherwise as it was.
    pub fn not(&self, engine: &mut ExecutionEngine, instruction: &Instruction)
        ensures
            final(engine)@ == old(engine)@.executed(OpCode::NOT, instruction.operand@),
    {
        engine.perform(OpCode::NOT, instruction);
    }

    /// Replaces the two truth values on top of the stack by their conjunction. Where the handler fails, the engine faults and is otherwise as it was.
    pub fn bool_and(&self, engine: &mut ExecutionEngine, instruction: &Instruction)
        ensures
            final(engine)@ == old(engine)@.executed(OpCode::BOOLAND, instruction.operand@),
    {
        engine.perform(OpCode::BOOLAND, instruction);
    }

    /// Replaces the two truth values on top of the stack by their disjunction. Where the handler fails, the engine faults and is otherwise as it was.
    pub fn bool_or(&self, engine: &mut ExecutionEngine, instruction: &Instruction)
        ensures
            final(engine)@ == old(engine)@.executed(OpCode::BOOLOR, instruction.operand@),
    {
        engine.perform(OpCode::BOOLOR, instruction);
    }

    /// Replaces the integer on top of the stack by the truth of its being not zero. Where the handler fails, the engine faults and is otherwise as it was.
    pub fn nz(&self, engine: &mut ExecutionEngine, instruction: &Instruction)
        ensures
            final(engine)@ == old(engine)@.executed(OpCode::NZ, instruction.operand@),
    {
        engine.perform(OpCode::NZ, instruction);
    }

    /// Replaces the two integers on top of the stack by the truth of their equality. Where the handler fails, the engine faults and is otherwise as it was.
    pub fn num_equal(&self, engine: &mut ExecutionEngine, instruction: &Instruction)
        ensures
            final(engine)@ == old(engine)@.executed(OpCode::NUMEQUAL, instruction.operand@),
    {
        engine.perform(OpCode::NUMEQUAL, instruction);
    }

    /// Replaces the two integers on top of the stack by the truth of their inequality. Where the handler fails, the engine faults and is otherwise as it was.
    pub fn num_not_equal(&self, engine: &mut ExecutionEngine, instruction: &Instruction)
        ensures
            final(engine)@ == old(engine)@.executed(OpCode::NUMNOTEQUAL, instruction.operand@),
    {
        engine.perform(OpCode::NUMNOTEQUAL, instruction);
    }

    /// Replaces two integers by the truth of the lower one on the stack being less. Where the handler fails, the engine faults and is otherwise as it was.
    pub fn lt(&self, engine: &mut ExecutionEngine, instruction: &Instruction)
        ensures
            final(engine)@ == old(engine)@.executed(OpCode::LT, instruction.operand@),
    {
        engine.perform(OpCode::LT, instruction);
    }

    /// Replaces two integers by the truth of the lower one on the stack being less or equal. Where the handler fails, the engine faults and is otherwise as it was.
    pub fn le(&self, engine: &mut ExecutionEngine, instruction: &Instruction)
        ensures
            final(engine)@ == old(engine)@.executed(OpCode::LE, instruction.operand@),
    {
        engine.perform(OpCode::LE, instruction);
    }

    /// Replaces two integers by the truth of the lower one on the stack being greater. Where the handler fails, the engine faults and is otherwise as it was.
    pub fn gt(&self, engine: &mut ExecutionEngine, instruction: &Instruction)
        ensures
            final(engine)@ == old(engine)@.executed(OpCode::GT, instruction.operand@),
    {
        engine.perform(OpCode::GT, instruction);
    }

    /// Replaces two integers by the truth of the lower one on the stack being greater or equal. Where the handler fails, the engine faults and is otherwise as it was.
    pub fn ge(&self, engine: &mut ExecutionEngine, instruction: &Instruction)
        ensures
            final(engine)@ == old(engine)@.executed(OpCode::GE, instruction.operand@),
    {
        engine.perform(OpCode::GE, instruction);
    }

    /// Replaces the two integers on top of the stack by the smaller. Where the handler fails, the engine faults and is otherwise as it was.
    pub fn min(&self, engine: &mut ExecutionEngine, instruction: &Instruction)
        ensures
            final(engine)@ == old(engine)@.executed(OpCode::MIN, instruction.operand@),
    {
        engine.perform(OpCode::MIN, instruction);
    }

    /// Replaces the two integers on top of the stack by the larger. Where the handler fails, the engine faults and is otherwise as it was.
    pub fn max(&self, engine: &mut ExecutionEngine, instruction: &Instruction)
        ensures
            final(engine)@ == old(engine)@.executed(OpCode::MAX, instruction.operand@),
    {
        engine.perform(OpCode::MAX, instruction);
    }

    /// Replaces a number and two bounds by the truth of the number being at least the first bound and below the second. Where the handler fails, the engine faults and is otherwise as it was.
    pub fn within(&self, engine: &mut ExecutionEngine, instruction: &Instruction)
        ensures
            final(engine)@ == old(engine)@.executed(OpCode::WITHIN, instruction.operand@),
    {
        engine.perform(OpCode::WITHIN, instruction);
    }
}

} // verus!
