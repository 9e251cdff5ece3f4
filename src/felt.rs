//! Field element arithmetic of generated code, and its correctness.
use vstd::arithmetic::power2::{lemma2_to64, lemma_pow2_adds, lemma_pow2_pos, lemma_pow2_strictly_increases, pow2};
use vstd::prelude::*;

use crate::ir::{felt_prime, int_val, run, CmpOp, GenFunction, Inst, Val};

verus! {

/// Width in bits of a field element.
pub const FELT_WIDTH: u32 = 256;

/// Width in bits of the widened operands of field arithmetic.
pub const DOUBLE_FELT_WIDTH: u32 = 512;

/// A binary operation on field elements.
#[derive(Debug, Clone, Copy, PartialEq, Eq, Structural)]
pub enum BinaryOp {
    Add,
    Sub,
    Mul,
    Div,
}

/// The canonical result of `a op b` modulo the field prime.
pub open spec fn felt_result(op: BinaryOp, a: nat, b: nat) -> nat {
    match op {
        BinaryOp::Add => (a + b) % felt_prime(),
        BinaryOp::Sub => ((a - b) % (felt_prime() as int)) as nat,
        _ => (a * b) % felt_prime(),
    }
}

/// The body generated for `op`: widen both operands, compute, reduce once
/// (addition, subtraction) or modulo the prime (multiplication), truncate.
pub open spec fn felt_op_body(op: BinaryOp) -> Seq<Inst> {
    match op {
        BinaryOp::Add => seq![
            Inst::ZExt { v: 0, width: DOUBLE_FELT_WIDTH },
            Inst::ZExt { v: 1, width: DOUBLE_FELT_WIDTH },
            Inst::Add { a: 2, b: 3 },
            Inst::Prime { width: DOUBLE_FELT_WIDTH },
            Inst::Cmp { op: CmpOp::UnsignedGreaterEqual, a: 4, b: 5 },
            Inst::Sub { a: 4, b: 5 },
            Inst::Select { cond: 6, t: 7, f: 4 },
            Inst::Trunc { v: 8, width: FELT_WIDTH },
        ],
        BinaryOp::Sub => seq![
            Inst::ZExt { v: 0, width: DOUBLE_FELT_WIDTH },
            Inst::ZExt { v: 1, width: DOUBLE_FELT_WIDTH },
            Inst::Sub { a: 2, b: 3 },
            Inst::Prime { width: DOUBLE_FELT_WIDTH },
            Inst::Cmp { op: CmpOp::UnsignedLess, a: 2, b: 3 },
            Inst::Add { a: 4, b: 5 },
            Inst::Select { cond: 6, t: 7, f: 4 },
            Inst::Trunc { v: 8, width: FELT_WIDTH },
        ],
        _ => seq![
            Inst::ZExt { v: 0, width: DOUBLE_FELT_WIDTH },
            Inst::ZExt { v: 1, width: DOUBLE_FELT_WIDTH },
            Inst::Mul { a: 2, b: 3 },
            Inst::FeltMod { v: 4 },
            Inst::Trunc { v: 5, width: FELT_WIDTH },
        ],
    }
}

/// The value returned by the body generated for `op`.
pub open spec fn felt_op_ret(op: BinaryOp) -> usize {
    match op {
        BinaryOp::Add | BinaryOp::Sub => 9,
        _ => 6,
    }
}

/// Whether `f` is the function generated for the field operation `op`.
pub open spec fn is_felt_op_fn(f: GenFunction, op: BinaryOp) -> bool {
    &&& op != BinaryOp::Div
    &&& f.body@ == felt_op_body(op)
    &&& f.rets@ == seq![felt_op_ret(op)]
}

pub open spec fn felt(x: nat) -> Val {
    Val::Int { width: FELT_WIDTH as nat, value: x }
}

/// The arguments of a field operation.
pub open spec fn felt_args(a: nat, b: nat) -> Seq<Val> {
    seq![felt(a), felt(b)]
}

/// The sizes that make widened field arithmetic exact.
pub proof fn lemma_prime_bounds()
    ensures
        0 < felt_prime() < pow2(252),
        pow2(252) < pow2(FELT_WIDTH as nat),
        2 * felt_prime() < pow2(DOUBLE_FELT_WIDTH as nat),
        felt_prime() * felt_prime() < pow2(DOUBLE_FELT_WIDTH as nat),
{
    lemma2_to64();
    lemma_pow2_adds(192, 59);
    lemma_pow2_strictly_increases(5, 59);
    lemma_pow2_pos(192);
    assert(17 * pow2(192) + 1 < pow2(251)) by (nonlinear_arith)
        requires
            pow2(192) * pow2(59) == pow2(251),
            pow2(59) > 32,
            pow2(192) > 0,
    ;
    lemma_pow2_adds(251, 1);
    lemma_pow2_strictly_increases(252, 256);
    lemma_pow2_strictly_increases(253, 512);
    lemma_pow2_adds(252, 1);
    lemma_pow2_adds(252, 252);
    lemma_pow2_strictly_increases(504, 512);
    let p = felt_prime();
    let q = pow2(252);
    assert(p * p < q * q) by (nonlinear_arith)
        requires
            0 < p < q,
    ;
}

/// What the body generated for addition computes on canonical operands.
#[verifier::rlimit(40)]
proof fn lemma_felt_add_vals(f: GenFunction, a: nat, b: nat) -> (r: nat)
    requires
        f.body@ == felt_op_body(BinaryOp::Add),
        f.rets@ == seq![felt_op_ret(BinaryOp::Add)],
        a < felt_prime(),
        b < felt_prime(),
    ensures
        f.call(seq![felt(a), felt(b)]) == seq![felt(r)],
        r == felt_result(BinaryOp::Add, a, b),
        r < felt_prime(),
{
    lemma_prime_bounds();
    let p = felt_prime();
    let w2 = pow2(DOUBLE_FELT_WIDTH as nat);
    let w1 = pow2(FELT_WIDTH as nat);
    let dw = DOUBLE_FELT_WIDTH as nat;
    let args = seq![felt(a), felt(b)];
    let body = f.body@;
    let x = Val::Int { width: dw, value: a };
    let y = Val::Int { width: dw, value: b };
    let v2 = args.push(x);
    let v3 = v2.push(y);
    assert(run(body, args, 0).0 == args);
    assert(run(body, args, 1).0 == v2);
    assert(run(body, args, 2).0 == v3);
    vstd::arithmetic::div_mod::lemma_small_mod(p, w2);
    let pv = Val::Int { width: dw, value: p };
    assert(int_val(dw, p as int) == pv);

    let s = a + b;
    vstd::arithmetic::div_mod::lemma_small_mod(s, w2);
    let sv = Val::Int { width: dw, value: s };
    let v4 = v3.push(sv);
    assert(run(body, args, 3).0 == v4);
    let v5 = v4.push(pv);
    assert(run(body, args, 4).0 == v5);
    let v6 = v5.push(Val::Int { width: 1, value: if s >= p { 1 } else { 0 } });
    assert(run(body, args, 5).0 == v6);
    let d: int = (s - p) % (w2 as int);
    let v7 = v6.push(Val::Int { width: dw, value: d as nat });
    assert(run(body, args, 6).0 == v7);
    let r: nat = if s >= p { (s - p) as nat } else { s };
    if s >= p {
        vstd::arithmetic::div_mod::lemma_small_mod((s - p) as nat, w2);
        vstd::arithmetic::div_mod::lemma_mod_sub_multiples_vanish(s as int, p as int);
        vstd::arithmetic::div_mod::lemma_small_mod((s - p) as nat, p);
    } else {
        vstd::arithmetic::div_mod::lemma_small_mod(s, p);
    }
    let v8 = v7.push(Val::Int { width: dw, value: r });
    assert(run(body, args, 7).0 == v8);
    vstd::arithmetic::div_mod::lemma_small_mod(r, w1);
    let v9 = v8.push(felt(r));
    assert(run(body, args, 8).0 == v9);
    assert(f.call(args) =~= seq![felt(r)]);
    r
}

/// What the body generated for subtraction computes on canonical operands.
#[verifier::rlimit(40)]
proof fn lemma_felt_sub_vals(f: GenFunction, a: nat, b: nat) -> (r: nat)
    requires
        f.body@ == felt_op_body(BinaryOp::Sub),
        f.rets@ == seq![felt_op_ret(BinaryOp::Sub)],
        a < felt_prime(),
        b < felt_prime(),
    ensures
        f.call(seq![felt(a), felt(b)]) == seq![felt(r)],
        r == felt_result(BinaryOp::Sub, a, b),
        r < felt_prime(),
{
    lemma_prime_bounds();
    let p = felt_prime();
    let w2 = pow2(DOUBLE_FELT_WIDTH as nat);
    let w1 = pow2(FELT_WIDTH as nat);
    let dw = DOUBLE_FELT_WIDTH as nat;
    let args = seq![felt(a), felt(b)];
    let body = f.body@;
    let x = Val::Int { width: dw, value: a };
    let y = Val::Int { width: dw, value: b };
    let v2 = args.push(x);
    let v3 = v2.push(y);
    assert(run(body, args, 0).0 == args);
    assert(run(body, args, 1).0 == v2);
    assert(run(body, args, 2).0 == v3);
    vstd::arithmetic::div_mod::lemma_small_mod(p, w2);
    let pv = Val::Int { width: dw, value: p };
    assert(int_val(dw, p as int) == pv);

    let d: int = (a - b) % (w2 as int);
    let v4 = v3.push(Val::Int { width: dw, value: d as nat });
    assert(run(body, args, 3).0 == v4);
    let v5 = v4.push(pv);
    assert(run(body, args, 4).0 == v5);
    let v6 = v5.push(Val::Int { width: 1, value: if a < b { 1 } else { 0 } });
    assert(run(body, args, 5).0 == v6);
    let r: nat = if a < b { (a + p - b) as nat } else { (a - b) as nat };
    assert(r as int == (a - b) % (p as int)) by {
        if a < b {
            vstd::arithmetic::div_mod::lemma_mod_add_multiples_vanish(a - b, p as int);
        }
        vstd::arithmetic::div_mod::lemma_small_mod(r, p);
    }
    if a < b {
        vstd::arithmetic::div_mod::lemma_mod_add_multiples_vanish(a - b, w2 as int);
        vstd::arithmetic::div_mod::lemma_small_mod((a - b + w2) as nat, w2);
        vstd::arithmetic::div_mod::lemma_mod_sub_multiples_vanish(d + p, w2 as int);
        vstd::arithmetic::div_mod::lemma_small_mod(r, w2);
    } else {
        vstd::arithmetic::div_mod::lemma_small_mod((a - b) as nat, w2);
    }
    let v7 = v6.push(Val::Int { width: dw, value: ((d + p) % (w2 as int)) as nat });
    assert(run(body, args, 6).0 == v7);
    let v8 = v7.push(Val::Int { width: dw, value: r });
    assert(run(body, args, 7).0 == v8);
    vstd::arithmetic::div_mod::lemma_small_mod(r, w1);
    let v9 = v8.push(felt(r));
    assert(run(body, args, 8).0 == v9);
    assert(f.call(args) =~= seq![felt(r)]);
    r
}

/// What the body generated for multiplication computes on canonical operands.
#[verifier::rlimit(40)]
proof fn lemma_felt_mul_vals(f: GenFunction, a: nat, b: nat) -> (r: nat)
    requires
        f.body@ == felt_op_body(BinaryOp::Mul),
        f.rets@ == seq![felt_op_ret(BinaryOp::Mul)],
        a < felt_prime(),
        b < felt_prime(),
    ensures
        f.call(seq![felt(a), felt(b)]) == seq![felt(r)],
        r == felt_result(BinaryOp::Mul, a, b),
        r < felt_prime(),
{
    lemma_prime_bounds();
    let p = felt_prime();
    let w2 = pow2(DOUBLE_FELT_WIDTH as nat);
    let w1 = pow2(FELT_WIDTH as nat);
    let dw = DOUBLE_FELT_WIDTH as nat;
    let args = seq![felt(a), felt(b)];
    let body = f.body@;
    let x = Val::Int { width: dw, value: a };
    let y = Val::Int { width: dw, value: b };
    let v2 = args.push(x);
    let v3 = v2.push(y);
    assert(run(body, args, 0).0 == args);
    assert(run(body, args, 1).0 == v2);
    assert(run(body, args, 2).0 == v3);
    vstd::arithmetic::div_mod::lemma_small_mod(p, w2);
    let pv = Val::Int { width: dw, value: p };
    assert(int_val(dw, p as int) == pv);

    let m = a * b;
    assert(m < p * p) by (nonlinear_arith)
        requires
            a < p,
            b < p,
            m == a * b,
    ;
    vstd::arithmetic::div_mod::lemma_small_mod(m, w2);
    let v4 = v3.push(Val::Int { width: dw, value: m });
    assert(run(body, args, 3).0 == v4);
    let r = m % p;
    let v5 = v4.push(Val::Int { width: dw, value: r });
    assert(run(body, args, 4).0 == v5);
    vstd::arithmetic::div_mod::lemma_small_mod(r, w1);
    let v6 = v5.push(felt(r));
    assert(run(body, args, 5).0 == v6);
    assert(f.call(args) =~= seq![felt(r)]);
    r
}

/// Field operations of generated code are exact: on canonical operands the
/// function generated for addition, subtraction or multiplication returns the
/// canonical residue of the sum, difference or product, below the prime.
pub proof fn lemma_felt_op_canonical(f: GenFunction, op: BinaryOp, a: nat, b: nat)
    requires
        is_felt_op_fn(f, op),
        a < felt_prime(),
        b < felt_prime(),
    ensures
        f.call(seq![felt(a), felt(b)]) == seq![felt(felt_result(op, a, b))],
        felt_result(op, a, b) < felt_prime(),
        op == BinaryOp::Add ==> felt_result(op, a, b) as int == (a + b) as int % (felt_prime() as int),
        op == BinaryOp::Sub ==> felt_result(op, a, b) as int == (a - b) % (felt_prime() as int),
        op == BinaryOp::Mul ==> felt_result(op, a, b) as int == (a * b) as int % (felt_prime() as int),
{
    match op {
        BinaryOp::Add => {
            lemma_felt_add_vals(f, a, b);
        },
        BinaryOp::Sub => {
            lemma_felt_sub_vals(f, a, b);
        },
        _ => {
            lemma_felt_mul_vals(f, a, b);
        },
    }
}

} // verus!
