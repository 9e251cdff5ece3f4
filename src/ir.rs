//! A small typed SSA form for generated functions, and its meaning.
//!
//! A function's values are numbered: first its parameters, then one value per
//! instruction of its body, in order. The spec function `call` gives what a
//! function returns on given arguments.
use vstd::arithmetic::power2::pow2;
use vstd::prelude::*;

use crate::types::{PhysType, Ty};

verus! {

/// A runtime value of generated code.
pub ghost enum Val {
    Int { width: nat, value: nat },
    Agg(Seq<Val>),
    Ptr(nat),
    Unit,
}

/// Unsigned integer comparisons.
#[derive(Clone, Copy, PartialEq, Eq, Structural, Debug)]
pub enum CmpOp {
    UnsignedGreaterEqual,
    UnsignedLess,
}

/// One instruction; its operands name earlier values by number.
pub enum Inst {
    /// Zero-extends an integer to `width` bits.
    ZExt { v: usize, width: u32 },
    /// Keeps the low `width` bits of an integer.
    Trunc { v: usize, width: u32 },
    /// Wrapping addition at the operands' width.
    Add { a: usize, b: usize },
    /// Wrapping subtraction at the operands' width.
    Sub { a: usize, b: usize },
    /// Wrapping multiplication at the operands' width.
    Mul { a: usize, b: usize },
    /// The field modulus as a literal of the given width.
    Prime { width: u32 },
    /// The remainder of an integer modulo the field modulus.
    FeltMod { v: usize },
    /// An unsigned comparison, giving a 1-bit integer.
    Cmp { op: CmpOp, a: usize, b: usize },
    /// `t` where `cond` is non-zero, else `f`.
    Select { cond: usize, t: usize, f: usize },
    And { a: usize, b: usize },
    Xor { a: usize, b: usize },
    Or { a: usize, b: usize },
    /// An aggregate of the given type with every field zero.
    Zero { ty: PhysType },
    /// Field `index` of an aggregate.
    Extract { agg: usize, index: usize },
    /// The aggregate with field `index` replaced by `v`.
    Insert { agg: usize, index: usize, v: usize },
    /// Reserves a fresh stack slot for a value of the given type.
    Alloca { ty: PhysType },
    /// Writes the bits of `v` into the slot `ptr`.
    Store { v: usize, ptr: usize },
    /// Reads the slot `ptr` back as a value of the given type.
    Load { ptr: usize, ty: PhysType },
}

/// The field modulus, 2^251 + 17 * 2^192 + 1.
pub open spec fn felt_prime() -> nat {
    pow2(251) + 17 * pow2(192) + 1
}

/// Decimal digits of the field modulus, for emitting its literal.
pub const FELT_PRIME_DECIMAL: &'static str =
    "3618502788666131213697322783095070105623107215331596699973092056135872020481";

/// The low `w` bits of `x`, least significant first.
pub open spec fn bits_of(x: nat, w: nat) -> Seq<bool>
    decreases w,
{
    if w == 0 {
        seq![]
    } else {
        seq![x % 2 == 1] + bits_of(x / 2, (w - 1) as nat)
    }
}

/// The number whose bits, least significant first, are `b`.
pub open spec fn nat_of(b: Seq<bool>) -> nat
    decreases b.len(),
{
    if b.len() == 0 {
        0
    } else {
        (if b[0] {
            1nat
        } else {
            0nat
        }) + 2 * nat_of(b.subrange(1, b.len() as int))
    }
}

/// The size in bits of a type's packed bit image: integers take their width,
/// fields follow one another with no rounding or alignment padding.
pub open spec fn size_of(t: Ty) -> nat
    decreases t,
{
    match t {
        Ty::Int(w) => w,
        Ty::Array(n) => 8 * n,
        Ty::Struct(fs) => sizes_of(fs),
    }
}

pub open spec fn sizes_of(fs: Seq<Ty>) -> nat
    decreases fs,
{
    if fs.len() == 0 {
        0
    } else {
        size_of(fs[0]) + sizes_of(fs.subrange(1, fs.len() as int))
    }
}

/// The bit image of a value: integers least significant bit first, aggregates
/// field after field.
pub open spec fn encode(v: Val) -> Seq<bool>
    decreases v,
{
    match v {
        Val::Int { width, value } => bits_of(value, width),
        Val::Agg(s) => encode_all(s),
        _ => seq![],
    }
}

pub open spec fn encode_all(s: Seq<Val>) -> Seq<bool>
    decreases s,
{
    if s.len() == 0 {
        seq![]
    } else {
        encode(s[0]) + encode_all(s.subrange(1, s.len() as int))
    }
}

/// The value of type `t` whose bit image starts `b`.
pub open spec fn decode(t: Ty, b: Seq<bool>) -> Val
    decreases t,
{
    match t {
        Ty::Int(w) => Val::Int { width: w, value: nat_of(b.take(w as int)) },
        Ty::Array(n) => Val::Agg(
            Seq::new(n, |i: int| Val::Int { width: 8, value: nat_of(b.subrange(8 * i, 8 * i + 8)) }),
        ),
        Ty::Struct(fs) => Val::Agg(decode_all(fs, b)),
    }
}

pub open spec fn decode_all(fs: Seq<Ty>, b: Seq<bool>) -> Seq<Val>
    decreases fs,
{
    if fs.len() == 0 {
        seq![]
    } else {
        seq![decode(fs[0], b)] + decode_all(
            fs.subrange(1, fs.len() as int),
            b.subrange(size_of(fs[0]) as int, b.len() as int),
        )
    }
}

/// The value of type `t` with every integer zero.
pub open spec fn zero_of(t: Ty) -> Val
    decreases t,
{
    match t {
        Ty::Int(w) => Val::Int { width: w, value: 0 },
        Ty::Array(n) => Val::Agg(Seq::new(n, |i: int| Val::Int { width: 8, value: 0 })),
        Ty::Struct(fs) => Val::Agg(
            Seq::new(
                fs.len(),
                |i: int|
                    if 0 <= i < fs.len() {
                        zero_of(fs[i])
                    } else {
                        Val::Unit
                    },
            ),
        ),
    }
}

/// Whether `v` is a value of type `t`.
pub open spec fn has_type(v: Val, t: Ty) -> bool
    decreases t,
{
    match t {
        Ty::Int(w) => v == Val::Int { width: w, value: v->value } && v->value < pow2(w),
        Ty::Array(n) => v is Agg && v->Agg_0.len() == n && forall|i: int|
            0 <= i < n ==> {
                let e = #[trigger] v->Agg_0[i];
                e is Int && e->width == 8 && e->value < pow2(8)
            },
        Ty::Struct(fs) => v is Agg && v->Agg_0.len() == fs.len() && forall|i: int|
            0 <= i < fs.len() ==> has_type(#[trigger] v->Agg_0[i], fs[i]),
    }
}

/// Whether every value of `vs` has the type at the same place of `ts`.
pub open spec fn has_types(vs: Seq<Val>, ts: Seq<Ty>) -> bool {
    vs.len() == ts.len() && forall|i: int| 0 <= i < ts.len() ==> has_type(#[trigger] vs[i], ts[i])
}

pub open spec fn int_value(v: Val) -> nat {
    match v {
        Val::Int { value, .. } => value,
        _ => 0,
    }
}

pub open spec fn int_width(v: Val) -> nat {
    match v {
        Val::Int { width, .. } => width,
        _ => 0,
    }
}

pub open spec fn fields_of(v: Val) -> Seq<Val> {
    match v {
        Val::Agg(s) => s,
        _ => seq![],
    }
}

pub open spec fn ptr_of(v: Val) -> nat {
    match v {
        Val::Ptr(p) => p,
        _ => 0,
    }
}

pub open spec fn int_val(width: nat, value: int) -> Val {
    Val::Int { width, value: (value % (pow2(width) as int)) as nat }
}

pub open spec fn bool_val(b: bool) -> Val {
    Val::Int { width: 1, value: if b { 1 } else { 0 } }
}

/// Memory of a running function: the bits held by each stack slot.
pub type Mem = Map<nat, Seq<bool>>;

/// The integer held by value `i`.
pub open spec fn xv(vals: Seq<Val>, i: usize) -> nat {
    int_value(vals[i as int])
}

/// The width of the integer held by value `i`.
pub open spec fn wv(vals: Seq<Val>, i: usize) -> nat {
    int_width(vals[i as int])
}

/// The value that instruction `inst`, the `k`-th value of its function,
/// defines, and the memory after it.
pub open spec fn step(inst: Inst, vals: Seq<Val>, mem: Mem, k: nat) -> (Val, Mem) {
    match inst {
        Inst::ZExt { v, width } => (Val::Int { width: width as nat, value: xv(vals, v) }, mem),
        Inst::Trunc { v, width } => (int_val(width as nat, xv(vals, v) as int), mem),
        Inst::Add { a, b } => (int_val(wv(vals, a), xv(vals, a) as int + xv(vals, b) as int), mem),
        Inst::Sub { a, b } => (int_val(wv(vals, a), xv(vals, a) as int - xv(vals, b) as int), mem),
        Inst::Mul { a, b } => (int_val(wv(vals, a), xv(vals, a) as int * xv(vals, b) as int), mem),
        Inst::Prime { width } => (int_val(width as nat, felt_prime() as int), mem),
        Inst::FeltMod { v } => (Val::Int { width: wv(vals, v), value: xv(vals, v) % felt_prime() }, mem),
        Inst::Cmp { op, a, b } => (
            bool_val(
                match op {
                    CmpOp::UnsignedGreaterEqual => xv(vals, a) >= xv(vals, b),
                    CmpOp::UnsignedLess => xv(vals, a) < xv(vals, b),
                },
            ),
            mem,
        ),
        Inst::Select { cond, t, f } => (
            if xv(vals, cond) != 0 {
                vals[t as int]
            } else {
                vals[f as int]
            },
            mem,
        ),
        Inst::And { a, b } => (Val::Int { width: wv(vals, a), value: (xv(vals, a) as u128 & xv(vals, b) as u128) as nat }, mem),
        Inst::Xor { a, b } => (Val::Int { width: wv(vals, a), value: (xv(vals, a) as u128 ^ xv(vals, b) as u128) as nat }, mem),
        Inst::Or { a, b } => (Val::Int { width: wv(vals, a), value: (xv(vals, a) as u128 | xv(vals, b) as u128) as nat }, mem),
        Inst::Zero { ty } => (zero_of(ty.ty()), mem),
        Inst::Extract { agg, index } => (fields_of(vals[agg as int])[index as int], mem),
        Inst::Insert { agg, index, v } => (
            Val::Agg(fields_of(vals[agg as int]).update(index as int, vals[v as int])),
            mem,
        ),
        Inst::Alloca { ty } => (Val::Ptr(k), mem),
        Inst::Store { v, ptr } => (Val::Unit, mem.insert(ptr_of(vals[ptr as int]), encode(vals[v as int]))),
        Inst::Load { ptr, ty } => (decode(ty.ty(), mem[ptr_of(vals[ptr as int])]), mem),
    }
}

/// The values and memory after the first `n` instructions of `body`, starting
/// from the arguments `args` and an empty memory.
pub open spec fn run(body: Seq<Inst>, args: Seq<Val>, n: nat) -> (Seq<Val>, Mem)
    decreases n,
{
    if n == 0 || n > body.len() {
        (args, Map::empty())
    } else {
        let (vals, mem) = run(body, args, (n - 1) as nat);
        let (v, mem2) = step(body[n - 1], vals, mem, vals.len());
        (vals.push(v), mem2)
    }
}

/// A generated function: parameter and result types, body and returned values.
pub struct GenFunction {
    pub name: FnName,
    pub params: Vec<PhysType>,
    pub results: Vec<PhysType>,
    pub body: Vec<Inst>,
    pub rets: Vec<usize>,
}

/// The symbol of a generated function.
pub enum FnName {
    /// A directly requested libfunc, under its normalized debug name.
    Libfunc(String),
    /// A memoized helper.
    Helper(HelperKey),
}

/// Which accessor a helper is.
#[derive(Clone, Copy, PartialEq, Eq, Structural, Debug)]
pub enum HelperKind {
    /// The tag of an enum.
    EnumGetTag,
    /// The payload of an enum read as the given variant.
    EnumGetData(usize),
}

/// The identity of a memoized helper: its kind and the enum's physical type.
pub struct HelperKey {
    pub kind: HelperKind,
    pub enum_type: PhysType,
}

impl HelperKey {
    pub open spec fn view(&self) -> (HelperKind, Ty) {
        (self.kind, self.enum_type.ty())
    }
}

impl GenFunction {
    /// What the function returns on `args`.
    pub open spec fn call(&self, args: Seq<Val>) -> Seq<Val> {
        let vals = run(self.body@, args, self.body@.len()).0;
        Seq::new(self.rets@.len(), |i: int| vals[self.rets@[i] as int])
    }

    pub open spec fn param_tys(&self) -> Seq<Ty> {
        Seq::new(self.params@.len(), |i: int| self.params@[i].ty())
    }

    pub open spec fn result_tys(&self) -> Seq<Ty> {
        Seq::new(self.results@.len(), |i: int| self.results@[i].ty())
    }
}

} // verus!
