//! The libfunc builders: each turns one declaration into a generated function
//! and registers its signature, or records a literal.
use vstd::arithmetic::power2::pow2;
use vstd::prelude::*;

use crate::decl::{ArgKind, CompileError, LibfuncDeclaration};
use crate::felt::{
    felt, felt_args, felt_op_body, felt_op_ret, felt_result, is_felt_op_fn, lemma_felt_op_canonical, BinaryOp,
    DOUBLE_FELT_WIDTH, FELT_WIDTH,
};
use crate::ir::{felt_prime, CmpOp, FnName, GenFunction, Inst, Val};
use crate::state::{ConstTable, FunctionDef, Storage};
use crate::types::{PhysType, STy, SierraType, Ty};

verus! {

/// Width in bits of the token that threads the bitwise builtin's cost.
pub const BITWISE_WIDTH: u32 = 64;

/// Width in bits of the operands of the bitwise builtin.
pub const U128_WIDTH: u32 = 128;

/// The compiler's output: the module that generated functions are appended to.
pub struct Compiler {
    pub module: Vec<GenFunction>,
}

/// `new` is `old` with exactly one function appended.
pub open spec fn emitted_one(new: Seq<GenFunction>, old: Seq<GenFunction>) -> bool {
    new.len() == old.len() + 1 && new.drop_last() == old
}

/// Whether `f` is named after the declaration `decl`.
pub open spec fn named_after(f: GenFunction, decl: &LibfuncDeclaration) -> bool {
    f.name is Libfunc && f.name->Libfunc_0@ == decl.debug_name@
}

pub open spec fn felt_sty() -> STy {
    STy::Simple(Ty::Int(FELT_WIDTH as nat))
}

pub open spec fn int_sty(w: u32) -> STy {
    STy::Simple(Ty::Int(w as nat))
}

pub open spec fn u128_and(a: u128, b: u128) -> u128 {
    a & b
}

pub open spec fn u128_xor(a: u128, b: u128) -> u128 {
    a ^ b
}

pub open spec fn u128_or(a: u128, b: u128) -> u128 {
    a | b
}

/// The width of the physical type of a registered type, where it is an integer.
pub open spec fn int_width_of(t: STy) -> Option<nat> {
    match t.phys() {
        Ty::Int(w) => Some(w),
        _ => None,
    }
}

pub open spec fn u128_val(x: u128) -> Val {
    Val::Int { width: U128_WIDTH as nat, value: x as nat }
}

/// The arguments of the bitwise builtin: the guard and two operands.
pub open spec fn bitwise_inputs(g: Val, a: u128, b: u128) -> Seq<Val> {
    seq![g, u128_val(a), u128_val(b)]
}

/// What recording a literal of `decl` in `table` does.
pub open spec fn const_effect(
    decl: &LibfuncDeclaration,
    old: Storage,
    new: Storage,
    table: ConstTable,
    r: Result<(), CompileError>,
) -> bool {
    &&& r is Ok <==> decl.generic_args@.len() == 1 && decl.arg_kind(0) == ArgKind::Value
    &&& r matches Err(e) ==> new == old && e == if decl.arg_kind(0) != ArgKind::Value {
        CompileError::WrongArgKind {
            decl: decl.id,
            index: 0,
            expected: ArgKind::Value,
            found: decl.arg_kind(0),
        }
    } else {
        CompileError::WrongArgKind {
            decl: decl.id,
            index: 1,
            expected: ArgKind::Missing,
            found: decl.arg_kind(1),
        }
    }
    &&& r is Ok ==> new.const_map(table) == old.const_map(table).insert(
        decl.debug_name@,
        decl.generic_args@[0]->Value_0@,
    ) && new.same_but_table(&old, table)
}

/// What generating `upcast` for `decl` does.
pub open spec fn upcast_effect(
    decl: &LibfuncDeclaration,
    old: Storage,
    new: Storage,
    old_module: Seq<GenFunction>,
    new_module: Seq<GenFunction>,
    r: Result<(), CompileError>,
) -> bool {
    let src = old.type_map()[decl.type_id(0)];
    let dst = old.type_map()[decl.type_id(1)];
    let ok_types = decl.resolves(0, &old) && decl.resolves(1, &old);
    let ints = int_width_of(src) is Some && int_width_of(dst) is Some;
    let sw = int_width_of(src)->Some_0;
    let dw = int_width_of(dst)->Some_0;
    &&& r is Err ==> new == old && new_module == old_module
    &&& !decl.resolves(0, &old) ==> r == Err::<(), CompileError>(decl.resolve_error(0, &old))
    &&& decl.resolves(0, &old) && !decl.resolves(1, &old) ==> r == Err::<(), CompileError>(
        decl.resolve_error(1, &old),
    )
    &&& ok_types && !ints ==> r == Err::<(), CompileError>(CompileError::NotAnInteger { decl: decl.id })
    &&& ok_types && ints && sw > dw ==> r == Err::<(), CompileError>(
        CompileError::NarrowingUpcast { decl: decl.id },
    )
    &&& ok_types && ints && sw == dw ==> r is Ok && new == old && new_module == old_module
    &&& ok_types && ints && sw < dw ==> {
        let f = new_module.last();
        &&& r is Ok
        &&& emitted_one(new_module, old_module)
        &&& named_after(f, decl)
        &&& f.param_tys() == seq![src.phys()]
        &&& f.result_tys() == seq![dst.phys()]
        &&& forall|v: nat|
            v < pow2(sw) ==> #[trigger] f.call(seq![Val::Int { width: sw, value: v }]) == seq![
                Val::Int { width: dw, value: v },
            ]
        &&& new.function_map() == old.function_map().insert(decl.debug_name@, (seq![src], seq![dst]))
        &&& new.same_but_functions(&old)
    }
}

/// What generating the field operation `binary_op` for `decl` does.
pub open spec fn felt_op_effect(
    decl: &LibfuncDeclaration,
    binary_op: BinaryOp,
    old: Storage,
    new: Storage,
    old_module: Seq<GenFunction>,
    new_module: Seq<GenFunction>,
    r: Result<(), CompileError>,
) -> bool {
    &&& r is Err <==> binary_op == BinaryOp::Div
    &&& r matches Err(e) ==> e == (CompileError::UnsupportedOperation { decl: decl.id })
        && new_module == old_module && new == old
    &&& r is Ok ==> {
        let f = new_module.last();
        &&& emitted_one(new_module, old_module)
        &&& named_after(f, decl)
        &&& is_felt_op_fn(f, binary_op)
        &&& forall|a: nat, b: nat|
            a < felt_prime() && b < felt_prime() ==> #[trigger] f.call(felt_args(a, b)) == seq![
                felt(felt_result(binary_op, a, b)),
            ]
        &&& f.param_tys() == seq![Ty::Int(FELT_WIDTH as nat), Ty::Int(FELT_WIDTH as nat)]
        &&& f.result_tys() == seq![Ty::Int(FELT_WIDTH as nat)]
        &&& new.function_map() == old.function_map().insert(
            decl.debug_name@,
            (seq![felt_sty(), felt_sty()], seq![felt_sty()]),
        )
        &&& new.same_but_functions(&old)
    }
}

/// What generating `dup` for `decl` does.
pub open spec fn dup_effect(
    decl: &LibfuncDeclaration,
    old: Storage,
    new: Storage,
    old_module: Seq<GenFunction>,
    new_module: Seq<GenFunction>,
    r: Result<(), CompileError>,
) -> bool {
    &&& r is Ok <==> decl.resolves(0, &old)
    &&& r matches Err(e) ==> e == decl.resolve_error(0, &old)
        && new_module == old_module && new == old
    &&& r is Ok ==> {
        let f = new_module.last();
        let t = old.type_map()[decl.type_id(0)];
        &&& emitted_one(new_module, old_module)
        &&& named_after(f, decl)
        &&& f.param_tys() == seq![t.phys()]
        &&& f.result_tys() == seq![t.phys(), t.phys()]
        &&& forall|v: Val| #[trigger] f.call(seq![v]) == seq![v, v]
        &&& new.function_map() == old.function_map().insert(
            decl.debug_name@,
            (seq![t], seq![t, t]),
        )
        &&& new.same_but_functions(&old)
    }
}

/// What generating `store_temp` for `decl` does.
pub open spec fn store_temp_effect(
    decl: &LibfuncDeclaration,
    old: Storage,
    new: Storage,
    old_module: Seq<GenFunction>,
    new_module: Seq<GenFunction>,
    r: Result<(), CompileError>,
) -> bool {
    &&& r is Ok <==> decl.resolves(0, &old)
    &&& r matches Err(e) ==> e == decl.resolve_error(0, &old)
        && new_module == old_module && new == old
    &&& r is Ok ==> {
        let f = new_module.last();
        let t = old.type_map()[decl.type_id(0)];
        &&& emitted_one(new_module, old_module)
        &&& named_after(f, decl)
        &&& f.param_tys() == seq![t.phys()]
        &&& f.result_tys() == seq![t.phys()]
        &&& forall|v: Val| #[trigger] f.call(seq![v]) == seq![v]
        &&& new.function_map() == old.function_map().insert(
            decl.debug_name@,
            (seq![t], seq![t]),
        )
        &&& new.same_but_functions(&old)
    }
}

/// What generating `bitwise` for `decl` does.
pub open spec fn bitwise_effect(
    decl: &LibfuncDeclaration,
    old: Storage,
    new: Storage,
    old_module: Seq<GenFunction>,
    new_module: Seq<GenFunction>,
    r: Result<(), CompileError>,
) -> bool {
    &&& r is Ok
    &&& ({
        let f = new_module.last();
        &&& emitted_one(new_module, old_module)
        &&& named_after(f, decl)
        &&& f.param_tys() == seq![
            Ty::Int(BITWISE_WIDTH as nat),
            Ty::Int(U128_WIDTH as nat),
            Ty::Int(U128_WIDTH as nat),
        ]
        &&& f.result_tys() == seq![
            Ty::Int(BITWISE_WIDTH as nat),
            Ty::Int(U128_WIDTH as nat),
            Ty::Int(U128_WIDTH as nat),
            Ty::Int(U128_WIDTH as nat),
        ]
        &&& forall|g: Val, a: u128, b: u128|
            #[trigger] f.call(bitwise_inputs(g, a, b)) == seq![
                g,
                u128_val(u128_and(a, b)),
                u128_val(u128_xor(a, b)),
                u128_val(u128_or(a, b)),
            ]
        &&& new.function_map() == old.function_map().insert(
            decl.debug_name@,
            (
                seq![int_sty(BITWISE_WIDTH), int_sty(U128_WIDTH), int_sty(U128_WIDTH)],
                seq![int_sty(BITWISE_WIDTH), int_sty(U128_WIDTH), int_sty(U128_WIDTH), int_sty(U128_WIDTH)],
            ),
        )
        &&& new.same_but_functions(&old)
    })
}

fn int_type(width: u32) -> (r: PhysType)
    ensures
        r.ty() == Ty::Int(width as nat),
{
    PhysType::Int { width }
}

fn simple_int(width: u32) -> (r: SierraType)
    ensures
        r@ == int_sty(width),
{
    SierraType::Simple(PhysType::Int { width })
}

impl Compiler {
    pub fn new() -> (r: Compiler)
        ensures
            r.module@.len() == 0,
    {
        Compiler { module: Vec::new() }
    }

    pub(crate) fn emit_function(&mut self, f: GenFunction)
        ensures
            final(self).module@ == old(self).module@.push(f),
            emitted_one(final(self).module@, old(self).module@),
            final(self).module@.last() == f,
    {
        self.module.push(f);
        assert(self.module@.drop_last() =~= old(self).module@);
    }

    /// Generates `felt_add`, `felt_sub` or `felt_mul` for `decl`.
    pub fn create_libfunc_felt_binary_op(
        &mut self,
        decl: &LibfuncDeclaration,
        storage: &mut Storage,
        binary_op: BinaryOp,
    ) -> (r: Result<(), CompileError>)
        ensures
            felt_op_effect(decl, binary_op, *old(storage), *final(storage), old(self).module@, final(self).module@, r),
    {
        let mut body: Vec<Inst> = Vec::new();
        body.push(Inst::ZExt { v: 0, width: DOUBLE_FELT_WIDTH });
        body.push(Inst::ZExt { v: 1, width: DOUBLE_FELT_WIDTH });
        let ret: usize;
        match binary_op {
            BinaryOp::Add => {
                body.push(Inst::Add { a: 2, b: 3 });
                body.push(Inst::Prime { width: DOUBLE_FELT_WIDTH });
                body.push(Inst::Cmp { op: CmpOp::UnsignedGreaterEqual, a: 4, b: 5 });
                body.push(Inst::Sub { a: 4, b: 5 });
                body.push(Inst::Select { cond: 6, t: 7, f: 4 });
                body.push(Inst::Trunc { v: 8, width: FELT_WIDTH });
                ret = 9;
            },
            BinaryOp::Sub => {
                body.push(Inst::Sub { a: 2, b: 3 });
                body.push(Inst::Prime { width: DOUBLE_FELT_WIDTH });
                body.push(Inst::Cmp { op: CmpOp::UnsignedLess, a: 2, b: 3 });
                body.push(Inst::Add { a: 4, b: 5 });
                body.push(Inst::Select { cond: 6, t: 7, f: 4 });
                body.push(Inst::Trunc { v: 8, width: FELT_WIDTH });
                ret = 9;
            },
            BinaryOp::Mul => {
                body.push(Inst::Mul { a: 2, b: 3 });
                body.push(Inst::FeltMod { v: 4 });
                body.push(Inst::Trunc { v: 5, width: FELT_WIDTH });
                ret = 6;
            },
            BinaryOp::Div => {
                return Err(CompileError::UnsupportedOperation { decl: decl.id });
            },
        }
        assert(body@ =~= felt_op_body(binary_op));
        let mut rets: Vec<usize> = Vec::new();
        rets.push(ret);
        assert(rets@ =~= seq![felt_op_ret(binary_op)]);
        let mut params: Vec<PhysType> = Vec::new();
        params.push(int_type(FELT_WIDTH));
        params.push(int_type(FELT_WIDTH));
        let mut results: Vec<PhysType> = Vec::new();
        results.push(int_type(FELT_WIDTH));
        let f = GenFunction { name: FnName::Libfunc(decl.debug_name.clone()), params, results, body, rets };
        assert(f.param_tys() =~= seq![Ty::Int(FELT_WIDTH as nat), Ty::Int(FELT_WIDTH as nat)]);
        assert forall|a: nat, b: nat| a < felt_prime() && b < felt_prime() implies #[trigger] f.call(felt_args(a, b))
            == seq![felt(felt_result(binary_op, a, b))] by {
            lemma_felt_op_canonical(f, binary_op, a, b);
        }
        assert(f.result_tys() =~= seq![Ty::Int(FELT_WIDTH as nat)]);
        self.emit_function(f);
        let mut args: Vec<SierraType> = Vec::new();
        args.push(simple_int(FELT_WIDTH));
        args.push(simple_int(FELT_WIDTH));
        let mut return_types: Vec<SierraType> = Vec::new();
        return_types.push(simple_int(FELT_WIDTH));
        let def = FunctionDef { args, return_types };
        assert(def@.0 =~= seq![felt_sty(), felt_sty()]);
        assert(def@.1 =~= seq![felt_sty()]);
        storage.register_function(decl.debug_name.clone(), def);
        Ok(())
    }

    /// Generates `dup` for the type that `decl` names: `v` gives `(v, v)`.
    pub fn create_libfunc_dup(&mut self, decl: &LibfuncDeclaration, storage: &mut Storage) -> (r: Result<(), CompileError>)
        ensures
            dup_effect(decl, *old(storage), *final(storage), old(self).module@, final(self).module@, r),
    {
        let t = match decl.resolve_type(0, storage) {
            Ok(t) => t.duplicate(),
            Err(e) => {
                return Err(e);
            },
        };
        let mut params: Vec<PhysType> = Vec::new();
        params.push(t.get_type());
        let mut results: Vec<PhysType> = Vec::new();
        results.push(t.get_type());
        results.push(t.get_type());
        let mut rets: Vec<usize> = Vec::new();
        rets.push(0);
        rets.push(0);
        let f = GenFunction {
            name: FnName::Libfunc(decl.debug_name.clone()),
            params,
            results,
            body: Vec::new(),
            rets,
        };
        assert(f.param_tys() =~= seq![t@.phys()]);
        assert(f.result_tys() =~= seq![t@.phys(), t@.phys()]);
        assert forall|v: Val| #[trigger] f.call(seq![v]) == seq![v, v] by {
            assert(f.call(seq![v]) =~= seq![v, v]);
        }
        self.emit_function(f);
        let mut args: Vec<SierraType> = Vec::new();
        args.push(t.duplicate());
        let mut return_types: Vec<SierraType> = Vec::new();
        return_types.push(t.duplicate());
        return_types.push(t);
        let def = FunctionDef { args, return_types };
        assert(def@.0 =~= seq![t@]);
        assert(def@.1 =~= seq![t@, t@]);
        storage.register_function(decl.debug_name.clone(), def);
        Ok(())
    }

    /// Generates `store_temp` (or `rename`) for the type that `decl` names:
    /// the identity.
    pub fn create_libfunc_store_temp(&mut self, decl: &LibfuncDeclaration, storage: &mut Storage) -> (r: Result<(), CompileError>)
        ensures
            store_temp_effect(decl, *old(storage), *final(storage), old(self).module@, final(self).module@, r),
    {
        let t = match decl.resolve_type(0, storage) {
            Ok(t) => t.duplicate(),
            Err(e) => {
                return Err(e);
            },
        };
        let mut params: Vec<PhysType> = Vec::new();
        params.push(t.get_type());
        let mut results: Vec<PhysType> = Vec::new();
        results.push(t.get_type());
        let mut rets: Vec<usize> = Vec::new();
        rets.push(0);
        let f = GenFunction {
            name: FnName::Libfunc(decl.debug_name.clone()),
            params,
            results,
            body: Vec::new(),
            rets,
        };
        assert(f.param_tys() =~= seq![t@.phys()]);
        assert(f.result_tys() =~= seq![t@.phys()]);
        assert forall|v: Val| #[trigger] f.call(seq![v]) == seq![v] by {
            assert(f.call(seq![v]) =~= seq![v]);
        }
        self.emit_function(f);
        let mut args: Vec<SierraType> = Vec::new();
        args.push(t.duplicate());
        let mut return_types: Vec<SierraType> = Vec::new();
        return_types.push(t);
        let def = FunctionDef { args, return_types };
        assert(def@.0 =~= seq![args@[0]@]);
        assert(def@.1 =~= seq![return_types@[0]@]);
        storage.register_function(decl.debug_name.clone(), def);
        Ok(())
    }

    /// Records the literal of `decl`, its one generic argument, in the table
    /// `table`; no function is generated.
    fn record_const(
        &self,
        decl: &LibfuncDeclaration,
        storage: &mut Storage,
        table: ConstTable,
    ) -> (r: Result<(), CompileError>)
        ensures
            const_effect(decl, *old(storage), *final(storage), table, r),
    {
        match decl.literal_arg(0) {
            Ok(text) => {
                if decl.generic_args.len() != 1 {
                    return Err(
                        CompileError::WrongArgKind {
                            decl: decl.id,
                            index: 1,
                            expected: ArgKind::Missing,
                            found: decl.get_arg_kind(1),
                        },
                    );
                }
                storage.insert_const(table, decl.debug_name.clone(), text);
                Ok(())
            },
            Err(e) => Err(e),
        }
    }

    /// Records a felt literal.
    pub fn create_libfunc_felt_const(&self, decl: &LibfuncDeclaration, storage: &mut Storage) -> (r: Result<(), CompileError>)
        ensures
            const_effect(decl, *old(storage), *final(storage), ConstTable::Felt, r),
    {
        self.record_const(decl, storage, ConstTable::Felt)
    }

    /// Records a `u8` literal.
    pub fn create_libfunc_u8_const(&self, decl: &LibfuncDeclaration, storage: &mut Storage) -> (r: Result<(), CompileError>)
        ensures
            const_effect(decl, *old(storage), *final(storage), ConstTable::U8, r),
    {
        self.record_const(decl, storage, ConstTable::U8)
    }

    /// Records a `u16` literal.
    pub fn create_libfunc_u16_const(&self, decl: &LibfuncDeclaration, storage: &mut Storage) -> (r: Result<(), CompileError>)
        ensures
            const_effect(decl, *old(storage), *final(storage), ConstTable::U16, r),
    {
        self.record_const(decl, storage, ConstTable::U16)
    }

    /// Records a `u32` literal.
    pub fn create_libfunc_u32_const(&self, decl: &LibfuncDeclaration, storage: &mut Storage) -> (r: Result<(), CompileError>)
        ensures
            const_effect(decl, *old(storage), *final(storage), ConstTable::U32, r),
    {
        self.record_const(decl, storage, ConstTable::U32)
    }

    /// Records a `u64` literal.
    pub fn create_libfunc_u64_const(&self, decl: &LibfuncDeclaration, storage: &mut Storage) -> (r: Result<(), CompileError>)
        ensures
            const_effect(decl, *old(storage), *final(storage), ConstTable::U64, r),
    {
        self.record_const(decl, storage, ConstTable::U64)
    }

    /// Records a `u128` literal.
    pub fn create_libfunc_u128_const(&self, decl: &LibfuncDeclaration, storage: &mut Storage) -> (r: Result<(), CompileError>)
        ensures
            const_effect(decl, *old(storage), *final(storage), ConstTable::U128, r),
    {
        self.record_const(decl, storage, ConstTable::U128)
    }

    /// Generates `bitwise`: `(guard, a, b)` gives `(guard, a & b, a ^ b, a | b)`.
    pub fn create_libfunc_bitwise(&mut self, decl: &LibfuncDeclaration, storage: &mut Storage) -> (r: Result<(), CompileError>)
        ensures
            bitwise_effect(decl, *old(storage), *final(storage), old(self).module@, final(self).module@, r),
    {
        let mut body: Vec<Inst> = Vec::new();
        body.push(Inst::And { a: 1, b: 2 });
        body.push(Inst::Xor { a: 1, b: 2 });
        body.push(Inst::Or { a: 1, b: 2 });
        let mut rets: Vec<usize> = Vec::new();
        rets.push(0);
        rets.push(3);
        rets.push(4);
        rets.push(5);
        let mut params: Vec<PhysType> = Vec::new();
        params.push(int_type(BITWISE_WIDTH));
        params.push(int_type(U128_WIDTH));
        params.push(int_type(U128_WIDTH));
        let mut results: Vec<PhysType> = Vec::new();
        results.push(int_type(BITWISE_WIDTH));
        results.push(int_type(U128_WIDTH));
        results.push(int_type(U128_WIDTH));
        results.push(int_type(U128_WIDTH));
        let f = GenFunction { name: FnName::Libfunc(decl.debug_name.clone()), params, results, body, rets };
        assert(f.param_tys() =~= seq![
            Ty::Int(BITWISE_WIDTH as nat),
            Ty::Int(U128_WIDTH as nat),
            Ty::Int(U128_WIDTH as nat),
        ]);
        assert(f.result_tys() =~= seq![
            Ty::Int(BITWISE_WIDTH as nat),
            Ty::Int(U128_WIDTH as nat),
            Ty::Int(U128_WIDTH as nat),
            Ty::Int(U128_WIDTH as nat),
        ]);
        assert forall|g: Val, a: u128, b: u128|
            #[trigger] f.call(bitwise_inputs(g, a, b)) == seq![
                g,
                u128_val(u128_and(a, b)),
                u128_val(u128_xor(a, b)),
                u128_val(u128_or(a, b)),
            ] by {
            let args = bitwise_inputs(g, a, b);
            let v3 = args.push(u128_val(u128_and(a, b)));
            let v4 = v3.push(u128_val(u128_xor(a, b)));
            let v5 = v4.push(u128_val(u128_or(a, b)));
            assert(crate::ir::run(f.body@, args, 0).0 == args);
            assert(crate::ir::run(f.body@, args, 1).0 == v3);
            assert(crate::ir::run(f.body@, args, 2).0 == v4);
            assert(crate::ir::run(f.body@, args, 3).0 == v5);
            assert(f.call(args) =~= seq![
                g,
                u128_val(u128_and(a, b)),
                u128_val(u128_xor(a, b)),
                u128_val(u128_or(a, b)),
            ]);
        }
        self.emit_function(f);
        let mut args: Vec<SierraType> = Vec::new();
        args.push(simple_int(BITWISE_WIDTH));
        args.push(simple_int(U128_WIDTH));
        args.push(simple_int(U128_WIDTH));
        let mut return_types: Vec<SierraType> = Vec::new();
        return_types.push(simple_int(BITWISE_WIDTH));
        return_types.push(simple_int(U128_WIDTH));
        return_types.push(simple_int(U128_WIDTH));
        return_types.push(simple_int(U128_WIDTH));
        let def = FunctionDef { args, return_types };
        assert(def@.0 =~= seq![int_sty(BITWISE_WIDTH), int_sty(U128_WIDTH), int_sty(U128_WIDTH)]);
        assert(def@.1 =~= seq![int_sty(BITWISE_WIDTH), int_sty(U128_WIDTH), int_sty(U128_WIDTH), int_sty(U128_WIDTH)]);
        storage.register_function(decl.debug_name.clone(), def);
        Ok(())
    }

    /// Generates `upcast` from the first to the second type that `decl` names:
    /// a zero extension where the source is narrower, nothing where the widths
    /// are equal, and an error where the source is wider.
    pub fn create_libfunc_upcast(&mut self, decl: &LibfuncDeclaration, storage: &mut Storage) -> (r: Result<(), CompileError>)
        ensures
            upcast_effect(decl, *old(storage), *final(storage), old(self).module@, final(self).module@, r),
    {
        let src = match decl.resolve_type(0, storage) {
            Ok(t) => t.duplicate(),
            Err(e) => {
                return Err(e);
            },
        };
        let dst = match decl.resolve_type(1, storage) {
            Ok(t) => t.duplicate(),
            Err(e) => {
                return Err(e);
            },
        };
        let src_type = src.get_type();
        let dst_type = dst.get_type();
        let (sw, dw) = match (src_type.get_width(), dst_type.get_width()) {
            (Some(sw), Some(dw)) => (sw, dw),
            _ => {
                return Err(CompileError::NotAnInteger { decl: decl.id });
            },
        };
        if sw > dw {
            return Err(CompileError::NarrowingUpcast { decl: decl.id });
        }
        if sw == dw {
            return Ok(());
        }
        let mut body: Vec<Inst> = Vec::new();
        body.push(Inst::ZExt { v: 0, width: dw });
        let mut rets: Vec<usize> = Vec::new();
        rets.push(1);
        let mut params: Vec<PhysType> = Vec::new();
        params.push(src_type);
        let mut results: Vec<PhysType> = Vec::new();
        results.push(dst_type);
        let f = GenFunction { name: FnName::Libfunc(decl.debug_name.clone()), params, results, body, rets };
        assert(f.param_tys() =~= seq![src@.phys()]);
        assert(f.result_tys() =~= seq![dst@.phys()]);
        assert forall|v: nat| v < pow2(sw as nat) implies #[trigger] f.call(seq![Val::Int { width: sw as nat, value: v }])
            == seq![Val::Int { width: dw as nat, value: v }] by {
            let args = seq![Val::Int { width: sw as nat, value: v }];
            assert(crate::ir::run(f.body@, args, 0).0 == args);
            assert(crate::ir::run(f.body@, args, 1).0 == args.push(Val::Int { width: dw as nat, value: v }));
            assert(f.call(args) =~= seq![Val::Int { width: dw as nat, value: v }]);
        }
        self.emit_function(f);
        let mut args: Vec<SierraType> = Vec::new();
        args.push(src);
        let mut return_types: Vec<SierraType> = Vec::new();
        return_types.push(dst);
        let def = FunctionDef { args, return_types };
        assert(def@.0 =~= seq![args@[0]@]);
        assert(def@.1 =~= seq![return_types@[0]@]);
        storage.register_function(decl.debug_name.clone(), def);
        Ok(())
    }
}

} // verus!
