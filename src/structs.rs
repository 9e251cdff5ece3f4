//! Struct construction and destructuring, and their round trip.
use vstd::prelude::*;

use crate::decl::{CompileError, LibfuncDeclaration};
use crate::ir::{run, zero_of, FnName, GenFunction, Inst, Val};
use crate::libfuncs::{emitted_one, named_after, Compiler};
use crate::state::{FunctionDef, Storage};
use crate::types::{duplicate_phys_types, duplicate_sierra_types, PhysType, STy, SierraType, Ty};

verus! {

/// The physical types of a struct's fields.
pub open spec fn field_phys(t: STy) -> Seq<Ty> {
    Seq::new(t->fields.len(), |i: int| t->fields[i].phys())
}

/// Whether `f` builds a struct with fields of types `fields` from one argument
/// per field: an empty aggregate, then one insertion per field, in order.
pub open spec fn is_struct_construct_fn(f: GenFunction, fields: Seq<Ty>) -> bool {
    let n = fields.len();
    &&& 2 * n + 1 <= usize::MAX
    &&& f.body@.len() == n + 1
    &&& f.body@[0] is Zero && f.body@[0]->Zero_ty.ty() == Ty::Struct(fields)
    &&& forall|i: int|
        0 <= i < n ==> #[trigger] f.body@[i + 1] == (Inst::Insert {
            agg: (n + i) as usize,
            index: i as usize,
            v: i as usize,
        })
    &&& f.rets@ == seq![(2 * n) as usize]
    &&& f.param_tys() == fields
}

/// Whether `f` reads each of the `n` fields of its one argument, in order.
pub open spec fn is_struct_deconstruct_fn(f: GenFunction, n: nat) -> bool {
    &&& n + 1 <= usize::MAX
    &&& f.body@.len() == n
    &&& forall|i: int| 0 <= i < n ==> #[trigger] f.body@[i] == (Inst::Extract { agg: 0, index: i as usize })
    &&& f.rets@.len() == n
    &&& forall|i: int| 0 <= i < n ==> #[trigger] f.rets@[i] == (i + 1) as usize
}

/// The aggregate after the first `k` insertions of a struct construction.
pub open spec fn partly_built(fields: Seq<Ty>, vs: Seq<Val>, k: int) -> Val {
    Val::Agg(
        Seq::new(
            fields.len(),
            |j: int|
                if j < k {
                    vs[j]
                } else {
                    zero_of(fields[j])
                },
        ),
    )
}

proof fn lemma_construct_run(f: GenFunction, fields: Seq<Ty>, vs: Seq<Val>, k: nat)
    requires
        is_struct_construct_fn(f, fields),
        vs.len() == fields.len(),
        k <= fields.len(),
    ensures
        run(f.body@, vs, k + 1).0.len() == fields.len() + k + 1,
        run(f.body@, vs, k + 1).0[(fields.len() + k) as int] == partly_built(fields, vs, k as int),
        forall|j: int| 0 <= j < fields.len() ==> #[trigger] run(f.body@, vs, k + 1).0[j] == vs[j],
    decreases k,
{
    let n = fields.len();
    if k == 0 {
        assert(run(f.body@, vs, 0).0 == vs);
        let z = zero_of(Ty::Struct(fields));
        assert(fields == f.body@[0]->Zero_ty.ty()->Struct_0);
        assert(z->Agg_0 =~= partly_built(fields, vs, 0)->Agg_0);
    } else {
        lemma_construct_run(f, fields, vs, (k - 1) as nat);
        let prev = run(f.body@, vs, k as nat).0;
        assert(f.body@[k as int] == (Inst::Insert {
            agg: (n + k - 1) as usize,
            index: (k - 1) as usize,
            v: (k - 1) as usize,
        })) by {
            assert(f.body@[(k - 1) + 1] == f.body@[k as int]);
        }
        assert(partly_built(fields, vs, k - 1)->Agg_0.update(k - 1, vs[k - 1])
            =~= partly_built(fields, vs, k as int)->Agg_0);
    }
}

/// What a struct construction returns: the aggregate of its arguments.
pub proof fn lemma_construct_call(f: GenFunction, fields: Seq<Ty>, vs: Seq<Val>)
    requires
        is_struct_construct_fn(f, fields),
        vs.len() == fields.len(),
    ensures
        f.call(vs) == seq![Val::Agg(vs)],
{
    let n = fields.len();
    lemma_construct_run(f, fields, vs, n);
    assert(partly_built(fields, vs, n as int)->Agg_0 =~= vs);
    assert(f.call(vs) =~= seq![Val::Agg(vs)]);
}

proof fn lemma_deconstruct_run(f: GenFunction, n: nat, vs: Seq<Val>, k: nat)
    requires
        is_struct_deconstruct_fn(f, n),
        vs.len() == n,
        k <= n,
    ensures
        run(f.body@, seq![Val::Agg(vs)], k).0 == seq![Val::Agg(vs)] + vs.subrange(0, k as int),
    decreases k,
{
    let a = seq![Val::Agg(vs)];
    if k == 0 {
        assert(a + vs.subrange(0, 0) =~= a);
    } else {
        lemma_deconstruct_run(f, n, vs, (k - 1) as nat);
        assert(f.body@[k - 1] == (Inst::Extract { agg: 0, index: (k - 1) as usize }));
        assert((a + vs.subrange(0, k - 1)).push(vs[k - 1]) =~= a + vs.subrange(0, k as int));
    }
}

/// What a struct destructuring returns: the fields of its argument.
pub proof fn lemma_deconstruct_call(f: GenFunction, n: nat, vs: Seq<Val>)
    requires
        is_struct_deconstruct_fn(f, n),
        vs.len() == n,
    ensures
        f.call(seq![Val::Agg(vs)]) == vs,
{
    lemma_deconstruct_run(f, n, vs, n);
    assert(f.call(seq![Val::Agg(vs)]) =~= vs);
}

/// Destructuring a constructed struct gives back the values it was built
/// from, field by field.
pub proof fn lemma_struct_round_trip(c: GenFunction, d: GenFunction, fields: Seq<Ty>, vs: Seq<Val>)
    requires
        is_struct_construct_fn(c, fields),
        is_struct_deconstruct_fn(d, fields.len()),
        vs.len() == fields.len(),
    ensures
        c.call(vs).len() == 1,
        d.call(seq![c.call(vs)[0]]) == vs,
{
    lemma_construct_call(c, fields, vs);
    lemma_deconstruct_call(d, fields.len(), vs);
}

/// What resolving the struct type that `decl` names gives.
pub open spec fn struct_resolves(decl: &LibfuncDeclaration, s: &Storage) -> bool {
    &&& decl.resolves(0, s)
    &&& s.type_map()[decl.type_id(0)] is Struct
    &&& 2 * s.type_map()[decl.type_id(0)]->fields.len() + 1 <= usize::MAX
}

pub open spec fn struct_error(decl: &LibfuncDeclaration, s: &Storage) -> CompileError {
    if !decl.resolves(0, s) {
        decl.resolve_error(0, s)
    } else if !(s.type_map()[decl.type_id(0)] is Struct) {
        CompileError::NotAStruct { decl: decl.id }
    } else {
        CompileError::TooManyFields { decl: decl.id }
    }
}

/// What generating `struct_construct` for `decl` does.
pub open spec fn struct_construct_effect(
    decl: &LibfuncDeclaration,
    old: Storage,
    new: Storage,
    old_module: Seq<GenFunction>,
    new_module: Seq<GenFunction>,
    r: Result<(), CompileError>,
) -> bool {
    &&& r is Ok <==> struct_resolves(decl, &old)
    &&& r matches Err(e) ==> e == struct_error(decl, &old)
        && new_module == old_module && new == old
    &&& r is Ok ==> {
        let f = new_module.last();
        let t = old.type_map()[decl.type_id(0)];
        &&& emitted_one(new_module, old_module)
        &&& named_after(f, decl)
        &&& is_struct_construct_fn(f, field_phys(t))
        &&& f.result_tys() == seq![Ty::Struct(field_phys(t))]
        &&& forall|vs: Seq<Val>| vs.len() == t->fields.len() ==> #[trigger] f.call(vs) == seq![Val::Agg(vs)]
        &&& new.function_map() == old.function_map().insert(
            decl.debug_name@,
            (t->fields, seq![t]),
        )
        &&& new.same_but_functions(&old)
    }
}

/// What generating `struct_deconstruct` for `decl` does.
pub open spec fn struct_deconstruct_effect(
    decl: &LibfuncDeclaration,
    old: Storage,
    new: Storage,
    old_module: Seq<GenFunction>,
    new_module: Seq<GenFunction>,
    r: Result<(), CompileError>,
) -> bool {
    &&& r is Ok <==> struct_resolves(decl, &old)
    &&& r matches Err(e) ==> e == struct_error(decl, &old)
        && new_module == old_module && new == old
    &&& r is Ok ==> {
        let f = new_module.last();
        let t = old.type_map()[decl.type_id(0)];
        &&& emitted_one(new_module, old_module)
        &&& named_after(f, decl)
        &&& is_struct_deconstruct_fn(f, t->fields.len())
        &&& f.param_tys() == seq![t.phys()]
        &&& f.result_tys() == field_phys(t)
        &&& forall|vs: Seq<Val>| vs.len() == t->fields.len() ==> #[trigger] f.call(seq![Val::Agg(vs)]) == vs
        &&& new.function_map() == old.function_map().insert(
            decl.debug_name@,
            (seq![t], t->fields),
        )
        &&& new.same_but_functions(&old)
    }
}

impl Compiler {
    /// Generates `struct_construct` for the struct type that `decl` names.
    pub fn create_libfunc_struct_construct(&mut self, decl: &LibfuncDeclaration, storage: &mut Storage) -> (r: Result<(), CompileError>)
        ensures
            struct_construct_effect(decl, *old(storage), *final(storage), old(self).module@, final(self).module@, r),
    {
        let t = match decl.resolve_type(0, storage) {
            Ok(t) => t.duplicate(),
            Err(e) => {
                return Err(e);
            },
        };
        let field_types = match t.get_field_types() {
            Some(v) => v,
            None => {
                return Err(CompileError::NotAStruct { decl: decl.id });
            },
        };
        let ghost fields = field_phys(t@);
        let n = field_types.len();
        if n > (usize::MAX - 1) / 2 {
            return Err(CompileError::TooManyFields { decl: decl.id });
        }
        assert(Seq::new(field_types@.len(), |i: int| field_types@[i].ty()) =~= fields);
        let mut body: Vec<Inst> = Vec::new();
        let dup = duplicate_phys_types(&field_types);
        let ghost dv = dup@;
        let agg_type = PhysType::Struct { fields: dup };
        assert(agg_type.ty()->Struct_0 =~= fields) by {
            assert forall|j: int| 0 <= j < n implies agg_type.ty()->Struct_0[j] == fields[j] by {
                assert(dv[j].ty() == field_types@[j].ty());
                assert(field_types@[j].ty() == t@->fields[j].phys());
            }
        }
        body.push(Inst::Zero { ty: agg_type });
        let mut i: usize = 0;
        while i < n
            invariant
                n == field_types@.len(),
                n == fields.len(),
                n <= (usize::MAX - 1) / 2,
                i <= n,
                body@.len() == i + 1,
                body@[0] is Zero && body@[0]->Zero_ty.ty() == Ty::Struct(fields),
                forall|j: int|
                    0 <= j < i ==> #[trigger] body@[j + 1] == (Inst::Insert {
                        agg: (n + j) as usize,
                        index: j as usize,
                        v: j as usize,
                    }),
            decreases n - i,
        {
            let ghost before = body@;
            body.push(Inst::Insert { agg: n + i, index: i, v: i });
            proof {
                assert forall|j: int| 0 <= j < i + 1 implies #[trigger] body@[j + 1] == (Inst::Insert {
                    agg: (n + j) as usize,
                    index: j as usize,
                    v: j as usize,
                }) by {
                    if j < i {
                        assert(body@[j + 1] == before[j + 1]);
                    }
                }
            }
            i = i + 1;
        }
        let mut rets: Vec<usize> = Vec::new();
        rets.push(n + n);
        assert(rets@ =~= seq![(2 * fields.len()) as usize]);
        let mut results: Vec<PhysType> = Vec::new();
        let dup2 = duplicate_phys_types(&field_types);
        let ghost dv2 = dup2@;
        results.push(PhysType::Struct { fields: dup2 });
        let f = GenFunction {
            name: FnName::Libfunc(decl.debug_name.clone()),
            params: field_types,
            results,
            body,
            rets,
        };
        assert(f.param_tys() =~= fields);
        assert(f.result_tys() =~= seq![Ty::Struct(fields)]) by {
            assert forall|j: int| 0 <= j < n implies f.results@[0].ty()->Struct_0[j] == fields[j] by {
                assert(dv2[j].ty() == f.params@[j].ty());
            }
            assert(f.results@[0].ty()->Struct_0 =~= fields);
        }
        assert forall|vs: Seq<Val>| vs.len() == t@->fields.len() implies #[trigger] f.call(vs) == seq![Val::Agg(vs)] by {
            lemma_construct_call(f, fields, vs);
        }
        self.emit_function(f);
        let args = match t.get_field_sierra_types() {
            Some(v) => v,
            None => {
                return Err(CompileError::NotAStruct { decl: decl.id });
            },
        };
        let mut return_types: Vec<SierraType> = Vec::new();
        return_types.push(t);
        let def = FunctionDef { args, return_types };
        assert(def@.1 =~= seq![return_types@[0]@]);
        storage.register_function(decl.debug_name.clone(), def);
        Ok(())
    }

    /// Generates `struct_deconstruct` for the struct type that `decl` names.
    pub fn create_libfunc_struct_deconstruct(&mut self, decl: &LibfuncDeclaration, storage: &mut Storage) -> (r: Result<(), CompileError>)
        ensures
            struct_deconstruct_effect(decl, *old(storage), *final(storage), old(self).module@, final(self).module@, r),
    {
        let t = match decl.resolve_type(0, storage) {
            Ok(t) => t.duplicate(),
            Err(e) => {
                return Err(e);
            },
        };
        let field_types = match t.get_field_types() {
            Some(v) => v,
            None => {
                return Err(CompileError::NotAStruct { decl: decl.id });
            },
        };
        let ghost fields = field_phys(t@);
        let n = field_types.len();
        if n > (usize::MAX - 1) / 2 {
            return Err(CompileError::TooManyFields { decl: decl.id });
        }
        let mut body: Vec<Inst> = Vec::new();
        let mut rets: Vec<usize> = Vec::new();
        let mut i: usize = 0;
        while i < n
            invariant
                n == field_types@.len(),
                n == fields.len(),
                i <= n,
                body@.len() == i,
                rets@.len() == i,
                forall|j: int| 0 <= j < i ==> #[trigger] body@[j] == (Inst::Extract { agg: 0, index: j as usize }),
                forall|j: int| 0 <= j < i ==> #[trigger] rets@[j] == (j + 1) as usize,
            decreases n - i,
        {
            body.push(Inst::Extract { agg: 0, index: i });
            rets.push(i + 1);
            i = i + 1;
        }
        let mut params: Vec<PhysType> = Vec::new();
        params.push(t.get_type());
        let f = GenFunction {
            name: FnName::Libfunc(decl.debug_name.clone()),
            params,
            results: field_types,
            body,
            rets,
        };
        assert(f.param_tys() =~= seq![t@.phys()]);
        assert(f.result_tys() =~= fields);
        assert forall|vs: Seq<Val>| vs.len() == t@->fields.len() implies #[trigger] f.call(seq![Val::Agg(vs)]) == vs by {
            lemma_deconstruct_call(f, n as nat, vs);
        }
        self.emit_function(f);
        let return_types = match t.get_field_sierra_types() {
            Some(v) => v,
            None => {
                return Err(CompileError::NotAStruct { decl: decl.id });
            },
        };
        let mut args: Vec<SierraType> = Vec::new();
        args.push(t);
        let def = FunctionDef { args, return_types };
        assert(def@.0 =~= seq![args@[0]@]);
        storage.register_function(decl.debug_name.clone(), def);
        Ok(())
    }
}

} // verus!
