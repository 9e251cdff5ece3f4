//! Routing of declarations to the builders, and the pass over a program.
use vstd::prelude::*;

use crate::decl::{CompileError, LibfuncDeclaration};
use crate::felt::BinaryOp;
use crate::ir::GenFunction;
use crate::libfuncs::{
    bitwise_effect, const_effect, dup_effect, felt_op_effect, store_temp_effect, upcast_effect, Compiler,
};
use crate::sierra_enum::{helpers_emitted, lemma_helpers_kept};
use crate::state::{ConstTable, Storage};
use crate::structs::{struct_construct_effect, struct_deconstruct_effect};

verus! {

/// How a declaration is lowered, by the name of its generic libfunc.
#[derive(Clone, Copy, PartialEq, Eq, Structural, Debug)]
pub enum LibfuncKind {
    /// Handled by statement lowering; nothing is generated.
    NoOp,
    /// A literal, recorded in a table.
    Const(ConstTable),
    Felt(BinaryOp),
    Dup,
    StructConstruct,
    StructDeconstruct,
    StoreTemp,
    Bitwise,
    Upcast,
    /// Not supported: skipped.
    Unsupported,
}

/// The kind of the generic libfunc named `n`.
pub open spec fn libfunc_kind(n: Seq<char>) -> LibfuncKind {
    if n == "revoke_ap_tracking"@ || n == "disable_ap_tracking"@ || n == "drop"@ {
        LibfuncKind::NoOp
    } else if n == "felt252_const"@ || n == "felt_const"@ {
        LibfuncKind::Const(ConstTable::Felt)
    } else if n == "u8_const"@ {
        LibfuncKind::Const(ConstTable::U8)
    } else if n == "u16_const"@ {
        LibfuncKind::Const(ConstTable::U16)
    } else if n == "u32_const"@ {
        LibfuncKind::Const(ConstTable::U32)
    } else if n == "u64_const"@ {
        LibfuncKind::Const(ConstTable::U64)
    } else if n == "u128_const"@ {
        LibfuncKind::Const(ConstTable::U128)
    } else if n == "felt252_add"@ || n == "felt_add"@ {
        LibfuncKind::Felt(BinaryOp::Add)
    } else if n == "felt252_sub"@ || n == "felt_sub"@ {
        LibfuncKind::Felt(BinaryOp::Sub)
    } else if n == "felt252_mul"@ || n == "felt_mul"@ {
        LibfuncKind::Felt(BinaryOp::Mul)
    } else if n == "dup"@ {
        LibfuncKind::Dup
    } else if n == "struct_construct"@ {
        LibfuncKind::StructConstruct
    } else if n == "struct_deconstruct"@ {
        LibfuncKind::StructDeconstruct
    } else if n == "store_temp"@ || n == "rename"@ {
        LibfuncKind::StoreTemp
    } else if n == "bitwise"@ {
        LibfuncKind::Bitwise
    } else if n == "upcast"@ {
        LibfuncKind::Upcast
    } else {
        LibfuncKind::Unsupported
    }
}

/// Whether `s` spells `t`.
fn name_is(s: &String, t: &str) -> (r: bool)
    ensures
        r == (s@ == t@),
{
    let a = s.as_str();
    let n = a.unicode_len();
    if n != t.unicode_len() {
        return false;
    }
    let mut i: usize = 0;
    while i < n
        invariant
            n == a@.len(),
            n == t@.len(),
            a@ == s@,
            i <= n,
            forall|j: int| 0 <= j < i ==> a@[j] == t@[j],
        decreases n - i,
    {
        if a.get_char(i) != t.get_char(i) {
            return false;
        }
        i = i + 1;
    }
    assert(a@ =~= t@);
    true
}

/// The kind of the generic libfunc named `name`.
pub fn classify(name: &String) -> (r: LibfuncKind)
    ensures
        r == libfunc_kind(name@),
{
    proof {
        reveal_strlit("revoke_ap_tracking");
        reveal_strlit("disable_ap_tracking");
        reveal_strlit("drop");
        reveal_strlit("felt252_const");
        reveal_strlit("felt_const");
        reveal_strlit("u8_const");
        reveal_strlit("u16_const");
        reveal_strlit("u32_const");
        reveal_strlit("u64_const");
        reveal_strlit("u128_const");
        reveal_strlit("felt252_add");
        reveal_strlit("felt_add");
        reveal_strlit("felt252_sub");
        reveal_strlit("felt_sub");
        reveal_strlit("felt252_mul");
        reveal_strlit("felt_mul");
        reveal_strlit("dup");
        reveal_strlit("struct_construct");
        reveal_strlit("struct_deconstruct");
        reveal_strlit("store_temp");
        reveal_strlit("rename");
        reveal_strlit("bitwise");
        reveal_strlit("upcast");
    }
    if name_is(name, "revoke_ap_tracking") || name_is(name, "disable_ap_tracking") || name_is(name, "drop") {
        LibfuncKind::NoOp
    } else if name_is(name, "felt252_const") || name_is(name, "felt_const") {
        LibfuncKind::Const(ConstTable::Felt)
    } else if name_is(name, "u8_const") {
        LibfuncKind::Const(ConstTable::U8)
    } else if name_is(name, "u16_const") {
        LibfuncKind::Const(ConstTable::U16)
    } else if name_is(name, "u32_const") {
        LibfuncKind::Const(ConstTable::U32)
    } else if name_is(name, "u64_const") {
        LibfuncKind::Const(ConstTable::U64)
    } else if name_is(name, "u128_const") {
        LibfuncKind::Const(ConstTable::U128)
    } else if name_is(name, "felt252_add") || name_is(name, "felt_add") {
        LibfuncKind::Felt(BinaryOp::Add)
    } else if name_is(name, "felt252_sub") || name_is(name, "felt_sub") {
        LibfuncKind::Felt(BinaryOp::Sub)
    } else if name_is(name, "felt252_mul") || name_is(name, "felt_mul") {
        LibfuncKind::Felt(BinaryOp::Mul)
    } else if name_is(name, "dup") {
        LibfuncKind::Dup
    } else if name_is(name, "struct_construct") {
        LibfuncKind::StructConstruct
    } else if name_is(name, "struct_deconstruct") {
        LibfuncKind::StructDeconstruct
    } else if name_is(name, "store_temp") || name_is(name, "rename") {
        LibfuncKind::StoreTemp
    } else if name_is(name, "bitwise") {
        LibfuncKind::Bitwise
    } else if name_is(name, "upcast") {
        LibfuncKind::Upcast
    } else {
        LibfuncKind::Unsupported
    }
}

/// What lowering `decl` does to the state and the module.
pub open spec fn libfunc_effect(
    decl: &LibfuncDeclaration,
    old: Storage,
    new: Storage,
    old_module: Seq<GenFunction>,
    new_module: Seq<GenFunction>,
    r: Result<(), CompileError>,
) -> bool {
    match libfunc_kind(decl.generic_name@) {
        LibfuncKind::NoOp | LibfuncKind::Unsupported => r is Ok && new == old && new_module == old_module,
        LibfuncKind::Const(t) => const_effect(decl, old, new, t, r) && new_module == old_module,
        LibfuncKind::Felt(op) => felt_op_effect(decl, op, old, new, old_module, new_module, r),
        LibfuncKind::Dup => dup_effect(decl, old, new, old_module, new_module, r),
        LibfuncKind::StructConstruct => struct_construct_effect(decl, old, new, old_module, new_module, r),
        LibfuncKind::StructDeconstruct => struct_deconstruct_effect(decl, old, new, old_module, new_module, r),
        LibfuncKind::StoreTemp => store_temp_effect(decl, old, new, old_module, new_module, r),
        LibfuncKind::Bitwise => bitwise_effect(decl, old, new, old_module, new_module, r),
        LibfuncKind::Upcast => upcast_effect(decl, old, new, old_module, new_module, r),
    }
}

/// Whether lowering `decls` in order, from `states[0]` and `modules[0]`,
/// passes through the given states and modules, each declaration succeeding.
pub open spec fn lowered_in_order(
    decls: Seq<LibfuncDeclaration>,
    states: Seq<Storage>,
    modules: Seq<Seq<GenFunction>>,
) -> bool {
    &&& states.len() == decls.len() + 1
    &&& modules.len() == decls.len() + 1
    &&& forall|i: int|
        0 <= i < decls.len() ==> libfunc_effect(
            &#[trigger] decls[i],
            states[i],
            states[i + 1],
            modules[i],
            modules[i + 1],
            Ok(()),
        )
}

impl Compiler {
    /// Lowers one declaration: skips it, records its literal, or generates
    /// its function.
    pub fn process_libfunc(&mut self, decl: &LibfuncDeclaration, storage: &mut Storage) -> (r: Result<(), CompileError>)
        ensures
            libfunc_effect(decl, *old(storage), *final(storage), old(self).module@, final(self).module@, r),
            helpers_emitted(old(self).module@, *old(storage)) ==> helpers_emitted(final(self).module@, *final(storage)),
    {
        let r = match classify(&decl.generic_name) {
            LibfuncKind::NoOp | LibfuncKind::Unsupported => Ok(()),
            LibfuncKind::Const(t) => match t {
                ConstTable::Felt => self.create_libfunc_felt_const(decl, storage),
                ConstTable::U8 => self.create_libfunc_u8_const(decl, storage),
                ConstTable::U16 => self.create_libfunc_u16_const(decl, storage),
                ConstTable::U32 => self.create_libfunc_u32_const(decl, storage),
                ConstTable::U64 => self.create_libfunc_u64_const(decl, storage),
                ConstTable::U128 => self.create_libfunc_u128_const(decl, storage),
            },
            LibfuncKind::Felt(op) => self.create_libfunc_felt_binary_op(decl, storage, op),
            LibfuncKind::Dup => self.create_libfunc_dup(decl, storage),
            LibfuncKind::StructConstruct => self.create_libfunc_struct_construct(decl, storage),
            LibfuncKind::StructDeconstruct => self.create_libfunc_struct_deconstruct(decl, storage),
            LibfuncKind::StoreTemp => self.create_libfunc_store_temp(decl, storage),
            LibfuncKind::Bitwise => self.create_libfunc_bitwise(decl, storage),
            LibfuncKind::Upcast => self.create_libfunc_upcast(decl, storage),
        };
        proof {
            if helpers_emitted(old(self).module@, *old(storage)) {
                lemma_helpers_kept(old(self).module@, self.module@, *old(storage), *storage);
            }
        }
        r
    }

    /// Lowers every declaration once, in order, stopping at the first fatal
    /// error.
    pub fn process_libfuncs(&mut self, decls: &Vec<LibfuncDeclaration>, storage: &mut Storage) -> (r: Result<(), CompileError>)
        ensures
            r is Ok ==> exists|states: Seq<Storage>, modules: Seq<Seq<GenFunction>>|
                {
                    &&& lowered_in_order(decls@, states, modules)
                    &&& states[0] == *old(storage) && modules[0] == old(self).module@
                    &&& states.last() == *final(storage) && modules.last() == final(self).module@
                },
            helpers_emitted(old(self).module@, *old(storage)) ==> helpers_emitted(final(self).module@, *final(storage)),
            r matches Err(e) ==> exists|k: int, states: Seq<Storage>, modules: Seq<Seq<GenFunction>>|
                {
                    &&& 0 <= k < decls@.len()
                    &&& lowered_in_order(decls@.subrange(0, k), states, modules)
                    &&& states[0] == *old(storage) && modules[0] == old(self).module@
                    &&& libfunc_effect(&decls@[k], states.last(), *final(storage), modules.last(), final(self).module@, Err(e))
                },
    {
        let ghost mut states: Seq<Storage> = seq![*storage];
        let ghost mut modules: Seq<Seq<GenFunction>> = seq![self.module@];
        let mut i: usize = 0;
        while i < decls.len()
            invariant
                i <= decls@.len(),
                lowered_in_order(decls@.subrange(0, i as int), states, modules),
                states[0] == *old(storage) && modules[0] == old(self).module@,
                states.last() == *storage && modules.last() == self.module@,
                helpers_emitted(old(self).module@, *old(storage)) ==> helpers_emitted(self.module@, *storage),
            decreases decls@.len() - i,
        {
            let ghost before = *storage;
            let ghost before_module = self.module@;
            match self.process_libfunc(&decls[i], storage) {
                Ok(()) => {},
                Err(e) => {
                    assert(libfunc_effect(&decls@[i as int], states.last(), *storage, modules.last(), self.module@, Err(e)));
                    return Err(e);
                },
            }
            proof {
                let s2 = states.push(*storage);
                let m2 = modules.push(self.module@);
                let d2 = decls@.subrange(0, i + 1);
                assert forall|j: int| 0 <= j < d2.len() implies libfunc_effect(
                    &#[trigger] d2[j],
                    s2[j],
                    s2[j + 1],
                    m2[j],
                    m2[j + 1],
                    Ok(()),
                ) by {
                    if j < i {
                        assert(d2[j] == decls@.subrange(0, i as int)[j]);
                    }
                }
                states = s2;
                modules = m2;
            }
            i = i + 1;
        }
        assert(decls@.subrange(0, decls@.len() as int) =~= decls@);
        Ok(())
    }
}

} // verus!
