//! Enum accessors: memoized helpers that read an enum's tag, or its payload
//! reinterpreted as one of its variants.
use vstd::prelude::*;

use crate::ir::{decode, encode, run, FnName, GenFunction, HelperKey, HelperKind, Inst, Val};
use crate::libfuncs::{emitted_one, Compiler};
use crate::state::{ConstTable, Storage};
use crate::types::{PhysType, STy, SierraType, Ty};

verus! {

/// What a generated helper is called with at a call site: its symbol and the
/// type of the value it returns.
pub struct HelperCall {
    pub callee: HelperKey,
    pub result_type: PhysType,
}

/// The argument of an enum accessor: the pair of a tag and a payload.
pub open spec fn enum_arg(tag: Val, payload: Val) -> Seq<Val> {
    seq![Val::Agg(seq![tag, payload])]
}

/// Whether `f` returns field 0, the tag, of its enum argument.
pub open spec fn is_get_tag_fn(f: GenFunction) -> bool {
    &&& f.body@ == seq![Inst::Extract { agg: 0, index: 0 }]
    &&& f.rets@ == seq![1usize]
}

/// Whether `f` stores field 1, the payload, of its enum argument into a fresh
/// slot of the payload's type and reads it back as a value of type `variant`.
pub open spec fn is_get_data_fn(f: GenFunction, storage: Ty, variant: Ty) -> bool {
    &&& f.body@.len() == 4
    &&& f.body@[0] == (Inst::Extract { agg: 0, index: 1 })
    &&& f.body@[1] is Alloca && f.body@[1]->Alloca_ty.ty() == storage
    &&& f.body@[2] == (Inst::Store { v: 1, ptr: 2 })
    &&& f.body@[3] is Load && f.body@[3]->Load_ptr == 2 && f.body@[3]->Load_ty.ty() == variant
    &&& f.rets@ == seq![4usize]
}

/// The tag getter returns the tag of an enum value.
pub proof fn lemma_get_tag_call(f: GenFunction, tag: Val, payload: Val)
    requires
        is_get_tag_fn(f),
    ensures
        f.call(seq![Val::Agg(seq![tag, payload])]) == seq![tag],
{
    let args = seq![Val::Agg(seq![tag, payload])];
    assert(run(f.body@, args, 0).0 == args);
    assert(run(f.body@, args, 1).0 == args.push(tag));
    assert(f.call(args) =~= seq![tag]);
}

/// The payload getter returns the payload's bits read as the variant's type.
pub proof fn lemma_get_data_call(f: GenFunction, storage: Ty, variant: Ty, tag: Val, payload: Val)
    requires
        is_get_data_fn(f, storage, variant),
    ensures
        f.call(seq![Val::Agg(seq![tag, payload])]) == seq![decode(variant, encode(payload))],
{
    let args = seq![Val::Agg(seq![tag, payload])];
    let v1 = args.push(payload);
    let v2 = v1.push(Val::Ptr(2));
    let v3 = v2.push(Val::Unit);
    assert(run(f.body@, args, 0).0 == args);
    assert(run(f.body@, args, 1).0 == v1);
    assert(run(f.body@, args, 2).0 == v2);
    assert(run(f.body@, args, 3).0 == v3);
    assert(run(f.body@, args, 3).1 == Map::<nat, Seq<bool>>::empty().insert(2, encode(payload)));
    assert(run(f.body@, args, 4).0 == v3.push(decode(variant, encode(payload))));
    assert(f.call(args) =~= seq![decode(variant, encode(payload))]);
}

/// The effect of requesting the helper `key`, generated as `generated` says
/// where it was not yet emitted.
pub open spec fn memo_effect(
    key: (HelperKind, Ty),
    old: Storage,
    new: Storage,
    old_module: Seq<GenFunction>,
    new_module: Seq<GenFunction>,
    generated: spec_fn(GenFunction) -> bool,
) -> bool {
    &&& new.helper_set() == old.helper_set().insert(key)
    &&& new.type_map() == old.type_map()
    &&& new.function_map() == old.function_map()
    &&& forall|t: ConstTable| new.const_map(t) == old.const_map(t)
    &&& old.helper_set().contains(key) ==> new_module == old_module
    &&& !old.helper_set().contains(key) ==> {
        let f = new_module.last();
        &&& emitted_one(new_module, old_module)
        &&& f.name is Helper && f.name->Helper_0@ == key
        &&& generated(f)
    }
}

/// Requesting the same helper twice emits it at most once: the second request
/// leaves the module and the helper set as the first one left them, and the
/// two together add exactly the helper's key to the set.
pub proof fn lemma_memo_idempotent(
    key: (HelperKind, Ty),
    s0: Storage,
    s1: Storage,
    s2: Storage,
    m0: Seq<GenFunction>,
    m1: Seq<GenFunction>,
    m2: Seq<GenFunction>,
    generated: spec_fn(GenFunction) -> bool,
)
    requires
        memo_effect(key, s0, s1, m0, m1, generated),
        memo_effect(key, s1, s2, m1, m2, generated),
    ensures
        m2 == m1,
        m1.len() <= m0.len() + 1,
        s2.helper_set() == s1.helper_set(),
        s2.helper_set() == s0.helper_set().insert(key),
{
    assert(s1.helper_set().contains(key));
    assert(s1.helper_set().insert(key) =~= s1.helper_set());
}

/// The keys that a sequence of requests names.
pub open spec fn requested(keys: Seq<(HelperKind, Ty)>) -> Set<(HelperKind, Ty)> {
    Set::new(|k: (HelperKind, Ty)| keys.contains(k))
}

/// Whether each request of `keys`, in order, had its memoized effect, passing
/// through the given states and modules.
pub open spec fn requests_in_order(
    keys: Seq<(HelperKind, Ty)>,
    states: Seq<Storage>,
    modules: Seq<Seq<GenFunction>>,
    gens: Seq<spec_fn(GenFunction) -> bool>,
) -> bool {
    &&& states.len() == keys.len() + 1
    &&& modules.len() == keys.len() + 1
    &&& gens.len() == keys.len()
    &&& forall|i: int|
        0 <= i < keys.len() ==> memo_effect(
            #[trigger] keys[i],
            states[i],
            states[i + 1],
            modules[i],
            modules[i + 1],
            gens[i],
        )
}

proof fn lemma_requests_prefix(
    keys: Seq<(HelperKind, Ty)>,
    states: Seq<Storage>,
    modules: Seq<Seq<GenFunction>>,
    gens: Seq<spec_fn(GenFunction) -> bool>,
    n: int,
)
    requires
        requests_in_order(keys, states, modules, gens),
        0 <= n <= keys.len(),
    ensures
        states[n].helper_set() == states[0].helper_set().union(requested(keys.subrange(0, n))),
    decreases n,
{
    if n == 0 {
        assert(requested(keys.subrange(0, 0)) =~= Set::<(HelperKind, Ty)>::empty());
        assert(states[0].helper_set().union(Set::empty()) =~= states[0].helper_set());
    } else {
        lemma_requests_prefix(keys, states, modules, gens, n - 1);
        assert(memo_effect(keys[n - 1], states[n - 1], states[n], modules[n - 1], modules[n], gens[n - 1]));
        let pre = keys.subrange(0, n - 1);
        let cur = keys.subrange(0, n);
        assert forall|k: (HelperKind, Ty)| cur.contains(k) <==> (pre.contains(k) || k == keys[n - 1]) by {
            if cur.contains(k) {
                let j = choose|j: int| 0 <= j < cur.len() && cur[j] == k;
                if j < n - 1 {
                    assert(pre[j] == k);
                }
            }
            if pre.contains(k) {
                let j = choose|j: int| 0 <= j < pre.len() && pre[j] == k;
                assert(cur[j] == k);
            }
            if k == keys[n - 1] {
                assert(cur[n - 1] == k);
            }
        }
        assert(states[n].helper_set() =~= states[0].helper_set().union(requested(cur)));
    }
}

/// Requesting helpers any number of times, in any order, emits each helper
/// once: after the requests the helper set is the initial one plus the keys
/// requested, and a request adds one function to the module exactly when its
/// key was neither recorded at the start nor requested before, and none
/// otherwise.
pub proof fn lemma_memo_requests(
    keys: Seq<(HelperKind, Ty)>,
    states: Seq<Storage>,
    modules: Seq<Seq<GenFunction>>,
    gens: Seq<spec_fn(GenFunction) -> bool>,
)
    requires
        requests_in_order(keys, states, modules, gens),
    ensures
        states.last().helper_set() == states[0].helper_set().union(requested(keys)),
        forall|i: int|
            0 <= i < keys.len() ==> #[trigger] modules[i + 1].len() == modules[i].len() + if states[0].helper_set().contains(
                keys[i],
            ) || keys.subrange(0, i).contains(keys[i]) {
                0int
            } else {
                1int
            },
{
    lemma_requests_prefix(keys, states, modules, gens, keys.len() as int);
    assert(keys.subrange(0, keys.len() as int) =~= keys);
    assert forall|i: int| 0 <= i < keys.len() implies #[trigger] modules[i + 1].len() == modules[i].len()
        + if states[0].helper_set().contains(keys[i]) || keys.subrange(0, i).contains(keys[i]) {
        0int
    } else {
        1int
    } by {
        lemma_requests_prefix(keys, states, modules, gens, i);
        assert(memo_effect(keys[i], states[i], states[i + 1], modules[i], modules[i + 1], gens[i]));
        assert(states[i].helper_set().contains(keys[i]) == (states[0].helper_set().contains(keys[i])
            || requested(keys.subrange(0, i)).contains(keys[i])));
    }
}

/// Whether `f` is named after the helper `key`.
pub open spec fn named(f: GenFunction, key: (HelperKind, Ty)) -> bool {
    f.name is Helper && f.name->Helper_0@ == key
}

/// Whether `f` has the shape of the helper `key`: it takes the enum and
/// returns its tag, or its payload read back as some variant's type.
pub open spec fn helper_fn_ok(f: GenFunction, key: (HelperKind, Ty)) -> bool {
    &&& f.param_tys() == seq![key.1]
    &&& f.result_tys().len() == 1
    &&& match key.0 {
        HelperKind::EnumGetTag => is_get_tag_fn(f),
        HelperKind::EnumGetData(_) => exists|st: Ty| is_get_data_fn(f, st, f.result_tys()[0]),
    }
}

/// The helper set and the module agree: every helper function in the module
/// has its helper's shape and is recorded, and every recorded helper has a
/// function in the module.
pub open spec fn helpers_emitted(module: Seq<GenFunction>, s: Storage) -> bool {
    &&& forall|i: int|
        0 <= i < module.len() && (#[trigger] module[i]).name is Helper ==> helper_fn_ok(
            module[i],
            module[i].name->Helper_0@,
        ) && s.helper_set().contains(module[i].name->Helper_0@)
    &&& forall|key: (HelperKind, Ty)|
        #[trigger] s.helper_set().contains(key) ==> exists|i: int| 0 <= i < module.len() && named(module[i], key)
}

/// Appending functions that are not helpers keeps the module in agreement
/// with an unchanged helper set.
pub proof fn lemma_helpers_kept(m0: Seq<GenFunction>, m1: Seq<GenFunction>, s0: Storage, s1: Storage)
    requires
        helpers_emitted(m0, s0),
        s1.helper_set() == s0.helper_set(),
        m1 == m0 || (emitted_one(m1, m0) && m1.last().name is Libfunc),
    ensures
        helpers_emitted(m1, s1),
{
    if m1 != m0 {
        assert forall|i: int| 0 <= i < m0.len() implies m1[i] == m0[i] by {
            assert(m1.drop_last()[i] == m1[i]);
        }
        assert forall|key: (HelperKind, Ty)| #[trigger] s1.helper_set().contains(key) implies exists|i: int|
            0 <= i < m1.len() && named(m1[i], key) by {
            let i = choose|i: int| 0 <= i < m0.len() && named(m0[i], key);
            assert(named(m1[i], key));
        }
    }
}

/// Appending the function of a helper not yet recorded, and recording it,
/// keeps the module in agreement with the helper set.
proof fn lemma_helper_added(
    m0: Seq<GenFunction>,
    m1: Seq<GenFunction>,
    s0: Storage,
    s1: Storage,
    key: (HelperKind, Ty),
)
    requires
        helpers_emitted(m0, s0),
        s1.helper_set() == s0.helper_set().insert(key),
        emitted_one(m1, m0),
        named(m1.last(), key),
        helper_fn_ok(m1.last(), key),
    ensures
        helpers_emitted(m1, s1),
{
    assert forall|i: int| 0 <= i < m0.len() implies m1[i] == m0[i] by {
        assert(m1.drop_last()[i] == m1[i]);
    }
    assert forall|key2: (HelperKind, Ty)| #[trigger] s1.helper_set().contains(key2) implies exists|i: int|
        0 <= i < m1.len() && named(m1[i], key2) by {
        if key2 == key {
            assert(named(m1[m1.len() - 1], key2));
        } else {
            let i = choose|i: int| 0 <= i < m0.len() && named(m0[i], key2);
            assert(named(m1[i], key2));
        }
    }
}

/// Whether the module holds a function of the helper `key`, of its shape.
pub open spec fn helper_in(module: Seq<GenFunction>, key: (HelperKind, Ty)) -> bool {
    exists|i: int| 0 <= i < module.len() && named(module[i], key) && helper_fn_ok(module[i], key)
}

impl Compiler {
    /// The tag getter of `enum_type`, generated on its first request only.
    pub fn create_enum_get_tag(&mut self, enum_type: &SierraType, storage: &mut Storage) -> (r: HelperKey)
        requires
            enum_type@ is Enum,
            helpers_emitted(old(self).module@, *old(storage)),
        ensures
            r@ == (HelperKind::EnumGetTag, enum_type@.phys()),
            helpers_emitted(final(self).module@, *final(storage)),
            helper_in(final(self).module@, r@),
            memo_effect(
                r@,
                *old(storage),
                *final(storage),
                old(self).module@,
                final(self).module@,
                |f: GenFunction|
                    {
                        &&& is_get_tag_fn(f)
                        &&& forall|tag: Val, payload: Val| #[trigger] f.call(enum_arg(tag, payload)) == seq![tag]
                        &&& f.param_tys() == seq![enum_type@.phys()]
                        &&& f.result_tys() == seq![enum_type@->tag]
                    },
            ),
    {
        let (enum_ty, tag_type) = match enum_type {
            SierraType::Enum { ty, tag_type, .. } => (ty, tag_type),
            _ => {
                proof {
                    assert(false);
                }
                return HelperKey { kind: HelperKind::EnumGetTag, enum_type: PhysType::Int { width: 0 } };
            },
        };
        let key = HelperKey { kind: HelperKind::EnumGetTag, enum_type: enum_ty.duplicate() };
        if storage.has_helper(&key) {
            proof {
                assert(storage.helper_set().insert(key@) =~= storage.helper_set());
                assert(storage.helper_set().contains(key@));
                assert(helpers_emitted(self.module@, *storage));
                let i = choose|i: int| 0 <= i < self.module@.len() && named(self.module@[i], key@);
                assert(helper_fn_ok(self.module@[i], key@));
            }
            return key;
        }
        let mut body: Vec<Inst> = Vec::new();
        body.push(Inst::Extract { agg: 0, index: 0 });
        let mut rets: Vec<usize> = Vec::new();
        rets.push(1);
        let mut params: Vec<PhysType> = Vec::new();
        params.push(enum_ty.duplicate());
        let mut results: Vec<PhysType> = Vec::new();
        results.push(tag_type.duplicate());
        let name = HelperKey { kind: HelperKind::EnumGetTag, enum_type: enum_ty.duplicate() };
        let f = GenFunction { name: FnName::Helper(name), params, results, body, rets };
        assert(f.body@ =~= seq![Inst::Extract { agg: 0, index: 0 }]);
        assert(f.rets@ =~= seq![1usize]);
        assert(f.param_tys() =~= seq![enum_type@.phys()]);
        assert(f.result_tys() =~= seq![enum_type@->tag]);
        assert forall|tag: Val, payload: Val| #[trigger] f.call(enum_arg(tag, payload)) == seq![tag] by {
            lemma_get_tag_call(f, tag, payload);
        }
        let ghost kv = key@;
        self.emit_function(f);
        storage.add_helper(key);
        proof {
            lemma_helper_added(old(self).module@, self.module@, *old(storage), *storage, kv);
            assert(named(self.module@[self.module@.len() - 1], kv));
        }
        HelperKey { kind: HelperKind::EnumGetTag, enum_type: enum_ty.duplicate() }
    }

    /// The getter of `enum_type`'s payload as variant `variant`, generated on
    /// its first request only.
    pub fn create_enum_get_data_as_variant_type(
        &mut self,
        enum_type: &SierraType,
        variant: usize,
        storage: &mut Storage,
    ) -> (r: HelperKey)
        requires
            enum_type@ is Enum,
            variant < enum_type@->variants.len(),
            helpers_emitted(old(self).module@, *old(storage)),
        ensures
            r@ == (HelperKind::EnumGetData(variant), enum_type@.phys()),
            helpers_emitted(final(self).module@, *final(storage)),
            helper_in(final(self).module@, r@),
            memo_effect(
                r@,
                *old(storage),
                *final(storage),
                old(self).module@,
                final(self).module@,
                |f: GenFunction|
                    {
                        &&& is_get_data_fn(f, enum_type@->storage, enum_type@->variants[variant as int].phys())
                        &&& forall|tag: Val, payload: Val| #[trigger] f.call(enum_arg(tag, payload)) == seq![
                            decode(enum_type@->variants[variant as int].phys(), encode(payload)),
                        ]
                        &&& f.param_tys() == seq![enum_type@.phys()]
                        &&& f.result_tys() == seq![enum_type@->variants[variant as int].phys()]
                    },
            ),
    {
        let (enum_ty, storage_type, variant_type) = match enum_type {
            SierraType::Enum { ty, storage_type, variants_types, .. } => {
                (ty, storage_type, variants_types[variant].get_type())
            },
            _ => {
                proof {
                    assert(false);
                }
                return HelperKey { kind: HelperKind::EnumGetTag, enum_type: PhysType::Int { width: 0 } };
            },
        };
        let key = HelperKey { kind: HelperKind::EnumGetData(variant), enum_type: enum_ty.duplicate() };
        if storage.has_helper(&key) {
            proof {
                assert(storage.helper_set().insert(key@) =~= storage.helper_set());
                assert(storage.helper_set().contains(key@));
                assert(helpers_emitted(self.module@, *storage));
                let i = choose|i: int| 0 <= i < self.module@.len() && named(self.module@[i], key@);
                assert(helper_fn_ok(self.module@[i], key@));
            }
            return key;
        }
        let ghost vt = variant_type.ty();
        let mut body: Vec<Inst> = Vec::new();
        body.push(Inst::Extract { agg: 0, index: 1 });
        body.push(Inst::Alloca { ty: storage_type.duplicate() });
        body.push(Inst::Store { v: 1, ptr: 2 });
        body.push(Inst::Load { ptr: 2, ty: variant_type.duplicate() });
        let mut rets: Vec<usize> = Vec::new();
        rets.push(4);
        let mut params: Vec<PhysType> = Vec::new();
        params.push(enum_ty.duplicate());
        let mut results: Vec<PhysType> = Vec::new();
        results.push(variant_type);
        let name = HelperKey { kind: HelperKind::EnumGetData(variant), enum_type: enum_ty.duplicate() };
        let f = GenFunction { name: FnName::Helper(name), params, results, body, rets };
        assert(f.rets@ =~= seq![4usize]);
        assert(f.param_tys() =~= seq![enum_type@.phys()]);
        assert(f.result_tys() =~= seq![vt]);
        let ghost kv = key@;
        assert(is_get_data_fn(f, enum_type@->storage, f.result_tys()[0]));
        assert forall|tag: Val, payload: Val| #[trigger] f.call(enum_arg(tag, payload)) == seq![decode(vt, encode(payload))] by {
            lemma_get_data_call(f, enum_type@->storage, vt, tag, payload);
        }
        self.emit_function(f);
        storage.add_helper(key);
        proof {
            lemma_helper_added(old(self).module@, self.module@, *old(storage), *storage, kv);
            assert(named(self.module@[self.module@.len() - 1], kv));
        }
        HelperKey { kind: HelperKind::EnumGetData(variant), enum_type: enum_ty.duplicate() }
    }

    /// The index of a function of the helper `key` in the module.
    pub fn find_helper(&self, key: &HelperKey) -> (r: Option<usize>)
        ensures
            r matches Some(i) ==> i < self.module@.len() && named(self.module@[i as int], key@),
            r is None ==> forall|i: int| 0 <= i < self.module@.len() ==> !named(#[trigger] self.module@[i], key@),
    {
        let mut i: usize = 0;
        while i < self.module.len()
            invariant
                i <= self.module@.len(),
                forall|j: int| 0 <= j < i ==> !named(#[trigger] self.module@[j], key@),
            decreases self.module@.len() - i,
        {
            if let FnName::Helper(k) = &self.module[i].name {
                if k.kind == key.kind && k.enum_type.same_as(&key.enum_type) {
                    return Some(i);
                }
            }
            i = i + 1;
        }
        None
    }

    /// The call-site view of the helper `key`, which the module holds.
    fn helper_call(&self, key: HelperKey, storage: &Storage) -> (r: HelperCall)
        requires
            helpers_emitted(self.module@, *storage),
            helper_in(self.module@, key@),
        ensures
            r.callee@ == key@,
            exists|i: int|
                0 <= i < self.module@.len() && named(self.module@[i], key@) && helper_fn_ok(self.module@[i], key@)
                    && r.result_type.ty() == self.module@[i].result_tys()[0],
    {
        match self.find_helper(&key) {
            Some(i) => {
                assert(helper_fn_ok(self.module@[i as int], key@));
                assert(self.module@[i as int].result_tys()[0] == self.module@[i as int].results@[0].ty());
                let result_type = self.module[i].results[0].duplicate();
                HelperCall { callee: key, result_type }
            },
            None => {
                proof {
                    let j = choose|j: int| 0 <= j < self.module@.len() && named(self.module@[j], key@) && helper_fn_ok(self.module@[j], key@);
                    assert(!named(self.module@[j], key@));
                }
                HelperCall { callee: key, result_type: PhysType::Int { width: 0 } }
            },
        }
    }

    /// Requests the tag getter of `enum_type` for a call site. The module
    /// holds the getter afterwards, generated now or on an earlier request,
    /// and the result type is the one it returns.
    pub fn call_enum_get_tag(&mut self, enum_type: &SierraType, storage: &mut Storage) -> (r: HelperCall)
        requires
            enum_type@ is Enum,
            helpers_emitted(old(self).module@, *old(storage)),
        ensures
            r.callee@ == (HelperKind::EnumGetTag, enum_type@.phys()),
            helpers_emitted(final(self).module@, *final(storage)),
            exists|i: int|
                0 <= i < final(self).module@.len() && named(final(self).module@[i], r.callee@)
                    && is_get_tag_fn(final(self).module@[i])
                    && final(self).module@[i].param_tys() == seq![enum_type@.phys()]
                    && final(self).module@[i].result_tys() == seq![r.result_type.ty()],
            !old(storage).helper_set().contains(r.callee@) ==> r.result_type.ty() == enum_type@->tag,
            memo_effect(
                r.callee@,
                *old(storage),
                *final(storage),
                old(self).module@,
                final(self).module@,
                |f: GenFunction|
                    {
                        &&& is_get_tag_fn(f)
                        &&& forall|tag: Val, payload: Val| #[trigger] f.call(enum_arg(tag, payload)) == seq![tag]
                        &&& f.param_tys() == seq![enum_type@.phys()]
                        &&& f.result_tys() == seq![enum_type@->tag]
                    },
            ),
    {
        let key = self.create_enum_get_tag(enum_type, storage);
        let r = self.helper_call(key, storage);
        proof {
            let i = choose|i: int|
                0 <= i < self.module@.len() && named(self.module@[i], key@) && helper_fn_ok(self.module@[i], key@)
                    && r.result_type.ty() == self.module@[i].result_tys()[0];
            assert(self.module@[i].result_tys() =~= seq![r.result_type.ty()]);
            if !old(storage).helper_set().contains(key@) {
                assert(self.module@[i] == self.module@.last()) by {
                    if i < self.module@.len() - 1 {
                        assert(self.module@.drop_last()[i] == self.module@[i]);
                        assert(old(storage).helper_set().contains(key@));
                    }
                }
            }
        }
        r
    }

    /// Requests the payload getter of `enum_type` as variant `variant` for a
    /// call site. The module holds the getter afterwards, generated now or on
    /// an earlier request for an enum of the same physical type, and the
    /// result type is the one it returns.
    pub fn call_enum_get_data_as_variant_type(
        &mut self,
        enum_type: &SierraType,
        variant: usize,
        storage: &mut Storage,
    ) -> (r: HelperCall)
        requires
            enum_type@ is Enum,
            variant < enum_type@->variants.len(),
            helpers_emitted(old(self).module@, *old(storage)),
        ensures
            r.callee@ == (HelperKind::EnumGetData(variant), enum_type@.phys()),
            helpers_emitted(final(self).module@, *final(storage)),
            exists|i: int, st: Ty|
                0 <= i < final(self).module@.len() && named(final(self).module@[i], r.callee@)
                    && is_get_data_fn(final(self).module@[i], st, r.result_type.ty())
                    && final(self).module@[i].param_tys() == seq![enum_type@.phys()]
                    && final(self).module@[i].result_tys() == seq![r.result_type.ty()],
            !old(storage).helper_set().contains(r.callee@) ==> r.result_type.ty()
                == enum_type@->variants[variant as int].phys(),
            memo_effect(
                r.callee@,
                *old(storage),
                *final(storage),
                old(self).module@,
                final(self).module@,
                |f: GenFunction|
                    {
                        &&& is_get_data_fn(f, enum_type@->storage, enum_type@->variants[variant as int].phys())
                        &&& forall|tag: Val, payload: Val| #[trigger] f.call(enum_arg(tag, payload)) == seq![
                            decode(enum_type@->variants[variant as int].phys(), encode(payload)),
                        ]
                        &&& f.param_tys() == seq![enum_type@.phys()]
                        &&& f.result_tys() == seq![enum_type@->variants[variant as int].phys()]
                    },
            ),
    {
        let key = self.create_enum_get_data_as_variant_type(enum_type, variant, storage);
        let r = self.helper_call(key, storage);
        proof {
            let i = choose|i: int|
                0 <= i < self.module@.len() && named(self.module@[i], key@) && helper_fn_ok(self.module@[i], key@)
                    && r.result_type.ty() == self.module@[i].result_tys()[0];
            assert(self.module@[i].result_tys() =~= seq![r.result_type.ty()]);
            let st = choose|st: Ty| is_get_data_fn(self.module@[i], st, self.module@[i].result_tys()[0]);
            assert(is_get_data_fn(self.module@[i], st, r.result_type.ty()));
            if !old(storage).helper_set().contains(key@) {
                assert(self.module@[i] == self.module@.last()) by {
                    if i < self.module@.len() - 1 {
                        assert(self.module@.drop_last()[i] == self.module@[i]);
                        assert(old(storage).helper_set().contains(key@));
                    }
                }
            }
        }
        r
    }
}

} // verus!
