//! The compilation state: type registry, function registry, memoized helper
//! names and literal tables.
use vstd::prelude::*;

use crate::ir::{GenFunction, HelperKey, HelperKind};
use crate::layout::wf;
use crate::types::{views, STy, SierraType, Ty};

verus! {

/// The signature registered for every libfunc-backed callable.
pub struct FunctionDef {
    pub args: Vec<SierraType>,
    pub return_types: Vec<SierraType>,
}

impl FunctionDef {
    pub open spec fn view(&self) -> (Seq<STy>, Seq<STy>) {
        (views(self.args@), views(self.return_types@))
    }
}

/// The literal tables, one per supported integer width and one for felts.
#[derive(Clone, Copy, PartialEq, Eq, Structural, Debug)]
pub enum ConstTable {
    U8,
    U16,
    U32,
    U64,
    U128,
    Felt,
}

/// The map that a log of `(key, value)` writes builds, later writes winning.
pub open spec fn names_map<V>(log: Seq<(Seq<char>, V)>) -> Map<Seq<char>, V>
    decreases log.len(),
{
    if log.len() == 0 {
        Map::empty()
    } else {
        names_map(log.drop_last()).insert(log.last().0, log.last().1)
    }
}

pub open spec fn ids_map(log: Seq<(u64, STy)>) -> Map<u64, STy>
    decreases log.len(),
{
    if log.len() == 0 {
        Map::empty()
    } else {
        ids_map(log.drop_last()).insert(log.last().0, log.last().1)
    }
}

pub open spec fn text_log(v: Seq<(String, String)>) -> Seq<(Seq<char>, Seq<char>)> {
    Seq::new(v.len(), |i: int| (v[i].0@, v[i].1@))
}

/// State shared by all builders of one compilation unit.
pub struct Storage {
    /// Type registry, filled by the type lowering pass: later entries win.
    pub types: Vec<(u64, SierraType)>,
    /// Registered signatures, in registration order: later entries win.
    pub functions: Vec<(String, FunctionDef)>,
    /// Helpers already emitted.
    pub helperfuncs: Vec<HelperKey>,
    pub u8_consts: Vec<(String, String)>,
    pub u16_consts: Vec<(String, String)>,
    pub u32_consts: Vec<(String, String)>,
    pub u64_consts: Vec<(String, String)>,
    pub u128_consts: Vec<(String, String)>,
    pub felt_consts: Vec<(String, String)>,
}

impl Storage {
    /// The type registry as a map from type id.
    pub open spec fn type_map(&self) -> Map<u64, STy> {
        ids_map(Seq::new(self.types@.len(), |i: int| (self.types@[i].0, self.types@[i].1@)))
    }

    /// Every registered type has a consistent layout.
    pub open spec fn types_wf(&self) -> bool {
        forall|id: u64| #[trigger] self.type_map().contains_key(id) ==> wf(self.type_map()[id])
    }

    /// The function registry as a map from name.
    pub open spec fn function_map(&self) -> Map<Seq<char>, (Seq<STy>, Seq<STy>)> {
        names_map(
            Seq::new(self.functions@.len(), |i: int| (self.functions@[i].0@, self.functions@[i].1@)),
        )
    }

    /// The helpers already emitted.
    pub open spec fn helper_set(&self) -> Set<(HelperKind, Ty)> {
        Set::new(|k: (HelperKind, Ty)| exists|i: int| 0 <= i < self.helperfuncs@.len() && #[trigger] self.helperfuncs@[i]@ == k)
    }

    pub open spec fn table(&self, t: ConstTable) -> Seq<(String, String)> {
        match t {
            ConstTable::U8 => self.u8_consts@,
            ConstTable::U16 => self.u16_consts@,
            ConstTable::U32 => self.u32_consts@,
            ConstTable::U64 => self.u64_consts@,
            ConstTable::U128 => self.u128_consts@,
            ConstTable::Felt => self.felt_consts@,
        }
    }

    /// A literal table as a map from name to literal text.
    pub open spec fn const_map(&self, t: ConstTable) -> Map<Seq<char>, Seq<char>> {
        names_map(text_log(self.table(t)))
    }

    /// Everything but the function registry is the same in both states.
    pub open spec fn same_but_functions(&self, other: &Storage) -> bool {
        &&& self.type_map() == other.type_map()
        &&& self.helper_set() == other.helper_set()
        &&& forall|t: ConstTable| self.const_map(t) == other.const_map(t)
    }

    /// Everything but the literal table `t` is the same in both states.
    pub open spec fn same_but_table(&self, other: &Storage, t: ConstTable) -> bool {
        &&& self.type_map() == other.type_map()
        &&& self.function_map() == other.function_map()
        &&& self.helper_set() == other.helper_set()
        &&& forall|u: ConstTable| u != t ==> self.const_map(u) == other.const_map(u)
    }

    pub fn new() -> (r: Storage)
        ensures
            r.type_map() == Map::<u64, STy>::empty(),
            r.function_map() == Map::<Seq<char>, (Seq<STy>, Seq<STy>)>::empty(),
            r.helper_set() == Set::<(HelperKind, Ty)>::empty(),
            forall|t: ConstTable| r.const_map(t) == Map::<Seq<char>, Seq<char>>::empty(),
    {
        let r = Storage {
            types: Vec::new(),
            functions: Vec::new(),
            helperfuncs: Vec::new(),
            u8_consts: Vec::new(),
            u16_consts: Vec::new(),
            u32_consts: Vec::new(),
            u64_consts: Vec::new(),
            u128_consts: Vec::new(),
            felt_consts: Vec::new(),
        };
        assert(r.helper_set() =~= Set::<(HelperKind, Ty)>::empty());
        assert forall|t: ConstTable| r.const_map(t) == Map::<Seq<char>, Seq<char>>::empty() by {
            assert(text_log(r.table(t)) =~= Seq::<(Seq<char>, Seq<char>)>::empty());
        }
        r
    }

    /// Registers a type under `id`, replacing any earlier one.
    pub fn add_type(&mut self, id: u64, ty: SierraType)
        ensures
            final(self).type_map() == old(self).type_map().insert(id, ty@),
            old(self).types_wf() && wf(ty@) ==> final(self).types_wf(),
            final(self).function_map() == old(self).function_map(),
            final(self).helper_set() == old(self).helper_set(),
            forall|t: ConstTable| final(self).const_map(t) == old(self).const_map(t),
    {
        let ghost tv = ty@;
        self.types.push((id, ty));
        let ghost s = Seq::new(self.types@.len(), |i: int| (self.types@[i].0, self.types@[i].1@));
        let ghost o = Seq::new(old(self).types@.len(), |i: int| (old(self).types@[i].0, old(self).types@[i].1@));
        assert(s.drop_last() =~= o);
        assert(self.helper_set() =~= old(self).helper_set());
        assert(self.type_map() == old(self).type_map().insert(id, tv));
    }

    /// Registers the signature of `name`, replacing any earlier one.
    pub fn register_function(&mut self, name: String, def: FunctionDef)
        ensures
            final(self).function_map() == old(self).function_map().insert(name@, def@),
            final(self).same_but_functions(old(self)),
    {
        self.functions.push((name, def));
        let ghost s = Seq::new(self.functions@.len(), |i: int| (self.functions@[i].0@, self.functions@[i].1@));
        let ghost o = Seq::new(old(self).functions@.len(), |i: int| (old(self).functions@[i].0@, old(self).functions@[i].1@));
        assert(s.drop_last() =~= o);
        assert(self.helper_set() =~= old(self).helper_set());
    }

    /// Whether the helper `key` was already emitted.
    pub fn has_helper(&self, key: &HelperKey) -> (r: bool)
        ensures
            r == self.helper_set().contains(key@),
    {
        let mut i: usize = 0;
        while i < self.helperfuncs.len()
            invariant
                i <= self.helperfuncs@.len(),
                forall|j: int| 0 <= j < i ==> self.helperfuncs@[j]@ != key@,
            decreases self.helperfuncs@.len() - i,
        {
            let h = &self.helperfuncs[i];
            if h.kind == key.kind && h.enum_type.same_as(&key.enum_type) {
                assert(self.helperfuncs@[i as int]@ == key@);
                return true;
            }
            i = i + 1;
        }
        false
    }

    /// Records that the helper `key` was emitted.
    pub fn add_helper(&mut self, key: HelperKey)
        ensures
            final(self).helper_set() == old(self).helper_set().insert(key@),
            final(self).type_map() == old(self).type_map(),
            final(self).function_map() == old(self).function_map(),
            forall|t: ConstTable| final(self).const_map(t) == old(self).const_map(t),
    {
        let ghost k = key@;
        self.helperfuncs.push(key);
        assert forall|x: (HelperKind, Ty)| self.helper_set().contains(x) <==> old(self).helper_set().insert(k).contains(x) by {
            if old(self).helper_set().contains(x) {
                let j = choose|j: int| 0 <= j < old(self).helperfuncs@.len() && #[trigger] old(self).helperfuncs@[j]@ == x;
                assert(self.helperfuncs@[j]@ == x);
            }
            if x == k {
                assert(self.helperfuncs@[self.helperfuncs@.len() - 1]@ == x);
            }
        }
        assert(self.helper_set() =~= old(self).helper_set().insert(k));
    }

    /// Records `text` as the literal of `name` in the table `t`.
    pub fn insert_const(&mut self, t: ConstTable, name: String, text: String)
        ensures
            final(self).const_map(t) == old(self).const_map(t).insert(name@, text@),
            final(self).same_but_table(old(self), t),
    {
        let ghost nv = name@;
        let ghost tv = text@;
        match t {
            ConstTable::U8 => self.u8_consts.push((name, text)),
            ConstTable::U16 => self.u16_consts.push((name, text)),
            ConstTable::U32 => self.u32_consts.push((name, text)),
            ConstTable::U64 => self.u64_consts.push((name, text)),
            ConstTable::U128 => self.u128_consts.push((name, text)),
            ConstTable::Felt => self.felt_consts.push((name, text)),
        }
        assert(text_log(self.table(t)).drop_last() =~= text_log(old(self).table(t)));
        assert(self.helper_set() =~= old(self).helper_set());
        assert forall|u: ConstTable| u != t implies self.const_map(u) == old(self).const_map(u) by {
            assert(self.table(u) == old(self).table(u));
        }
    }

    /// The signature registered under `name`.
    pub fn lookup_function(&self, name: &String) -> (r: Option<&FunctionDef>)
        ensures
            r is Some <==> self.function_map().contains_key(name@),
            r matches Some(d) ==> d@ == self.function_map()[name@],
    {
        let ghost s = Seq::new(self.functions@.len(), |i: int| (self.functions@[i].0@, self.functions@[i].1@));
        let mut i: usize = self.functions.len();
        assert(s.subrange(s.len() as int, s.len() as int) =~= Seq::<(Seq<char>, (Seq<STy>, Seq<STy>))>::empty());
        while i > 0
            invariant
                i <= self.functions@.len(),
                s == Seq::new(self.functions@.len(), |i: int| (self.functions@[i].0@, self.functions@[i].1@)),
                !names_map(s.subrange(i as int, s.len() as int)).contains_key(name@),
            decreases i,
        {
            if self.functions[i - 1].0 == *name {
                proof {
                    lemma_names_map_split(s, i as int);
                    assert(s.subrange(0, i as int).last() == s[i - 1]);
                }
                return Some(&self.functions[i - 1].1);
            }
            proof {
                lemma_names_map_split(s.subrange(i - 1, s.len() as int), 1);
                assert(s.subrange(i - 1, s.len() as int).subrange(0, 1) =~= seq![s[i - 1]]);
                assert(s.subrange(i - 1, s.len() as int).subrange(1, s.len() - (i - 1)) =~= s.subrange(i as int, s.len() as int));
                assert(seq![s[i - 1]].drop_last() =~= Seq::<(Seq<char>, (Seq<STy>, Seq<STy>))>::empty());
                assert(names_map(Seq::<(Seq<char>, (Seq<STy>, Seq<STy>))>::empty()) == Map::<Seq<char>, (Seq<STy>, Seq<STy>)>::empty());
                assert(names_map(seq![s[i - 1]]) == names_map(seq![s[i - 1]].drop_last()).insert(s[i - 1].0, s[i - 1].1));
            }
            i = i - 1;
        }
        assert(s.subrange(0, s.len() as int) =~= s);
        None
    }

    /// The type registered under `id`.
    pub fn lookup_type(&self, id: u64) -> (r: Option<&SierraType>)
        ensures
            r is Some <==> self.type_map().contains_key(id),
            r matches Some(t) ==> t@ == self.type_map()[id],
    {
        let ghost s = Seq::new(self.types@.len(), |i: int| (self.types@[i].0, self.types@[i].1@));
        let mut i: usize = self.types.len();
        assert(s.subrange(s.len() as int, s.len() as int) =~= Seq::<(u64, STy)>::empty());
        while i > 0
            invariant
                i <= self.types@.len(),
                s == Seq::new(self.types@.len(), |i: int| (self.types@[i].0, self.types@[i].1@)),
                !ids_map(s.subrange(i as int, s.len() as int)).contains_key(id),
            decreases i,
        {
            if self.types[i - 1].0 == id {
                proof {
                    lemma_ids_map_split(s, i as int);
                    assert(s.subrange(0, i as int).last() == s[i - 1]);
                }
                return Some(&self.types[i - 1].1);
            }
            proof {
                lemma_ids_map_split(s.subrange(i - 1, s.len() as int), 1);
                assert(s.subrange(i - 1, s.len() as int).subrange(0, 1) =~= seq![s[i - 1]]);
                assert(s.subrange(i - 1, s.len() as int).subrange(1, s.len() - (i - 1)) =~= s.subrange(i as int, s.len() as int));
                assert(seq![s[i - 1]].drop_last() =~= Seq::<(u64, STy)>::empty());
                assert(s[i - 1].0 != id);
                assert(ids_map(Seq::<(u64, STy)>::empty()) == Map::<u64, STy>::empty());
                assert(ids_map(seq![s[i - 1]]) == ids_map(seq![s[i - 1]].drop_last()).insert(s[i - 1].0, s[i - 1].1));
                assert(!ids_map(seq![s[i - 1]]).contains_key(id));
                let t = s.subrange(i - 1, s.len() as int);
                assert(ids_map(t) == ids_map(t.subrange(0, 1)).union_prefer_right(ids_map(t.subrange(1, t.len() as int))));
                assert(!ids_map(t).contains_key(id));
            }
            i = i - 1;
        }
        assert(s.subrange(0, s.len() as int) =~= s);
        None
    }
}

/// A log's map is the map of a prefix updated by the map of the rest.
pub proof fn lemma_names_map_split<V>(s: Seq<(Seq<char>, V)>, k: int)
    requires
        0 <= k <= s.len(),
    ensures
        names_map(s) == names_map(s.subrange(0, k)).union_prefer_right(names_map(s.subrange(k, s.len() as int))),
    decreases s.len(),
{
    if k == s.len() {
        assert(s.subrange(0, k) =~= s);
        assert(s.subrange(k, s.len() as int) =~= Seq::<(Seq<char>, V)>::empty());
        assert(names_map(s).union_prefer_right(Map::empty()) =~= names_map(s));
    } else {
        lemma_names_map_split(s.drop_last(), k);
        assert(s.drop_last().subrange(0, k) =~= s.subrange(0, k));
        assert(s.subrange(k, s.len() as int).drop_last() =~= s.drop_last().subrange(k, s.len() - 1));
        assert(s.subrange(k, s.len() as int).last() == s.last());
        assert(names_map(s) =~= names_map(s.subrange(0, k)).union_prefer_right(names_map(s.subrange(k, s.len() as int))));
    }
}

/// A log's map is the map of a prefix updated by the map of the rest.
pub proof fn lemma_ids_map_split(s: Seq<(u64, STy)>, k: int)
    requires
        0 <= k <= s.len(),
    ensures
        ids_map(s) == ids_map(s.subrange(0, k)).union_prefer_right(ids_map(s.subrange(k, s.len() as int))),
    decreases s.len(),
{
    if k == s.len() {
        assert(s.subrange(0, k) =~= s);
        assert(s.subrange(k, s.len() as int) =~= Seq::<(u64, STy)>::empty());
        assert(ids_map(s).union_prefer_right(Map::empty()) =~= ids_map(s));
    } else {
        lemma_ids_map_split(s.drop_last(), k);
        assert(s.drop_last().subrange(0, k) =~= s.subrange(0, k));
        assert(s.subrange(k, s.len() as int).drop_last() =~= s.drop_last().subrange(k, s.len() - 1));
        assert(s.subrange(k, s.len() as int).last() == s.last());
        assert(ids_map(s) =~= ids_map(s.subrange(0, k)).union_prefer_right(ids_map(s.subrange(k, s.len() as int))));
    }
}

} // verus!
