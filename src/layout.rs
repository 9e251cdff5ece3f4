//! The layout invariant of source types, and its check.
use vstd::arithmetic::power2::{lemma2_to64, lemma2_to64_rest, lemma_pow2_strictly_increases, pow2};
use vstd::bits::{lemma_u64_pow2_no_overflow, lemma_u64_shl_is_mul};
use vstd::prelude::*;

use crate::ir::{size_of, sizes_of};
use crate::types::{PhysType, STy, SierraType, Ty};

verus! {

broadcast use vstd::std_specs::vec::group_vec_axioms;

/// Whether a source type's layout is consistent: a struct's physical type is
/// the aggregate of its fields' physical types; an enum's is the pair of an
/// integer tag wide enough to number its variants and a blob that holds the
/// packed bit image of each variant. Alignment padding of the target's data
/// layout is not counted.
pub open spec fn wf(t: STy) -> bool
    decreases t,
{
    match t {
        STy::Simple(_) => true,
        STy::Struct { ty, fields } => {
            &&& ty == Ty::Struct(Seq::new(fields.len(), |i: int| fields[i].phys()))
            &&& forall|i: int| 0 <= i < fields.len() ==> wf(#[trigger] fields[i])
        },
        STy::Enum { ty, tag, storage_bytes_len, storage, variants } => {
            &&& tag is Int
            &&& variants.len() <= pow2(tag->Int_0)
            &&& storage == Ty::Array(storage_bytes_len)
            &&& ty == Ty::Struct(seq![tag, storage])
            &&& forall|i: int|
                0 <= i < variants.len() ==> size_of(#[trigger] variants[i].phys()) <= 8 * storage_bytes_len
                    && wf(variants[i])
        },
    }
}

/// The size of a sequence of fields is the size of a prefix plus the size of
/// the rest.
pub proof fn lemma_sizes_split(fs: Seq<Ty>, k: int)
    requires
        0 <= k <= fs.len(),
    ensures
        sizes_of(fs) == sizes_of(fs.subrange(0, k)) + sizes_of(fs.subrange(k, fs.len() as int)),
    decreases fs.len(),
{
    if k == 0 {
        assert(fs.subrange(0, 0) =~= Seq::<Ty>::empty());
        assert(fs.subrange(0, fs.len() as int) =~= fs);
    } else {
        let rest = fs.subrange(1, fs.len() as int);
        lemma_sizes_split(rest, k - 1);
        assert(fs.subrange(0, k).subrange(1, k) =~= rest.subrange(0, k - 1));
        assert(rest.subrange(k - 1, rest.len() as int) =~= fs.subrange(k, fs.len() as int));
        assert(fs.subrange(0, k)[0] == fs[0]);
    }
}

/// The size in bits of `t` where it is at most `cap`, else `None`.
pub fn bit_size(t: &PhysType, cap: u64) -> (r: Option<u64>)
    ensures
        r matches Some(n) ==> n as nat == size_of(t.ty()) && n <= cap,
        r is None ==> size_of(t.ty()) > cap,
    decreases t,
{
    match t {
        PhysType::Int { width } => {
            if (*width as u64) <= cap {
                Some(*width as u64)
            } else {
                None
            }
        },
        PhysType::Array { len } => {
            let s = 8 * (*len as u64);
            if s <= cap {
                Some(s)
            } else {
                None
            }
        },
        PhysType::Struct { fields } => {
            let ghost tys = t.ty()->Struct_0;
            let mut acc: u64 = 0;
            let mut i: usize = 0;
            assert(tys.subrange(0, 0) =~= Seq::<Ty>::empty());
            while i < fields.len()
                invariant
                    *t == (PhysType::Struct { fields: *fields }),
                    tys == t.ty()->Struct_0,
                    tys.len() == fields@.len(),
                    i <= fields@.len(),
                    acc <= cap,
                    acc as nat == sizes_of(tys.subrange(0, i as int)),
                decreases fields@.len() - i,
            {
                proof {
                    assert(decreases_to!(*t => t->fields));
                    assert(decreases_to!(*t => fields@[i as int]));
                    assert(tys[i as int] == fields@[i as int].ty());
                    let pre = tys.subrange(0, i + 1);
                    lemma_sizes_split(pre, i as int);
                    assert(pre.subrange(0, i as int) =~= tys.subrange(0, i as int));
                    let one = pre.subrange(i as int, i + 1);
                    assert(one.subrange(1, 1) =~= Seq::<Ty>::empty());
                    assert(one[0] == tys[i as int]);
                    assert(sizes_of(Seq::<Ty>::empty()) == 0);
                    assert(sizes_of(one) == size_of(one[0]) + sizes_of(one.subrange(1, 1)));
                    assert(sizes_of(one) == size_of(tys[i as int]));
                    lemma_sizes_split(tys, i as int);
                    let post = tys.subrange(i as int, tys.len() as int);
                    assert(post[0] == tys[i as int]);
                }
                match bit_size(&fields[i], cap - acc) {
                    Some(n) => {
                        acc = acc + n;
                    },
                    None => {
                        return None;
                    },
                }
                i = i + 1;
            }
            assert(tys.subrange(0, tys.len() as int) =~= tys);
            Some(acc)
        },
    }
}

impl SierraType {
    /// Whether the type's layout is consistent.
    pub fn is_well_formed(&self) -> (r: bool)
        ensures
            r == wf(self@),
        decreases self,
    {
        match self {
            SierraType::Simple(_) => true,
            SierraType::Struct { ty, field_types } => {
                let fv = match self.get_field_types() {
                    Some(v) => v,
                    None => {
                        return false;
                    },
                };
                let ghost fvv = fv@;
                let expected = PhysType::Struct { fields: fv };
                assert(expected.ty()->Struct_0 =~= Seq::new(self@->fields.len(), |i: int| self@->fields[i].phys())) by {
                    assert forall|j: int| 0 <= j < fvv.len() implies expected.ty()->Struct_0[j] == self@->fields[j].phys() by {
                        assert(fvv[j].ty() == self@->fields[j].phys());
                    }
                }
                if !ty.same_as(&expected) {
                    return false;
                }
                let mut i: usize = 0;
                while i < field_types.len()
                    invariant
                        *self == (SierraType::Struct { ty: *ty, field_types: *field_types }),
                        i <= field_types@.len(),
                        forall|j: int| 0 <= j < i ==> wf(#[trigger] self@->fields[j]),
                        ty.ty() == Ty::Struct(Seq::new(self@->fields.len(), |i: int| self@->fields[i].phys())),
                    decreases field_types@.len() - i,
                {
                    proof {
                        assert(decreases_to!(*self => self->field_types));
                        assert(decreases_to!(*self => field_types@[i as int]));
                    }
                    if !field_types[i].is_well_formed() {
                        assert(self@->fields[i as int] == field_types@[i as int]@);
                        return false;
                    }
                    assert(self@->fields[i as int] == field_types@[i as int]@);
                    i = i + 1;
                }
                true
            },
            SierraType::Enum { ty, tag_type, storage_bytes_len, storage_type, variants_types } => {
                let w = match tag_type {
                    PhysType::Int { width } => *width,
                    _ => {
                        return false;
                    },
                };
                let n = variants_types.len();
                if w < 64 {
                    proof {
                        lemma_u64_pow2_no_overflow(w as nat);
                        lemma_u64_shl_is_mul(1, w as u64);
                    }
                    if (n as u64) > (1u64 << (w as u64)) {
                        return false;
                    }
                } else {
                    proof {
                        lemma2_to64_rest();
                        if w > 64 {
                            lemma_pow2_strictly_increases(64, w as nat);
                        }
                    }
                }
                match storage_type {
                    PhysType::Array { len } => {
                        if *len != *storage_bytes_len {
                            return false;
                        }
                    },
                    _ => {
                        return false;
                    },
                }
                let mut pair: Vec<PhysType> = Vec::new();
                pair.push(tag_type.duplicate());
                pair.push(storage_type.duplicate());
                let expected = PhysType::Struct { fields: pair };
                assert(expected.ty()->Struct_0 =~= seq![self@->tag, self@->storage]);
                if !ty.same_as(&expected) {
                    return false;
                }
                let cap: u64 = 8 * (*storage_bytes_len as u64);
                let mut i: usize = 0;
                while i < n
                    invariant
                        *self == (SierraType::Enum {
                            ty: *ty,
                            tag_type: *tag_type,
                            storage_bytes_len: *storage_bytes_len,
                            storage_type: *storage_type,
                            variants_types: *variants_types,
                        }),
                        n == variants_types@.len(),
                        cap == 8 * (*storage_bytes_len as nat),
                        i <= n,
                        forall|j: int|
                            0 <= j < i ==> size_of(#[trigger] self@->variants[j].phys()) <= 8 * self@->storage_bytes_len
                                && wf(self@->variants[j]),
                    decreases n - i,
                {
                    proof {
                        assert(decreases_to!(*self => self->variants_types));
                        assert(decreases_to!(*self => variants_types@[i as int]));
                    }
                    assert(self@->variants[i as int] == variants_types@[i as int]@);
                    let phys = variants_types[i].get_type();
                    if bit_size(&phys, cap).is_none() {
                        return false;
                    }
                    if !variants_types[i].is_well_formed() {
                        return false;
                    }
                    i = i + 1;
                }
                true
            },
        }
    }
}

} // verus!
