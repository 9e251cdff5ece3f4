//! Physical layout of the compiler's types.
use vstd::prelude::*;

verus! {

broadcast use vstd::std_specs::vec::group_vec_axioms;

/// The mathematical shape of a physical type.
pub ghost enum Ty {
    Int(nat),
    Struct(Seq<Ty>),
    Array(nat),
}

/// The mathematical shape of a source type and its layout.
pub ghost enum STy {
    Simple(Ty),
    Struct { ty: Ty, fields: Seq<STy> },
    Enum { ty: Ty, tag: Ty, storage_bytes_len: nat, storage: Ty, variants: Seq<STy> },
}

impl STy {
    /// The physical type used in signatures and storage.
    pub open spec fn phys(self) -> Ty {
        match self {
            STy::Simple(t) => t,
            STy::Struct { ty, .. } => ty,
            STy::Enum { ty, .. } => ty,
        }
    }
}

/// A low-level (physical) type, as used in generated signatures and storage.
pub enum PhysType {
    /// An integer of the given width in bits.
    Int { width: u32 },
    /// An ordered aggregate of fields.
    Struct { fields: Vec<PhysType> },
    /// An opaque blob of the given number of bytes.
    Array { len: u32 },
}

/// A concrete type of the source program together with its physical layout.
pub enum SierraType {
    Simple(PhysType),
    Struct { ty: PhysType, field_types: Vec<SierraType> },
    Enum {
        ty: PhysType,
        tag_type: PhysType,
        storage_bytes_len: u32,
        storage_type: PhysType,
        variants_types: Vec<SierraType>,
    },
}

impl PhysType {
    pub open spec fn ty(&self) -> Ty
        decreases self,
    {
        match self {
            PhysType::Int { width } => Ty::Int(*width as nat),
            PhysType::Array { len } => Ty::Array(*len as nat),
            PhysType::Struct { fields } => Ty::Struct(
                Seq::new(
                    fields@.len(),
                    |i: int|
                        if 0 <= i < fields@.len() {
                            fields[i].ty()
                        } else {
                            Ty::Int(0)
                        },
                ),
            ),
        }
    }

    /// A copy of the type with the same shape.
    pub fn duplicate(&self) -> (r: PhysType)
        ensures
            r.ty() == self.ty(),
        decreases self,
    {
        match self {
            PhysType::Int { width } => PhysType::Int { width: *width },
            PhysType::Array { len } => PhysType::Array { len: *len },
            PhysType::Struct { fields } => {
                let mut out: Vec<PhysType> = Vec::new();
                let mut i: usize = 0;
                while i < fields.len()
                    invariant
                        *self == (PhysType::Struct { fields: *fields }),
                        i <= fields@.len(),
                        out@.len() == i,
                        forall|j: int| 0 <= j < i ==> out@[j].ty() == fields@[j].ty(),
                    decreases fields@.len() - i,
                {
                    proof {
                        assert(decreases_to!(*fields => fields@[i as int]));
                        assert(decreases_to!(*self => self->fields));
                        assert(decreases_to!(*self => fields@[i as int]));
                    }
                    out.push(fields[i].duplicate());
                    i = i + 1;
                }
                let r = PhysType::Struct { fields: out };
                assert(r.ty() == self.ty()) by {
                    if let Ty::Struct(a) = r.ty() {
                        if let Ty::Struct(b) = self.ty() {
                            assert(a =~= b);
                        }
                    }
                }
                r
            },
        }
    }
}

impl PhysType {
    /// Whether two physical types have the same shape.
    pub fn same_as(&self, other: &PhysType) -> (r: bool)
        ensures
            r == (self.ty() == other.ty()),
        decreases self,
    {
        match (self, other) {
            (PhysType::Int { width: a }, PhysType::Int { width: b }) => *a == *b,
            (PhysType::Array { len: a }, PhysType::Array { len: b }) => *a == *b,
            (PhysType::Struct { fields: a }, PhysType::Struct { fields: b }) => {
                if a.len() != b.len() {
                    assert(self.ty()->Struct_0.len() != other.ty()->Struct_0.len());
                    return false;
                }
                let mut i: usize = 0;
                while i < a.len()
                    invariant
                        *self == (PhysType::Struct { fields: *a }),
                        *other == (PhysType::Struct { fields: *b }),
                        i <= a@.len(),
                        a@.len() == b@.len(),
                        forall|j: int| 0 <= j < i ==> a@[j].ty() == b@[j].ty(),
                    decreases a@.len() - i,
                {
                    proof {
                        assert(decreases_to!(*self => self->fields));
                        assert(decreases_to!(*self => a@[i as int]));
                    }
                    if !a[i].same_as(&b[i]) {
                        assert(self.ty()->Struct_0[i as int] != other.ty()->Struct_0[i as int]);
                        return false;
                    }
                    i = i + 1;
                }
                assert(self.ty()->Struct_0 =~= other.ty()->Struct_0);
                true
            },
            _ => false,
        }
    }

    pub open spec fn spec_width(&self) -> Option<nat> {
        match self.ty() {
            Ty::Int(w) => Some(w),
            _ => None,
        }
    }

    /// Width in bits of a scalar integer type, `None` for aggregates and blobs.
    pub fn get_width(&self) -> (r: Option<u32>)
        ensures
            r matches Some(w) ==> self.spec_width() == Some(w as nat),
            r is None ==> self.spec_width() is None,
    {
        match self {
            PhysType::Int { width } => Some(*width),
            _ => None,
        }
    }
}

/// Copies each type of `v`, keeping its shape.
pub fn duplicate_phys_types(v: &Vec<PhysType>) -> (r: Vec<PhysType>)
    ensures
        r@.len() == v@.len(),
        forall|j: int| 0 <= j < v@.len() ==> #[trigger] r@[j].ty() == v@[j].ty(),
{
    let mut out: Vec<PhysType> = Vec::new();
    let mut i: usize = 0;
    while i < v.len()
        invariant
            i <= v@.len(),
            out@.len() == i,
            forall|j: int| 0 <= j < i ==> #[trigger] out@[j].ty() == v@[j].ty(),
        decreases v@.len() - i,
    {
        out.push(v[i].duplicate());
        i = i + 1;
    }
    out
}

impl SierraType {
    pub open spec fn view(&self) -> STy
        decreases self,
    {
        match self {
            SierraType::Simple(t) => STy::Simple(t.ty()),
            SierraType::Struct { ty, field_types } => STy::Struct {
                ty: ty.ty(),
                fields: Seq::new(
                    field_types@.len(),
                    |i: int|
                        if 0 <= i < field_types@.len() {
                            field_types[i].view()
                        } else {
                            STy::Simple(Ty::Int(0))
                        },
                ),
            },
            SierraType::Enum { ty, tag_type, storage_bytes_len, storage_type, variants_types } =>
                STy::Enum {
                ty: ty.ty(),
                tag: tag_type.ty(),
                storage_bytes_len: *storage_bytes_len as nat,
                storage: storage_type.ty(),
                variants: Seq::new(
                    variants_types@.len(),
                    |i: int|
                        if 0 <= i < variants_types@.len() {
                            variants_types[i].view()
                        } else {
                            STy::Simple(Ty::Int(0))
                        },
                ),
            },
        }
    }

    /// The physical type to use in signatures and storage.
    pub fn get_type(&self) -> (r: PhysType)
        ensures
            r.ty() == self@.phys(),
    {
        match self {
            SierraType::Simple(t) => t.duplicate(),
            SierraType::Struct { ty, .. } => ty.duplicate(),
            SierraType::Enum { ty, .. } => ty.duplicate(),
        }
    }

    /// A copy of the type with the same shape.
    pub fn duplicate(&self) -> (r: SierraType)
        ensures
            r@ == self@,
        decreases self,
    {
        match self {
            SierraType::Simple(t) => SierraType::Simple(t.duplicate()),
            SierraType::Struct { ty, field_types } => {
                let mut out: Vec<SierraType> = Vec::new();
                let mut i: usize = 0;
                while i < field_types.len()
                    invariant
                        *self == (SierraType::Struct { ty: *ty, field_types: *field_types }),
                        i <= field_types@.len(),
                        out@.len() == i,
                        forall|j: int| 0 <= j < i ==> out@[j]@ == field_types@[j]@,
                    decreases field_types@.len() - i,
                {
                    proof {
                        assert(decreases_to!(*self => self->field_types));
                        assert(decreases_to!(*self => field_types@[i as int]));
                    }
                    out.push(field_types[i].duplicate());
                    i = i + 1;
                }
                let r = SierraType::Struct { ty: ty.duplicate(), field_types: out };
                assert(r@ == self@) by {
                    assert(r@->fields =~= self@->fields);
                }
                r
            },
            SierraType::Enum { ty, tag_type, storage_bytes_len, storage_type, variants_types } => {
                let mut out: Vec<SierraType> = Vec::new();
                let mut i: usize = 0;
                while i < variants_types.len()
                    invariant
                        *self == (SierraType::Enum {
                            ty: *ty,
                            tag_type: *tag_type,
                            storage_bytes_len: *storage_bytes_len,
                            storage_type: *storage_type,
                            variants_types: *variants_types,
                        }),
                        i <= variants_types@.len(),
                        out@.len() == i,
                        forall|j: int| 0 <= j < i ==> out@[j]@ == variants_types@[j]@,
                    decreases variants_types@.len() - i,
                {
                    proof {
                        assert(decreases_to!(*self => self->variants_types));
                        assert(decreases_to!(*self => variants_types@[i as int]));
                    }
                    out.push(variants_types[i].duplicate());
                    i = i + 1;
                }
                let r = SierraType::Enum {
                    ty: ty.duplicate(),
                    tag_type: tag_type.duplicate(),
                    storage_bytes_len: *storage_bytes_len,
                    storage_type: storage_type.duplicate(),
                    variants_types: out,
                };
                assert(r@ == self@) by {
                    assert(r@->variants =~= self@->variants);
                }
                r
            },
        }
    }

    /// The physical types of a struct's fields, in declaration order.
    pub fn get_field_types(&self) -> (r: Option<Vec<PhysType>>)
        ensures
            r is Some <==> self@ is Struct,
            r matches Some(v) ==> v@.len() == self@->fields.len() && forall|j: int|
                0 <= j < v@.len() ==> #[trigger] v@[j].ty() == self@->fields[j].phys(),
    {
        match self {
            SierraType::Struct { ty, field_types } => {
                let mut out: Vec<PhysType> = Vec::new();
                let mut i: usize = 0;
                while i < field_types.len()
                    invariant
                        *self == (SierraType::Struct { ty: *ty, field_types: *field_types }),
                        i <= field_types@.len(),
                        out@.len() == i,
                        forall|j: int| 0 <= j < i ==> #[trigger] out@[j].ty() == field_types@[j]@.phys(),
                    decreases field_types@.len() - i,
                {
                    out.push(field_types[i].get_type());
                    i = i + 1;
                }
                Some(out)
            },
            _ => None,
        }
    }

    /// The source types of a struct's fields, in declaration order.
    pub fn get_field_sierra_types(&self) -> (r: Option<Vec<SierraType>>)
        ensures
            r is Some <==> self@ is Struct,
            r matches Some(v) ==> views(v@) == self@->fields,
    {
        match self {
            SierraType::Struct { ty: _, field_types } => Some(duplicate_sierra_types(field_types)),
            _ => None,
        }
    }
}

/// The shapes of a sequence of source types.
pub open spec fn views(v: Seq<SierraType>) -> Seq<STy> {
    Seq::new(v.len(), |i: int| v[i]@)
}

/// Copies each type of `v`, keeping its shape.
pub fn duplicate_sierra_types(v: &Vec<SierraType>) -> (r: Vec<SierraType>)
    ensures
        views(r@) == views(v@),
{
    let mut out: Vec<SierraType> = Vec::new();
    let mut i: usize = 0;
    while i < v.len()
        invariant
            i <= v@.len(),
            out@.len() == i,
            forall|j: int| 0 <= j < i ==> #[trigger] out@[j]@ == v@[j]@,
        decreases v@.len() - i,
    {
        out.push(v[i].duplicate());
        i = i + 1;
    }
    assert(views(out@) =~= views(v@));
    out
}

} // verus!
