//! Libfunc declarations as handed to the lowering, and its fatal errors.
use vstd::prelude::*;

use crate::state::Storage;
use crate::types::SierraType;

verus! {

/// One generic argument of a declaration.
pub enum GenericArg {
    UserType(u64),
    Type(u64),
    /// A literal, as its decimal text.
    Value(String),
    UserFunc(u64),
    Libfunc(u64),
}

/// The kind of a generic argument, or `Missing` where there is none.
#[derive(Clone, Copy, PartialEq, Eq, Structural, Debug)]
pub enum ArgKind {
    UserType,
    Type,
    Value,
    UserFunc,
    Libfunc,
    Missing,
}

/// A libfunc declaration: its id, its debug name (the symbol of the
/// function generated for it), the name of its generic libfunc and its
/// generic arguments.
pub struct LibfuncDeclaration {
    pub id: u64,
    pub debug_name: String,
    pub generic_name: String,
    pub generic_args: Vec<GenericArg>,
}

/// A fatal error: the declaration `decl` is malformed.
#[derive(Clone, Copy, PartialEq, Eq, Structural, Debug)]
pub enum CompileError {
    /// Generic argument `index` has kind `found` where `expected` was needed.
    WrongArgKind { decl: u64, index: usize, expected: ArgKind, found: ArgKind },
    /// The type `type_id` is not registered.
    UnknownType { decl: u64, type_id: u64 },
    /// A struct type was needed.
    NotAStruct { decl: u64 },
    /// A struct with more fields than generated code can number.
    TooManyFields { decl: u64 },
    /// An integer type was needed.
    NotAnInteger { decl: u64 },
    /// An upcast whose source is wider than its destination.
    NarrowingUpcast { decl: u64 },
    /// A binary operation with no lowering.
    UnsupportedOperation { decl: u64 },
}

pub open spec fn kind_of(a: GenericArg) -> ArgKind {
    match a {
        GenericArg::UserType(_) => ArgKind::UserType,
        GenericArg::Type(_) => ArgKind::Type,
        GenericArg::Value(_) => ArgKind::Value,
        GenericArg::UserFunc(_) => ArgKind::UserFunc,
        GenericArg::Libfunc(_) => ArgKind::Libfunc,
    }
}

impl LibfuncDeclaration {
    /// The kind of generic argument `i`.
    pub open spec fn arg_kind(&self, i: int) -> ArgKind {
        if 0 <= i < self.generic_args@.len() {
            kind_of(self.generic_args@[i])
        } else {
            ArgKind::Missing
        }
    }

    /// The type id that generic argument `i` references.
    pub open spec fn type_id(&self, i: int) -> u64 {
        self.generic_args@[i]->Type_0
    }

    /// The error for generic argument `i` not being a type reference.
    pub open spec fn type_arg_error(&self, i: int) -> CompileError {
        CompileError::WrongArgKind {
            decl: self.id,
            index: i as usize,
            expected: ArgKind::Type,
            found: self.arg_kind(i),
        }
    }

    /// What resolving generic argument `i` as a registered type gives.
    pub open spec fn resolves(&self, i: int, s: &Storage) -> bool {
        self.arg_kind(i) == ArgKind::Type && s.type_map().contains_key(self.type_id(i))
    }

    /// The error of resolving generic argument `i`, where it does not resolve.
    pub open spec fn resolve_error(&self, i: int, s: &Storage) -> CompileError {
        if self.arg_kind(i) != ArgKind::Type {
            self.type_arg_error(i)
        } else {
            CompileError::UnknownType { decl: self.id, type_id: self.type_id(i) }
        }
    }

    /// The kind of generic argument `i`.
    pub fn get_arg_kind(&self, i: usize) -> (r: ArgKind)
        ensures
            r == self.arg_kind(i as int),
    {
        if i >= self.generic_args.len() {
            return ArgKind::Missing;
        }
        match &self.generic_args[i] {
            GenericArg::UserType(_) => ArgKind::UserType,
            GenericArg::Type(_) => ArgKind::Type,
            GenericArg::Value(_) => ArgKind::Value,
            GenericArg::UserFunc(_) => ArgKind::UserFunc,
            GenericArg::Libfunc(_) => ArgKind::Libfunc,
        }
    }

    /// The registered type that generic argument `i` references.
    pub fn resolve_type<'a>(&self, i: usize, storage: &'a Storage) -> (r: Result<&'a SierraType, CompileError>)
        ensures
            r is Ok <==> self.resolves(i as int, storage),
            r matches Ok(t) ==> t@ == storage.type_map()[self.type_id(i as int)],
            r matches Err(e) ==> e == self.resolve_error(i as int, storage),
    {
        let kind = self.get_arg_kind(i);
        if i < self.generic_args.len() {
            if let GenericArg::Type(id) = &self.generic_args[i] {
                return match storage.lookup_type(*id) {
                    Some(t) => Ok(t),
                    None => Err(CompileError::UnknownType { decl: self.id, type_id: *id }),
                };
            }
        }
        Err(CompileError::WrongArgKind { decl: self.id, index: i, expected: ArgKind::Type, found: kind })
    }

    /// The literal text of generic argument `i`.
    pub fn literal_arg(&self, i: usize) -> (r: Result<String, CompileError>)
        ensures
            r is Ok <==> self.arg_kind(i as int) == ArgKind::Value,
            r matches Ok(t) ==> t@ == self.generic_args@[i as int]->Value_0@,
            r matches Err(e) ==> e == (CompileError::WrongArgKind {
                decl: self.id,
                index: i,
                expected: ArgKind::Value,
                found: self.arg_kind(i as int),
            }),
    {
        let kind = self.get_arg_kind(i);
        if i < self.generic_args.len() {
            if let GenericArg::Value(text) = &self.generic_args[i] {
                return Ok(text.clone());
            }
        }
        Err(CompileError::WrongArgKind { decl: self.id, index: i, expected: ArgKind::Value, found: kind })
    }
}

} // verus!
