use sierra2mlir::decl::{ArgKind, CompileError, GenericArg, LibfuncDeclaration};
use sierra2mlir::felt::{BinaryOp, DOUBLE_FELT_WIDTH, FELT_WIDTH};
use sierra2mlir::ir::{CmpOp, FnName, GenFunction, HelperKind, Inst, FELT_PRIME_DECIMAL};
use sierra2mlir::libfuncs::Compiler;
use sierra2mlir::state::Storage;
use sierra2mlir::types::{PhysType, SierraType};

fn decl(id: u64, name: &str, generic: &str, args: Vec<GenericArg>) -> LibfuncDeclaration {
    LibfuncDeclaration {
        id,
        debug_name: name.to_string(),
        generic_name: generic.to_string(),
        generic_args: args,
    }
}

fn int_ty(width: u32) -> PhysType {
    PhysType::Int { width }
}

fn pair_struct() -> SierraType {
    SierraType::Struct {
        ty: PhysType::Struct { fields: vec![int_ty(8), int_ty(64)] },
        field_types: vec![SierraType::Simple(int_ty(8)), SierraType::Simple(int_ty(64))],
    }
}

fn option_u64() -> SierraType {
    SierraType::Enum {
        ty: PhysType::Struct { fields: vec![int_ty(1), PhysType::Array { len: 8 }] },
        tag_type: int_ty(1),
        storage_bytes_len: 8,
        storage_type: PhysType::Array { len: 8 },
        variants_types: vec![SierraType::Simple(int_ty(64)), SierraType::Struct { ty: PhysType::Struct { fields: vec![] }, field_types: vec![] }],
    }
}

/// Runs a generated function on integer arguments up to 128 bits wide.
fn eval(f: &GenFunction, args: &[u128]) -> Vec<u128> {
    let mut vals: Vec<u128> = args.to_vec();
    for inst in &f.body {
        let v = match inst {
            Inst::And { a, b } => vals[*a] & vals[*b],
            Inst::Xor { a, b } => vals[*a] ^ vals[*b],
            Inst::Or { a, b } => vals[*a] | vals[*b],
            Inst::ZExt { v, .. } => vals[*v],
            other => panic!("not an integer instruction: {}", matches!(other, Inst::Zero { .. })),
        };
        vals.push(v);
    }
    f.rets.iter().map(|i| vals[*i]).collect()
}

/// A value of generated code, for running functions in tests.
#[derive(Clone, Debug, PartialEq)]
enum TVal {
    Int { width: u32, value: u128 },
    Agg(Vec<TVal>),
    Ptr(usize),
    Unit,
}

fn zero(t: &PhysType) -> TVal {
    match t {
        PhysType::Int { width } => TVal::Int { width: *width, value: 0 },
        PhysType::Array { len } => TVal::Agg((0..*len).map(|_| TVal::Int { width: 8, value: 0 }).collect()),
        PhysType::Struct { fields } => TVal::Agg(fields.iter().map(zero).collect()),
    }
}

fn bits(v: &TVal, out: &mut Vec<bool>) {
    match v {
        TVal::Int { width, value } => (0..*width).for_each(|i| out.push((value >> i) & 1 == 1)),
        TVal::Agg(vs) => vs.iter().for_each(|x| bits(x, out)),
        _ => {}
    }
}

fn read(t: &PhysType, b: &[bool]) -> (TVal, usize) {
    match t {
        PhysType::Int { width } => {
            let w = *width as usize;
            let value = (0..w).fold(0u128, |acc, i| acc | ((b[i] as u128) << i));
            (TVal::Int { width: *width, value }, w)
        }
        PhysType::Array { len } => {
            let vs = (0..*len as usize).map(|i| read(&PhysType::Int { width: 8 }, &b[8 * i..]).0).collect();
            (TVal::Agg(vs), 8 * *len as usize)
        }
        PhysType::Struct { fields } => {
            let mut at = 0;
            let mut vs = Vec::new();
            for f in fields {
                let (v, n) = read(f, &b[at..]);
                vs.push(v);
                at += n;
            }
            (TVal::Agg(vs), at)
        }
    }
}

/// Runs a generated function that handles aggregates and stack slots.
fn run(f: &GenFunction, args: Vec<TVal>) -> Vec<TVal> {
    let mut vals = args;
    let mut mem: Vec<(usize, Vec<bool>)> = Vec::new();
    for (k, inst) in f.body.iter().enumerate() {
        let here = f.params.len() + k;
        let v = match inst {
            Inst::Zero { ty } => zero(ty),
            Inst::Extract { agg, index } => match &vals[*agg] {
                TVal::Agg(vs) => vs[*index].clone(),
                _ => panic!("extract from a scalar"),
            },
            Inst::Insert { agg, index, v } => match &vals[*agg] {
                TVal::Agg(vs) => {
                    let mut vs = vs.clone();
                    vs[*index] = vals[*v].clone();
                    TVal::Agg(vs)
                }
                _ => panic!("insert into a scalar"),
            },
            Inst::Alloca { .. } => TVal::Ptr(here),
            Inst::Store { v, ptr } => {
                let mut b = Vec::new();
                bits(&vals[*v], &mut b);
                let TVal::Ptr(p) = vals[*ptr] else { panic!("store through a non-pointer") };
                mem.push((p, b));
                TVal::Unit
            }
            Inst::Load { ptr, ty } => {
                let TVal::Ptr(p) = vals[*ptr] else { panic!("load through a non-pointer") };
                let b = &mem.iter().rev().find(|(q, _)| *q == p).unwrap().1;
                read(ty, b).0
            }
            _ => panic!("integer instructions are run by eval"),
        };
        vals.push(v);
    }
    f.rets.iter().map(|i| vals[*i].clone()).collect()
}

fn name_of(f: &GenFunction) -> String {
    match &f.name {
        FnName::Libfunc(s) => s.clone(),
        FnName::Helper(_) => String::from("<helper>"),
    }
}

#[test]
fn felt_add_generates_reduced_sum() {
    let mut c = Compiler::new();
    let mut s = Storage::new();
    c.process_libfunc(&decl(1, "felt252_add", "felt252_add", vec![]), &mut s).unwrap();
    assert_eq!(c.module.len(), 1);
    let f = &c.module[0];
    assert_eq!(name_of(f), "felt252_add");
    assert_eq!(f.body.len(), 8);
    assert!(matches!(f.body[0], Inst::ZExt { v: 0, width } if width == DOUBLE_FELT_WIDTH));
    assert!(matches!(f.body[2], Inst::Add { a: 2, b: 3 }));
    assert!(matches!(f.body[4], Inst::Cmp { op: CmpOp::UnsignedGreaterEqual, a: 4, b: 5 }));
    assert!(matches!(f.body[7], Inst::Trunc { v: 8, width } if width == FELT_WIDTH));
    assert_eq!(f.rets, vec![9]);
    assert_eq!(s.functions.len(), 1);
    assert_eq!(s.functions[0].0, "felt252_add");
    assert_eq!(s.functions[0].1.args.len(), 2);
    assert_eq!(s.functions[0].1.return_types.len(), 1);
}

#[test]
fn felt_sub_adds_prime_when_borrowing() {
    let mut c = Compiler::new();
    let mut s = Storage::new();
    c.process_libfunc(&decl(2, "felt_sub", "felt_sub", vec![]), &mut s).unwrap();
    let f = &c.module[0];
    assert!(matches!(f.body[2], Inst::Sub { a: 2, b: 3 }));
    assert!(matches!(f.body[4], Inst::Cmp { op: CmpOp::UnsignedLess, a: 2, b: 3 }));
    assert!(matches!(f.body[5], Inst::Add { a: 4, b: 5 }));
    assert!(matches!(f.body[6], Inst::Select { cond: 6, t: 7, f: 4 }));
}

#[test]
fn felt_mul_reduces_modulo_prime() {
    let mut c = Compiler::new();
    let mut s = Storage::new();
    c.process_libfunc(&decl(3, "felt252_mul", "felt252_mul", vec![]), &mut s).unwrap();
    let f = &c.module[0];
    assert_eq!(f.body.len(), 5);
    assert!(matches!(f.body[2], Inst::Mul { a: 2, b: 3 }));
    assert!(matches!(f.body[3], Inst::FeltMod { v: 4 }));
    assert_eq!(f.rets, vec![6]);
}

#[test]
fn felt_div_is_unsupported() {
    let mut c = Compiler::new();
    let mut s = Storage::new();
    let r = c.create_libfunc_felt_binary_op(&decl(4, "felt_div", "felt_div", vec![]), &mut s, BinaryOp::Div);
    assert_eq!(r, Err(CompileError::UnsupportedOperation { decl: 4 }));
    assert!(c.module.is_empty());
    assert!(s.functions.is_empty());
}

#[test]
fn prime_literal_matches_modulus() {
    // 2^251 + 17 * 2^192 + 1 as 64-bit limbs, least significant first.
    let mut limbs: Vec<u64> = vec![1, 0, 0, (1u64 << 59) + 17];
    let mut digits = Vec::new();
    while limbs.iter().any(|l| *l != 0) {
        let mut rem: u128 = 0;
        for l in limbs.iter_mut().rev() {
            let cur = (rem << 64) | (*l as u128);
            *l = (cur / 10) as u64;
            rem = cur % 10;
        }
        digits.push(char::from(b'0' + rem as u8));
    }
    let text: String = digits.iter().rev().collect();
    assert_eq!(text, FELT_PRIME_DECIMAL);
}

#[test]
fn bitwise_returns_guard_and_or_xor() {
    let mut c = Compiler::new();
    let mut s = Storage::new();
    c.process_libfunc(&decl(5, "bitwise", "bitwise", vec![]), &mut s).unwrap();
    let out = eval(&c.module[0], &[77, 0b1010, 0b0110]);
    assert_eq!(out, vec![77, 0b0010, 0b1100, 0b1110]);
    assert_eq!(s.functions[0].1.args.len(), 3);
    assert_eq!(s.functions[0].1.return_types.len(), 4);
}

#[test]
fn dup_returns_value_twice() {
    let mut c = Compiler::new();
    let mut s = Storage::new();
    s.add_type(7, SierraType::Simple(int_ty(32)));
    c.process_libfunc(&decl(6, "dup<u32>", "dup", vec![GenericArg::Type(7)]), &mut s).unwrap();
    assert_eq!(eval(&c.module[0], &[41]), vec![41, 41]);
    assert_eq!(s.functions[0].1.return_types.len(), 2);
}

#[test]
fn store_temp_and_rename_are_identity() {
    let mut c = Compiler::new();
    let mut s = Storage::new();
    s.add_type(7, SierraType::Simple(int_ty(32)));
    c.process_libfunc(&decl(8, "store_temp<u32>", "store_temp", vec![GenericArg::Type(7)]), &mut s).unwrap();
    c.process_libfunc(&decl(9, "rename<u32>", "rename", vec![GenericArg::Type(7)]), &mut s).unwrap();
    assert_eq!(c.module.len(), 2);
    assert_eq!(eval(&c.module[0], &[5]), vec![5]);
    assert_eq!(eval(&c.module[1], &[6]), vec![6]);
}

#[test]
fn dup_of_unknown_type_fails() {
    let mut c = Compiler::new();
    let mut s = Storage::new();
    let r = c.process_libfunc(&decl(10, "dup<x>", "dup", vec![GenericArg::Type(99)]), &mut s);
    assert_eq!(r, Err(CompileError::UnknownType { decl: 10, type_id: 99 }));
    assert!(c.module.is_empty());
}

#[test]
fn wrong_argument_kind_is_reported() {
    let mut c = Compiler::new();
    let mut s = Storage::new();
    let r = c.process_libfunc(&decl(11, "dup<1>", "dup", vec![GenericArg::Value("1".to_string())]), &mut s);
    assert_eq!(
        r,
        Err(CompileError::WrongArgKind { decl: 11, index: 0, expected: ArgKind::Type, found: ArgKind::Value })
    );
    let r = c.process_libfunc(&decl(12, "store_temp", "store_temp", vec![]), &mut s);
    assert_eq!(
        r,
        Err(CompileError::WrongArgKind { decl: 12, index: 0, expected: ArgKind::Type, found: ArgKind::Missing })
    );
}

#[test]
fn struct_construct_inserts_fields_in_order() {
    let mut c = Compiler::new();
    let mut s = Storage::new();
    s.add_type(3, pair_struct());
    c.process_libfunc(&decl(13, "struct_construct<Pair>", "struct_construct", vec![GenericArg::Type(3)]), &mut s)
        .unwrap();
    let f = &c.module[0];
    assert_eq!(f.params.len(), 2);
    assert!(matches!(f.body[0], Inst::Zero { .. }));
    assert!(matches!(f.body[1], Inst::Insert { agg: 2, index: 0, v: 0 }));
    assert!(matches!(f.body[2], Inst::Insert { agg: 3, index: 1, v: 1 }));
    assert_eq!(f.rets, vec![4]);
    assert_eq!(s.functions[0].1.args.len(), 2);
    assert_eq!(s.functions[0].1.return_types.len(), 1);
}

#[test]
fn struct_deconstruct_extracts_fields_in_order() {
    let mut c = Compiler::new();
    let mut s = Storage::new();
    s.add_type(3, pair_struct());
    c.process_libfunc(&decl(14, "struct_deconstruct<Pair>", "struct_deconstruct", vec![GenericArg::Type(3)]), &mut s)
        .unwrap();
    let f = &c.module[0];
    assert!(matches!(f.body[0], Inst::Extract { agg: 0, index: 0 }));
    assert!(matches!(f.body[1], Inst::Extract { agg: 0, index: 1 }));
    assert_eq!(f.rets, vec![1, 2]);
    assert_eq!(f.results.len(), 2);
    assert_eq!(s.functions[0].1.return_types.len(), 2);
}

#[test]
fn struct_ops_reject_non_struct() {
    let mut c = Compiler::new();
    let mut s = Storage::new();
    s.add_type(1, SierraType::Simple(int_ty(8)));
    let r = c.process_libfunc(&decl(15, "struct_construct<u8>", "struct_construct", vec![GenericArg::Type(1)]), &mut s);
    assert_eq!(r, Err(CompileError::NotAStruct { decl: 15 }));
}

#[test]
fn constants_go_to_their_tables() {
    let c = Compiler::new();
    let mut s = Storage::new();
    c.create_libfunc_u8_const(&decl(16, "u8_const<7>", "u8_const", vec![GenericArg::Value("7".to_string())]), &mut s)
        .unwrap();
    c.create_libfunc_felt_const(&decl(17, "felt_const<-1>", "felt252_const", vec![GenericArg::Value("-1".to_string())]), &mut s)
        .unwrap();
    c.create_libfunc_u128_const(&decl(18, "u128_const<9>", "u128_const", vec![GenericArg::Value("9".to_string())]), &mut s)
        .unwrap();
    assert_eq!(s.u8_consts, vec![("u8_const<7>".to_string(), "7".to_string())]);
    assert_eq!(s.felt_consts, vec![("felt_const<-1>".to_string(), "-1".to_string())]);
    assert_eq!(s.u128_consts, vec![("u128_const<9>".to_string(), "9".to_string())]);
    assert!(s.u16_consts.is_empty() && s.u32_consts.is_empty() && s.u64_consts.is_empty());
    assert!(s.functions.is_empty());
}

#[test]
fn constant_needs_a_literal() {
    let c = Compiler::new();
    let mut s = Storage::new();
    let r = c.create_libfunc_u16_const(&decl(19, "u16_const", "u16_const", vec![GenericArg::Type(1)]), &mut s);
    assert_eq!(
        r,
        Err(CompileError::WrongArgKind { decl: 19, index: 0, expected: ArgKind::Value, found: ArgKind::Type })
    );
    assert!(s.u16_consts.is_empty());
}

#[test]
fn upcast_zero_extends_narrower_source() {
    let mut c = Compiler::new();
    let mut s = Storage::new();
    s.add_type(1, SierraType::Simple(int_ty(8)));
    s.add_type(2, SierraType::Simple(int_ty(64)));
    c.process_libfunc(&decl(20, "upcast<u8,u64>", "upcast", vec![GenericArg::Type(1), GenericArg::Type(2)]), &mut s)
        .unwrap();
    let f = &c.module[0];
    assert!(matches!(f.body[0], Inst::ZExt { v: 0, width: 64 }));
    assert_eq!(eval(f, &[255]), vec![255]);
}

#[test]
fn upcast_to_same_width_emits_nothing() {
    let mut c = Compiler::new();
    let mut s = Storage::new();
    s.add_type(1, SierraType::Simple(int_ty(32)));
    c.process_libfunc(&decl(21, "upcast<u32,u32>", "upcast", vec![GenericArg::Type(1), GenericArg::Type(1)]), &mut s)
        .unwrap();
    assert!(c.module.is_empty());
    assert!(s.functions.is_empty());
}

#[test]
fn upcast_to_narrower_is_rejected() {
    let mut c = Compiler::new();
    let mut s = Storage::new();
    s.add_type(1, SierraType::Simple(int_ty(64)));
    s.add_type(2, SierraType::Simple(int_ty(8)));
    let r = c.process_libfunc(&decl(22, "upcast<u64,u8>", "upcast", vec![GenericArg::Type(1), GenericArg::Type(2)]), &mut s);
    assert_eq!(r, Err(CompileError::NarrowingUpcast { decl: 22 }));
    assert!(c.module.is_empty());
    s.add_type(3, pair_struct());
    let r = c.process_libfunc(&decl(23, "upcast<Pair,u8>", "upcast", vec![GenericArg::Type(3), GenericArg::Type(2)]), &mut s);
    assert_eq!(r, Err(CompileError::NotAnInteger { decl: 23 }));
}

#[test]
fn enum_getters_are_memoized() {
    let mut c = Compiler::new();
    let mut s = Storage::new();
    let e = option_u64();
    let first = c.call_enum_get_tag(&e, &mut s);
    let second = c.call_enum_get_tag(&e, &mut s);
    assert_eq!(c.module.len(), 1);
    assert_eq!(s.helperfuncs.len(), 1);
    assert_eq!(first.callee.kind, HelperKind::EnumGetTag);
    assert_eq!(second.callee.kind, HelperKind::EnumGetTag);
    assert!(matches!(c.module[0].body[0], Inst::Extract { agg: 0, index: 0 }));
    let d0 = c.call_enum_get_data_as_variant_type(&e, 0, &mut s);
    c.call_enum_get_data_as_variant_type(&e, 0, &mut s);
    c.call_enum_get_data_as_variant_type(&e, 1, &mut s);
    assert_eq!(d0.callee.kind, HelperKind::EnumGetData(0));
    assert!(matches!(d0.result_type, PhysType::Int { width: 64 }));
    assert_eq!(c.module.len(), 3);
    assert_eq!(s.helperfuncs.len(), 3);
}

#[test]
fn payload_getter_reinterprets_through_memory() {
    let mut c = Compiler::new();
    let mut s = Storage::new();
    c.create_enum_get_data_as_variant_type(&option_u64(), 0, &mut s);
    let f = &c.module[0];
    assert!(matches!(f.body[0], Inst::Extract { agg: 0, index: 1 }));
    assert!(matches!(f.body[1], Inst::Alloca { ty: PhysType::Array { len: 8 } }));
    assert!(matches!(f.body[2], Inst::Store { v: 1, ptr: 2 }));
    assert!(matches!(f.body[3], Inst::Load { ptr: 2, ty: PhysType::Int { width: 64 } }));
    assert_eq!(f.rets, vec![4]);
}

#[test]
fn pass_skips_no_ops_and_unknown_names() {
    let mut c = Compiler::new();
    let mut s = Storage::new();
    s.add_type(1, SierraType::Simple(int_ty(32)));
    let decls = vec![
        decl(1, "drop<u32>", "drop", vec![GenericArg::Type(1)]),
        decl(2, "revoke_ap_tracking", "revoke_ap_tracking", vec![]),
        decl(3, "array_new<u32>", "array_new", vec![GenericArg::Type(1)]),
        decl(4, "u32_const<3>", "u32_const", vec![GenericArg::Value("3".to_string())]),
        decl(5, "dup<u32>", "dup", vec![GenericArg::Type(1)]),
        decl(6, "felt252_add", "felt252_add", vec![]),
    ];
    c.process_libfuncs(&decls, &mut s).unwrap();
    assert_eq!(c.module.len(), 2);
    assert_eq!(name_of(&c.module[0]), "dup<u32>");
    assert_eq!(name_of(&c.module[1]), "felt252_add");
    assert_eq!(s.u32_consts.len(), 1);
    assert_eq!(s.functions.len(), 2);
}

#[test]
fn pass_stops_at_first_fatal_error() {
    let mut c = Compiler::new();
    let mut s = Storage::new();
    let decls = vec![
        decl(1, "felt252_mul", "felt252_mul", vec![]),
        decl(2, "dup<x>", "dup", vec![GenericArg::Type(42)]),
        decl(3, "felt252_add", "felt252_add", vec![]),
    ];
    let r = c.process_libfuncs(&decls, &mut s);
    assert_eq!(r, Err(CompileError::UnknownType { decl: 2, type_id: 42 }));
    assert_eq!(c.module.len(), 1);
}

#[test]
fn duplicate_names_overwrite_registration() {
    let mut c = Compiler::new();
    let mut s = Storage::new();
    s.add_type(1, SierraType::Simple(int_ty(32)));
    c.process_libfunc(&decl(1, "same", "dup", vec![GenericArg::Type(1)]), &mut s).unwrap();
    c.process_libfunc(&decl(2, "same", "store_temp", vec![GenericArg::Type(1)]), &mut s).unwrap();
    assert_eq!(c.module.len(), 2);
    let def = s.lookup_function(&"same".to_string()).unwrap();
    assert_eq!(def.return_types.len(), 1);
    assert!(s.lookup_function(&"other".to_string()).is_none());
}

#[test]
fn struct_round_trip_gives_fields_back() {
    let mut c = Compiler::new();
    let mut s = Storage::new();
    s.add_type(3, pair_struct());
    c.process_libfunc(&decl(1, "struct_construct<Pair>", "struct_construct", vec![GenericArg::Type(3)]), &mut s)
        .unwrap();
    c.process_libfunc(&decl(2, "struct_deconstruct<Pair>", "struct_deconstruct", vec![GenericArg::Type(3)]), &mut s)
        .unwrap();
    let fields = vec![TVal::Int { width: 8, value: 200 }, TVal::Int { width: 64, value: 123456789 }];
    let built = run(&c.module[0], fields.clone());
    assert_eq!(built, vec![TVal::Agg(fields.clone())]);
    assert_eq!(run(&c.module[1], built), fields);
}

#[test]
fn enum_round_trip_gives_tag_and_payload_back() {
    let mut c = Compiler::new();
    let mut s = Storage::new();
    let e = option_u64();
    c.create_enum_get_tag(&e, &mut s);
    c.create_enum_get_data_as_variant_type(&e, 0, &mut s);
    // Tag 0 with the payload 0x0102030405060708 stored little-endian.
    let payload: Vec<TVal> = [8u128, 7, 6, 5, 4, 3, 2, 1].iter().map(|b| TVal::Int { width: 8, value: *b }).collect();
    let value = TVal::Agg(vec![TVal::Int { width: 1, value: 0 }, TVal::Agg(payload)]);
    assert_eq!(run(&c.module[0], vec![value.clone()]), vec![TVal::Int { width: 1, value: 0 }]);
    assert_eq!(run(&c.module[1], vec![value]), vec![TVal::Int { width: 64, value: 0x0102030405060708 }]);
}

#[test]
fn upcast_keeps_value_of_every_width() {
    for (src, dst) in [(8u32, 16u32), (16, 32), (32, 64), (64, 128), (8, 128)] {
        let mut c = Compiler::new();
        let mut s = Storage::new();
        s.add_type(1, SierraType::Simple(int_ty(src)));
        s.add_type(2, SierraType::Simple(int_ty(dst)));
        c.process_libfunc(&decl(1, "upcast", "upcast", vec![GenericArg::Type(1), GenericArg::Type(2)]), &mut s)
            .unwrap();
        let max = (1u128 << src) - 1;
        assert_eq!(eval(&c.module[0], &[max]), vec![max]);
        assert_eq!(eval(&c.module[0], &[0]), vec![0]);
    }
}

/// A 512-bit unsigned integer, 64-bit limbs least significant first.
type Wide = [u64; 8];

fn wide(x: u128) -> Wide {
    let mut w = [0u64; 8];
    w[0] = x as u64;
    w[1] = (x >> 64) as u64;
    w
}

fn prime() -> Wide {
    let mut w = [0u64; 8];
    w[0] = 1;
    w[3] = (1u64 << 59) + 17;
    w
}

fn wide_add(a: &Wide, b: &Wide) -> Wide {
    let mut r = [0u64; 8];
    let mut carry = 0u128;
    for i in 0..8 {
        let s = a[i] as u128 + b[i] as u128 + carry;
        r[i] = s as u64;
        carry = s >> 64;
    }
    r
}

fn wide_sub(a: &Wide, b: &Wide) -> Wide {
    let mut r = [0u64; 8];
    let mut borrow = 0i128;
    for i in 0..8 {
        let d = a[i] as i128 - b[i] as i128 - borrow;
        if d < 0 {
            r[i] = (d + (1i128 << 64)) as u64;
            borrow = 1;
        } else {
            r[i] = d as u64;
            borrow = 0;
        }
    }
    r
}

fn wide_lt(a: &Wide, b: &Wide) -> bool {
    for i in (0..8).rev() {
        if a[i] != b[i] {
            return a[i] < b[i];
        }
    }
    false
}

fn truncate(a: &Wide, width: u32) -> Wide {
    let mut r = *a;
    for (i, limb) in r.iter_mut().enumerate() {
        let lo = 64 * i as u32;
        if lo >= width {
            *limb = 0;
        } else if width - lo < 64 {
            *limb &= (1u64 << (width - lo)) - 1;
        }
    }
    r
}

fn wide_mul(a: &Wide, b: &Wide) -> Wide {
    let mut r = [0u64; 8];
    for i in 0..8 {
        let mut carry = 0u128;
        for j in 0..(8 - i) {
            let cur = r[i + j] as u128 + (a[i] as u128) * (b[j] as u128) + carry;
            r[i + j] = cur as u64;
            carry = cur >> 64;
        }
    }
    r
}

fn wide_mod_prime(a: &Wide) -> Wide {
    let p = prime();
    let mut r = [0u64; 8];
    for bit in (0..512).rev() {
        r = wide_add(&r, &r);
        if (a[bit / 64] >> (bit % 64)) & 1 == 1 {
            r[0] |= 1;
        }
        if !wide_lt(&r, &p) {
            r = wide_sub(&r, &p);
        }
    }
    r
}

/// Runs a generated field operation on wide integers.
fn eval_wide(f: &GenFunction, args: &[Wide]) -> Vec<Wide> {
    let mut vals: Vec<Wide> = args.to_vec();
    for inst in &f.body {
        let v = match inst {
            Inst::ZExt { v, .. } => vals[*v],
            Inst::Trunc { v, width } => truncate(&vals[*v], *width),
            Inst::Add { a, b } => wide_add(&vals[*a], &vals[*b]),
            Inst::Sub { a, b } => wide_sub(&vals[*a], &vals[*b]),
            Inst::Mul { a, b } => wide_mul(&vals[*a], &vals[*b]),
            Inst::FeltMod { v } => wide_mod_prime(&vals[*v]),
            Inst::Prime { .. } => prime(),
            Inst::Cmp { op: CmpOp::UnsignedLess, a, b } => wide(wide_lt(&vals[*a], &vals[*b]) as u128),
            Inst::Cmp { op: CmpOp::UnsignedGreaterEqual, a, b } => wide(!wide_lt(&vals[*a], &vals[*b]) as u128),
            Inst::Select { cond, t, f } => {
                if vals[*cond] != [0u64; 8] {
                    vals[*t]
                } else {
                    vals[*f]
                }
            }
            _ => panic!("not a field arithmetic instruction"),
        };
        vals.push(v);
    }
    f.rets.iter().map(|i| vals[*i]).collect()
}

#[test]
fn felt_sub_three_minus_five_is_prime_minus_two() {
    let mut c = Compiler::new();
    let mut s = Storage::new();
    c.process_libfunc(&decl(1, "felt252_sub", "felt252_sub", vec![]), &mut s).unwrap();
    let out = eval_wide(&c.module[0], &[wide(3), wide(5)]);
    assert_eq!(out, vec![wide_sub(&prime(), &wide(2))]);
    assert_eq!(eval_wide(&c.module[0], &[wide(9), wide(5)]), vec![wide(4)]);
}

#[test]
fn felt_add_wraps_at_prime() {
    let mut c = Compiler::new();
    let mut s = Storage::new();
    c.process_libfunc(&decl(1, "felt252_add", "felt252_add", vec![]), &mut s).unwrap();
    let p_minus_one = wide_sub(&prime(), &wide(1));
    assert_eq!(eval_wide(&c.module[0], &[p_minus_one, wide(2)]), vec![wide(1)]);
    assert_eq!(eval_wide(&c.module[0], &[p_minus_one, wide(1)]), vec![wide(0)]);
    assert_eq!(eval_wide(&c.module[0], &[wide(40), wide(2)]), vec![wide(42)]);
}

#[test]
fn later_type_registration_wins() {
    let mut s = Storage::new();
    s.add_type(1, SierraType::Simple(int_ty(8)));
    s.add_type(2, SierraType::Simple(int_ty(16)));
    s.add_type(1, SierraType::Simple(int_ty(32)));
    assert!(matches!(s.lookup_type(1), Some(SierraType::Simple(PhysType::Int { width: 32 }))));
    assert!(matches!(s.lookup_type(2), Some(SierraType::Simple(PhysType::Int { width: 16 }))));
    assert!(s.lookup_type(3).is_none());
}

#[test]
fn registered_signatures_can_be_looked_up() {
    let mut c = Compiler::new();
    let mut s = Storage::new();
    s.add_type(3, pair_struct());
    c.process_libfunc(&decl(1, "struct_construct<Pair>", "struct_construct", vec![GenericArg::Type(3)]), &mut s)
        .unwrap();
    let def = s.lookup_function(&"struct_construct<Pair>".to_string()).unwrap();
    assert!(matches!(def.args[0], SierraType::Simple(PhysType::Int { width: 8 })));
    assert!(matches!(def.args[1], SierraType::Simple(PhysType::Int { width: 64 })));
    assert!(matches!(def.return_types[0], SierraType::Struct { .. }));
}

#[test]
fn well_formed_layouts_are_accepted() {
    assert!(pair_struct().is_well_formed());
    assert!(option_u64().is_well_formed());
    assert!(SierraType::Simple(int_ty(252)).is_well_formed());
}

#[test]
fn inconsistent_layouts_are_rejected() {
    // Struct whose physical type does not list its fields.
    let s = SierraType::Struct {
        ty: PhysType::Struct { fields: vec![int_ty(8)] },
        field_types: vec![SierraType::Simple(int_ty(8)), SierraType::Simple(int_ty(64))],
    };
    assert!(!s.is_well_formed());
    // Enum whose blob is smaller than a variant.
    let small = SierraType::Enum {
        ty: PhysType::Struct { fields: vec![int_ty(1), PhysType::Array { len: 4 }] },
        tag_type: int_ty(1),
        storage_bytes_len: 4,
        storage_type: PhysType::Array { len: 4 },
        variants_types: vec![SierraType::Simple(int_ty(64))],
    };
    assert!(!small.is_well_formed());
    // Enum whose tag cannot number its three variants.
    let narrow = SierraType::Enum {
        ty: PhysType::Struct { fields: vec![int_ty(1), PhysType::Array { len: 1 }] },
        tag_type: int_ty(1),
        storage_bytes_len: 1,
        storage_type: PhysType::Array { len: 1 },
        variants_types: vec![
            SierraType::Simple(int_ty(8)),
            SierraType::Simple(int_ty(8)),
            SierraType::Simple(int_ty(8)),
        ],
    };
    assert!(!narrow.is_well_formed());
}

#[test]
fn felt_mul_reduces_products() {
    let mut c = Compiler::new();
    let mut s = Storage::new();
    c.process_libfunc(&decl(1, "felt252_mul", "felt252_mul", vec![]), &mut s).unwrap();
    let f = &c.module[0];
    assert_eq!(eval_wide(f, &[wide(3), wide(5)]), vec![wide(15)]);
    let p_minus_one = wide_sub(&prime(), &wide(1));
    assert_eq!(eval_wide(f, &[p_minus_one, p_minus_one]), vec![wide(1)]);
    assert_eq!(eval_wide(f, &[p_minus_one, wide(2)]), vec![wide_sub(&prime(), &wide(2))]);
    assert_eq!(eval_wide(f, &[wide(1u128 << 100), wide(1u128 << 100)]), vec![{
        let mut w = [0u64; 8];
        w[3] = 1 << 8;
        w
    }]);
}

#[test]
fn constant_with_two_literals_is_rejected() {
    let c = Compiler::new();
    let mut s = Storage::new();
    let d = decl(
        24,
        "u8_const<1,2>",
        "u8_const",
        vec![GenericArg::Value("1".to_string()), GenericArg::Value("2".to_string())],
    );
    let r = c.create_libfunc_u8_const(&d, &mut s);
    assert_eq!(
        r,
        Err(CompileError::WrongArgKind { decl: 24, index: 1, expected: ArgKind::Missing, found: ArgKind::Value })
    );
    assert!(s.u8_consts.is_empty());
    let r = c.create_libfunc_felt_const(&decl(25, "felt_const", "felt_const", vec![]), &mut s);
    assert_eq!(
        r,
        Err(CompileError::WrongArgKind { decl: 25, index: 0, expected: ArgKind::Value, found: ArgKind::Missing })
    );
}

#[test]
fn payload_getter_is_shared_by_enums_of_one_layout() {
    // Two enums with the same physical type whose variant 0 differs: the
    // second request reuses the first getter and reports the type it returns.
    let mut c = Compiler::new();
    let mut s = Storage::new();
    let first = option_u64();
    let second = SierraType::Enum {
        ty: PhysType::Struct { fields: vec![int_ty(1), PhysType::Array { len: 8 }] },
        tag_type: int_ty(1),
        storage_bytes_len: 8,
        storage_type: PhysType::Array { len: 8 },
        variants_types: vec![SierraType::Simple(int_ty(32)), SierraType::Simple(int_ty(8))],
    };
    let a = c.call_enum_get_data_as_variant_type(&first, 0, &mut s);
    let b = c.call_enum_get_data_as_variant_type(&second, 0, &mut s);
    assert_eq!(c.module.len(), 1);
    assert_eq!(s.helperfuncs.len(), 1);
    assert!(matches!(a.result_type, PhysType::Int { width: 64 }));
    assert!(matches!(b.result_type, PhysType::Int { width: 64 }));
    assert_eq!(c.find_helper(&b.callee), Some(0));
}

#[test]
fn repeated_requests_emit_each_getter_once() {
    let mut c = Compiler::new();
    let mut s = Storage::new();
    let e = option_u64();
    for _ in 0..5 {
        c.call_enum_get_tag(&e, &mut s);
        c.call_enum_get_data_as_variant_type(&e, 1, &mut s);
        c.call_enum_get_data_as_variant_type(&e, 0, &mut s);
    }
    assert_eq!(c.module.len(), 3);
    assert_eq!(s.helperfuncs.len(), 3);
}
