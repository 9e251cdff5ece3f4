//! Reading a value back from its bit image, and the enum round trip that
//! rests on it.
use vstd::arithmetic::div_mod::{lemma_mod_breakdown, lemma_small_mod};
use vstd::arithmetic::power2::{lemma2_to64, lemma_pow2_pos, lemma_pow2_unfold, pow2};
use vstd::prelude::*;

use crate::ir::{bits_of, decode, decode_all, encode, encode_all, has_type, nat_of, size_of, sizes_of, GenFunction, Val};
use crate::sierra_enum::{is_get_data_fn, is_get_tag_fn, lemma_get_data_call, lemma_get_tag_call};
use crate::types::{STy, Ty};

verus! {

/// The bits of `x` read back give `x` modulo `2^w`.
pub proof fn lemma_nat_of_bits(x: nat, w: nat)
    ensures
        bits_of(x, w).len() == w,
        nat_of(bits_of(x, w)) == x % pow2(w),
    decreases w,
{
    if w == 0 {
        assert(pow2(0) == 1) by {
            lemma2_to64();
        }
    } else {
        lemma_nat_of_bits(x / 2, (w - 1) as nat);
        let b = bits_of(x, w);
        assert(b.subrange(1, b.len() as int) =~= bits_of(x / 2, (w - 1) as nat));
        lemma_pow2_unfold(w);
        lemma_pow2_pos((w - 1) as nat);
        lemma_mod_breakdown(x as int, 2, pow2((w - 1) as nat) as int);
    }
}

/// The bit image of a value of type `t` is `size_of(t)` bits long.
pub proof fn lemma_encode_len(v: Val, t: Ty)
    requires
        has_type(v, t),
    ensures
        encode(v).len() == size_of(t),
    decreases t,
{
    match t {
        Ty::Int(w) => {
            lemma_nat_of_bits(v->value, w);
        },
        Ty::Array(n) => {
            lemma_encode_bytes(v->Agg_0);
        },
        Ty::Struct(fs) => {
            lemma_encode_all_len(v->Agg_0, fs);
        },
    }
}

pub proof fn lemma_encode_all_len(vs: Seq<Val>, fs: Seq<Ty>)
    requires
        vs.len() == fs.len(),
        forall|i: int| 0 <= i < fs.len() ==> has_type(#[trigger] vs[i], fs[i]),
    ensures
        encode_all(vs).len() == sizes_of(fs),
    decreases fs,
{
    if fs.len() > 0 {
        lemma_encode_len(vs[0], fs[0]);
        let rest = vs.subrange(1, vs.len() as int);
        let frest = fs.subrange(1, fs.len() as int);
        assert forall|i: int| 0 <= i < frest.len() implies has_type(#[trigger] rest[i], frest[i]) by {
            assert(has_type(vs[i + 1], fs[i + 1]));
        }
        lemma_encode_all_len(rest, frest);
    }
}

/// Whether every value of `vs` is a byte.
pub open spec fn all_bytes(vs: Seq<Val>) -> bool {
    forall|i: int|
        0 <= i < vs.len() ==> {
            let e = #[trigger] vs[i];
            e is Int && e->width == 8 && e->value < pow2(8)
        }
}

/// The bit image of a sequence of bytes: eight bits per byte, in order.
pub proof fn lemma_encode_bytes(vs: Seq<Val>)
    requires
        all_bytes(vs),
    ensures
        encode_all(vs).len() == 8 * vs.len(),
        forall|i: int| 0 <= i < vs.len() ==> #[trigger] encode_all(vs).subrange(8 * i, 8 * i + 8) == bits_of(vs[i]->value, 8),
    decreases vs.len(),
{
    if vs.len() > 0 {
        let rest = vs.subrange(1, vs.len() as int);
        assert(all_bytes(rest)) by {
            assert forall|i: int| 0 <= i < rest.len() implies {
                let e = #[trigger] rest[i];
                e is Int && e->width == 8 && e->value < pow2(8)
            } by {
                assert(rest[i] == vs[i + 1]);
            }
        }
        lemma_encode_bytes(rest);
        let first = encode(vs[0]);
        lemma_nat_of_bits(vs[0]->value, 8);
        let all = encode_all(vs);
        assert(all == first + encode_all(rest));
        assert forall|i: int| 0 <= i < vs.len() implies #[trigger] all.subrange(8 * i, 8 * i + 8) == bits_of(vs[i]->value, 8) by {
            if i == 0 {
                assert(all.subrange(0, 8) =~= first);
            } else {
                assert(rest[i - 1] == vs[i]);
                assert(encode_all(rest).subrange(8 * (i - 1), 8 * (i - 1) + 8) == bits_of(vs[i]->value, 8));
                assert(all.subrange(8 * i, 8 * i + 8) =~= encode_all(rest).subrange(8 * (i - 1), 8 * (i - 1) + 8));
            }
        }
    }
}

/// Reading a value of type `t` from bits that start with the image of `v`, a
/// value of type `t`, gives `v`: whatever follows the image is not read.
pub proof fn lemma_decode_encode(v: Val, t: Ty, pad: Seq<bool>)
    requires
        has_type(v, t),
    ensures
        decode(t, encode(v) + pad) == v,
    decreases t,
{
    match t {
        Ty::Int(w) => {
            let x = v->value;
            lemma_nat_of_bits(x, w);
            assert((bits_of(x, w) + pad).take(w as int) =~= bits_of(x, w));
            lemma_small_mod(x, pow2(w));
        },
        Ty::Array(n) => {
            let vs = v->Agg_0;
            lemma_encode_bytes(vs);
            let b = encode(v) + pad;
            let d = decode(t, b);
            assert(d->Agg_0 =~= vs) by {
                assert forall|i: int| 0 <= i < n implies d->Agg_0[i] == vs[i] by {
                    assert(b.subrange(8 * i, 8 * i + 8) =~= encode_all(vs).subrange(8 * i, 8 * i + 8));
                    lemma_nat_of_bits(vs[i]->value, 8);
                    lemma_small_mod(vs[i]->value, pow2(8));
                }
            }
        },
        Ty::Struct(fs) => {
            lemma_decode_all(v->Agg_0, fs, pad);
        },
    }
}

pub proof fn lemma_decode_all(vs: Seq<Val>, fs: Seq<Ty>, pad: Seq<bool>)
    requires
        vs.len() == fs.len(),
        forall|i: int| 0 <= i < fs.len() ==> has_type(#[trigger] vs[i], fs[i]),
    ensures
        decode_all(fs, encode_all(vs) + pad) == vs,
    decreases fs,
{
    if fs.len() == 0 {
        assert(decode_all(fs, encode_all(vs) + pad) =~= vs);
    } else {
        let rest = vs.subrange(1, vs.len() as int);
        let frest = fs.subrange(1, fs.len() as int);
        assert forall|i: int| 0 <= i < frest.len() implies has_type(#[trigger] rest[i], frest[i]) by {
            assert(has_type(vs[i + 1], fs[i + 1]));
        }
        let b = encode_all(vs) + pad;
        let tail = encode_all(rest) + pad;
        assert(b =~= encode(vs[0]) + tail);
        lemma_decode_encode(vs[0], fs[0], tail);
        lemma_encode_len(vs[0], fs[0]);
        assert(b.subrange(size_of(fs[0]) as int, b.len() as int) =~= tail);
        lemma_decode_all(rest, frest, pad);
        assert(decode_all(fs, b) =~= vs);
    }
}

/// Whether `e` is a value of the enum type `t` whose tag is `k` and whose
/// payload holds a value `v` of variant `k`'s type, followed by any bits.
pub open spec fn tagged_value(t: STy, e: Val, k: nat, v: Val) -> bool {
    &&& t is Enum
    &&& k < t->variants.len()
    &&& has_type(v, t->variants[k as int].phys())
    &&& e is Agg && e->Agg_0.len() == 2
    &&& e->Agg_0[0] == (Val::Int { width: e->Agg_0[0]->width, value: k })
    &&& exists|pad: Seq<bool>| encode(e->Agg_0[1]) == encode(v) + pad
}

/// The enum accessors undo tagging: on a value tagged `k` whose payload holds
/// `v`, the tag getter returns `k` and a payload getter that reads variant
/// `k`'s type returns `v`, whatever slot type it reserved.
pub proof fn lemma_enum_round_trip(get_tag: GenFunction, get_data: GenFunction, st: Ty, t: STy, e: Val, k: nat, v: Val)
    requires
        tagged_value(t, e, k, v),
        is_get_tag_fn(get_tag),
        is_get_data_fn(get_data, st, t->variants[k as int].phys()),
    ensures
        get_tag.call(seq![e]) == seq![e->Agg_0[0]],
        e->Agg_0[0]->value == k,
        get_data.call(seq![e]) == seq![v],
{
    let tag = e->Agg_0[0];
    let payload = e->Agg_0[1];
    assert(e == Val::Agg(seq![tag, payload])) by {
        assert(e->Agg_0 =~= seq![tag, payload]);
    }
    lemma_get_tag_call(get_tag, tag, payload);
    lemma_get_data_call(get_data, st, t->variants[k as int].phys(), tag, payload);
    let pad = choose|pad: Seq<bool>| encode(payload) == encode(v) + pad;
    lemma_decode_encode(v, t->variants[k as int].phys(), pad);
}

} // verus!
