//! What holds of layouts, signatures and initial data.

use crate::ast::LiteralV;
use crate::compiler::code::{
    CodeSignatureV, EnumLayoutV, IrType, StructFieldLayoutV, VariantLayoutV,
};
use crate::compiler::rules::{
    add_sizes, aligned, const_array, const_element, const_elements, enum_layout, g_align,
    g_align_or_word, g_signature, g_size, g_size_or_word, g_struct_size, g_text, g_type, g_types,
    is_aggregate, lay_fields, lay_payload, lay_variants, le_bytes, no_fields, no_variants,
    place_field, place_variant, repeated, struct_layout, text_index, zeros, FieldRun, GenEnv,
    GenState, VariantRun,
};
use crate::error::MplangErrorV;
use crate::hir::{DefId, HirTypeV};
use crate::table::lookup;
use crate::tyhir::{TyHirEnumVariantV, TyHirExprV, TyHirFieldV};
use vstd::arithmetic::div_mod::{lemma_fundamental_div_mod, lemma_mod_multiples_basic};
use vstd::prelude::*;

verus! {

/// The least multiple of `align` that is not below `n`.
pub proof fn law_rounding_up(n: u32, align: u32)
    requires
        aligned(n, align) is Ok,
    ensures
        aligned(n, align)->Ok_0 >= n,
        aligned(n, align)->Ok_0 < n + align,
        aligned(n, align)->Ok_0 % align == 0,
{
    let a = align as int;
    let m = n as int + a - 1;
    let q = m / a;
    lemma_fundamental_div_mod(m, a);
    assert(a * q == q * a) by (nonlinear_arith);
    assert(0 <= q) by (nonlinear_arith)
        requires
            m == a * q + m % a,
            0 <= m % a < a,
            0 <= m,
            a > 0;
    assert(0 <= q * a) by (nonlinear_arith)
        requires
            0 <= q,
            a > 0;
    lemma_mod_multiples_basic(q, a);
}

/// The alignment and the size of a field as it is laid out; in a payload open
/// types take a word.
pub open spec fn field_room(
    env: GenEnv,
    t: HirTypeV,
    payload: bool,
) -> (Result<u32, MplangErrorV>, Result<u32, MplangErrorV>) {
    if payload {
        (g_align_or_word(env, t), g_size_or_word(env, t))
    } else {
        (g_align(env, t), g_size(env, t))
    }
}

/// Whether fields are laid out one behind the other: each at a multiple of its
/// alignment, none over another, all before the end, and none aligned more than
/// the whole.
pub open spec fn well_placed(
    env: GenEnv,
    fs: Seq<TyHirFieldV>,
    run: FieldRun,
    n: int,
    payload: bool,
) -> bool {
    &&& run.fields.len() == n
    &&& run.align >= 1
    &&& forall|i: int| 0 <= i < n ==> #[trigger] placed(
        env,
        fs[i],
        run.fields[i],
        run.end,
        run.align,
        payload,
    )
    &&& forall|i: int, j: int| 0 <= i < j < n ==> #[trigger] run.fields[i].offset + field_room(env, fs[i].ty, payload).1->Ok_0 <= #[trigger] run.fields[j].offset
}

/// Whether a field is placed where its type may be, before `end`.
pub open spec fn placed(
    env: GenEnv,
    f: TyHirFieldV,
    l: StructFieldLayoutV,
    end: u32,
    align: u32,
    payload: bool,
) -> bool {
    let room = field_room(env, f.ty, payload);
    &&& room.0 is Ok && room.1 is Ok
    &&& l.field_def_id == f.def_id
    &&& l.field_type == f.ty
    &&& room.0->Ok_0 > 0
    &&& l.offset % room.0->Ok_0 == 0
    &&& l.offset + room.1->Ok_0 <= end
    &&& room.0->Ok_0 <= align
}

proof fn lemma_place(
    env: GenEnv,
    fs: Seq<TyHirFieldV>,
    run: FieldRun,
    i: int,
    payload: bool,
)
    requires
        0 <= i < fs.len(),
        well_placed(env, fs, run, i, payload),
        field_room(env, fs[i].ty, payload).0 is Ok,
        field_room(env, fs[i].ty, payload).1 is Ok,
        place_field(run, fs[i], field_room(env, fs[i].ty, payload).1->Ok_0, field_room(env, fs[i].ty, payload).0->Ok_0) is Ok,
    ensures
        well_placed(
            env,
            fs,
            place_field(run, fs[i], field_room(env, fs[i].ty, payload).1->Ok_0, field_room(env, fs[i].ty, payload).0->Ok_0)->Ok_0,
            i + 1,
            payload,
        ),
{
    let align = field_room(env, fs[i].ty, payload).0->Ok_0;
    let size = field_room(env, fs[i].ty, payload).1->Ok_0;
    let next = place_field(run, fs[i], size, align)->Ok_0;
    law_rounding_up(run.end, align);
    assert forall|k: int| 0 <= k < i + 1 implies #[trigger] placed(env, fs[k], next.fields[k], next.end, next.align, payload) by {
        if k < i {
            assert(placed(env, fs[k], run.fields[k], run.end, run.align, payload));
            assert(next.fields[k] == run.fields[k]);
        }
    }
    assert forall|k: int, j: int| 0 <= k < j < i + 1 implies #[trigger] next.fields[k].offset + field_room(env, fs[k].ty, payload).1->Ok_0 <= #[trigger] next.fields[j].offset by {
        assert(next.fields[k] == run.fields[k]);
        assert(placed(env, fs[k], run.fields[k], run.end, run.align, payload));
        if j < i {
            assert(next.fields[j] == run.fields[j]);
        }
    }
}

proof fn lemma_lay_fields(env: GenEnv, fs: Seq<TyHirFieldV>, i: int, run: FieldRun)
    requires
        0 <= i <= fs.len(),
        well_placed(env, fs, run, i, false),
    ensures
        lay_fields(env, fs, i, run) matches Ok(r) ==> well_placed(
            env,
            fs,
            r,
            fs.len() as int,
            false,
        ),
    decreases fs.len() - i,
{
    if i < fs.len() {
        if let Ok(align) = g_align(env, fs[i].ty) {
            if let Ok(size) = g_size(env, fs[i].ty) {
                if let Ok(next) = place_field(run, fs[i], size, align) {
                    lemma_place(env, fs, run, i, false);
                    lemma_lay_fields(env, fs, i + 1, next);
                }
            }
        }
    }
}

proof fn lemma_lay_payload(env: GenEnv, fs: Seq<TyHirFieldV>, i: int, run: FieldRun)
    requires
        0 <= i <= fs.len(),
        well_placed(env, fs, run, i, true),
    ensures
        lay_payload(env, fs, i, run) matches Ok(r) ==> well_placed(
            env,
            fs,
            r,
            fs.len() as int,
            true,
        ),
    decreases fs.len() - i,
{
    if i < fs.len() {
        if let Ok(align) = g_align_or_word(env, fs[i].ty) {
            if let Ok(size) = g_size_or_word(env, fs[i].ty) {
                if let Ok(next) = place_field(run, fs[i], size, align) {
                    lemma_place(env, fs, run, i, true);
                    lemma_lay_payload(env, fs, i + 1, next);
                }
            }
        }
    }
}

/// The fields of a struct stand in their order, each at a multiple of its
/// alignment, and no field reaches into the next.
pub proof fn law_struct_fields_do_not_overlap(env: GenEnv, fs: Seq<TyHirFieldV>)
    requires
        lay_fields(env, fs, 0, no_fields()) is Ok,
    ensures
        well_placed(env, fs, lay_fields(env, fs, 0, no_fields())->Ok_0, fs.len() as int, false),
{
    lemma_lay_fields(env, fs, 0, no_fields());
}

/// The size of a struct holds all its fields and is a multiple of its
/// alignment, so that the elements of an array of it are aligned too.
pub proof fn law_struct_size_holds_fields(
    env: GenEnv,
    d: DefId,
    fs: Seq<TyHirFieldV>,
    run: FieldRun,
)
    requires
        lay_fields(env, fs, 0, no_fields()) == Ok::<FieldRun, MplangErrorV>(run),
        lookup(env.structs, d) == Some(struct_layout(run)),
        g_struct_size(env, d) is Ok,
    ensures
        g_struct_size(env, d)->Ok_0 % run.align == 0,
        forall|i: int| 0 <= i < fs.len() ==> (#[trigger] run.fields[i]).offset + field_room(env, fs[i].ty, false).1->Ok_0 <= g_struct_size(env, d)->Ok_0,
{
    lemma_lay_fields(env, fs, 0, no_fields());
    if run.fields.len() > 0 {
        law_rounding_up(run.end, run.align);
    } else {
        assert(0u32 % run.align == 0) by (nonlinear_arith)
            requires
                run.align > 0;
    }
    assert forall|i: int| 0 <= i < fs.len() implies (#[trigger] run.fields[i]).offset + field_room(env, fs[i].ty, false).1->Ok_0 <= g_struct_size(env, d)->Ok_0 by {
        assert(placed(env, fs[i], run.fields[i], run.end, run.align, false));
    }
}

/// Whether the payload of a variant stands behind the tag and fits.
pub open spec fn variant_fits(
    env: GenEnv,
    v: TyHirEnumVariantV,
    l: VariantLayoutV,
    size: u32,
    align: u32,
) -> bool {
    &&& l.name == v.name
    &&& l.tag == v.tag
    &&& l.payload_offset == 8
    &&& l.payload_size <= size
    &&& exists|run: FieldRun| #[trigger] well_placed(env, v.fields, run, v.fields.len() as int, true) && l.fields == run.fields && run.end <= l.payload_size && run.align <= align
}

/// The variants so far fit.
pub open spec fn variants_fit(
    env: GenEnv,
    vs: Seq<TyHirEnumVariantV>,
    run: VariantRun,
    n: int,
) -> bool {
    &&& run.variants.len() == n
    &&& run.align >= 8
    &&& forall|i: int| 0 <= i < n ==> #[trigger] variant_fits(
        env,
        vs[i],
        run.variants[i],
        run.size,
        run.align,
    )
}

proof fn lemma_lay_variants(
    env: GenEnv,
    vs: Seq<TyHirEnumVariantV>,
    i: int,
    run: VariantRun,
)
    requires
        0 <= i <= vs.len(),
        variants_fit(env, vs, run, i),
    ensures
        lay_variants(env, vs, i, run) matches Ok(r) ==> variants_fit(env, vs, r, vs.len() as int),
    decreases vs.len() - i,
{
    if i < vs.len() {
        if let Ok(payload) = lay_payload(env, vs[i].fields, 0, no_fields()) {
            lemma_lay_payload(env, vs[i].fields, 0, no_fields());
            if let Ok(next) = place_variant(run, vs[i], payload) {
                law_rounding_up(payload.end, payload.align);
                assert forall|k: int| 0 <= k < i + 1 implies #[trigger] variant_fits(env, vs[k], next.variants[k], next.size, next.align) by {
                    if k < i {
                        assert(variant_fits(env, vs[k], run.variants[k], run.size, run.align));
                        assert(next.variants[k] == run.variants[k]);
                        let r = choose|r: FieldRun| #[trigger] well_placed(env, vs[k].fields, r, vs[k].fields.len() as int, true) && run.variants[k].fields == r.fields && r.end <= run.variants[k].payload_size && r.align <= run.align;
                        assert(well_placed(env, vs[k].fields, r, vs[k].fields.len() as int, true));
                    } else {
                        assert(
                            well_placed(env, vs[k].fields, payload, vs[k].fields.len() as int, true)
                        );
                    }
                }
                lemma_lay_variants(env, vs, i + 1, next);
            }
        }
    }
}

/// An enumeration has room for its tag and for the payload of every variant
/// behind it, and its size is a multiple of its alignment.
pub proof fn law_enum_holds_every_variant(
    env: GenEnv,
    vs: Seq<TyHirEnumVariantV>,
    run: VariantRun,
    l: EnumLayoutV,
)
    requires
        lay_variants(env, vs, 0, no_variants()) == Ok::<VariantRun, MplangErrorV>(run),
        enum_layout(run) == Ok::<EnumLayoutV, MplangErrorV>(l),
    ensures
        l.size % l.align == 0,
        l.align >= 8,
        l.variants.len() == vs.len(),
        forall|i: int| 0 <= i < vs.len() ==> (#[trigger] l.variants[i]).payload_offset + l.variants[i].payload_size <= l.size,
        variants_fit(env, vs, run, vs.len() as int),
{
    lemma_lay_variants(env, vs, 0, no_variants());
    let total = add_sizes(8, run.size)->Ok_0;
    law_rounding_up(total, run.align);
    assert forall|i: int| 0 <= i < vs.len() implies (#[trigger] l.variants[i]).payload_offset + l.variants[i].payload_size <= l.size by {
        assert(variant_fits(env, vs[i], run.variants[i], run.size, run.align));
    }
}

proof fn lemma_types_len(env: GenEnv, ts: Seq<HirTypeV>, i: int, done: Seq<IrType>)
    requires
        0 <= i <= ts.len(),
    ensures
        g_types(env, ts, i, done) matches Ok(r) ==> r.len() == done.len() + ts.len() - i && (forall|k: int| 0 <= k < done.len() ==> #[trigger] r[k] == done[k]) && (forall|k: int| i <= k < ts.len() ==> g_type(env, #[trigger] ts[k]) == Ok::<IrType, MplangErrorV>(r[done.len() + k - i])),
    decreases ts.len() - i,
{
    if i < ts.len() {
        if let Ok(t) = g_type(env, ts[i]) {
            lemma_types_len(env, ts, i + 1, done.push(t));
            if let Ok(r) = g_types(env, ts, i + 1, done.push(t)) {
                assert(r[done.len() as int] == done.push(t)[done.len() as int]);
                assert forall|k: int| 0 <= k < done.len() implies #[trigger] r[k] == done[k] by {
                    assert(r[k] == done.push(t)[k]);
                }
            }
        }
    }
}

/// A function that returns a value in memory takes its address as an extra
/// first parameter and returns nothing; every parameter and every further
/// argument has the machine type of its type.
pub proof fn law_signature_shape(
    env: GenEnv,
    ps: Seq<HirTypeV>,
    ret: HirTypeV,
    extra: Seq<HirTypeV>,
    s: CodeSignatureV,
)
    requires
        g_signature(env, ps, ret, extra) == Ok::<CodeSignatureV, MplangErrorV>(s),
    ensures
        is_aggregate(ret) <==> s.returns is None,
        is_aggregate(ret) ==> s.params[0] is Ptr,
        !is_aggregate(ret) ==> g_type(env, ret) == Ok::<IrType, MplangErrorV>(s.returns->0),
        s.params.len() == ps.len() + extra.len() + if is_aggregate(ret) { 1int } else { 0int },
        forall|i: int| 0 <= i < ps.len() ==> g_type(env, #[trigger] ps[i]) == Ok::<IrType, MplangErrorV>(s.params[i + if is_aggregate(ret) { 1int } else { 0int }]),
        forall|i: int| 0 <= i < extra.len() ==> g_type(env, #[trigger] extra[i]) == Ok::<IrType, MplangErrorV>(s.params[ps.len() + i + if is_aggregate(ret) { 1int } else { 0int }]),
{
    let first = if is_aggregate(ret) { seq![IrType::Ptr] } else { Seq::empty() };
    lemma_types_len(env, ps, 0, first);
    let a = g_types(env, ps, 0, first)->Ok_0;
    lemma_types_len(env, extra, 0, a);
    let k = if is_aggregate(ret) { 1int } else { 0int };
    if is_aggregate(ret) {
        assert(s.params[0] == a[0]);
        assert(a[0] == first[0]);
    }
    assert forall|i: int| 0 <= i < ps.len() implies g_type(env, #[trigger] ps[i]) == Ok::<IrType, MplangErrorV>(s.params[i + k]) by {
        assert(s.params[i + k] == a[i + k]);
    }
}

// Initial data

proof fn lemma_le_bytes(n: u64, k: nat)
    ensures
        le_bytes(n, k).len() == k,
    decreases k,
{
    if k > 0 {
        lemma_le_bytes(n / 256, (k - 1) as nat);
    }
}

proof fn lemma_repeated(b: Seq<u8>, n: nat)
    ensures
        repeated(b, n).len() == n * b.len(),
    decreases n,
{
    if n > 0 {
        lemma_repeated(b, (n - 1) as nat);
        assert(n * b.len() == (n - 1) * b.len() + b.len()) by (nonlinear_arith)
            requires
                n > 0;
    } else {
        assert(0 * b.len() == 0) by (nonlinear_arith);
    }
}

proof fn lemma_copies(
    v: TyHirExprV,
    size: usize,
    total: nat,
    n: nat,
    i: int,
    b: Seq<u8>,
    done: Seq<u8>,
)
    requires
        0 <= i <= n,
        const_element(v, size) == Ok::<Seq<u8>, MplangErrorV>(b),
        b.len() == size,
        done == repeated(b, i as nat),
        total == size * n,
    ensures
        const_elements(Seq::new(n, |k: int| v), size, total, i, done) == Ok::<Seq<u8>, MplangErrorV>(repeated(b, n)),
    decreases n - i,
{
    let es = Seq::new(n, |k: int| v);
    if i < n {
        lemma_repeated(b, i as nat);
        assert(i * size + size <= size * n) by (nonlinear_arith)
            requires
                0 <= i < n;
        lemma_copies(v, size, total, n, i + 1, b, done + b);
        assert(
            const_elements(es, size, total, i, done) == const_elements(
                es,
                size,
                total,
                i + 1,
                done + b,
            )
        );
    }
}

/// `[v; n]` stands for `n` times `v`: a global array written so has the bytes
/// of one that lists `v` `n` times.
pub proof fn law_repeated_array_is_listed_array(v: TyHirExprV, size: usize, n: usize)
    ensures
        const_array(seq![v], Some(n), size, n) == const_array(
            Seq::new(n as nat, |k: int| v),
            None,
            size,
            n,
        ),
{
    let es = Seq::new(n as nat, |k: int| v);
    if size * n <= usize::MAX && size * n <= isize::MAX {
        let total = (size * n) as nat;
        assert(size * n >= 0) by (nonlinear_arith);
        if n == 0 {
            assert(size * n == 0) by (nonlinear_arith)
                requires
                    n == 0;
            assert(
                const_elements(es, size, total, 0, Seq::empty()) == Ok::<Seq<u8>, MplangErrorV>(Seq::empty())
            );
            assert(Seq::<u8>::empty() + zeros(0) =~= Seq::<u8>::empty());
        } else {
            if let Ok(b) = const_element(v, size) {
                if let crate::tyhir::TyHirExprKindV::Literal(LiteralV::Int(x)) = v.kind {
                    lemma_le_bytes(x as u64, size as nat);
                }
                lemma_copies(v, size, total, n as nat, 0, b, Seq::empty());
                lemma_repeated(b, n as nat);
                assert(n * size == size * n) by (nonlinear_arith);
                assert(repeated(b, n as nat) + zeros(0) =~= repeated(b, n as nat));
            } else {
                assert(es[0] == v);
            }
        }
    }
}

proof fn lemma_elements_len(
    es: Seq<TyHirExprV>,
    size: usize,
    total: nat,
    i: int,
    done: Seq<u8>,
)
    requires
        0 <= i,
        done.len() <= total,
    ensures
        const_elements(es, size, total, i, done) matches Ok(b) ==> b.len() <= total,
    decreases es.len() - i,
{
    if i < es.len() {
        if let Ok(b) = const_element(es[i], size) {
            if let crate::tyhir::TyHirExprKindV::Literal(LiteralV::Int(x)) = es[i].kind {
                lemma_le_bytes(x as u64, size as nat);
            }
            if done.len() + size <= total {
                lemma_elements_len(es, size, total, i + 1, done + b);
            }
        }
    }
}

/// A global array takes as many bytes as its elements.
pub proof fn law_array_data_has_its_size(
    es: Seq<TyHirExprV>,
    repeat: Option<usize>,
    size: usize,
    n: usize,
)
    requires
        const_array(es, repeat, size, n) is Ok,
    ensures
        const_array(es, repeat, size, n)->Ok_0.len() == size * n,
{
    assert(size * n >= 0) by (nonlinear_arith);
    assert(n * size == size * n) by (nonlinear_arith);
    match repeat {
        Some(_) => {
            if n == 0 {
                assert(size * n == 0) by (nonlinear_arith)
                    requires
                        n == 0;
            } else {
                let b = const_element(es[0], size)->Ok_0;
                if let crate::tyhir::TyHirExprKindV::Literal(LiteralV::Int(x)) = es[0].kind {
                    lemma_le_bytes(x as u64, size as nat);
                }
                lemma_repeated(b, n as nat);
            }
        },
        None => {
            lemma_elements_len(es, size, (size * n) as nat, 0, Seq::empty());
        },
    }
}

proof fn lemma_text_index(strings: Seq<Seq<char>>, text: Seq<char>, i: int)
    requires
        0 <= i,
        strings.len() <= usize::MAX,
    ensures
        text_index(strings, text, i) matches Some(k) ==> i <= k < strings.len() && strings[k as int] == text,
        text_index(strings, text, i) is None ==> forall|j: int| i <= j < strings.len() ==> strings[j] != text,
    decreases strings.len() - i,
{
    if i < strings.len() {
        lemma_text_index(strings, text, i + 1);
    }
}

/// A string literal is kept once: its number stands for it, and asking for it
/// again gives the same number and keeps nothing new.
pub proof fn law_string_kept_once(s: GenState, text: Seq<char>)
    requires
        s.strings.len() < usize::MAX,
    ensures
        g_text(s, text).0.strings[g_text(s, text).1 as int] == text,
        g_text(g_text(s, text).0, text) == g_text(s, text),
        forall|i: int| 0 <= i < s.strings.len() ==> #[trigger] g_text(s, text).0.strings[i] == s.strings[i],
{
    lemma_text_index(s.strings, text, 0);
    let t = g_text(s, text).0;
    lemma_text_index(t.strings, text, 0);
}

} // verus!

