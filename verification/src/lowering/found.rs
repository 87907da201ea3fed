//! The full path of an item finds the item.

use crate::ast::{EnumVariantV, PathV, TopLevelDeclV};
use crate::hir::{DefId, HirEnumVariantV, HirItemV};
use crate::lowering::defined::{all_paths, own_paths, variant_paths};
use crate::lowering::laws::law_items_are_found_before_their_declaration;
use crate::lowering::rules::{
    child, fresh, initial_state, l_fields, l_variants, low_decls, low_enum, low_extern_fn, low_fn,
    low_global, low_plain, low_struct, lowered, module_attributes, module_item, module_name,
    reg_decls, registered, resolve, LowerState,
};
use crate::lowering::source::SourceTreeV;
use crate::lowering::unique::{
    apart, content, later, lemma_begins, lemma_content, lemma_decls_later, lemma_fields_apart,
    lemma_found, lemma_later, lemma_plain_later, lemma_reg_decls, lemma_variants_later,
};
use crate::table::lookup;
use vstd::prelude::*;

verus! {

/// One of the variants from `i` on has the full path `p` and the number `d`.
pub open spec fn variant_at(
    vs: Seq<HirEnumVariantV>,
    prefix: Seq<Seq<char>>,
    p: Seq<Seq<char>>,
    d: DefId,
    i: int,
) -> bool {
    exists|j: int| i <= j < vs.len() && p == prefix.push((#[trigger] vs[j]).name) && vs[j].def_id == d
}

/// An item under `prefix`, or one inside it, has the full path `p` and the number `d`.
pub open spec fn item_at(
    item: HirItemV,
    prefix: Seq<Seq<char>>,
    p: Seq<Seq<char>>,
    d: DefId,
) -> bool
    decreases item, 0int,
{
    match item {
        HirItemV::Module(m) => {
            ||| p == prefix.push(m.name) && m.def_id == d
            ||| stands_at(m.items, prefix.push(m.name), p, d, 0)
        },
        HirItemV::ExternFn { def_id, name, .. } => p == prefix.push(name) && def_id == d,
        HirItemV::Fn { def_id, name, .. } => p == prefix.push(name) && def_id == d,
        HirItemV::Struct { def_id, name, .. } => p == prefix.push(name) && def_id == d,
        HirItemV::Enum { def_id, name, variants, .. } => {
            ||| p == prefix.push(name) && def_id == d
            ||| variant_at(variants, prefix, p, d, 0)
        },
        HirItemV::Static { def_id, name, .. } => p == prefix.push(name) && def_id == d,
    }
}

/// One of the items from `i` on, which stand under `prefix`, or one inside them, has
/// the full path `p` and the number `d`.
pub open spec fn stands_at(
    items: Seq<HirItemV>,
    prefix: Seq<Seq<char>>,
    p: Seq<Seq<char>>,
    d: DefId,
    i: int,
) -> bool
    decreases items, items.len() - i,
{
    if i < 0 || i >= items.len() {
        false
    } else {
        item_at(items[i], prefix, p, d) || stands_at(items, prefix, p, d, i + 1)
    }
}

proof fn lemma_at(
    items: Seq<HirItemV>,
    prefix: Seq<Seq<char>>,
    p: Seq<Seq<char>>,
    d: DefId,
    i: int,
    j: int,
)
    requires
        0 <= i <= j < items.len(),
        item_at(items[j], prefix, p, d),
    ensures
        stands_at(items, prefix, p, d, i),
    decreases j - i,
{
    if i < j {
        lemma_at(items, prefix, p, d, i + 1, j);
    }
}

proof fn lemma_parts<T>(a: Seq<T>, b: Seq<T>, x: T)
    ensures
        (a + b).contains(x) ==> a.contains(x) || b.contains(x),
{
    if (a + b).contains(x) {
        let j = choose|j: int| 0 <= j < (a + b).len() && (a + b)[j] == x;
        if j < a.len() {
            assert(a[j] == x);
        } else {
            assert(b[j - a.len()] == x);
        }
    }
}

proof fn lemma_variants_stand(
    s: LowerState,
    prefix: Seq<Seq<char>>,
    vs: Seq<EnumVariantV>,
    i: int,
    done: Seq<HirEnumVariantV>,
    p: Seq<Seq<char>>,
)
    requires
        0 <= i,
        l_variants(s, prefix, vs, i, done).1 is Ok,
        variant_paths(vs, prefix, i).contains(p),
        s.paths.dom().contains(p),
    ensures
        variant_at(l_variants(s, prefix, vs, i, done).1->Ok_0, prefix, p, s.paths[p], 0),
    decreases vs.len() - i,
{
    if i < vs.len() {
        let id = registered(s, prefix.push(vs[i].name))->Ok_0;
        let a = l_fields(s, vs[i].fields, 0, Seq::empty());
        lemma_fields_apart(s, vs[i].fields);
        let v = HirEnumVariantV { def_id: id, name: vs[i].name, tag: i as u32, fields: a.1->Ok_0 };
        lemma_variants_later(a.0, prefix, vs, i + 1, done.push(v));
        let out = l_variants(a.0, prefix, vs, i + 1, done.push(v)).1->Ok_0;
        lemma_begins(out, done, v);
        lemma_parts(seq![prefix.push(vs[i].name)], variant_paths(vs, prefix, i + 1), p);
        if variant_paths(vs, prefix, i + 1).contains(p) {
            lemma_variants_stand(a.0, prefix, vs, i + 1, done.push(v), p);
        } else {
            assert(p == prefix.push(vs[i].name));
            assert(out[done.len() as int] == v);
        }
    }
}

/// The item of a declaration has the number that its path was registered with.
proof fn lemma_plain_stands(
    s: LowerState,
    d: TopLevelDeclV,
    prefix: Seq<Seq<char>>,
    done: Seq<HirItemV>,
    p: Seq<Seq<char>>,
)
    requires
        module_name(d) is None,
        low_plain(s, d, prefix, done).1 is Ok,
        own_paths(d, prefix).contains(p),
        s.paths.dom().contains(p),
    ensures
        ({
            let out = low_plain(s, d, prefix, done).1->Ok_0;
            out.len() == done.len() + 1 && item_at(out[done.len() as int], prefix, p, s.paths[p])
        }),
{
    reveal(low_plain);
    match d {
        TopLevelDeclV::ExternFnDef { .. } => {
            reveal(low_extern_fn);
        },
        TopLevelDeclV::FnDef { .. } => {
            reveal(low_fn);
        },
        TopLevelDeclV::StructDef { .. } => {
            reveal(low_struct);
        },
        TopLevelDeclV::Enum { name, generics, variants, .. } => {
            reveal(low_enum);
            lemma_parts(seq![prefix.push(name)], variant_paths(variants, prefix, 0), p);
            if variant_paths(variants, prefix, 0).contains(p) {
                lemma_variants_stand(LowerState { generics, ..s }, prefix, variants, 0, Seq::empty(), p);
            }
        },
        TopLevelDeclV::Static { .. } => {
            reveal(low_global);
        },
        TopLevelDeclV::Const { .. } => {
            reveal(low_global);
        },
        _ => {},
    }
}

/// Every path of the declarations from `i` on is that of an item with the number that
/// the path was registered with, where no other definition took the path since.
proof fn lemma_decls_stand(
    s: LowerState,
    ds: Seq<TopLevelDeclV>,
    i: int,
    prefix: Seq<Seq<char>>,
    tree: SourceTreeV,
    k: int,
    done: Seq<HirItemV>,
    names: Map<Seq<Seq<char>>, DefId>,
    fin: Map<Seq<Seq<char>>, DefId>,
    lo: int,
    p: Seq<Seq<char>>,
)
    requires
        lo <= s.next_id,
        low_decls(s, ds, i, prefix, tree, k, done).1 is Ok,
        all_paths(ds, i, prefix, tree, k).contains(p),
        apart(names, lo),
        names.dom().contains(p),
        later(names, s.paths, lo),
        later(low_decls(s, ds, i, prefix, tree, k, done).0.paths, fin, lo),
        lookup(fin, p) == lookup(names, p),
    ensures
        stands_at(low_decls(s, ds, i, prefix, tree, k, done).1->Ok_0, prefix, p, names[p], 0),
    decreases tree, ds.len() - i,
{
    if 0 <= i < ds.len() {
        let own = own_paths(ds[i], prefix);
        lemma_decls_later(s, ds, i, prefix, tree, k, done, lo);
        lemma_later(s.paths, low_decls(s, ds, i, prefix, tree, k, done).0.paths, fin, lo);
        lemma_found(names, s.paths, fin, p, lo);
        match module_name(ds[i]) {
            Some(name) => {
                let segs = prefix.push(name);
                lemma_content(s, segs, tree, k);
                let a = content(s, segs, tree, k);
                let items = a.1->Ok_0;
                let found = if ds[i] is ModDecl { registered(s, segs) } else { registered(a.0, segs) };
                let m = module_item(found->Ok_0, name, module_attributes(ds[i]), items);
                let r = low_decls(a.0, ds, i + 1, prefix, tree, k + 1, done.push(m));
                let out = r.1->Ok_0;
                let rest = all_paths(ds, i + 1, prefix, tree, k + 1);
                if let Some(u) = child(tree, k) {
                    lemma_decls_later(s, u.unit.declarations, 0, segs, u.children, 0, Seq::empty(), lo);
                }
                lemma_later(names, s.paths, a.0.paths, lo);
                lemma_decls_later(a.0, ds, i + 1, prefix, tree, k + 1, done.push(m), lo);
                lemma_later(a.0.paths, r.0.paths, fin, lo);
                lemma_found(names, a.0.paths, fin, p, lo);
                lemma_begins(out, done, m);
                let at = done.len() as int;
                match child(tree, k) {
                    Some(u) => {
                        let inside = all_paths(u.unit.declarations, 0, segs, u.children, 0);
                        lemma_parts(own + inside, rest, p);
                        lemma_parts(own, inside, p);
                        if own.contains(p) {
                            assert(p == segs);
                            lemma_at(out, prefix, p, names[p], 0, at);
                        } else if inside.contains(p) {
                            lemma_decls_stand(s, u.unit.declarations, 0, segs, u.children, 0, Seq::empty(), names, fin, lo, p);
                            assert(item_at(out[at], prefix, p, names[p]));
                            lemma_at(out, prefix, p, names[p], 0, at);
                        } else {
                            lemma_decls_stand(a.0, ds, i + 1, prefix, tree, k + 1, done.push(m), names, fin, lo, p);
                        }
                    },
                    None => {
                        lemma_parts(own, rest, p);
                        if own.contains(p) {
                            assert(p == segs);
                            lemma_at(out, prefix, p, names[p], 0, at);
                        } else {
                            lemma_decls_stand(a.0, ds, i + 1, prefix, tree, k + 1, done.push(m), names, fin, lo, p);
                        }
                    },
                }
            },
            None => {
                let a = low_plain(s, ds[i], prefix, done);
                let next = a.1->Ok_0;
                lemma_plain_later(s, ds[i], prefix, done, lo);
                lemma_decls_later(a.0, ds, i + 1, prefix, tree, k, next, lo);
                let out = low_decls(a.0, ds, i + 1, prefix, tree, k, next).1->Ok_0;
                lemma_parts(own, all_paths(ds, i + 1, prefix, tree, k), p);
                if own.contains(p) {
                    lemma_plain_stands(s, ds[i], prefix, done, p);
                    assert(out[done.len() as int] == next[done.len() as int]);
                    lemma_at(out, prefix, p, names[p], 0, done.len() as int);
                } else {
                    lemma_later(names, s.paths, a.0.paths, lo);
                    lemma_decls_stand(a.0, ds, i + 1, prefix, tree, k, next, names, fin, lo, p);
                }
            },
        }
    }
}

/// The full path of every item of a program, and of the files that it brings in, finds
/// the item: it resolves to the number that the item of this path has in the resolved
/// program, whatever other items have the same last segment. So it is at every moment
/// from registration on, such as when resolution begins or when it is done.
///
/// Left out are paths that a static method takes, and names brought in by `use`.
pub proof fn law_full_path_finds_its_item(
    decls: Seq<TopLevelDeclV>,
    tree: SourceTreeV,
    p: Seq<Seq<char>>,
    t: LowerState,
    ctx: Seq<char>,
)
    requires
        lowered(initial_state(), decls, tree).1 is Ok,
        all_paths(decls, 0, Seq::empty(), tree, 0).contains(p),
        lookup(lowered(initial_state(), decls, tree).0.paths, p) == lookup(
            reg_decls(initial_state(), decls, 0, Seq::empty(), tree, 0).0.paths,
            p,
        ),
        t.paths == reg_decls(initial_state(), decls, 0, Seq::empty(), tree, 0).0.paths || t.paths == lowered(initial_state(), decls, tree).0.paths,
        p.len() == 1 ==> !t.aliases.dom().contains(p[0]),
    ensures
        resolve(t, PathV { segments: p }, ctx) is Ok,
        stands_at(
            lowered(initial_state(), decls, tree).1->Ok_0.root_module.items,
            Seq::empty(),
            p,
            resolve(t, PathV { segments: p }, ctx)->Ok_0,
            0,
        ),
{
    let s = initial_state();
    let ps = all_paths(decls, 0, Seq::empty(), tree, 0);
    let j = choose|j: int| 0 <= j < ps.len() && ps[j] == p;
    law_items_are_found_before_their_declaration(s, decls, tree, j);
    lemma_reg_decls(s, decls, 0, Seq::empty(), tree, 0);
    let a = reg_decls(s, decls, 0, Seq::empty(), tree, 0).0;
    let b = fresh(a).0;
    let lo = b.next_id as int;
    let c = low_decls(b, decls, 0, Seq::empty(), tree, 0, Seq::empty());
    lemma_decls_stand(b, decls, 0, Seq::empty(), tree, 0, Seq::empty(), a.paths, c.0.paths, lo, p);
}

} // verus!
