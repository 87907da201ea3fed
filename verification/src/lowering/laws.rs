//! What holds of name resolution as a whole.

use crate::ast::{EnumVariantV, ImplMethodV, PathV, TopLevelDeclV, TypeV};
use crate::hir::DefId;
use crate::lowering::defined::{all_paths, own_paths, variant_paths};
use crate::lowering::rules::{
    all_methods, child, default_method, module_name, provides, reg_decls, reg_plain, reg_variants,
    register_def, trait_name, with_defaults, LowerState,
};
use crate::lowering::source::{SourceTreeV, TraitMethodInfoV};
use crate::table::lookup;
use vstd::prelude::*;

verus! {

// Registration

/// All these paths are registered.
spec fn has_all(s: LowerState, ps: Seq<Seq<Seq<char>>>) -> bool {
    forall|k: int| 0 <= k < ps.len() ==> s.paths.dom().contains(#[trigger] ps[k])
}

/// What is registered stays registered.
spec fn keeps(s: LowerState, t: LowerState) -> bool {
    forall|p: Seq<Seq<char>>| s.paths.dom().contains(p) ==> #[trigger] t.paths.dom().contains(p)
}

proof fn lemma_has_parts(s: LowerState, ps: Seq<Seq<Seq<char>>>, qs: Seq<Seq<Seq<char>>>)
    requires
        has_all(s, ps),
        has_all(s, qs),
    ensures
        has_all(s, ps + qs),
{
    let rs = ps + qs;
    assert forall|k: int| 0 <= k < rs.len() implies s.paths.dom().contains(#[trigger] rs[k]) by {
        if k < ps.len() {
            assert(rs[k] == ps[k]);
        } else {
            assert(rs[k] == qs[k - ps.len()]);
        }
    }
}

proof fn lemma_register(s: LowerState, prefix: Seq<Seq<char>>, name: Seq<char>)
    ensures
        register_def(s, prefix, name).1 is Ok ==> {
            let t = register_def(s, prefix, name).0;
            keeps(s, t) && has_all(t, seq![prefix.push(name)])
        },
{
}

proof fn lemma_reg_variants(
    s: LowerState,
    prefix: Seq<Seq<char>>,
    enum_def: DefId,
    vs: Seq<EnumVariantV>,
    i: int,
)
    requires
        0 <= i,
    ensures
        reg_variants(s, prefix, enum_def, vs, i).1 is Ok ==> {
            let t = reg_variants(s, prefix, enum_def, vs, i).0;
            keeps(s, t) && has_all(t, variant_paths(vs, prefix, i))
        },
    decreases vs.len() - i,
{
    if i < vs.len() {
        lemma_register(s, prefix, vs[i].name);
        let a = register_def(s, prefix, vs[i].name);
        if let Ok(id) = a.1 {
            let b = LowerState { variants: a.0.variants.insert(id, (enum_def, vs[i].name)), ..a.0 };
            lemma_reg_variants(b, prefix, enum_def, vs, i + 1);
            let r = reg_variants(b, prefix, enum_def, vs, i + 1);
            if r.1 is Ok {
                assert(seq![prefix.push(vs[i].name)][0] == prefix.push(vs[i].name));
                lemma_has_parts(
                    r.0,
                    seq![prefix.push(vs[i].name)],
                    variant_paths(vs, prefix, i + 1),
                );
            }
        }
    }
}

proof fn lemma_reg_plain(s: LowerState, d: TopLevelDeclV, prefix: Seq<Seq<char>>)
    ensures
        reg_plain(s, d, prefix).1 is Ok ==> keeps(s, reg_plain(s, d, prefix).0) && has_all(
            reg_plain(s, d, prefix).0,
            own_paths(d, prefix),
        ),
{
    reveal(reg_plain);
    match d {
        TopLevelDeclV::ModDecl { name, .. } => {
            lemma_register(s, prefix, name);
        },
        TopLevelDeclV::ExternCrate { name, .. } => {
            lemma_register(s, prefix, name);
        },
        TopLevelDeclV::ExternFnDef { name, .. } => {
            lemma_register(s, prefix, name);
        },
        TopLevelDeclV::FnDef { name, .. } => {
            lemma_register(s, prefix, name);
        },
        TopLevelDeclV::StructDef { name, .. } => {
            lemma_register(s, prefix, name);
        },
        TopLevelDeclV::Static { name, .. } => {
            lemma_register(s, prefix, name);
        },
        TopLevelDeclV::Const { name, .. } => {
            lemma_register(s, prefix, name);
        },
        TopLevelDeclV::Trait { name, .. } => {
            lemma_register(s, prefix, name);
        },
        TopLevelDeclV::Enum { name, variants, .. } => {
            lemma_register(s, prefix, name);
            let a = register_def(s, prefix, name);
            if let Ok(id) = a.1 {
                let b = LowerState { enums: a.0.enums.insert(id, ()), ..a.0 };
                lemma_reg_variants(b, prefix, id, variants, 0);
                let r = reg_variants(b, prefix, id, variants, 0);
                if r.1 is Ok {
                    assert(seq![prefix.push(name)][0] == prefix.push(name));
                    lemma_has_parts(
                        r.0,
                        seq![prefix.push(name)],
                        variant_paths(variants, prefix, 0),
                    );
                }
            }
        },
        _ => {},
    }
}

proof fn lemma_reg_decls(
    s: LowerState,
    ds: Seq<TopLevelDeclV>,
    i: int,
    prefix: Seq<Seq<char>>,
    tree: SourceTreeV,
    k: int,
)
    requires
        0 <= i,
    ensures
        reg_decls(s, ds, i, prefix, tree, k).1 is Ok ==> keeps(s, reg_decls(s, ds, i, prefix, tree, k).0) && has_all(reg_decls(s, ds, i, prefix, tree, k).0, all_paths(ds, i, prefix, tree, k)),
    decreases tree, ds.len() - i,
{
    if i < ds.len() {
        lemma_reg_plain(s, ds[i], prefix);
        let a = reg_plain(s, ds[i], prefix);
        let own = own_paths(ds[i], prefix);
        if a.1 is Ok {
            match module_name(ds[i]) {
                Some(name) => {
                    match child(tree, k) {
                        Some(sub) => {
                            lemma_reg_decls(
                                a.0,
                                sub.unit.declarations,
                                0,
                                prefix.push(name),
                                sub.children,
                                0,
                            );
                            let b = reg_decls(
                                a.0,
                                sub.unit.declarations,
                                0,
                                prefix.push(name),
                                sub.children,
                                0,
                            );
                            if b.1 is Ok {
                                lemma_reg_decls(b.0, ds, i + 1, prefix, tree, k + 1);
                                let c = reg_decls(b.0, ds, i + 1, prefix, tree, k + 1);
                                if c.1 is Ok {
                                    let inside = all_paths(
                                        sub.unit.declarations,
                                        0,
                                        prefix.push(name),
                                        sub.children,
                                        0,
                                    );
                                    lemma_has_parts(c.0, own, inside);
                                    lemma_has_parts(
                                        c.0,
                                        own + inside,
                                        all_paths(ds, i + 1, prefix, tree, k + 1),
                                    );
                                }
                            }
                        },
                        None => {
                            lemma_reg_decls(a.0, ds, i + 1, prefix, tree, k + 1);
                            let c = reg_decls(a.0, ds, i + 1, prefix, tree, k + 1);
                            if c.1 is Ok {
                                lemma_has_parts(
                                    c.0,
                                    own,
                                    all_paths(ds, i + 1, prefix, tree, k + 1),
                                );
                            }
                        },
                    }
                },
                None => {
                    lemma_reg_decls(a.0, ds, i + 1, prefix, tree, k);
                    let c = reg_decls(a.0, ds, i + 1, prefix, tree, k);
                    if c.1 is Ok {
                        lemma_has_parts(c.0, own, all_paths(ds, i + 1, prefix, tree, k));
                    }
                },
            }
        }
    }
}

/// A name can be used before it is declared: when the declarations begin to be
/// resolved, every item of the program and of the files that it brings in is
/// found under its full path.
pub proof fn law_items_are_found_before_their_declaration(
    s: LowerState,
    ds: Seq<TopLevelDeclV>,
    tree: SourceTreeV,
    k: int,
)
    requires
        reg_decls(s, ds, 0, Seq::empty(), tree, 0).1 is Ok,
        0 <= k < all_paths(ds, 0, Seq::empty(), tree, 0).len(),
    ensures
        reg_decls(s, ds, 0, Seq::empty(), tree, 0).0.paths.dom().contains(
            all_paths(ds, 0, Seq::empty(), tree, 0)[k],
        ),
{
    lemma_reg_decls(s, ds, 0, Seq::empty(), tree, 0);
}

// Implementations

/// Whether one of the methods has this name.
pub open spec fn has_method(ms: Seq<ImplMethodV>, name: Seq<char>) -> bool {
    exists|j: int| 0 <= j < ms.len() && (#[trigger] ms[j]).name == name
}

/// Whether a method is the default of one of the contracts from `i` on.
pub open spec fn is_default(req: Seq<TraitMethodInfoV>, i: int, m: ImplMethodV) -> bool {
    exists|k: int| i <= k < req.len() && (#[trigger] req[k]).default_body is Some && m == default_method(req[k], req[k].default_body->0)
}

proof fn lemma_provided(ms: Seq<ImplMethodV>, i: int, name: Seq<char>)
    requires
        0 <= i,
    ensures
        provides(ms, name, i) ==> exists|j: int| i <= j < ms.len() && (#[trigger] ms[j]).name == name,
    decreases ms.len() - i,
{
    if i < ms.len() && ms[i].name != name {
        lemma_provided(ms, i + 1, name);
    }
}

proof fn lemma_defaults(
    ty: TypeV,
    tr: Seq<char>,
    req: Seq<TraitMethodInfoV>,
    ms: Seq<ImplMethodV>,
    i: int,
    done: Seq<ImplMethodV>,
)
    requires
        0 <= i,
        ms.len() <= done.len(),
        forall|j: int| 0 <= j < ms.len() ==> #[trigger] done[j] == ms[j],
    ensures
        with_defaults(ty, tr, req, ms, i, done) is Ok ==> {
            let out = with_defaults(ty, tr, req, ms, i, done)->Ok_0;
            &&& done.len() <= out.len()
            &&& forall|j: int| 0 <= j < done.len() ==> #[trigger] out[j] == done[j]
            &&& forall|k: int| i <= k < req.len() ==> has_method(out, (#[trigger] req[k]).name)
            &&& forall|j: int| done.len() <= j < out.len() ==> is_default(req, i, #[trigger] out[j])
        },
    decreases req.len() - i,
{
    if i < req.len() {
        if provides(ms, req[i].name, 0) {
            lemma_defaults(ty, tr, req, ms, i + 1, done);
            if let Ok(out) = with_defaults(ty, tr, req, ms, i + 1, done) {
                lemma_provided(ms, 0, req[i].name);
                let j = choose|j: int| 0 <= j < ms.len() && (#[trigger] ms[j]).name == req[i].name;
                assert(out[j] == done[j]);
                assert(out[j].name == req[i].name);
            }
        } else if let Some(body) = req[i].default_body {
            let m = default_method(req[i], body);
            let next = done.push(m);
            assert forall|j: int| 0 <= j < ms.len() implies #[trigger] next[j] == ms[j] by {
                assert(done[j] == ms[j]);
            }
            lemma_defaults(ty, tr, req, ms, i + 1, next);
            if let Ok(out) = with_defaults(ty, tr, req, ms, i + 1, next) {
                assert(out[done.len() as int] == next[done.len() as int]);
                assert(out[done.len() as int].name == req[i].name);
                assert forall|j: int| 0 <= j < done.len() implies #[trigger] out[j] == done[j] by {
                    assert(out[j] == next[j]);
                }
                assert forall|j: int| done.len() <= j < out.len() implies is_default(req, i, #[trigger] out[j]) by {
                    if j == done.len() {
                        assert(req[i].default_body is Some && out[j] == default_method(req[i], req[i].default_body->0));
                    }
                }
            }
        }
    }
}

/// An implementation of a trait has every method of the trait. The methods that
/// it gives itself come first and stay as they are; the others are the defaults
/// of the trait.
pub proof fn law_implementation_is_complete(
    s: LowerState,
    ty: TypeV,
    tr: PathV,
    ms: Seq<ImplMethodV>,
)
    requires
        all_methods(s, ty, Some(tr), ms) is Ok,
    ensures
        ({
                let req = lookup(s.traits, trait_name(tr))->0;
                let out = all_methods(s, ty, Some(tr), ms)->Ok_0;
                &&& forall|k: int| 0 <= k < req.len() ==> has_method(out, (#[trigger] req[k]).name)
                &&& ms.len() <= out.len()
                &&& forall|j: int| 0 <= j < ms.len() ==> #[trigger] out[j] == ms[j]
                &&& forall|j: int| ms.len() <= j < out.len() ==> is_default(
                    req,
                    0,
                    #[trigger] out[j],
                )
        }),
{
    reveal(all_methods);
    let req = lookup(s.traits, trait_name(tr))->0;
    lemma_defaults(ty, trait_name(tr), req, ms, 0, ms);
}

} // verus!

