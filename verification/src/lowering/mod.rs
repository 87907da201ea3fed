//! Name resolution: from the syntax tree to the resolved representation.
//!
//! Every definition gets a [`DefId`]. What a name stands for, and which error
//! an unknown one gives, is stated in [`rules`].

use crate::ast;
use crate::ast::{
    lemma_type_or_const_view, lemma_type_view, GenericParam, GenericParamKind, Literal, Param,
    Path, Type,
};
use crate::error::{MplangError, MplangErrorV};
use crate::hir;
use crate::hir::{lemma_hir_type_view, ConstArg, DefId, HirType, VTable};
use crate::list::{empty_list, push_item};
use crate::lowering::rules::{
    const_param_of, fresh, generic_index, initial_state, l_generic_args, l_opt_type, l_turbofish,
    l_type, l_types, new_local, no_const_param, register_def, registered, resolve, unresolved,
    LowerState,
};
use crate::lowering::source::{lemma_source_tree_view, SourceTree, TraitMethodInfo};
use crate::symbol::SymbolPath;
use crate::table::Table;
use crate::text::{cat3, cat5, copy_strings};
use vstd::prelude::*;
use vstd::string::*;

pub mod crates;
pub mod defined;
mod expr;
pub mod found;
mod items;
pub mod laws;
pub mod loading;
pub mod rules;
pub mod scope;
pub mod shape;
pub mod source;
pub mod unique;

verus! {

/// The name resolver.
pub struct Lowerer {
    next_id: u32,
    path_to_def: Table<SymbolPath, DefId>,
    last_seg_index: Table<String, DefId>,
    cur_generics: Vec<GenericParam>,
    aliases: Table<String, DefId>,
    traits: Table<String, Vec<TraitMethodInfo>>,
    variant_defs: Table<DefId, (DefId, String)>,
    enum_defs: Table<DefId, ()>,
    trait_def_map: Table<String, DefId>,
    vtables: Vec<VTable>,
    locals: Table<String, DefId>,
    sources: SourceTree,
}

/// Whether an executed step returns what the rules say.
pub open spec fn gives<T: DeepView>(
    r: Result<T, MplangError>,
    want: Result<T::V, MplangErrorV>,
) -> bool {
    match r {
        Ok(v) => want == Ok::<T::V, MplangErrorV>(v.deep_view()),
        Err(e) => want == Err::<T::V, MplangErrorV>(e.deep_view()),
    }
}

/// Whether an executed step returns what the rules say and leaves the resolver
/// in the state that they say.
pub open spec fn lowers<T: DeepView>(
    before: &Lowerer,
    after: &Lowerer,
    r: Result<T, MplangError>,
    want: (LowerState, Result<T::V, MplangErrorV>),
) -> bool {
    &&& after.tree() == before.tree()
    &&& after.state() == want.0
    &&& gives(r, want.1)
}

impl Lowerer {
    /// The state of the resolver.
    pub closed spec fn state(&self) -> LowerState {
        LowerState {
            next_id: self.next_id,
            paths: self.path_to_def@,
            names: self.last_seg_index@,
            generics: self.cur_generics.deep_view(),
            aliases: self.aliases@,
            traits: self.traits@,
            variants: self.variant_defs@,
            enums: self.enum_defs@,
            trait_defs: self.trait_def_map@,
            vtables: self.vtables.deep_view(),
            locals: self.locals@,
        }
    }

    /// The files that module declarations bring in.
    pub closed spec fn tree(&self) -> crate::lowering::source::SourceTreeV {
        self.sources.deep_view()
    }

    /// A resolver for a program whose module declarations bring in `sources`;
    /// without `sources` every module is empty.
    pub fn new(sources: Option<SourceTree>) -> (r: Self)
        ensures
            r.state() == initial_state(),
            r.tree() == (match sources {
                Some(t) => t.deep_view(),
                None => crate::lowering::source::SourceTreeV { units: Seq::empty() },
            }),
    {
        let sources = match sources {
            Some(t) => t,
            None => {
                let t = SourceTree { units: empty_list() };
                proof {
                    lemma_source_tree_view(t);
                }
                t
            },
        };
        Lowerer {
            next_id: 0,
            path_to_def: Table::new(),
            last_seg_index: Table::new(),
            cur_generics: empty_list(),
            aliases: Table::new(),
            traits: Table::new(),
            variant_defs: Table::new(),
            enum_defs: Table::new(),
            trait_def_map: Table::new(),
            vtables: empty_list(),
            locals: Table::new(),
            sources,
        }
    }

    fn fresh_id(&mut self) -> (r: Result<DefId, MplangError>)
        ensures
            lowers(old(self), final(self), r, fresh(old(self).state())),
    {
        if self.next_id == u32::MAX {
            return Err(MplangError::other("attempt to add with overflow"));
        }
        let id = DefId(self.next_id);
        self.next_id += 1;
        Ok(id)
    }

    fn register_def(
        &mut self,
        prefix: &Vec<String>,
        name: &String,
    ) -> (r: Result<DefId, MplangError>)
        ensures
            lowers(
                old(self),
                final(self),
                r,
                register_def(old(self).state(), prefix.deep_view(), name@),
            ),
    {
        let id = self.fresh_id()?;
        let segs = joined_path(prefix, name);
        self.path_to_def.insert(segs, id);
        self.last_seg_index.insert(name.clone(), id);
        Ok(id)
    }

    fn new_local(&mut self, name: &String) -> (r: Result<DefId, MplangError>)
        ensures
            lowers(old(self), final(self), r, new_local(old(self).state(), name@)),
    {
        let id = self.fresh_id()?;
        self.locals.insert(name.clone(), id);
        Ok(id)
    }

    fn registered(&self, prefix: &Vec<String>, name: &String) -> (r: Result<DefId, MplangError>)
        ensures
            gives(r, registered(self.state(), prefix.deep_view().push(name@))),
    {
        let segs = joined_path(prefix, name);
        match self.path_to_def.get(&segs) {
            Some(id) => Ok(*id),
            None => Err(MplangError::other("no entry found for key")),
        }
    }

    fn resolve_path(&self, path: &Path, ctx: &str) -> (r: Result<DefId, MplangError>)
        ensures
            gives(r, resolve(self.state(), path.deep_view(), ctx@)),
    {
        let n: usize = path.segments.len();
        if n == 1 {
            if let Some(d) = self.aliases.get(&path.segments[0]) {
                return Ok(*d);
            }
        }
        let sp = SymbolPath { segments: copy_strings(&path.segments) };
        if let Some(d) = self.path_to_def.get(&sp) {
            return Ok(*d);
        }
        if n == 0 {
            return Err(MplangError::other("called `Option::unwrap()` on a `None` value"));
        }
        if let Some(d) = self.last_seg_index.get(&path.segments[n - 1]) {
            return Ok(*d);
        }
        proof {
            reveal(unresolved);
        }
        let shown = path.to_string();
        let text = cat5("无法解析名字 `", shown.as_str(), "`（", ctx, "）");
        Err(MplangError::lowering(text.as_str()))
    }

    fn generic_index(&self, kind: GenericParamKind, name: &String) -> (r: Option<usize>)
        ensures
            r == generic_index(self.state().generics, kind, name@, 0),
    {
        let ghost gs = self.cur_generics.deep_view();
        for i in 0..self.cur_generics.len()
            invariant
                gs == self.cur_generics.deep_view(),
                gs.len() == self.cur_generics@.len(),
                generic_index(gs, kind, name@, 0) == generic_index(gs, kind, name@, i as int),
        {
            if self.cur_generics[i].kind == kind && self.cur_generics[i].name == *name {
                return Some(i);
            }
        }
        None
    }

    fn type_param_index(&self, path: &Path) -> (r: Option<usize>)
        ensures
            r == (if path.deep_view().segments.len() == 1 {
                generic_index(
                    self.state().generics,
                    GenericParamKind::Type,
                    path.deep_view().segments[0],
                    0,
                )
            } else {
                None
            }),
    {
        if path.segments.len() == 1 {
            self.generic_index(GenericParamKind::Type, &path.segments[0])
        } else {
            None
        }
    }

    fn const_param_index(&self, name: &String) -> (r: Result<usize, MplangError>)
        ensures
            match r {
                Ok(i) => generic_index(self.state().generics, GenericParamKind::Const, name@, 0)
                    == Some(i),
                Err(e) => generic_index(self.state().generics, GenericParamKind::Const, name@, 0)
                    is None && e.deep_view() == no_const_param(name@),
            },
    {
        match self.generic_index(GenericParamKind::Const, name) {
            Some(i) => Ok(i),
            None => {
                proof {
                    reveal(no_const_param);
                }
                let text = cat3("未定义的常量参数 `", name.as_str(), "`（内部错误）");
                Err(MplangError::lowering(text.as_str()))
            },
        }
    }

    /// The constant parameter that a generic argument written as a type
    /// refers to.
    fn const_param_of(&self, t: &Type) -> (r: Option<usize>)
        ensures
            r == const_param_of(self.state(), t.deep_view()),
    {
        proof {
            lemma_type_view(*t);
        }
        match t {
            Type::Named(p) => if p.segments.len() == 1 {
                self.generic_index(GenericParamKind::Const, &p.segments[0])
            } else {
                None
            },
            _ => None,
        }
    }

    fn lower_type(&self, ty: &Type) -> (r: Result<HirType, MplangError>)
        ensures
            gives(r, l_type(self.state(), ty.deep_view())),
        decreases ty,
    {
        proof {
            lemma_type_view(*ty);
        }
        match ty {
            Type::Int => {
                proof {
                    lemma_hir_type_view(HirType::Int);
                }
                Ok(HirType::Int)
            },
            Type::Char => {
                proof {
                    lemma_hir_type_view(HirType::Char);
                }
                Ok(HirType::Char)
            },
            Type::Unit => {
                proof {
                    lemma_hir_type_view(HirType::Unit);
                }
                Ok(HirType::Unit)
            },
            Type::Pointer(inner) => {
                let h = self.lower_type(&**inner)?;
                proof {
                    lemma_hir_type_view(h);
                }
                if let HirType::Named(d) = &h {
                    if self.trait_def_map.has_value(d) {
                        let r = HirType::TraitObject(*d);
                        proof {
                            lemma_hir_type_view(r);
                        }
                        return Ok(r);
                    }
                }
                let r = HirType::Pointer(Box::new(h));
                proof {
                    lemma_hir_type_view(r);
                }
                Ok(r)
            },
            Type::Array(inner, len) => {
                let e = self.lower_type(&**inner)?;
                let n = match len {
                    ast::ArrayLen::Known(n) => hir::ArrayLen::Known(*n),
                    ast::ArrayLen::Param(name) => hir::ArrayLen::Const(
                        self.const_param_index(name)?,
                    ),
                };
                let r = HirType::Array(Box::new(e), n);
                proof {
                    lemma_hir_type_view(r);
                }
                Ok(r)
            },
            Type::Named(path) => {
                if let Some(i) = self.type_param_index(path) {
                    let r = HirType::Var(i);
                    proof {
                        lemma_hir_type_view(r);
                    }
                    return Ok(r);
                }
                let d = self.resolve_path(path, "类型")?;
                let r = if self.enum_defs.contains(&d) {
                    HirType::Enum(d, empty_list(), empty_list())
                } else {
                    HirType::Named(d)
                };
                proof {
                    lemma_hir_type_view(r);
                }
                Ok(r)
            },
            Type::Applied(path, args) => {
                let d = self.resolve_path(path, "类型")?;
                let (targs, cargs) = self.lower_generic_args(args)?;
                let r = if self.enum_defs.contains(&d) {
                    HirType::Enum(d, targs, cargs)
                } else {
                    HirType::Generic(d, targs, cargs)
                };
                proof {
                    lemma_hir_type_view(r);
                }
                Ok(r)
            },
            Type::Enum(path, args) => {
                let d = self.resolve_path(path, "枚举类型")?;
                let (targs, cargs) = self.lower_generic_args(args)?;
                let r = HirType::Enum(d, targs, cargs);
                proof {
                    lemma_hir_type_view(r);
                }
                Ok(r)
            },
        }
    }

    fn lower_generic_args(&self, args: &Vec<ast::TypeOrConst>) -> (r: Result<
        (Vec<HirType>, Vec<ConstArg>),
        MplangError,
    >)
        ensures
            gives(
                r,
                l_generic_args(self.state(), args.deep_view(), 0, Seq::empty(), Seq::empty()),
            ),
        decreases args,
    {
        let mut targs: Vec<HirType> = empty_list();
        let mut cargs: Vec<ConstArg> = empty_list();
        let ghost goal = l_generic_args(
            self.state(),
            args.deep_view(),
            0,
            Seq::empty(),
            Seq::empty(),
        );
        for i in 0..args.len()
            invariant
                goal == l_generic_args(
                    self.state(),
                    args.deep_view(),
                    0,
                    Seq::empty(),
                    Seq::empty(),
                ),
                goal == l_generic_args(
                    self.state(),
                    args.deep_view(),
                    i as int,
                    targs.deep_view(),
                    cargs.deep_view(),
                ),
        {
            proof {
                lemma_type_or_const_view(args@[i as int]);
            }
            match &args[i] {
                ast::TypeOrConst::Type(t) => {
                    match self.const_param_of(t) {
                        Some(p) => {
                            push_item(&mut cargs, ConstArg::Param(p));
                        },
                        None => {
                            let h = self.lower_type(t)?;
                            push_item(&mut targs, h);
                        },
                    }
                },
                ast::TypeOrConst::Const(v) => {
                    push_item(&mut cargs, ConstArg::Literal(*v));
                },
            }
        }
        Ok((targs, cargs))
    }

    fn lower_turbofish(&self, args: &Vec<ast::TypeOrConst>) -> (r: Result<
        Vec<hir::TypeOrConst>,
        MplangError,
    >)
        ensures
            gives(r, l_turbofish(self.state(), args.deep_view(), 0, Seq::empty())),
    {
        let mut out: Vec<hir::TypeOrConst> = empty_list();
        let ghost goal = l_turbofish(self.state(), args.deep_view(), 0, Seq::empty());
        for i in 0..args.len()
            invariant
                goal == l_turbofish(self.state(), args.deep_view(), 0, Seq::empty()),
                goal == l_turbofish(self.state(), args.deep_view(), i as int, out.deep_view()),
        {
            proof {
                lemma_type_or_const_view(args@[i as int]);
            }
            match &args[i] {
                ast::TypeOrConst::Type(t) => {
                    match self.const_param_of(t) {
                        Some(p) => {
                            push_item(&mut out, hir::TypeOrConst::ConstParam(p));
                        },
                        None => {
                            let h = self.lower_type(t)?;
                            push_item(&mut out, hir::TypeOrConst::Type(h));
                        },
                    }
                },
                ast::TypeOrConst::Const(v) => {
                    push_item(&mut out, hir::TypeOrConst::Const(*v));
                },
            }
        }
        Ok(out)
    }

    fn lower_types(&self, ts: &Vec<Type>) -> (r: Result<Vec<HirType>, MplangError>)
        ensures
            gives(r, l_types(self.state(), ts.deep_view(), 0, Seq::empty())),
    {
        let mut out: Vec<HirType> = empty_list();
        let ghost goal = l_types(self.state(), ts.deep_view(), 0, Seq::empty());
        for i in 0..ts.len()
            invariant
                goal == l_types(self.state(), ts.deep_view(), 0, Seq::empty()),
                goal == l_types(self.state(), ts.deep_view(), i as int, out.deep_view()),
        {
            let h = self.lower_type(&ts[i])?;
            push_item(&mut out, h);
        }
        Ok(out)
    }

    fn lower_opt_type(&self, t: &Option<Type>) -> (r: Result<Option<HirType>, MplangError>)
        ensures
            gives(r, l_opt_type(self.state(), t.deep_view())),
    {
        match t {
            Some(t) => {
                let h = self.lower_type(t)?;
                Ok(Some(h))
            },
            None => Ok(None),
        }
    }
}

/// `prefix` followed by `name`.
fn joined_path(prefix: &Vec<String>, name: &String) -> (r: SymbolPath)
    ensures
        r.deep_view() == prefix.deep_view().push(name@),
{
    SymbolPath { segments: extended(prefix, name) }
}

/// `prefix` followed by `name`.
fn extended(prefix: &Vec<String>, name: &String) -> (r: Vec<String>)
    ensures
        r.deep_view() == prefix.deep_view().push(name@),
{
    let mut segs = copy_strings(prefix);
    push_item(&mut segs, name.clone());
    segs
}

} // verus!
