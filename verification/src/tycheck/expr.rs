//! Expressions, matches and statements.

use crate::ast::{BinOp, GenericParam, Literal};
use crate::error::{MplangError, MplangErrorV};
use crate::hir::{
    lemma_hir_body_view, lemma_hir_expr_view, lemma_hir_match_arm_view, lemma_hir_stmt_view,
    lemma_hir_type_view, ArrayLen, ConstArg, DefId, HirExpr, HirMatchArm, HirPattern, HirStmt,
    HirType, HirTypeV, TypeOrConst,
};
use crate::list::{copy_list, empty_list, list_of, push_item};
use crate::lowering::gives;
use crate::text::{cat3, cat5, usize_string};
use crate::tycheck::generics::{
    field_index, infer_struct_args, instantiate_fn_sig, substitute, substitute_all, unify_ty,
    unknown_args,
};
use crate::tycheck::info::{EnumVariantInfo, FuncSig, MethodKey, StructFieldInfo};
use crate::tycheck::rules::{
    all_known, argument_ctx, c_array, c_match, c_method_call, as_trait_object, bind_fields,
    binding_type, c_arms, c_binary, c_call, c_callee, c_construct, c_elements, c_enum_match,
    c_enum_pattern, c_expr, c_exprs, c_field, c_fields, c_inits, c_int_match, c_int_pattern,
    c_literal, c_method, c_method_args, c_path, c_pattern, c_stmt, c_stmts, c_struct,
    c_variant_args, check_args, check_covered, covers, element_type, enum_of, enum_with,
    expected_arg, field_of, generics_of, has_catch_all, is_comparison, is_lvalue, join_result,
    known, match_type, method_types, name_of, pointee, result_type, same_owner, struct_infos,
    subst_types, typed, typed_pattern, untyped, variant_for, variant_named, variant_of_def,
    with_expected, CheckState, Subject,
};
use crate::tycheck::{
    about_count, about_name, about_names, checks, copy_type, expect_type, owner_of, TypeChecker,
};
use crate::tyhir::{
    lemma_ty_hir_body_view, lemma_ty_hir_expr_kind_view, lemma_ty_hir_expr_view,
    lemma_ty_hir_match_arm_view, lemma_ty_hir_stmt_view, TyHirBody, TyHirExpr, TyHirExprKind,
    TyHirMatchArm, TyHirPattern, TyHirStmt, TyHirStmtV,
};
use vstd::prelude::*;

verus! {

/// An expression of a type.
fn typed_expr(ty: HirType, kind: TyHirExprKind) -> (r: TyHirExpr)
    ensures
        r.deep_view() == typed(ty.deep_view(), kind.deep_view()),
{
    let r = TyHirExpr { ty, kind };
    proof {
        lemma_ty_hir_expr_view(r);
    }
    r
}

/// Whether an expression denotes a place in memory.
fn has_place(e: &HirExpr) -> (r: bool)
    ensures
        r == is_lvalue(e.deep_view()),
    decreases e,
{
    proof {
        lemma_hir_expr_view(*e);
    }
    match e {
        HirExpr::Path(_) => true,
        HirExpr::FieldAccess { object, .. } => has_place(&**object),
        HirExpr::Index { array, .. } => has_place(&**array),
        HirExpr::AddressOf(_) => true,
        HirExpr::Deref(_) => true,
        _ => false,
    }
}

fn compares(op: BinOp) -> (r: bool)
    ensures
        r == is_comparison(op),
{
    match op {
        BinOp::Add => false,
        BinOp::Sub => false,
        BinOp::Mul => false,
        BinOp::Div => false,
        _ => true,
    }
}

/// The index of the variant of this name.
fn variant_index(vs: &Vec<EnumVariantInfo>, name: &String) -> (r: Option<usize>)
    ensures
        match r {
            Some(k) => k < vs@.len() && variant_named(vs.deep_view(), name@, 0) == Some(
                vs@[k as int].deep_view(),
            ),
            None => variant_named(vs.deep_view(), name@, 0) is None,
        },
{
    for i in 0..vs.len()
        invariant
            variant_named(vs.deep_view(), name@, 0) == variant_named(
                vs.deep_view(),
                name@,
                i as int,
            ),
    {
        if vs[i].name == *name {
            return Some(i);
        }
    }
    None
}

fn check_literal(l: &Literal) -> (r: TyHirExpr)
    ensures
        r.deep_view() == c_literal(l.deep_view()),
{
    let kind = TyHirExprKind::Literal(l.clone());
    proof {
        lemma_ty_hir_expr_kind_view(kind);
        lemma_hir_type_view(HirType::Int);
    }
    match l {
        Literal::Int(_) => typed_expr(HirType::Int, kind),
        Literal::String(_) => typed_expr(HirType::char_ptr(), kind),
    }
}

fn is_int(t: &HirType) -> (r: bool)
    ensures
        r == (t.deep_view() is Int),
{
    proof {
        lemma_hir_type_view(*t);
    }
    match t {
        HirType::Int => true,
        _ => false,
    }
}

fn is_pointer(t: &HirType) -> (r: bool)
    ensures
        r == (t.deep_view() is Pointer),
{
    proof {
        lemma_hir_type_view(*t);
    }
    match t {
        HirType::Pointer(_) => true,
        _ => false,
    }
}

/// The type must be `int`.
fn expect_int(t: &HirType, ctx: &str) -> (r: Result<(), MplangError>)
    ensures
        gives(r, crate::tycheck::rules::assert_ty(t.deep_view(), HirTypeV::Int, ctx@)),
{
    proof {
        lemma_hir_type_view(HirType::Int);
    }
    expect_type(t, &HirType::Int, ctx)
}

fn check_binary(op: BinOp, l: TyHirExpr, r: TyHirExpr) -> (res: Result<TyHirExpr, MplangError>)
    ensures
        gives(res, c_binary(op, l.deep_view(), r.deep_view())),
{
    proof {
        reveal(c_binary);
        lemma_ty_hir_expr_view(l);
        lemma_ty_hir_expr_view(r);
        lemma_hir_type_view(HirType::Int);
    }
    if compares(op) {
        let ints = is_int(&l.ty) && is_int(&r.ty);
        let pointers = is_pointer(&l.ty) && is_pointer(&r.ty);
        if !ints && !pointers {
            return Err(
                MplangError::type_error("比较运算的两个操作数必须同为 int 或同为指针"),
            );
        }
    } else {
        expect_int(&l.ty, "算术运算左操作数")?;
        expect_int(&r.ty, "算术运算右操作数")?;
    }
    let kind = TyHirExprKind::Binary { op, lhs: Box::new(l), rhs: Box::new(r) };
    proof {
        lemma_ty_hir_expr_kind_view(kind);
    }
    Ok(typed_expr(HirType::Int, kind))
}

fn has_same_owner(a: &HirType, b: &HirType) -> (r: bool)
    ensures
        r == same_owner(a.deep_view(), b.deep_view()),
{
    proof {
        lemma_hir_type_view(*a);
        lemma_hir_type_view(*b);
    }
    match (a, b) {
        (HirType::Generic(d, _, _), HirType::Generic(e, _, _)) => *d == *e,
        (HirType::Enum(d, _, _), HirType::Enum(e, _, _)) => *d == *e,
        (HirType::Named(d), HirType::Named(e)) => *d == *e,
        _ => false,
    }
}

/// The types of a method for its receiver.
fn types_for(sig: &FuncSig, recv: &HirType) -> (r: Result<(Vec<HirType>, HirType), MplangError>)
    ensures
        gives(r, method_types(sig.deep_view(), recv.deep_view())),
{
    proof {
        lemma_hir_type_view(*recv);
    }
    match recv {
        HirType::Generic(_, ta, ca) => {
            let ps = substitute_all(&sig.param_types, &sig.generics, ta, ca)?;
            let t = substitute(&sig.ret_ty, &sig.generics, ta, ca)?;
            Ok((ps, t))
        },
        HirType::Enum(_, ta, ca) => {
            let ps = substitute_all(&sig.param_types, &sig.generics, ta, ca)?;
            let t = substitute(&sig.ret_ty, &sig.generics, ta, ca)?;
            Ok((ps, t))
        },
        _ => Ok((copy_list(&sig.param_types), sig.ret_ty.clone())),
    }
}

fn place_of_arg(a: &str, name: &str, i: usize) -> (r: String)
    ensures
        r@ == argument_ctx(a@, name@, i as nat),
{
    proof {
        reveal(argument_ctx);
    }
    let n = usize_string(i);
    cat5(a, name, "` 第 ", n.as_str(), " 个参数")
}

fn expect_args(name: &String, args: &Vec<TyHirExpr>, params: &Vec<HirType>) -> (r: Result<
    (),
    MplangError,
>)
    ensures
        gives(r, check_args(name@, args.deep_view(), params.deep_view(), 0)),
{
    let ghost goal = check_args(name@, args.deep_view(), params.deep_view(), 0);
    for i in 0..args.len()
        invariant
            goal == check_args(name@, args.deep_view(), params.deep_view(), 0),
            goal == check_args(name@, args.deep_view(), params.deep_view(), i as int),
    {
        if i < params.len() {
            proof {
                lemma_ty_hir_expr_view(args@[i as int]);
            }
            let ctx = place_of_arg("函数 `", name.as_str(), i);
            expect_type(&args[i].ty, &params[i], ctx.as_str())?;
        }
    }
    Ok(())
}

/// The type of the elements of an array.
fn elements_of(t: &HirType) -> (r: Result<HirType, MplangError>)
    ensures
        gives(r, element_type(t.deep_view())),
{
    proof {
        reveal(element_type);
        lemma_hir_type_view(*t);
    }
    match t {
        HirType::Array(e, _) => Ok((**e).clone()),
        _ => {
            let shown = t.to_text();
            Err(about_name("对非数组类型 ", shown.as_str(), " 进行下标访问 `[..]`"))
        },
    }
}

/// The type that a pointer points to.
fn target_of(t: &HirType) -> (r: Result<HirType, MplangError>)
    ensures
        gives(r, pointee(t.deep_view())),
{
    proof {
        reveal(pointee);
        lemma_hir_type_view(*t);
    }
    match t {
        HirType::Pointer(e) => Ok((**e).clone()),
        _ => {
            let shown = t.to_text();
            proof {
                reveal_strlit("");
                assert(""@ =~= Seq::empty());
            }
            Err(about_name("解引用 * 需要指针类型，实际为 ", shown.as_str(), ""))
        },
    }
}

impl TypeChecker {
    /// The index of an enumeration.
    fn enum_index(&self, d: DefId) -> (r: Option<usize>)
        ensures
            match r {
                Some(k) => k < self.enum_variants@.len() && enum_of(self.state().enums, d, 0)
                    == Some(self.enum_variants@[k as int].variants.deep_view()),
                None => enum_of(self.state().enums, d, 0) is None,
            },
    {
        let ghost es = self.enum_variants.deep_view();
        for i in 0..self.enum_variants.len()
            invariant
                es == self.enum_variants.deep_view(),
                enum_of(es, d, 0) == enum_of(es, d, i as int),
        {
            if self.enum_variants[i].def_id == d {
                return Some(i);
            }
        }
        None
    }

    /// The first enumeration with a variant of this name.
    fn enum_with(&self, name: &String) -> (r: Option<DefId>)
        ensures
            r == enum_with(self.state().enums, name@, 0),
    {
        let ghost es = self.enum_variants.deep_view();
        for i in 0..self.enum_variants.len()
            invariant
                es == self.enum_variants.deep_view(),
                enum_with(es, name@, 0) == enum_with(es, name@, i as int),
        {
            if variant_index(&self.enum_variants[i].variants, name).is_some() {
                return Some(self.enum_variants[i].def_id);
            }
        }
        None
    }

    fn find_variant_by_def_id(&self, d: DefId) -> (r: Option<(DefId, String)>)
        ensures
            r.deep_view() == variant_of_def(self.state(), d),
    {
        match self.names.get(&d) {
            Some(name) => match self.enum_with(name) {
                Some(e) => Some((e, name.clone())),
                None => None,
            },
            None => None,
        }
    }

    fn variant_for(&self, d: DefId, variant: &String, n: usize) -> (r: Result<
        EnumVariantInfo,
        MplangError,
    >)
        ensures
            gives(r, variant_for(self.state(), d, variant@, n as nat)),
            r matches Ok(v) ==> v.fields@.len() == n,
    {
        proof {
            reveal(variant_for);
        }
        match self.enum_index(d) {
            None => {
                let name = self.name_of(d);
                Err(about_name("未定义的枚举 `", name.as_str(), "`"))
            },
            Some(k) => {
                let vs = &self.enum_variants[k].variants;
                match variant_index(vs, variant) {
                    None => {
                        let name = self.name_of(d);
                        Err(
                            about_names(
                                "枚举 `",
                                name.as_str(),
                                "` 没有变体 `",
                                variant.as_str(),
                                "`",
                            ),
                        )
                    },
                    Some(i) => {
                        let v = vs[i].clone();
                        assert(v.fields.deep_view().len() == v.fields@.len());
                        assert(v.deep_view().fields == vs@[i as int].deep_view().fields);
                        if n != v.fields.len() {
                            let name = self.name_of(d);
                            let full = cat3(name.as_str(), "::", variant.as_str());
                            return Err(
                                about_count(
                                    "变体 `",
                                    full.as_str(),
                                    "` 需要 ",
                                    v.fields.len(),
                                    " 个参数，实际给了 ",
                                    n,
                                ),
                            );
                        }
                        Ok(v)
                    },
                }
            },
        }
    }

    fn generics_of(&self, d: DefId) -> (r: Vec<GenericParam>)
        ensures
            r.deep_view() == generics_of(self.state(), d),
    {
        match self.struct_generics.get(&d) {
            Some(gs) => copy_list(gs),
            None => empty_list(),
        }
    }

    /// The type argument that the context of a construction asks for.
    fn expected_arg(&self, i: usize) -> (r: Option<HirType>)
        ensures
            r.deep_view() == expected_arg(self.state(), i as int),
    {
        match &self.variant_expected_type {
            Some(t) => {
                proof {
                    lemma_hir_type_view(*t);
                }
                match t {
                    HirType::Enum(_, ts, _) => if i < ts.len() {
                        Some(ts[i].clone())
                    } else {
                        None
                    },
                    _ => None,
                }
            },
            None => None,
        }
    }

    fn construct(
        &self,
        d: DefId,
        variant: String,
        ta: Vec<Option<HirType>>,
        args: Vec<TyHirExpr>,
        turbofish: Vec<TypeOrConst>,
    ) -> (r: Result<TyHirExpr, MplangError>)
        ensures
            gives(
                r,
                c_construct(
                    self.state(),
                    d,
                    variant@,
                    ta.deep_view(),
                    args.deep_view(),
                    turbofish.deep_view(),
                ),
            ),
    {
        proof {
            reveal(c_construct);
        }
        let ghost all = with_expected(self.state(), ta.deep_view());
        let mut types: Vec<HirType> = Vec::new();
        for i in 0..ta.len()
            invariant
                all == with_expected(self.state(), ta.deep_view()),
                all.len() == ta@.len(),
                types@.len() == i,
                forall|j: int| 0 <= j < i ==> #[trigger] types@[j].deep_view() == all[j]->0,
                all_known(all, 0) == all_known(all, i as int),
        {
            let given = copy_type(&ta[i]);
            let found = match given {
                Some(t) => Some(t),
                None => self.expected_arg(i),
            };
            match found {
                Some(t) => {
                    types.push(t);
                },
                None => {
                    let name = self.name_of(d);
                    let e = about_name("无法推断枚举 `", name.as_str(), "` 的泛型参数");
                    proof {
                        reveal(c_construct);
                    }
                    return Err(e);
                },
            }
        }
        assert(types.deep_view() =~= known(all));
        let ty = HirType::Enum(d, types, empty_list());
        let kind = TyHirExprKind::Variant { def_id: d, variant, args, turbofish };
        proof {
            lemma_hir_type_view(ty);
            lemma_ty_hir_expr_kind_view(kind);
        }
        Ok(typed_expr(ty, kind))
    }

    /// The value of a name.
    fn check_path(&self, d: DefId) -> (r: Result<TyHirExpr, MplangError>)
        ensures
            gives(r, c_path(self.state(), d)),
    {
        proof {
            reveal(c_path);
        }
        match self.find_variant_by_def_id(d) {
            Some((e, name)) => {
                self.variant_for(e, &name, 0)?;
                let n: usize = self.generics_of(e).len();
                self.construct(e, name, unknown_args(n), empty_list(), empty_list())
            },
            None => {
                let known_type = match self.def_types.get(&d) {
                    Some(t) => Some(t.clone()),
                    None => None,
                };
                match known_type {
                    Some(t) => {
                        let kind = TyHirExprKind::Path(d);
                        proof {
                            lemma_ty_hir_expr_kind_view(kind);
                        }
                        Ok(typed_expr(t, kind))
                    },
                    None => {
                        let name = self.name_of(d);
                        if self.func_sigs.contains(&d) {
                            return Err(
                                about_name("函数 `", name.as_str(), "` 不能当作值使用"),
                            );
                        }
                        proof {
                            reveal(untyped);
                        }
                        let text = cat3(
                            "未找到定义 `",
                            name.as_str(),
                            "` 的类型（内部错误）",
                        );
                        Err(MplangError::other(text.as_str()))
                    },
                }
            },
        }
    }

    fn signature(&self, d: DefId) -> (r: Option<FuncSig>)
        ensures
            r.deep_view() == crate::table::lookup(self.state().func_sigs, d),
    {
        match self.func_sigs.get(&d) {
            Some(sig) => Some(sig.clone()),
            None => None,
        }
    }

    /// The method that a call refers to.
    fn find_method(&self, recv: &HirType, name: &String, n: usize) -> (r: Result<
        (DefId, Vec<HirType>, HirType),
        MplangError,
    >)
        ensures
            gives(r, c_method(self.state(), recv.deep_view(), name@, n as nat)),
            r matches Ok(m) ==> m.1@.len() == n + 1,
    {
        proof {
            reveal(c_method);
        }
        let key = MethodKey(owner_of(recv), name.clone());
        let callee = match self.method_table.get(&key) {
            Some(d) => *d,
            None => {
                let shown = recv.to_text();
                return Err(
                    about_names("类型 ", shown.as_str(), " 没有方法 `", name.as_str(), "`"),
                );
            },
        };
        let sig = match self.signature(callee) {
            Some(sig) => sig,
            None => {
                return Err(about_name("调用了未定义的方法 `", name.as_str(), "`"));
            },
        };
        assert(sig.param_types.deep_view().len() == sig.param_types@.len());
        if sig.param_types.len() == 0 {
            return Err(MplangError::other("attempt to subtract with overflow"));
        }
        if n != sig.param_types.len() - 1 {
            return Err(
                about_count(
                    "方法 `",
                    name.as_str(),
                    "` 需要 ",
                    sig.param_types.len() - 1,
                    " 个参数，实际给了 ",
                    n,
                ),
            );
        }
        if !has_same_owner(recv, &sig.param_types[0]) {
            let ctx = cat3("方法 `", name.as_str(), "` 的接收者类型");
            expect_type(recv, &sig.param_types[0], ctx.as_str())?;
        }
        let (ps, t) = types_for(&sig, recv)?;
        proof {
            lemma_method_types(sig.deep_view(), recv.deep_view());
            assert(ps.deep_view().len() == ps@.len());
        }
        Ok((callee, ps, t))
    }

    /// The signature of a called function.
    fn find_callee(&self, callee: DefId, n: usize) -> (r: Result<FuncSig, MplangError>)
        ensures
            gives(r, c_callee(self.state(), callee, n as nat)),
    {
        proof {
            reveal(c_callee);
        }
        let sig = match self.signature(callee) {
            Some(sig) => sig,
            None => {
                let name = self.name_of(callee);
                return Err(about_name("调用了未定义的函数 `", name.as_str(), "`"));
            },
        };
        assert(sig.param_types.deep_view().len() == sig.param_types@.len());
        let m: usize = sig.param_types.len();
        if sig.is_variadic && n < m {
            let name = self.name_of(callee);
            return Err(
                about_count(
                    "可变参数函数 `",
                    name.as_str(),
                    "` 至少需要 ",
                    m,
                    " 个参数，实际给了 ",
                    n,
                ),
            );
        }
        if !sig.is_variadic && n != m {
            let name = self.name_of(callee);
            return Err(
                about_count(
                    "函数 `",
                    name.as_str(),
                    "` 需要 ",
                    m,
                    " 个参数，实际给了 ",
                    n,
                ),
            );
        }
        Ok(sig)
    }

    fn check_call(
        &self,
        callee: DefId,
        sig: &FuncSig,
        args: Vec<TyHirExpr>,
        turbofish: Vec<TypeOrConst>,
    ) -> (r: Result<TyHirExpr, MplangError>)
        ensures
            gives(
                r,
                c_call(
                    self.state(),
                    callee,
                    sig.deep_view(),
                    args.deep_view(),
                    turbofish.deep_view(),
                ),
            ),
    {
        proof {
            reveal(c_call);
        }
        let name = self.name_of(callee);
        assert(sig.generics.deep_view().len() == sig.generics@.len());
        let t = if sig.generics.len() == 0 {
            expect_args(&name, &args, &sig.param_types)?;
            sig.ret_ty.clone()
        } else {
            let (params, t) = instantiate_fn_sig(
                &sig.generics,
                &sig.param_types,
                &sig.ret_ty,
                &turbofish,
                &args,
            )?;
            expect_args(&name, &args, &params)?;
            t
        };
        let kind = TyHirExprKind::Call { callee, args, turbofish };
        proof {
            lemma_ty_hir_expr_kind_view(kind);
        }
        Ok(typed_expr(t, kind))
    }

    /// The field of a struct.
    fn field_of(&self, d: DefId, field: &String) -> (r: Result<StructFieldInfo, MplangError>)
        ensures
            gives(r, field_of(self.state(), d, field@)),
    {
        proof {
            reveal(field_of);
        }
        if let Some(fs) = self.struct_fields.get(&d) {
            if let Some(k) = field_index(fs, field) {
                return Ok(fs[k].clone());
            }
        }
        let name = self.name_of(d);
        Err(about_names("结构体 `", name.as_str(), "` 没有字段 `", field.as_str(), "`"))
    }

    fn check_field(&self, obj: TyHirExpr, field: &String) -> (r: Result<TyHirExpr, MplangError>)
        ensures
            gives(r, c_field(self.state(), obj.deep_view(), field@)),
    {
        proof {
            reveal(c_field);
            lemma_ty_hir_expr_view(obj);
            lemma_hir_type_view(obj.ty);
        }
        let (t, id) = match &obj.ty {
            HirType::Named(d) => {
                let info = self.field_of(*d, field)?;
                (info.ty, info.def_id)
            },
            HirType::Generic(d, ta, ca) => {
                let info = self.field_of(*d, field)?;
                let gs = self.generics_of(*d);
                let t = substitute(&info.ty, &gs, ta, ca)?;
                (t, info.def_id)
            },
            _ => {
                let shown = obj.ty.to_text();
                return Err(
                    about_names(
                        "对非结构体类型 ",
                        shown.as_str(),
                        " 进行字段访问 `.",
                        field.as_str(),
                        "`",
                    ),
                );
            },
        };
        let kind = TyHirExprKind::FieldAccess { object: Box::new(obj), field: id };
        proof {
            lemma_ty_hir_expr_kind_view(kind);
        }
        Ok(typed_expr(t, kind))
    }

    fn check_fields(
        &self,
        d: DefId,
        gs: &Vec<GenericParam>,
        ta: &Vec<HirType>,
        ca: &Vec<ConstArg>,
        inits: &Vec<(String, TyHirExpr)>,
    ) -> (r: Result<Vec<(DefId, TyHirExpr)>, MplangError>)
        ensures
            gives(
                r,
                c_fields(
                    self.state(),
                    d,
                    gs.deep_view(),
                    ta.deep_view(),
                    ca.deep_view(),
                    inits.deep_view(),
                    0,
                    Seq::empty(),
                ),
            ),
    {
        let mut out: Vec<(DefId, TyHirExpr)> = empty_list();
        let ghost goal = c_fields(
            self.state(),
            d,
            gs.deep_view(),
            ta.deep_view(),
            ca.deep_view(),
            inits.deep_view(),
            0,
            Seq::empty(),
        );
        for i in 0..inits.len()
            invariant
                goal == c_fields(
                    self.state(),
                    d,
                    gs.deep_view(),
                    ta.deep_view(),
                    ca.deep_view(),
                    inits.deep_view(),
                    0,
                    Seq::empty(),
                ),
                goal == c_fields(
                    self.state(),
                    d,
                    gs.deep_view(),
                    ta.deep_view(),
                    ca.deep_view(),
                    inits.deep_view(),
                    i as int,
                    out.deep_view(),
                ),
        {
            let info = self.field_of(d, &inits[i].0)?;
            assert(gs.deep_view().len() == gs@.len());
            let want = if gs.len() == 0 {
                info.ty
            } else {
                substitute(&info.ty, gs, ta, ca)?
            };
            let name = self.name_of(d);
            let owner = cat3("结构体 `", name.as_str(), "` 字段 `");
            let ctx = cat3(owner.as_str(), inits[i].0.as_str(), "`");
            proof {
                lemma_ty_hir_expr_view(inits@[i as int].1);
            }
            expect_type(&inits[i].1.ty, &want, ctx.as_str())?;
            push_item(&mut out, (info.def_id, inits[i].1.clone()));
        }
        Ok(out)
    }

    fn check_struct(
        &self,
        d: DefId,
        infos: &Vec<StructFieldInfo>,
        inits: Vec<(String, TyHirExpr)>,
        turbofish: Vec<TypeOrConst>,
    ) -> (r: Result<TyHirExpr, MplangError>)
        ensures
            gives(
                r,
                c_struct(
                    self.state(),
                    d,
                    infos.deep_view(),
                    inits.deep_view(),
                    turbofish.deep_view(),
                ),
            ),
    {
        proof {
            reveal(c_struct);
        }
        let gs = self.generics_of(d);
        assert(gs.deep_view().len() == gs@.len());
        let (ty, fields) = if gs.len() == 0 {
            let ta: Vec<HirType> = empty_list();
            let ca: Vec<ConstArg> = empty_list();
            let fs = self.check_fields(d, &gs, &ta, &ca, &inits)?;
            (HirType::Named(d), fs)
        } else {
            let name = self.name_of(d);
            let (ta, ca) = infer_struct_args(&name, &gs, &turbofish, infos, &inits)?;
            let fs = self.check_fields(d, &gs, &ta, &ca, &inits)?;
            (HirType::Generic(d, ta, ca), fs)
        };
        let kind = TyHirExprKind::StructLiteral { def_id: d, fields, turbofish };
        proof {
            lemma_hir_type_view(ty);
            lemma_ty_hir_expr_kind_view(kind);
        }
        Ok(typed_expr(ty, kind))
    }

    fn struct_infos(&self, d: DefId) -> (r: Result<Vec<StructFieldInfo>, MplangError>)
        ensures
            gives(r, struct_infos(self.state(), d)),
    {
        proof {
            reveal(struct_infos);
        }
        match self.struct_fields.get(&d) {
            Some(fs) => Ok(copy_list(fs)),
            None => {
                let name = self.name_of(d);
                Err(about_name("未定义的结构体 `", name.as_str(), "`"))
            },
        }
    }

    /// Checks an expression: the same expression, with the types of all its parts.
    pub fn check_expr(&mut self, expr: &HirExpr) -> (r: Result<TyHirExpr, MplangError>)
        ensures
            checks(final(self), r, c_expr(old(self).state(), expr.deep_view())),
        decreases expr, 0int,
    {
        proof {
            lemma_hir_expr_view(*expr);
        }
        match expr {
            HirExpr::Literal(l) => Ok(check_literal(l)),
            HirExpr::Path(d) => self.check_path(*d),
            HirExpr::Binary { op, lhs, rhs } => {
                let l = self.check_expr(&**lhs)?;
                let h = self.check_expr(&**rhs)?;
                check_binary(*op, l, h)
            },
            HirExpr::MethodCall { object, name, args } => {
                let o = self.check_expr(&**object)?;
                self.check_method_call(o, name, args)
            },
            HirExpr::Call { callee, args, turbofish } => {
                let sig = self.find_callee(*callee, args.len())?;
                let a = self.check_exprs(args)?;
                self.check_call(*callee, &sig, a, copy_list(turbofish))
            },
            HirExpr::FieldAccess { object, field } => {
                let o = self.check_expr(&**object)?;
                self.check_field(o, field)
            },
            HirExpr::StructLiteral { def_id, fields, turbofish } => {
                let infos = self.struct_infos(*def_id)?;
                let fs = self.check_inits(fields)?;
                self.check_struct(*def_id, &infos, fs, copy_list(turbofish))
            },
            HirExpr::ArrayLiteral { elements, repeat } => {
                let es = self.check_elements(elements)?;
                array_of(es, elements.len(), *repeat)
            },
            HirExpr::Index { array, index } => {
                let a = self.check_expr(&**array)?;
                proof {
                    lemma_ty_hir_expr_view(a);
                }
                let t = elements_of(&a.ty)?;
                let i = self.check_expr(&**index)?;
                proof {
                    lemma_ty_hir_expr_view(i);
                }
                expect_int(&i.ty, "数组下标（须为 int）")?;
                let kind = TyHirExprKind::Index { array: Box::new(a), index: Box::new(i) };
                proof {
                    lemma_ty_hir_expr_kind_view(kind);
                }
                Ok(typed_expr(t, kind))
            },
            HirExpr::AddressOf(inner) => {
                let t = self.check_expr(&**inner)?;
                if !has_place(&**inner) {
                    return Err(
                        MplangError::type_error(
                            "& 的操作数必须是可寻址的左值（变量、全局或结构体字段）",
                        ),
                    );
                }
                let ty = HirType::Pointer(Box::new(t.ty.clone()));
                let kind = TyHirExprKind::AddressOf(Box::new(t));
                proof {
                    lemma_ty_hir_expr_view(t);
                    lemma_hir_type_view(ty);
                    lemma_ty_hir_expr_kind_view(kind);
                }
                Ok(typed_expr(ty, kind))
            },
            HirExpr::Deref(inner) => {
                let t = self.check_expr(&**inner)?;
                proof {
                    lemma_ty_hir_expr_view(t);
                }
                let ty = target_of(&t.ty)?;
                let kind = TyHirExprKind::Deref(Box::new(t));
                proof {
                    lemma_ty_hir_expr_kind_view(kind);
                }
                Ok(typed_expr(ty, kind))
            },
            HirExpr::Variant { def_id, variant, args, turbofish } => {
                let info = self.variant_for(*def_id, variant, args.len())?;
                let gs = self.generics_of(*def_id);
                let (ta, a) = self.check_variant_args(args, &info.fields, &gs)?;
                self.construct(*def_id, variant.clone(), ta, a, copy_list(turbofish))
            },
            HirExpr::Match { scrutinee, arms } => {
                let v = self.check_expr(&**scrutinee)?;
                self.check_match(v, arms)
            },
        }
    }

    fn check_method_call(&mut self, o: TyHirExpr, name: &String, args: &Vec<HirExpr>) -> (r: Result<
        TyHirExpr,
        MplangError,
    >)
        ensures
            checks(
                final(self),
                r,
                c_method_call(old(self).state(), o.deep_view(), name@, args.deep_view()),
            ),
        decreases args, 1int,
    {
        proof {
            lemma_ty_hir_expr_view(o);
            lemma_hir_type_view(o.ty);
            lemma_hir_type_view(HirType::Int);
            assert(args.deep_view().len() == args@.len());
        }
        if let HirType::TraitObject(d) = &o.ty {
            let trait_def = *d;
            let a = self.check_exprs(args)?;
            let kind = TyHirExprKind::DynamicMethodCall {
                trait_def,
                method_index: 0,
                receiver: Box::new(o),
                args: a,
            };
            proof {
                lemma_ty_hir_expr_kind_view(kind);
            }
            return Ok(typed_expr(HirType::Int, kind));
        }
        let (callee, params, ret) = self.find_method(&o.ty, name, args.len())?;
        let a = self.check_method_args(name, args, &params, o)?;
        let kind = TyHirExprKind::Call { callee, args: a, turbofish: empty_list() };
        proof {
            lemma_ty_hir_expr_kind_view(kind);
        }
        Ok(typed_expr(ret, kind))
    }

    fn check_exprs(&mut self, es: &Vec<HirExpr>) -> (r: Result<Vec<TyHirExpr>, MplangError>)
        ensures
            checks(
                final(self),
                r,
                c_exprs(old(self).state(), es.deep_view(), 0, Seq::empty()),
            ),
        decreases es, 0int,
    {
        let mut out: Vec<TyHirExpr> = empty_list();
        let ghost goal = c_exprs(self.state(), es.deep_view(), 0, Seq::empty());
        for i in 0..es.len()
            invariant
                goal == c_exprs(old(self).state(), es.deep_view(), 0, Seq::empty()),
                goal == c_exprs(self.state(), es.deep_view(), i as int, out.deep_view()),
        {
            let t = self.check_expr(&es[i])?;
            push_item(&mut out, t);
        }
        Ok(out)
    }

    fn check_elements(&mut self, es: &Vec<HirExpr>) -> (r: Result<Vec<TyHirExpr>, MplangError>)
        ensures
            checks(
                final(self),
                r,
                c_elements(old(self).state(), es.deep_view(), 0, Seq::empty()),
            ),
        decreases es, 0int,
    {
        let mut out: Vec<TyHirExpr> = empty_list();
        let ghost goal = c_elements(self.state(), es.deep_view(), 0, Seq::empty());
        for i in 0..es.len()
            invariant
                goal == c_elements(old(self).state(), es.deep_view(), 0, Seq::empty()),
                goal == c_elements(self.state(), es.deep_view(), i as int, out.deep_view()),
        {
            let t = self.check_expr(&es[i])?;
            assert(out.deep_view().len() == out@.len());
            if out.len() > 0 {
                proof {
                    lemma_ty_hir_expr_view(t);
                    lemma_ty_hir_expr_view(out@[0]);
                    assert(out.deep_view()[0] == out@[0].deep_view());
                }
                expect_type(&t.ty, &out[0].ty, "数组字面量各元素类型须一致")?;
            }
            push_item(&mut out, t);
        }
        Ok(out)
    }

    fn check_inits(&mut self, fs: &Vec<(String, HirExpr)>) -> (r: Result<
        Vec<(String, TyHirExpr)>,
        MplangError,
    >)
        ensures
            checks(
                final(self),
                r,
                c_inits(old(self).state(), fs.deep_view(), 0, Seq::empty()),
            ),
        decreases fs, 0int,
    {
        let mut out: Vec<(String, TyHirExpr)> = empty_list();
        let ghost goal = c_inits(self.state(), fs.deep_view(), 0, Seq::empty());
        for i in 0..fs.len()
            invariant
                goal == c_inits(old(self).state(), fs.deep_view(), 0, Seq::empty()),
                goal == c_inits(self.state(), fs.deep_view(), i as int, out.deep_view()),
        {
            let t = self.check_expr(&fs[i].1)?;
            let name = fs[i].0.clone();
            push_item(&mut out, (name, t));
        }
        Ok(out)
    }

    fn check_method_args(
        &mut self,
        name: &String,
        es: &Vec<HirExpr>,
        params: &Vec<HirType>,
        receiver: TyHirExpr,
    ) -> (r: Result<Vec<TyHirExpr>, MplangError>)
        requires
            params@.len() == es@.len() + 1,
        ensures
            checks(
                final(self),
                r,
                c_method_args(
                    old(self).state(),
                    name@,
                    es.deep_view(),
                    params.deep_view(),
                    0,
                    seq![receiver.deep_view()],
                ),
            ),
        decreases es, 0int,
    {
        let ghost d0 = seq![receiver.deep_view()];
        let mut out: Vec<TyHirExpr> = list_of(receiver);
        let ghost goal = c_method_args(
            self.state(),
            name@,
            es.deep_view(),
            params.deep_view(),
            0,
            d0,
        );
        for i in 0..es.len()
            invariant
                params@.len() == es@.len() + 1,
                d0 == seq![receiver.deep_view()],
                goal == c_method_args(
                    old(self).state(),
                    name@,
                    es.deep_view(),
                    params.deep_view(),
                    0,
                    d0,
                ),
                goal == c_method_args(
                    self.state(),
                    name@,
                    es.deep_view(),
                    params.deep_view(),
                    i as int,
                    out.deep_view(),
                ),
        {
            let t = self.check_expr(&es[i])?;
            proof {
                lemma_ty_hir_expr_view(t);
            }
            let ctx = place_of_arg("方法 `", name.as_str(), i);
            expect_type(&t.ty, &params[i + 1], ctx.as_str())?;
            push_item(&mut out, t);
        }
        Ok(out)
    }

    fn check_variant_args(
        &mut self,
        es: &Vec<HirExpr>,
        fields: &Vec<(String, DefId, HirType)>,
        gs: &Vec<GenericParam>,
    ) -> (r: Result<(Vec<Option<HirType>>, Vec<TyHirExpr>), MplangError>)
        requires
            fields@.len() == es@.len(),
        ensures
            checks(
                final(self),
                r,
                c_variant_args(
                    old(self).state(),
                    es.deep_view(),
                    fields.deep_view(),
                    gs.deep_view(),
                    0,
                    crate::tycheck::rules::unknown(gs@.len()),
                    Seq::empty(),
                ),
            ),
        decreases es, 0int,
    {
        let mut ta: Vec<Option<HirType>> = unknown_args(gs.len());
        let mut out: Vec<TyHirExpr> = empty_list();
        let ghost ta0 = ta.deep_view();
        let ghost goal = c_variant_args(
            self.state(),
            es.deep_view(),
            fields.deep_view(),
            gs.deep_view(),
            0,
            ta0,
            Seq::empty(),
        );
        for i in 0..es.len()
            invariant
                fields@.len() == es@.len(),
                ta0 == crate::tycheck::rules::unknown::<HirTypeV>(gs@.len()),
                goal == c_variant_args(
                    old(self).state(),
                    es.deep_view(),
                    fields.deep_view(),
                    gs.deep_view(),
                    0,
                    ta0,
                    Seq::empty(),
                ),
                goal == c_variant_args(
                    self.state(),
                    es.deep_view(),
                    fields.deep_view(),
                    gs.deep_view(),
                    i as int,
                    ta.deep_view(),
                    out.deep_view(),
                ),
        {
            let t = self.check_expr(&es[i])?;
            proof {
                lemma_ty_hir_expr_view(t);
            }
            ta = unify_ty(&fields[i].2, &t.ty, gs, ta)?;
            push_item(&mut out, t);
        }
        Ok((ta, out))
    }

    fn bind_fields(
        &mut self,
        bs: &Vec<(DefId, Option<HirType>)>,
        fields: &Vec<(String, DefId, HirType)>,
        gs: &Vec<GenericParam>,
        ta: &Vec<HirType>,
        ca: &Vec<ConstArg>,
    ) -> (r: Result<(), MplangError>)
        requires
            bs@.len() == fields@.len(),
        ensures
            ({
                let want = bind_fields(
                    old(self).state().def_types,
                    bs.deep_view(),
                    fields.deep_view(),
                    gs.deep_view(),
                    ta.deep_view(),
                    ca.deep_view(),
                    0,
                );
                &&& final(self).state() == (CheckState { def_types: want.0, ..old(self).state() })
                &&& gives(r, want.1)
            }),
    {
        let ghost goal = bind_fields(
            self.state().def_types,
            bs.deep_view(),
            fields.deep_view(),
            gs.deep_view(),
            ta.deep_view(),
            ca.deep_view(),
            0,
        );
        for i in 0..bs.len()
            invariant
                bs@.len() == fields@.len(),
                self.state() == (CheckState {
                    def_types: self.state().def_types,
                    ..old(self).state()
                }),
                goal == bind_fields(
                    old(self).state().def_types,
                    bs.deep_view(),
                    fields.deep_view(),
                    gs.deep_view(),
                    ta.deep_view(),
                    ca.deep_view(),
                    0,
                ),
                goal == bind_fields(
                    self.state().def_types,
                    bs.deep_view(),
                    fields.deep_view(),
                    gs.deep_view(),
                    ta.deep_view(),
                    ca.deep_view(),
                    i as int,
                ),
        {
            let t = substitute(&fields[i].2, gs, ta, ca)?;
            self.def_types.insert(bs[i].0, t);
        }
        Ok(())
    }

    fn check_enum_pattern(
        &mut self,
        d: DefId,
        vs: &Vec<EnumVariantInfo>,
        gs: &Vec<GenericParam>,
        ta: &Vec<HirType>,
        ca: &Vec<ConstArg>,
        p: &HirPattern,
    ) -> (r: Result<(), MplangError>)
        ensures
            checks(
                final(self),
                r,
                c_enum_pattern(
                    old(self).state(),
                    d,
                    vs.deep_view(),
                    gs.deep_view(),
                    ta.deep_view(),
                    ca.deep_view(),
                    p.deep_view(),
                ),
            ),
    {
        proof {
            reveal(c_enum_pattern);
        }
        match p {
            HirPattern::Wildcard => Ok(()),
            HirPattern::Ident(_) => Ok(()),
            HirPattern::Literal(_) => Err(
                MplangError::type_error("枚举 match 中不能使用字面量模式"),
            ),
            HirPattern::Variant { enum_def, variant, bindings } => {
                let name = self.name_of(d);
                if *enum_def != d {
                    return Err(
                        about_names(
                            "match 分支的变体 `",
                            variant.as_str(),
                            "` 不属于枚举 `",
                            name.as_str(),
                            "`",
                        ),
                    );
                }
                match variant_index(vs, variant) {
                    None => Err(
                        about_names(
                            "枚举 `",
                            name.as_str(),
                            "` 没有变体 `",
                            variant.as_str(),
                            "`",
                        ),
                    ),
                    Some(k) => {
                        let fields = &vs[k].fields;
                        proof {
                            assert(fields.deep_view().len() == fields@.len());
                            assert(bindings.deep_view().len() == bindings@.len());
                        }
                        if bindings.len() != fields.len() {
                            return Err(
                                about_count(
                                    "变体 `",
                                    variant.as_str(),
                                    "` 需要 ",
                                    fields.len(),
                                    " 个绑定，实际给了 ",
                                    bindings.len(),
                                ),
                            );
                        }
                        self.bind_fields(bindings, fields, gs, ta, ca)
                    },
                }
            },
        }
    }

    fn check_int_pattern(&mut self, p: &HirPattern) -> (r: Result<(), MplangError>)
        ensures
            checks(final(self), r, c_int_pattern(old(self).state(), p.deep_view())),
    {
        proof {
            reveal(c_int_pattern);
            lemma_hir_type_view(HirType::Int);
        }
        match p {
            HirPattern::Literal(_) => Ok(()),
            HirPattern::Wildcard => Ok(()),
            HirPattern::Ident(d) => {
                self.def_types.insert(*d, HirType::Int);
                Ok(())
            },
            HirPattern::Variant { .. } => Err(
                MplangError::type_error("int 类型 match 中不能使用变体模式"),
            ),
        }
    }

    fn check_pattern(&mut self, on: &Matched, p: &HirPattern) -> (r: Result<(), MplangError>)
        ensures
            checks(final(self), r, c_pattern(old(self).state(), on.deep_view(), p.deep_view())),
    {
        match on {
            Matched::Enum { def, variants, generics, types, consts } => self.check_enum_pattern(
                *def,
                variants,
                generics,
                types,
                consts,
                p,
            ),
            Matched::Int => self.check_int_pattern(p),
        }
    }

    fn check_arms(&mut self, on: &Matched, arms: &Vec<HirMatchArm>) -> (r: Result<
        (Option<HirType>, Vec<TyHirMatchArm>),
        MplangError,
    >)
        ensures
            checks(
                final(self),
                r,
                c_arms(
                    old(self).state(),
                    on.deep_view(),
                    arms.deep_view(),
                    0,
                    None,
                    Seq::empty(),
                ),
            ),
        decreases arms, 0int,
    {
        let mut result: Option<HirType> = None;
        let mut out: Vec<TyHirMatchArm> = empty_list();
        let ghost goal = c_arms(
            self.state(),
            on.deep_view(),
            arms.deep_view(),
            0,
            None,
            Seq::empty(),
        );
        for i in 0..arms.len()
            invariant
                goal == c_arms(
                    old(self).state(),
                    on.deep_view(),
                    arms.deep_view(),
                    0,
                    None,
                    Seq::empty(),
                ),
                goal == c_arms(
                    self.state(),
                    on.deep_view(),
                    arms.deep_view(),
                    i as int,
                    result.deep_view(),
                    out.deep_view(),
                ),
        {
            proof {
                lemma_hir_match_arm_view(arms@[i as int]);
                lemma_hir_body_view(arms@[i as int].body);
            }
            let saved = self.def_types.duplicate();
            self.check_pattern(on, &arms[i].pattern)?;
            let unit = HirType::Unit;
            proof {
                lemma_hir_type_view(unit);
            }
            let body = self.check_body(&arms[i].body.stmts, &unit)?;
            proof {
                lemma_ty_hir_body_view(body);
            }
            let t = result_of(&body.stmts);
            result = Some(joined(&result, t)?);
            self.def_types = saved;
            let arm = TyHirMatchArm { pattern: pattern_of(&arms[i].pattern), body };
            proof {
                lemma_ty_hir_match_arm_view(arm);
            }
            push_item(&mut out, arm);
        }
        Ok((result, out))
    }

    fn check_enum_match(
        &mut self,
        d: DefId,
        ta: &Vec<HirType>,
        ca: &Vec<ConstArg>,
        arms: &Vec<HirMatchArm>,
    ) -> (r: Result<(HirType, Vec<TyHirMatchArm>), MplangError>)
        ensures
            checks(
                final(self),
                r,
                c_enum_match(
                    old(self).state(),
                    d,
                    ta.deep_view(),
                    ca.deep_view(),
                    arms.deep_view(),
                ),
            ),
        decreases arms, 1int,
    {
        let variants = match self.enum_index(d) {
            Some(k) => copy_list(&self.enum_variants[k].variants),
            None => {
                let name = self.name_of(d);
                return Err(about_name("未定义的枚举 `", name.as_str(), "`"));
            },
        };
        let on = Matched::Enum {
            def: d,
            variants: copy_list(&variants),
            generics: self.generics_of(d),
            types: copy_list(ta),
            consts: copy_list(ca),
        };
        let (t, out) = self.check_arms(&on, arms)?;
        if !some_catch_all(arms) {
            self.expect_covered(d, &variants, arms)?;
        }
        Ok((type_of_match(t), out))
    }

    fn expect_covered(
        &self,
        d: DefId,
        vs: &Vec<EnumVariantInfo>,
        arms: &Vec<HirMatchArm>,
    ) -> (r: Result<(), MplangError>)
        ensures
            gives(r, check_covered(self.state(), d, vs.deep_view(), arms.deep_view(), 0)),
    {
        let ghost goal = check_covered(self.state(), d, vs.deep_view(), arms.deep_view(), 0);
        for i in 0..vs.len()
            invariant
                goal == check_covered(self.state(), d, vs.deep_view(), arms.deep_view(), 0),
                goal == check_covered(
                    self.state(),
                    d,
                    vs.deep_view(),
                    arms.deep_view(),
                    i as int,
                ),
        {
            if !some_arm_covers(arms, &vs[i].name) {
                let name = self.name_of(d);
                return Err(
                    about_names(
                        "match 表达式未覆盖枚举 `",
                        name.as_str(),
                        "` 的变体 `",
                        vs[i].name.as_str(),
                        "`",
                    ),
                );
            }
        }
        Ok(())
    }

    fn check_int_match(&mut self, arms: &Vec<HirMatchArm>) -> (r: Result<
        (HirType, Vec<TyHirMatchArm>),
        MplangError,
    >)
        ensures
            checks(final(self), r, c_int_match(old(self).state(), arms.deep_view())),
        decreases arms, 1int,
    {
        let on = Matched::Int;
        let (t, out) = self.check_arms(&on, arms)?;
        if !some_catch_all(arms) {
            return Err(
                MplangError::type_error(
                    "int 类型 match 表达式必须包含通配符 `_` 或标识符分支",
                ),
            );
        }
        Ok((type_of_match(t), out))
    }

    #[verifier::spinoff_prover]
    #[verifier::rlimit(40)]
    fn check_match(&mut self, v: TyHirExpr, arms: &Vec<HirMatchArm>) -> (r: Result<
        TyHirExpr,
        MplangError,
    >)
        ensures
            checks(
                final(self),
                r,
                c_match(old(self).state(), v.deep_view(), arms.deep_view()),
            ),
        decreases arms, 2int,
    {
        proof {
            lemma_ty_hir_expr_view(v);
            lemma_hir_type_view(v.ty);
        }
        match &v.ty {
            HirType::Enum(d, ta, ca) => {
                let (t, out) = self.check_enum_match(*d, ta, ca, arms)?;
                Ok(match_of(v, t, out))
            },
            HirType::Int => {
                let (t, out) = self.check_int_match(arms)?;
                Ok(match_of(v, t, out))
            },
            _ => Err(not_matchable(&v.ty)),
        }
    }

    fn check_stmt(&mut self, stmt: &HirStmt, ret: &HirType) -> (r: Result<TyHirStmt, MplangError>)
        ensures
            checks(
                final(self),
                r,
                c_stmt(old(self).state(), stmt.deep_view(), ret.deep_view()),
            ),
        decreases stmt, 0int,
    {
        proof {
            lemma_hir_stmt_view(*stmt);
            lemma_hir_type_view(HirType::Int);
        }
        match stmt {
            HirStmt::Let { def_id, name, ty, init } => {
                if ty.is_some() {
                    self.variant_expected_type = copy_type(ty);
                }
                let v = match self.check_expr(init) {
                    Ok(v) => v,
                    Err(e) => {
                        return Err(e);
                    },
                };
                self.variant_expected_type = None;
                let value = trait_object_of(ty, v);
                proof {
                    lemma_ty_hir_expr_view(value);
                }
                let t = type_of_binding(ty, &value.ty, name)?;
                self.def_types.insert(*def_id, t.clone());
                let r = TyHirStmt::Let { def_id: *def_id, name: name.clone(), ty: t, init: value };
                proof {
                    lemma_ty_hir_stmt_view(r);
                }
                Ok(r)
            },
            HirStmt::Assign { target, value } => {
                if !has_place(target) {
                    return Err(MplangError::type_error("赋值目标必须是可修改的左值"));
                }
                let t = self.check_expr(target)?;
                let v = self.check_expr(value)?;
                proof {
                    lemma_ty_hir_expr_view(t);
                    lemma_ty_hir_expr_view(v);
                }
                expect_type(&v.ty, &t.ty, "赋值（右值类型需与左值一致）")?;
                let r = TyHirStmt::Assign { target: t, value: v };
                proof {
                    lemma_ty_hir_stmt_view(r);
                }
                Ok(r)
            },
            HirStmt::Expr(e) => {
                let v = self.check_expr(e)?;
                let r = TyHirStmt::Expr(v);
                proof {
                    lemma_ty_hir_stmt_view(r);
                }
                Ok(r)
            },
            HirStmt::If { cond, then_branch, else_branch } => {
                let c = self.check_expr(cond)?;
                proof {
                    lemma_ty_hir_expr_view(c);
                    lemma_hir_body_view(*then_branch);
                }
                expect_int(&c.ty, "if 条件")?;
                let a = self.check_body(&then_branch.stmts, ret)?;
                let b = match else_branch {
                    Some(other) => {
                        proof {
                            lemma_hir_body_view(*other);
                        }
                        Some(self.check_body(&other.stmts, ret)?)
                    },
                    None => None,
                };
                let r = TyHirStmt::If { cond: c, then_branch: a, else_branch: b };
                proof {
                    lemma_ty_hir_stmt_view(r);
                }
                Ok(r)
            },
            HirStmt::While { cond, body } => {
                let c = self.check_expr(cond)?;
                proof {
                    lemma_ty_hir_expr_view(c);
                    lemma_hir_body_view(*body);
                }
                expect_int(&c.ty, "while 条件")?;
                let b = self.check_body(&body.stmts, ret)?;
                let r = TyHirStmt::While { cond: c, body: b };
                proof {
                    lemma_ty_hir_stmt_view(r);
                }
                Ok(r)
            },
            HirStmt::Return(value) => {
                let v = match value {
                    Some(e) => {
                        let v = self.check_expr(e)?;
                        proof {
                            lemma_ty_hir_expr_view(v);
                        }
                        expect_type(&v.ty, ret, "return")?;
                        Some(v)
                    },
                    None => {
                        proof {
                            lemma_hir_type_view(HirType::Unit);
                        }
                        expect_type(&HirType::Unit, ret, "return")?;
                        None
                    },
                };
                let r = TyHirStmt::Return(v);
                proof {
                    lemma_ty_hir_stmt_view(r);
                }
                Ok(r)
            },
        }
    }

    /// A block of statements in a function that returns `ret`.
    pub(super) fn check_body(&mut self, stmts: &Vec<HirStmt>, ret: &HirType) -> (r: Result<
        TyHirBody,
        MplangError,
    >)
        ensures
            ({
                let want = c_stmts(
                    old(self).state(),
                    stmts.deep_view(),
                    ret.deep_view(),
                    0,
                    Seq::empty(),
                );
                &&& final(self).state() == want.0
                &&& match r {
                    Ok(b) => want.1 == Ok::<Seq<TyHirStmtV>, MplangErrorV>(
                        b.deep_view().stmts,
                    ),
                    Err(e) => want.1 == Err::<Seq<TyHirStmtV>, MplangErrorV>(e.deep_view()),
                }
            }),
        decreases stmts, 0int,
    {
        let mut out: Vec<TyHirStmt> = empty_list();
        let ghost goal = c_stmts(
            self.state(),
            stmts.deep_view(),
            ret.deep_view(),
            0,
            Seq::empty(),
        );
        for i in 0..stmts.len()
            invariant
                goal == c_stmts(
                    old(self).state(),
                    stmts.deep_view(),
                    ret.deep_view(),
                    0,
                    Seq::empty(),
                ),
                goal == c_stmts(
                    self.state(),
                    stmts.deep_view(),
                    ret.deep_view(),
                    i as int,
                    out.deep_view(),
                ),
        {
            let t = self.check_stmt(&stmts[i], ret)?;
            push_item(&mut out, t);
        }
        let r = TyHirBody { stmts: out };
        proof {
            lemma_ty_hir_body_view(r);
        }
        Ok(r)
    }
}

/// A match with its type.
fn match_of(v: TyHirExpr, t: HirType, arms: Vec<TyHirMatchArm>) -> (r: TyHirExpr)
    ensures
        r.deep_view() == typed(
            t.deep_view(),
            crate::tyhir::TyHirExprKindV::Match {
                scrutinee: Box::new(v.deep_view()),
                arms: arms.deep_view(),
            },
        ),
{
    let kind = TyHirExprKind::Match { scrutinee: Box::new(v), arms };
    proof {
        lemma_ty_hir_expr_kind_view(kind);
    }
    typed_expr(t, kind)
}

/// The error for a match on a value of this type.
fn not_matchable(t: &HirType) -> (r: MplangError)
    ensures
        r.deep_view() == crate::tycheck::rules::error_about(
            "match 表达式需要枚举或 int 类型的被匹配值，实际为 "@,
            crate::hir::shown_type(t.deep_view()),
            Seq::empty(),
        ),
{
    let shown = t.to_text();
    proof {
        reveal_strlit("");
        assert(""@ =~= Seq::empty());
    }
    about_name("match 表达式需要枚举或 int 类型的被匹配值，实际为 ", shown.as_str(), "")
}

/// What a match looks at.
pub enum Matched {
    Enum {
        def: DefId,
        variants: Vec<EnumVariantInfo>,
        generics: Vec<GenericParam>,
        types: Vec<HirType>,
        consts: Vec<ConstArg>,
    },
    Int,
}

impl DeepView for Matched {
    type V = Subject;

    open spec fn deep_view(&self) -> Subject {
        match self {
            Matched::Enum { def, variants, generics, types, consts } => Subject::Enum {
                def: *def,
                variants: variants.deep_view(),
                generics: generics.deep_view(),
                types: types.deep_view(),
                consts: consts.deep_view(),
            },
            Matched::Int => Subject::Int,
        }
    }
}

fn pattern_of(p: &HirPattern) -> (r: TyHirPattern)
    ensures
        r.deep_view() == typed_pattern(p.deep_view()),
{
    match p {
        HirPattern::Variant { enum_def, variant, bindings } => {
            let mut out: Vec<(DefId, Option<HirType>)> = Vec::new();
            for i in 0..bindings.len()
                invariant
                    out@.len() == i,
                    forall|j: int|
                        0 <= j < i ==> #[trigger] out@[j].deep_view() == bindings@[j].deep_view(),
            {
                out.push((bindings[i].0, copy_type(&bindings[i].1)));
            }
            assert(out.deep_view() =~= bindings.deep_view());
            TyHirPattern::Variant { enum_def: *enum_def, variant: variant.clone(), bindings: out }
        },
        HirPattern::Literal(l) => TyHirPattern::Literal(l.clone()),
        HirPattern::Wildcard => TyHirPattern::Wildcard,
        HirPattern::Ident(d) => TyHirPattern::Ident(*d),
    }
}

fn result_of(stmts: &Vec<TyHirStmt>) -> (r: HirType)
    ensures
        r.deep_view() == result_type(stmts.deep_view()),
{
    let unit = HirType::Unit;
    proof {
        lemma_hir_type_view(unit);
        assert(stmts.deep_view().len() == stmts@.len());
    }
    let n: usize = stmts.len();
    if n == 0 {
        return unit;
    }
    proof {
        lemma_ty_hir_stmt_view(stmts@[n - 1]);
        assert(stmts.deep_view().last() == stmts@[n - 1].deep_view());
    }
    match &stmts[n - 1] {
        TyHirStmt::Expr(e) => {
            proof {
                lemma_ty_hir_expr_view(*e);
            }
            e.ty.clone()
        },
        _ => unit,
    }
}

fn joined(so_far: &Option<HirType>, t: HirType) -> (r: Result<HirType, MplangError>)
    ensures
        gives(r, join_result(so_far.deep_view(), t.deep_view())),
{
    match so_far {
        Some(want) => {
            expect_type(&t, want, "match 各分支结果类型必须一致")?;
            Ok(want.clone())
        },
        None => Ok(t),
    }
}

fn some_catch_all(arms: &Vec<HirMatchArm>) -> (r: bool)
    ensures
        r == has_catch_all(arms.deep_view(), 0),
{
    for i in 0..arms.len()
        invariant
            has_catch_all(arms.deep_view(), 0) == has_catch_all(arms.deep_view(), i as int),
    {
        proof {
            lemma_hir_match_arm_view(arms@[i as int]);
        }
        match &arms[i].pattern {
            HirPattern::Wildcard => {
                return true;
            },
            HirPattern::Ident(_) => {
                return true;
            },
            _ => {},
        }
    }
    false
}

fn some_arm_covers(arms: &Vec<HirMatchArm>, name: &String) -> (r: bool)
    ensures
        r == covers(arms.deep_view(), name@, 0),
{
    for i in 0..arms.len()
        invariant
            covers(arms.deep_view(), name@, 0) == covers(arms.deep_view(), name@, i as int),
    {
        proof {
            lemma_hir_match_arm_view(arms@[i as int]);
        }
        if let HirPattern::Variant { variant, .. } = &arms[i].pattern {
            if *variant == *name {
                return true;
            }
        }
    }
    false
}

fn type_of_match(t: Option<HirType>) -> (r: HirType)
    ensures
        r.deep_view() == match_type(t.deep_view()),
{
    proof {
        lemma_hir_type_view(HirType::Unit);
    }
    match t {
        Some(t) => t,
        None => HirType::Unit,
    }
}

/// The initial value of a `let`, as a trait object where its type asks for one.
fn trait_object_of(ty: &Option<HirType>, init: TyHirExpr) -> (r: TyHirExpr)
    ensures
        r.deep_view() == as_trait_object(ty.deep_view(), init.deep_view()),
{
    let d = match ty {
        Some(t) => {
            proof {
                lemma_hir_type_view(*t);
            }
            match t {
                HirType::TraitObject(d) => *d,
                _ => {
                    return init;
                },
            }
        },
        None => {
            return init;
        },
    };
    proof {
        lemma_ty_hir_expr_view(init);
        lemma_ty_hir_expr_kind_view(init.kind);
    }
    let is_address_of_struct = match &init.kind {
        TyHirExprKind::AddressOf(inner) => {
            proof {
                lemma_ty_hir_expr_view(**inner);
                lemma_hir_type_view(inner.ty);
            }
            match &inner.ty {
                HirType::Named(_) => true,
                _ => false,
            }
        },
        _ => false,
    };
    if !is_address_of_struct {
        return init;
    }
    match init.kind {
        TyHirExprKind::AddressOf(inner) => {
            let t = HirType::TraitObject(d);
            let kind = TyHirExprKind::TraitCast { value: inner, trait_def: d };
            proof {
                lemma_hir_type_view(t);
                lemma_ty_hir_expr_kind_view(kind);
            }
            typed_expr(t, kind)
        },
        _ => init,
    }
}

fn type_of_binding(ty: &Option<HirType>, init: &HirType, name: &String) -> (r: Result<
    HirType,
    MplangError,
>)
    ensures
        gives(r, binding_type(ty.deep_view(), init.deep_view(), name@)),
{
    match ty {
        Some(t) => {
            let ctx = cat3("let `", name.as_str(), "` 类型标注");
            expect_type(init, t, ctx.as_str())?;
            Ok(t.clone())
        },
        None => Ok(init.clone()),
    }
}

fn array_of(es: Vec<TyHirExpr>, n: usize, repeat: Option<usize>) -> (r: Result<
    TyHirExpr,
    MplangError,
>)
    ensures
        gives(r, c_array(es.deep_view(), n as nat, repeat)),
{
    proof {
        reveal(c_array);
        assert(es.deep_view().len() == es@.len());
    }
    if es.len() == 0 {
        return Err(MplangError::type_error("数组字面量至少要有一个元素"));
    }
    let len: usize = match repeat {
        Some(k) => k,
        None => n,
    };
    proof {
        lemma_ty_hir_expr_view(es@[0]);
        assert(es.deep_view()[0] == es@[0].deep_view());
    }
    let ty = HirType::Array(Box::new(es[0].ty.clone()), ArrayLen::Known(len));
    let kind = TyHirExprKind::ArrayLiteral { elements: es, repeat };
    proof {
        lemma_hir_type_view(ty);
        lemma_ty_hir_expr_kind_view(kind);
    }
    Ok(typed_expr(ty, kind))
}

/// Replacing generic parameters keeps the number of types.
pub proof fn lemma_subst_len(
    ts: Seq<HirTypeV>,
    gs: Seq<crate::ast::GenericParamV>,
    ta: Seq<HirTypeV>,
    ca: Seq<ConstArg>,
    i: int,
    done: Seq<HirTypeV>,
)
    requires
        0 <= i <= ts.len(),
    ensures
        subst_types(ts, gs, ta, ca, i, done) matches Ok(us) ==> us.len() == done.len() + ts.len()
            - i,
    decreases ts.len() - i,
{
    if i < ts.len() {
        match crate::tycheck::rules::subst_type(ts[i], gs, ta, ca) {
            Ok(u) => {
                lemma_subst_len(ts, gs, ta, ca, i + 1, done.push(u));
            },
            Err(_) => {},
        }
    }
}

proof fn lemma_method_types(sig: crate::tycheck::info::FuncSigV, recv: HirTypeV)
    ensures
        method_types(sig, recv) matches Ok(t) ==> t.0.len() == sig.param_types.len(),
{
    match recv {
        HirTypeV::Generic(_, ta, ca) => {
            lemma_subst_len(sig.param_types, sig.generics, ta, ca, 0, Seq::empty());
        },
        HirTypeV::Enum(_, ta, ca) => {
            lemma_subst_len(sig.param_types, sig.generics, ta, ca, 0, Seq::empty());
        },
        _ => {},
    }
}

} // verus!
