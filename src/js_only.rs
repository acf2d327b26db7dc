//! What it means for a tree to hold no TypeScript-only syntax, and the
//! proof that the pass leaves none.

use vstd::prelude::*;

use crate::ast::{Expr, Function, Param, ParamOrTsParamProp, Stmt};
use crate::class::{Class, ClassMember, Decorator, PropName};
use crate::class_fields::{
    body_with, ctor_assigns, erased_ctor_param, erased_decorators, erased_key, is_param_assign, is_prop_assign,
    lowered_class, lowered_member, lowered_members, member_kept,
};
use crate::erase::{erased_exprs, erased_function, is_js_expr, lemma_erased_expr_is_js};
use crate::imports::lemma_kept_are_kept;
use crate::strip::{
    dotted_body, is_ns_assign, kept_exports, lowered_level, lowered_stmt, stripped_module, with_ns_export, Config,
};
use crate::usage::Ref;

verus! {

pub open spec fn is_js_exprs(es: Seq<Expr>) -> bool {
    forall|i: int| 0 <= i < es.len() ==> is_js_expr(#[trigger] es[i])
}

pub open spec fn is_js_function(f: Function) -> bool {
    &&& f.body is Some
    &&& forall|i: int| 0 <= i < f.params@.len() ==> (#[trigger] f.params@[i]).type_ann is None
    &&& f.type_params is None
    &&& f.return_type is None
    &&& is_js_exprs(f.body->0@)
}

pub open spec fn is_js_key(k: PropName) -> bool {
    match k {
        PropName::Computed(e) => is_js_expr(*e),
        _ => true,
    }
}

pub open spec fn is_js_decorators(ds: Seq<Decorator>) -> bool {
    forall|i: int| 0 <= i < ds.len() ==> is_js_expr(*(#[trigger] ds[i]).expr)
}

/// A class member with no TypeScript-only syntax.
pub open spec fn is_js_member(m: ClassMember) -> bool {
    match m {
        ClassMember::Constructor(c) => {
            &&& is_js_key(c.key)
            &&& forall|i: int| 0 <= i < c.params@.len() ==> (#[trigger] c.params@[i] matches ParamOrTsParamProp::Param(
                p,
            ) && p.type_ann is None)
            &&& c.body is Some
            &&& is_js_exprs(c.body->0@)
            &&& c.accessibility is None
            &&& !c.is_optional
        },
        ClassMember::Method(f) => is_js_key(f.key) && is_js_function(*f.function) && f.accessibility is None
            && !f.is_abstract && !f.is_optional && !f.is_override,
        ClassMember::PrivateMethod(f) => is_js_function(*f.function) && f.accessibility is None && !f.is_abstract
            && !f.is_optional && !f.is_override,
        ClassMember::ClassProp(p) => {
            &&& is_js_key(p.key)
            &&& (p.value is Some ==> is_js_expr(*p.value->0))
            &&& p.type_ann is None
            &&& is_js_decorators(p.decorators@)
            &&& p.accessibility is None
            &&& !p.is_abstract && !p.is_optional && !p.is_override && !p.readonly && !p.declare && !p.definite
        },
        ClassMember::PrivateProp(p) => {
            &&& (p.value is Some ==> is_js_expr(*p.value->0))
            &&& p.type_ann is None
            &&& is_js_decorators(p.decorators@)
            &&& p.accessibility is None
            &&& !p.is_optional && !p.is_override && !p.readonly && !p.definite
        },
        ClassMember::TsIndexSignature(_) => false,
        ClassMember::StaticBlock(b) => is_js_exprs(b.body@),
        ClassMember::Empty(_) => true,
    }
}

/// A class with no TypeScript-only syntax.
pub open spec fn is_js_class(c: Class) -> bool {
    &&& is_js_decorators(c.decorators@)
    &&& (c.super_class is Some ==> is_js_expr(*c.super_class->0))
    &&& !c.is_abstract
    &&& c.type_params is None
    &&& c.super_type_params is None
    &&& c.implements@.len() == 0
    &&& forall|i: int| 0 <= i < c.body@.len() ==> is_js_member(#[trigger] c.body@[i])
}

pub proof fn lemma_erased_exprs_js(es: Seq<Expr>, r: Seq<Expr>)
    requires
        erased_exprs(es, r),
    ensures
        is_js_exprs(r),
{
    assert forall|i: int| 0 <= i < r.len() implies is_js_expr(#[trigger] r[i]) by {
        lemma_erased_expr_is_js(es[i], r[i]);
    }
}

pub proof fn lemma_erased_function_js(f: Function, r: Function)
    requires
        erased_function(f, r),
    ensures
        is_js_function(r),
{
    lemma_erased_exprs_js(f.body->0@, r.body->0@);
    assert forall|i: int| 0 <= i < r.params@.len() implies (#[trigger] r.params@[i]).type_ann is None by {
        assert(crate::erase::erased_param(f.params@[i], r.params@[i]));
    }
}

pub proof fn lemma_erased_key_js(k: PropName, r: PropName)
    requires
        erased_key(k, r),
        !(k is Computed) ==> is_js_key(k),
    ensures
        is_js_key(r),
{
    match k {
        PropName::Computed(e) => lemma_erased_expr_is_js(*e, *r->Computed_0),
        _ => {},
    }
}

pub proof fn lemma_erased_decorators_js(ds: Seq<Decorator>, r: Seq<Decorator>)
    requires
        erased_decorators(ds, r),
    ensures
        is_js_decorators(r),
{
    assert forall|i: int| 0 <= i < r.len() implies is_js_expr(*(#[trigger] r[i]).expr) by {
        lemma_erased_expr_is_js(*ds[i].expr, *r[i].expr);
    }
}

pub proof fn lemma_prop_assign_js(e: Expr, owner: Expr, key: PropName, value: Expr, temp: (Seq<char>, u32))
    requires
        is_prop_assign(e, owner, key, value, temp),
        is_js_expr(owner),
    ensures
        is_js_expr(e),
{
    let t = *e->Assign_target;
    lemma_erased_expr_is_js(value, *e->Assign_value);
    match key {
        PropName::Computed(_) => {
            assert(is_js_expr(*t->Index_index));
            assert(is_js_expr(*t->Index_obj));
        },
        PropName::Ident(_) => assert(is_js_expr(*t->Member_obj)),
        _ => {
            assert(is_js_expr(*t->Index_obj));
            assert(is_js_expr(*t->Index_index));
        },
    }
    assert(is_js_expr(t));
}

pub proof fn lemma_ctor_assigns_js(out: Seq<Expr>, ids: Seq<crate::ast::Ident>, props: Seq<crate::class::ClassProp>,
    temps: Seq<(Seq<char>, u32)>)
    requires
        ctor_assigns(out, ids, props, temps),
    ensures
        is_js_exprs(out),
{
    assert forall|i: int| 0 <= i < out.len() implies is_js_expr(#[trigger] out[i]) by {
        if i < ids.len() {
            assert(is_param_assign(out[i], ids[i]));
            let t = *out[i]->Assign_target;
            assert(is_js_expr(*t->Member_obj));
            assert(is_js_expr(t));
            assert(is_js_expr(*out[i]->Assign_value));
        } else {
            let k = i - ids.len();
            assert(out[ids.len() + k] == out[i]);
            lemma_prop_assign_js(out[i], Expr::This, props[k].key, *props[k].value->0, temps[k]);
        }
    }
}

pub proof fn lemma_body_with_js(b: Seq<Expr>, r: Seq<Expr>, at: int, ids: Seq<crate::ast::Ident>, props: Seq<
    crate::class::ClassProp,
>, temps: Seq<(Seq<char>, u32)>)
    requires
        body_with(b, r, at, ids, props, temps),
    ensures
        is_js_exprs(r),
{
    let n = ids.len() + props.len();
    let mid = r.subrange(at, at + n);
    lemma_ctor_assigns_js(mid, ids, props, temps);
    assert forall|i: int| 0 <= i < r.len() implies is_js_expr(#[trigger] r[i]) by {
        if i < at {
            lemma_erased_expr_is_js(b[i], r[i]);
        } else if i < at + n {
            assert(mid[i - at] == r[i]);
        } else {
            let j = i - n;
            assert(r[j + n] == r[i]);
            lemma_erased_expr_is_js(b[j], r[i]);
        }
    }
}

pub proof fn lemma_lowered_member_js(m: ClassMember, r: ClassMember, derived: bool, props: Seq<crate::class::ClassProp>,
    temps: Seq<(Seq<char>, u32)>)
    requires
        lowered_member(m, r, derived, props, temps),
        m is Empty ==> is_js_member(m),
        !(m is TsIndexSignature),
    ensures
        is_js_member(r),
{
    match m {
        ClassMember::Constructor(c) => {
            let rc = r->Constructor_0;
            lemma_erased_key_js(c.key, rc.key);
            lemma_body_with_js(c.body->0@, rc.body->0@, crate::class_fields::insert_at(c.body->0@, derived),
                crate::class_fields::param_prop_ids(c.params@), props, temps);
            assert forall|i: int| 0 <= i < rc.params@.len() implies (#[trigger] rc.params@[i] matches ParamOrTsParamProp::Param(
                p,
            ) && p.type_ann is None) by {
                assert(erased_ctor_param(c.params@[i], rc.params@[i]));
            }
        },
        ClassMember::Method(f) => {
            lemma_erased_key_js(f.key, r->Method_0.key);
            lemma_erased_function_js(*f.function, *r->Method_0.function);
        },
        ClassMember::PrivateMethod(f) => {
            lemma_erased_function_js(*f.function, *r->PrivateMethod_0.function);
        },
        ClassMember::ClassProp(p) => {
            let rp = r->ClassProp_0;
            lemma_erased_key_js(p.key, rp.key);
            lemma_erased_decorators_js(p.decorators@, rp.decorators@);
            if p.value is Some {
                lemma_erased_expr_is_js(*p.value->0, *rp.value->0);
            }
        },
        ClassMember::PrivateProp(p) => {
            let rp = r->PrivateProp_0;
            lemma_erased_decorators_js(p.decorators@, rp.decorators@);
            if p.value is Some {
                lemma_erased_expr_is_js(*p.value->0, *rp.value->0);
            }
        },
        ClassMember::StaticBlock(b) => {
            lemma_erased_exprs_js(b.body@, r->StaticBlock_0.body@);
        },
        _ => {},
    }
}

pub proof fn lemma_lowered_members_js(ms: Seq<ClassMember>, out: Seq<ClassMember>, use_define: bool, derived: bool, props: Seq<
    crate::class::ClassProp,
>, temps: Seq<(Seq<char>, u32)>)
    requires
        lowered_members(ms, out, use_define, derived, props, temps),
    ensures
        forall|i: int| 0 <= i < out.len() ==> is_js_member(#[trigger] out[i]),
    decreases ms.len(),
{
    if ms.len() > 0 {
        if !member_kept(ms.last(), use_define) {
            lemma_lowered_members_js(ms.drop_last(), out, use_define, derived, props, temps);
        } else {
            lemma_lowered_members_js(ms.drop_last(), out.drop_last(), use_define, derived, props, temps);
            lemma_lowered_member_js(ms.last(), out.last(), derived, props, temps);
            assert forall|i: int| 0 <= i < out.len() implies is_js_member(#[trigger] out[i]) by {
                if i < out.len() - 1 {
                    assert(out[i] == out.drop_last()[i]);
                }
            }
        }
    }
}

/// A lowered class holds no TypeScript-only syntax.
pub proof fn lemma_lowered_class_js(c: Class, r: Class, use_define: bool, cls: crate::ast::Ident, tag: u32)
    requires
        lowered_class(c, r, use_define, cls, tag),
    ensures
        is_js_class(r),
{
    let derived = c.super_class is Some;
    let props = crate::class_fields::instance_props(c.body@, use_define);
    let temps = crate::class_fields::instance_temps(c.body@, use_define, cls, tag);
    lemma_erased_decorators_js(c.decorators@, r.decorators@);
    if derived {
        lemma_erased_expr_is_js(*c.super_class->0, *r.super_class->0);
    }
    if !crate::class_fields::has_ctor(c.body@) && props.len() > 0 {
        let rest = r.body@.drop_first();
        lemma_lowered_members_js(c.body@, rest, use_define, derived, props, temps);
        let k: int = if derived { 1 } else { 0 };
        let rc = r.body@[0]->Constructor_0;
        let b = rc.body->0@;
        lemma_ctor_assigns_js(b.subrange(k, b.len() as int), seq![], props, temps);
        assert(is_js_member(r.body@[0])) by {
            assert forall|i: int| 0 <= i < b.len() implies is_js_expr(#[trigger] b[i]) by {
                if i >= k {
                    assert(b.subrange(k, b.len() as int)[i - k] == b[i]);
                } else {
                    let args = b[0]->Call_args;
                    assert(is_js_expr(*args@[0]->Spread_arg));
                    assert(is_js_expr(args@[0]));
                    assert(is_js_expr(*b[0]->Call_callee));
                }
            }
        }
        assert forall|i: int| 0 <= i < r.body@.len() implies is_js_member(#[trigger] r.body@[i]) by {
            if i > 0 {
                assert(r.body@[i] == rest[i - 1]);
            }
        }
    } else {
        lemma_lowered_members_js(c.body@, r.body@, use_define, derived, props, temps);
    }
}

/// A statement with no TypeScript-only syntax.
pub open spec fn is_js_stmt(s: Stmt) -> bool
    decreases s,
{
    match s {
        Stmt::Import(d) => !d.type_only && forall|i: int| 0 <= i < d.specifiers@.len()
            ==> !(#[trigger] d.specifiers@[i]).is_type_only,
        Stmt::ExportNamed(e) => !e.type_only && forall|i: int| 0 <= i < e.specifiers@.len()
            ==> !(#[trigger] e.specifiers@[i]).is_type_only,
        Stmt::Var(v) => !v.declare && v.type_ann is None && (v.init is Some ==> is_js_expr(v.init->0)),
        Stmt::Fn(f) => !f.declare && is_js_function(f.function),
        Stmt::Class(c) => !c.declare && is_js_class(c.class),
        Stmt::Expr(e) => is_js_expr(e),
        Stmt::EnumClosure(c) => forall|i: int| 0 <= i < c.assigns@.len() ==> ((#[trigger] c.assigns@[i]).value is Raw
            ==> is_js_expr(c.assigns@[i].value->Raw_0)),
        Stmt::NamespaceClosure(c) => forall|i: int| 0 <= i < c.body@.len() ==> is_js_stmt(#[trigger] c.body@[i]),
        _ => false,
    }
}

pub open spec fn is_js_stmts(ss: Seq<Stmt>) -> bool {
    forall|i: int| 0 <= i < ss.len() ==> is_js_stmt(#[trigger] ss[i])
}

pub proof fn lemma_kept_exports(e: crate::ast::NamedExport, sps: Seq<crate::ast::ExportSpecifier>, level: Seq<Stmt>)
    ensures
        forall|k: int| 0 <= k < kept_exports(e, sps, level).len() ==> !(#[trigger] kept_exports(e, sps, level)[k]).is_type_only,
    decreases sps.len(),
{
    if sps.len() > 0 {
        lemma_kept_exports(e, sps.drop_last(), level);
        let prev = kept_exports(e, sps.drop_last(), level);
        let kept = kept_exports(e, sps, level);
        assert forall|k: int| 0 <= k < kept.len() implies !(#[trigger] kept[k]).is_type_only by {
            if k < prev.len() {
                assert(kept[k] == prev[k]);
            }
        }
    }
}

pub proof fn lemma_ns_export_js(base: Seq<Stmt>, out: Seq<Stmt>, exported: bool, ns: Option<crate::ast::Ident>, id: crate::ast::Ident)
    requires
        with_ns_export(base, out, exported, ns, id),
        is_js_stmts(base),
    ensures
        is_js_stmts(out),
{
    if exported && ns is Some {
        assert forall|i: int| 0 <= i < out.len() implies is_js_stmt(#[trigger] out[i]) by {
            if i < base.len() {
                assert(out[i] == out.subrange(0, base.len() as int)[i]);
            } else {
                let x = out[i]->Expr_0;
                let t = *x->Assign_target;
                assert(is_js_expr(*t->Member_obj));
                assert(is_js_expr(t));
                assert(is_js_expr(*x->Assign_value));
            }
        }
    }
}

pub proof fn lemma_ns_assign_js(s: Stmt, ns: crate::ast::Ident, name: crate::ast::Ident, value: Expr)
    requires
        is_ns_assign(s, ns, name, value),
    ensures
        is_js_stmt(s),
{
    let x = s->Expr_0;
    let t = *x->Assign_target;
    assert(is_js_expr(*t->Member_obj));
    assert(is_js_expr(t));
    lemma_erased_expr_is_js(value, *x->Assign_value);
    assert(is_js_expr(x));
}

pub proof fn lemma_class_decl_js(c: crate::ast::ClassDecl, ns: Option<crate::ast::Ident>, cfg: Config, out: Seq<Stmt>)
    requires
        !c.declare,
        crate::strip::lowered_class_decl(c, ns, cfg, out),
    ensures
        is_js_stmts(out),
{
    let ud = cfg.use_define_for_class_fields;
    let statics = crate::class_fields::static_props(c.class.body@, ud);
    let temps = crate::class_fields::static_temps(c.class.body@, ud, c.ident, cfg.synth_tag);
    let k: int = 1 + statics.len() as int;
    lemma_lowered_class_js(c.class, out[0]->Class_0.class, ud, c.ident, cfg.synth_tag);
    assert(is_js_stmts(out.subrange(0, k))) by {
        assert forall|j: int| 0 <= j < k implies is_js_stmt(#[trigger] out.subrange(0, k)[j]) by {
            assert(out.subrange(0, k)[j] == out[j]);
            if j > 0 {
                assert(out[1 + (j - 1)] == out[j]);
                lemma_prop_assign_js(out[j]->Expr_0, Expr::Ident(c.ident), statics[j - 1].key, *statics[j - 1].value->0,
                    temps[j - 1]);
            }
        }
    }
    lemma_ns_export_js(out.subrange(0, k), out, c.exported, ns, c.ident);
}

/// What lowering makes of the first `n` statements of a level holds no
/// TypeScript-only syntax.
pub proof fn lemma_level_js(level: Seq<Stmt>, n: int, ns: Option<crate::ast::Ident>, refs: Seq<Ref>, cfg: Config, out: Seq<Stmt>)
    requires
        lowered_level(level, n, ns, refs, cfg, out),
    ensures
        is_js_stmts(out),
    decreases level, 0int, n,
{
    if n > 0 && n <= level.len() {
        let k = choose|k: int| #![trigger out.subrange(0, k)]
            0 <= k <= out.len() && lowered_level(level, n - 1, ns, refs, cfg, out.subrange(0, k)) && lowered_stmt(
                level,
                n - 1,
                ns,
                refs,
                cfg,
                out.subrange(k, out.len() as int),
            );
        lemma_level_js(level, n - 1, ns, refs, cfg, out.subrange(0, k));
        assert(decreases_to!(level => level[n - 1]));
        lemma_stmt_js(level, n - 1, ns, refs, cfg, out.subrange(k, out.len() as int));
        assert forall|i: int| 0 <= i < out.len() implies is_js_stmt(#[trigger] out[i]) by {
            if i < k {
                assert(out[i] == out.subrange(0, k)[i]);
            } else {
                assert(out[i] == out.subrange(k, out.len() as int)[i - k]);
            }
        }
    }
}

pub proof fn lemma_dotted_js(parent: crate::ast::Ident, rest: Seq<crate::ast::Ident>, b: Seq<Stmt>, out: Seq<Stmt>)
    requires
        dotted_body(parent, rest, b, out),
        is_js_stmts(b),
    ensures
        is_js_stmts(out),
    decreases rest.len(),
{
    if rest.len() > 0 {
        let c = out[1]->NamespaceClosure_0;
        lemma_dotted_js(rest[0], rest.drop_first(), b, c.body@);
        assert(is_js_stmt(out[1]));
        assert(is_js_stmt(out[0]));
        assert forall|i: int| 0 <= i < out.len() implies is_js_stmt(#[trigger] out[i]) by {
            if i == 0 {
            } else {
            }
        }
    }
}

pub proof fn lemma_stmt_js(level: Seq<Stmt>, i: int, ns: Option<crate::ast::Ident>, refs: Seq<Ref>, cfg: Config, out: Seq<Stmt>)
    requires
        0 <= i < level.len(),
        lowered_stmt(level, i, ns, refs, cfg, out),
    ensures
        is_js_stmts(out),
    decreases level[i], 1int, 0int,
{
    match level[i] {
        Stmt::Import(d) => {
            lemma_kept_are_kept(d.specifiers@, refs, level);
        },
        Stmt::ExportNamed(e) => {
            lemma_kept_exports(e, e.specifiers@, level);
        },
        Stmt::Var(v) => {
            if !v.declare {
                if v.exported && ns is Some {
                    if v.init is Some {
                        lemma_ns_assign_js(out[0], ns->0, v.name, v.init->0);
                    }
                } else if v.init is Some {
                    lemma_erased_expr_is_js(v.init->0, out[0]->Var_0.init->0);
                }
            }
        },
        Stmt::Fn(f) => {
            if !(f.declare || f.function.body is None) {
                lemma_erased_function_js(f.function, out[0]->Fn_0.function);
                assert(is_js_stmts(out.subrange(0, 1))) by {
                    assert(out.subrange(0, 1)[0] == out[0]);
                }
                lemma_ns_export_js(out.subrange(0, 1), out, f.exported, ns, f.ident);
            }
        },
        Stmt::Class(c) => {
            if !c.declare {
                let h = crate::strip::class_hoists(c, cfg).len() as int;
                let hs = out.subrange(0, h);
                let g = out.subrange(h, out.len() as int);
                lemma_class_decl_js(c, ns, cfg, g);
                if !cfg.use_define_for_class_fields {
                    let idx = crate::class_fields::hoisted_keys(c.class.body@);
                    assert forall|q: int| 0 <= q < hs.len() implies is_js_stmt(#[trigger] hs[q]) by {
                        let v = hs[q]->Var_0;
                        lemma_erased_expr_is_js(*c.class.body@[idx[q]]->ClassProp_0.key->Computed_0, v.init->0);
                    }
                }
                assert forall|j: int| 0 <= j < out.len() implies is_js_stmt(#[trigger] out[j]) by {
                    if j < h {
                        assert(out[j] == hs[j]);
                    } else {
                        assert(out[j] == g[j - h]);
                    }
                }
            }
        },
        Stmt::Expr(e) => {
            lemma_erased_expr_is_js(e, out[0]->Expr_0);
        },
        Stmt::Enum(e) => {
            if !e.declare {
                let c = out.last()->EnumClosure_0;
                assert forall|j: int| 0 <= j < c.assigns@.len() implies ((#[trigger] c.assigns@[j]).value is Raw
                    ==> is_js_expr(c.assigns@[j].value->Raw_0)) by {
                    assert(crate::enums::lowered_member(e.members@[j], crate::enums::enum_consts(e.members@, (j + 1) as nat)[j],
                        c.assigns@[j]));
                    if c.assigns@[j].value is Raw {
                        lemma_erased_expr_is_js(e.members@[j].init->0, c.assigns@[j].value->Raw_0);
                    }
                }
                assert forall|j: int| 0 <= j < out.len() implies is_js_stmt(#[trigger] out[j]) by {
                    if j < out.len() - 1 {
                        assert(out[j] == out.subrange(0, out.len() - 1)[j]);
                    }
                }
            }
        },
        Stmt::Namespace(n) => {
            if !n.declare && out.len() > 0 {
                let c = out.last()->NamespaceClosure_0;
                assert(decreases_to!(level[i] => level[i]->Namespace_0));
                assert(decreases_to!(level[i]->Namespace_0 => level[i]->Namespace_0.body));
                assert(decreases_to!(level[i]->Namespace_0.body => level[i]->Namespace_0.body@));
                let b = choose|b: Seq<Stmt>| #[trigger] crate::strip::namespace_lowered(level, i, n, ns, out, b)
                    && lowered_level(n.body@, n.body@.len() as int, Some(crate::strip::inner_name(n)), refs, cfg, b);
                lemma_level_js(n.body@, n.body@.len() as int, Some(crate::strip::inner_name(n)), refs, cfg, b);
                lemma_dotted_js(n.id, n.rest@, b, c.body@);
                assert forall|j: int| 0 <= j < out.len() implies is_js_stmt(#[trigger] out[j]) by {
                    if j < out.len() - 1 {
                        assert(out[j] == out.subrange(0, out.len() - 1)[j]);
                    }
                }
            }
        },
        Stmt::ExportAssign(e) => {
            let x = out[0]->Expr_0;
            lemma_erased_expr_is_js(e, *x->Assign_value);
            assert(is_js_expr(*(*x->Assign_target)->Member_obj));
            assert(is_js_expr(*x->Assign_target));
            assert(is_js_expr(x));
            assert(is_js_stmt(out[0]));
        },
        Stmt::ImportEquals(q) => {
            if !q.is_type_only {
                match q.module_ref {
                    crate::ast::TsModuleRef::Entity(x) => {
                        {
                            lemma_erased_expr_is_js(x, out[0]->Var_0.init->0);
                            assert(is_js_stmts(out.subrange(0, 1))) by {
                                assert(out.subrange(0, 1)[0] == out[0]);
                            }
                            lemma_ns_export_js(out.subrange(0, 1), out, q.exported, ns, q.id);
                        }
                    },
                    crate::ast::TsModuleRef::Require(src) => {
                        let k: int = if cfg.import_export_assign_config == crate::strip::ImportExportAssignConfig::NodeNext {
                            3
                        } else {
                            1
                        };
                        assert(is_js_stmts(out.subrange(0, k))) by {
                            assert forall|j: int| 0 <= j < k implies is_js_stmt(#[trigger] out.subrange(0, k)[j]) by {
                                assert(out.subrange(0, k)[j] == out[j]);
                                if j == k - 1 {
                                    let y = out[j]->Var_0.init->0;
                                    assert(is_js_expr(y->Call_args@[0]));
                                    assert(is_js_expr(*y->Call_callee));
                                } else if j == 1 {
                                    let y = out[1]->Var_0.init->0;
                                    let a = y->Call_args@[0];
                                    assert(is_js_expr(*a->Member_obj));
                                    assert(is_js_expr(a));
                                    assert(is_js_expr(*y->Call_callee));
                                }
                            }
                        }
                        lemma_ns_export_js(out.subrange(0, k), out, q.exported, ns, q.id);
                    },
                }
            }
        },
        Stmt::EnumClosure(c) => {
            let r = out[0]->EnumClosure_0;
            assert forall|j: int| 0 <= j < r.assigns@.len() implies ((#[trigger] r.assigns@[j]).value is Raw
                ==> is_js_expr(r.assigns@[j].value->Raw_0)) by {
                let a = c.assigns@[j];
                if a.value is Raw {
                    lemma_erased_expr_is_js(a.value->Raw_0, r.assigns@[j].value->Raw_0);
                }
            }
        },
        Stmt::NamespaceClosure(c) => {
            assert(decreases_to!(level[i] => level[i]->NamespaceClosure_0));
            assert(decreases_to!(level[i]->NamespaceClosure_0 => level[i]->NamespaceClosure_0.body));
            assert(decreases_to!(level[i]->NamespaceClosure_0.body => level[i]->NamespaceClosure_0.body@));
            lemma_level_js(c.body@, c.body@.len() as int, Some(c.name), refs, cfg, out[0]->NamespaceClosure_0.body@);
        },
        _ => {},
    }
}

/// No TypeScript-only syntax survives one application of the pass: the
/// output holds no type annotation, type argument, assertion, interface,
/// type alias, enum, namespace, `declare`, `abstract`, accessibility
/// modifier, parameter property, index signature, type-only import or
/// export, `export =` or `import =`.
pub proof fn lemma_output_is_js(m: crate::ast::Module, cfg: Config, r: crate::ast::Module)
    requires
        stripped_module(m, cfg, r),
    ensures
        is_js_stmts(r.body@),
{
    lemma_level_js(m.body@, m.body@.len() as int, None, crate::usage::stmts_refs(m.body@), cfg, r.body@);
}

} // verus!
