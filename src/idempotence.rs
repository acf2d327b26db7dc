//! A second application of the pass leaves its output as it is.

use vstd::prelude::*;

use crate::ast::{EnumValue, Expr, Function, Ident, Module, ParamOrTsParamProp, Stmt};
use crate::class::{Class, ClassMember, Decorator, PropName};
use crate::class_fields::{
    assigned_props, body_with, first_super_from, insert_at, lowered_class, lowered_member,
    lowered_members, member_kept, param_prop_ids,
};
use crate::erase::{erased_exprs, erased_function, lemma_js_expr_erases_to_itself};
use crate::imports::{keeps_specifier, kept_specifiers, shadowed};
use crate::js_only::{
    is_js_class, is_js_decorators, is_js_exprs, is_js_function, is_js_key, is_js_member, is_js_stmt, is_js_stmts,
    lemma_output_is_js,
};
use crate::strip::{
    dotted_body, keeps_export, kept_exports, level_fails, lowered_level, lowered_stmt, stmt_fails, stripped_module,
    with_ns_export, Config,
};
use crate::usage::{stmts_refs, used_as_value, Ref};

verus! {

/// No member of `ms` is a (non-private) property declaration.
pub open spec fn no_class_props(ms: Seq<ClassMember>) -> bool {
    forall|i: int| 0 <= i < ms.len() ==> !(#[trigger] ms[i] is ClassProp)
}

/// `s` has the shape that lowering leaves: declarations inside a namespace
/// are not exported, and without `use_define` classes keep no property
/// declarations.
pub open spec fn settled_stmt(s: Stmt, top: bool, use_define: bool) -> bool
    decreases s,
{
    match s {
        Stmt::Var(v) => top || !v.exported,
        Stmt::Fn(f) => top || !f.exported,
        Stmt::Class(c) => (top || !c.exported) && (use_define || no_class_props(c.class.body@)),
        Stmt::NamespaceClosure(c) => forall|i: int| 0 <= i < c.body@.len() ==> settled_stmt(
            #[trigger] c.body@[i],
            false,
            use_define,
        ),
        _ => true,
    }
}

pub open spec fn settled_stmts(ss: Seq<Stmt>, top: bool, use_define: bool) -> bool {
    forall|i: int| 0 <= i < ss.len() ==> settled_stmt(#[trigger] ss[i], top, use_define)
}

proof fn lemma_members_no_props(ms: Seq<ClassMember>, out: Seq<ClassMember>, derived: bool, props: Seq<crate::class::ClassProp>,
    temps: Seq<(Seq<char>, u32)>)
    requires
        lowered_members(ms, out, false, derived, props, temps),
    ensures
        no_class_props(out),
    decreases ms.len(),
{
    if ms.len() > 0 {
        if !member_kept(ms.last(), false) {
            lemma_members_no_props(ms.drop_last(), out, derived, props, temps);
        } else {
            lemma_members_no_props(ms.drop_last(), out.drop_last(), derived, props, temps);
            assert(!(out.last() is ClassProp));
            assert forall|i: int| 0 <= i < out.len() implies !(#[trigger] out[i] is ClassProp) by {
                if i < out.len() - 1 {
                    assert(out[i] == out.drop_last()[i]);
                }
            }
        }
    }
}

proof fn lemma_class_no_props(c: crate::class::Class, r: crate::class::Class, cls: Ident, tag: u32)
    requires
        lowered_class(c, r, false, cls, tag),
    ensures
        no_class_props(r.body@),
{
    let derived = c.super_class is Some;
    let props = crate::class_fields::instance_props(c.body@, false);
    let temps = crate::class_fields::instance_temps(c.body@, false, cls, tag);
    if !crate::class_fields::has_ctor(c.body@) && props.len() > 0 {
        let rest = r.body@.drop_first();
        lemma_members_no_props(c.body@, rest, derived, props, temps);
        assert forall|i: int| 0 <= i < r.body@.len() implies !(#[trigger] r.body@[i] is ClassProp) by {
            if i > 0 {
                assert(r.body@[i] == rest[i - 1]);
            }
        }
    } else {
        lemma_members_no_props(c.body@, r.body@, derived, props, temps);
    }
}

proof fn lemma_ns_export_settled(base: Seq<Stmt>, out: Seq<Stmt>, exported: bool, ns: Option<Ident>, id: Ident, ud: bool)
    requires
        with_ns_export(base, out, exported, ns, id),
        settled_stmts(base, ns is None, ud),
    ensures
        settled_stmts(out, ns is None, ud),
{
    if exported && ns is Some {
        assert forall|i: int| 0 <= i < out.len() implies settled_stmt(#[trigger] out[i], ns is None, ud) by {
            if i < base.len() {
                assert(out[i] == out.subrange(0, base.len() as int)[i]);
            }
        }
    }
}

/// Lowering leaves settled statements.
pub proof fn lemma_level_settled(level: Seq<Stmt>, n: int, ns: Option<Ident>, refs: Seq<Ref>, cfg: Config, out: Seq<Stmt>)
    requires
        lowered_level(level, n, ns, refs, cfg, out),
    ensures
        settled_stmts(out, ns is None, cfg.use_define_for_class_fields),
    decreases level, 0int, n,
{
    if n > 0 && n <= level.len() {
        let k = choose|k: int| #![trigger out.subrange(0, k)]
            0 <= k <= out.len() && lowered_level(level, n - 1, ns, refs, cfg, out.subrange(0, k)) && lowered_stmt(
                level,
                n - 1,
                ns,
                refs,
                cfg,
                out.subrange(k, out.len() as int),
            );
        lemma_level_settled(level, n - 1, ns, refs, cfg, out.subrange(0, k));
        assert(decreases_to!(level => level[n - 1]));
        lemma_stmt_settled(level, n - 1, ns, refs, cfg, out.subrange(k, out.len() as int));
        assert forall|i: int| 0 <= i < out.len() implies settled_stmt(#[trigger] out[i], ns is None,
            cfg.use_define_for_class_fields) by {
            if i < k {
                assert(out[i] == out.subrange(0, k)[i]);
            } else {
                assert(out[i] == out.subrange(k, out.len() as int)[i - k]);
            }
        }
    }
}

proof fn lemma_dotted_settled(parent: Ident, rest: Seq<Ident>, b: Seq<Stmt>, ud: bool, out: Seq<Stmt>)
    requires
        dotted_body(parent, rest, b, out),
        settled_stmts(b, false, ud),
    ensures
        settled_stmts(out, false, ud),
    decreases rest.len(),
{
    if rest.len() > 0 {
        let c = out[1]->NamespaceClosure_0;
        lemma_dotted_settled(rest[0], rest.drop_first(), b, ud, c.body@);
        assert(settled_stmt(out[1], false, ud));
        assert(settled_stmt(out[0], false, ud));
        assert forall|i: int| 0 <= i < out.len() implies settled_stmt(#[trigger] out[i], false, ud) by {
            if i == 0 {
            } else {
            }
        }
    }
}

proof fn lemma_stmt_settled(level: Seq<Stmt>, i: int, ns: Option<Ident>, refs: Seq<Ref>, cfg: Config, out: Seq<Stmt>)
    requires
        0 <= i < level.len(),
        lowered_stmt(level, i, ns, refs, cfg, out),
    ensures
        settled_stmts(out, ns is None, cfg.use_define_for_class_fields),
    decreases level[i], 1int, 0int,
{
    let ud = cfg.use_define_for_class_fields;
    let top = ns is None;
    match level[i] {
        Stmt::Fn(f) => {
            if !(f.declare || f.function.body is None) {
                assert(settled_stmts(out.subrange(0, 1), top, ud)) by {
                    assert(out.subrange(0, 1)[0] == out[0]);
                }
                lemma_ns_export_settled(out.subrange(0, 1), out, f.exported, ns, f.ident, ud);
            }
        },
        Stmt::Class(c) => {
            if !c.declare {
                let h = crate::strip::class_hoists(c, cfg).len() as int;
                let hs = out.subrange(0, h);
                let g = out.subrange(h, out.len() as int);
                let statics = crate::class_fields::static_props(c.class.body@, ud);
                let k: int = 1 + statics.len() as int;
                if !ud {
                    lemma_class_no_props(c.class, g[0]->Class_0.class, c.ident, cfg.synth_tag);
                }
                assert(settled_stmts(g.subrange(0, k), top, ud)) by {
                    assert forall|j: int| 0 <= j < k implies settled_stmt(#[trigger] g.subrange(0, k)[j], top, ud) by {
                        assert(g.subrange(0, k)[j] == g[j]);
                        if j > 0 {
                            assert(g[1 + (j - 1)] == g[j]);
                        }
                    }
                }
                lemma_ns_export_settled(g.subrange(0, k), g, c.exported, ns, c.ident, ud);
                assert forall|j: int| 0 <= j < out.len() implies settled_stmt(#[trigger] out[j], top, ud) by {
                    if j < h {
                        assert(out[j] == hs[j]);
                    } else {
                        assert(out[j] == g[j - h]);
                    }
                }
            }
        },
        Stmt::Enum(e) => {
            if !e.declare {
                assert forall|j: int| 0 <= j < out.len() implies settled_stmt(#[trigger] out[j], top, ud) by {
                    if j < out.len() - 1 {
                        assert(out[j] == out.subrange(0, out.len() - 1)[j]);
                    }
                }
            }
        },
        Stmt::Namespace(n) => {
            if !n.declare && out.len() > 0 {
                let c = out.last()->NamespaceClosure_0;
                assert(decreases_to!(level[i] => level[i]->Namespace_0));
                assert(decreases_to!(level[i]->Namespace_0 => level[i]->Namespace_0.body));
                assert(decreases_to!(level[i]->Namespace_0.body => level[i]->Namespace_0.body@));
                let b = choose|b: Seq<Stmt>| #[trigger] crate::strip::namespace_lowered(level, i, n, ns, out, b)
                    && lowered_level(n.body@, n.body@.len() as int, Some(crate::strip::inner_name(n)), refs, cfg, b);
                lemma_level_settled(n.body@, n.body@.len() as int, Some(crate::strip::inner_name(n)), refs, cfg, b);
                lemma_dotted_settled(n.id, n.rest@, b, ud, c.body@);
                assert forall|j: int| 0 <= j < out.len() implies settled_stmt(#[trigger] out[j], top, ud) by {
                    if j < out.len() - 1 {
                        assert(out[j] == out.subrange(0, out.len() - 1)[j]);
                    }
                }
            }
        },
        Stmt::ImportEquals(q) => {
            if !q.is_type_only {
                match q.module_ref {
                    crate::ast::TsModuleRef::Entity(x) => {
                        {
                            assert(settled_stmts(out.subrange(0, 1), top, ud)) by {
                                assert(out.subrange(0, 1)[0] == out[0]);
                            }
                            lemma_ns_export_settled(out.subrange(0, 1), out, q.exported, ns, q.id, ud);
                        }
                    },
                    crate::ast::TsModuleRef::Require(src) => {
                        let k: int = if cfg.import_export_assign_config == crate::strip::ImportExportAssignConfig::NodeNext {
                            3
                        } else {
                            1
                        };
                        assert(settled_stmts(out.subrange(0, k), top, ud)) by {
                            assert forall|j: int| 0 <= j < k implies settled_stmt(#[trigger] out.subrange(0, k)[j], top, ud) by {
                                assert(out.subrange(0, k)[j] == out[j]);
                            }
                        }
                        lemma_ns_export_settled(out.subrange(0, k), out, q.exported, ns, q.id, ud);
                    },
                }
            }
        },
        Stmt::NamespaceClosure(c) => {
            assert(decreases_to!(level[i] => level[i]->NamespaceClosure_0));
            assert(decreases_to!(level[i]->NamespaceClosure_0 => level[i]->NamespaceClosure_0.body));
            assert(decreases_to!(level[i]->NamespaceClosure_0.body => level[i]->NamespaceClosure_0.body@));
            lemma_level_settled(c.body@, c.body@.len() as int, Some(c.name), refs, cfg, out[0]->NamespaceClosure_0.body@);
        },
        _ => {},
    }
}

/// Every import binding of `level` (and of the namespace bodies in it) is
/// used as a value in `refs` and not shadowed by a runtime declaration of
/// its level.
pub open spec fn imports_stay(level: Seq<Stmt>, refs: Seq<Ref>) -> bool
    decreases level,
{
    forall|i: int| 0 <= i < level.len() ==> match #[trigger] level[i] {
        Stmt::Import(d) => forall|j: int| 0 <= j < d.specifiers@.len() ==> used_as_value(
            refs,
            (#[trigger] d.specifiers@[j]).local,
        ) && !shadowed(level, d.specifiers@[j].local.sym@),
        Stmt::NamespaceClosure(c) => imports_stay(c.body@, refs),
        _ => true,
    }
}

proof fn lemma_exprs_fixed(es: Seq<Expr>)
    requires
        is_js_exprs(es),
    ensures
        erased_exprs(es, es),
{
    assert forall|i: int| 0 <= i < es.len() implies crate::erase::erased_expr(#[trigger] es[i], es[i]) by {
        lemma_js_expr_erases_to_itself(es[i]);
    }
}

proof fn lemma_function_fixed(f: Function)
    requires
        is_js_function(f),
    ensures
        erased_function(f, f),
{
    lemma_exprs_fixed(f.body->0@);
    assert forall|i: int| 0 <= i < f.params@.len() implies crate::erase::erased_param(#[trigger] f.params@[i], f.params@[i]) by {}
}

proof fn lemma_key_fixed(k: PropName)
    requires
        is_js_key(k),
    ensures
        crate::class_fields::erased_key(k, k),
{
    match k {
        PropName::Computed(e) => lemma_js_expr_erases_to_itself(*e),
        _ => {},
    }
}

proof fn lemma_decorators_fixed(ds: Seq<Decorator>)
    requires
        is_js_decorators(ds),
    ensures
        crate::class_fields::erased_decorators(ds, ds),
{
    assert forall|i: int| 0 <= i < ds.len() implies crate::erase::erased_expr(*(#[trigger] ds[i]).expr, *ds[i].expr) by {
        lemma_js_expr_erases_to_itself(*ds[i].expr);
    }
}

proof fn lemma_param_ids_empty(ps: Seq<ParamOrTsParamProp>)
    requires
        forall|i: int| 0 <= i < ps.len() ==> #[trigger] ps[i] is Param,
    ensures
        param_prop_ids(ps) == Seq::<Ident>::empty(),
    decreases ps.len(),
{
    if ps.len() > 0 {
        lemma_param_ids_empty(ps.drop_last());
    }
}

proof fn lemma_assigned_props_empty(ms: Seq<ClassMember>, is_static: bool)
    requires
        no_class_props(ms),
    ensures
        assigned_props(ms, is_static) == Seq::<crate::class::ClassProp>::empty(),
    decreases ms.len(),
{
    if ms.len() > 0 {
        lemma_assigned_props_empty(ms.drop_last(), is_static);
    }
}

proof fn lemma_first_super_range(b: Seq<Expr>, i: int)
    requires
        0 <= i,
    ensures
        first_super_from(b, i) == -1 || (i <= first_super_from(b, i) < b.len()),
    decreases b.len() - i,
{
    if i < b.len() {
        lemma_first_super_range(b, i + 1);
    }
}

proof fn lemma_hoisted_keys_empty(ms: Seq<ClassMember>)
    requires
        no_class_props(ms),
    ensures
        crate::class_fields::hoisted_keys(ms) == Seq::<int>::empty(),
    decreases ms.len(),
{
    if ms.len() > 0 {
        lemma_hoisted_keys_empty(ms.drop_last());
    }
}

proof fn lemma_member_fixed(m: ClassMember, derived: bool, temps: Seq<(Seq<char>, u32)>)
    requires
        is_js_member(m),
    ensures
        lowered_member(m, m, derived, Seq::<crate::class::ClassProp>::empty(), temps),
{
    match m {
        ClassMember::Constructor(c) => {
            lemma_key_fixed(c.key);
            let b = c.body->0@;
            lemma_exprs_fixed(b);
            lemma_param_ids_empty(c.params@);
            lemma_first_super_range(b, 0);
            let at = insert_at(b, derived);
            assert(b.subrange(at, at) =~= Seq::<Expr>::empty());
            assert forall|i: int| 0 <= i < c.params@.len() implies crate::class_fields::erased_ctor_param(
                #[trigger] c.params@[i],
                c.params@[i],
            ) by {}
            assert(body_with(b, b, at, param_prop_ids(c.params@), Seq::<crate::class::ClassProp>::empty(), temps)) by {
                assert forall|j: int| at <= j < b.len() implies crate::erase::erased_expr(#[trigger] b[j], b[j + 0]) by {
                    assert(b[j + 0] == b[j]);
                }
            }
        },
        ClassMember::Method(f) => {
            lemma_key_fixed(f.key);
            lemma_function_fixed(*f.function);
        },
        ClassMember::PrivateMethod(f) => {
            lemma_function_fixed(*f.function);
        },
        ClassMember::ClassProp(p) => {
            lemma_key_fixed(p.key);
            lemma_decorators_fixed(p.decorators@);
            if p.value is Some {
                lemma_js_expr_erases_to_itself(*p.value->0);
            }
        },
        ClassMember::PrivateProp(p) => {
            lemma_decorators_fixed(p.decorators@);
            if p.value is Some {
                lemma_js_expr_erases_to_itself(*p.value->0);
            }
        },
        ClassMember::StaticBlock(b) => lemma_exprs_fixed(b.body@),
        _ => {},
    }
}

proof fn lemma_members_fixed(ms: Seq<ClassMember>, use_define: bool, derived: bool, temps: Seq<(Seq<char>, u32)>)
    requires
        forall|i: int| 0 <= i < ms.len() ==> is_js_member(#[trigger] ms[i]),
        use_define || no_class_props(ms),
    ensures
        lowered_members(ms, ms, use_define, derived, Seq::<crate::class::ClassProp>::empty(), temps),
    decreases ms.len(),
{
    if ms.len() > 0 {
        let last = ms.last();
        assert(is_js_member(ms[ms.len() - 1]));
        assert(!use_define ==> !(ms[ms.len() - 1] is ClassProp));
        assert(member_kept(last, use_define));
        lemma_member_fixed(last, derived, temps);
        assert forall|i: int| 0 <= i < ms.drop_last().len() implies is_js_member(#[trigger] ms.drop_last()[i]) by {
            assert(ms.drop_last()[i] == ms[i]);
        }
        if !use_define {
            assert forall|i: int| 0 <= i < ms.drop_last().len() implies !(#[trigger] ms.drop_last()[i] is ClassProp) by {
                assert(ms.drop_last()[i] == ms[i]);
            }
        }
        lemma_members_fixed(ms.drop_last(), use_define, derived, temps);
    }
}

proof fn lemma_class_fixed(c: Class, use_define: bool, cls: Ident, tag: u32)
    requires
        is_js_class(c),
        use_define || no_class_props(c.body@),
    ensures
        lowered_class(c, c, use_define, cls, tag),
{
    lemma_decorators_fixed(c.decorators@);
    if c.super_class is Some {
        lemma_js_expr_erases_to_itself(*c.super_class->0);
    }
    if !use_define {
        lemma_assigned_props_empty(c.body@, false);
    }
    lemma_members_fixed(c.body@, use_define, c.super_class is Some, crate::class_fields::instance_temps(c.body@,
        use_define, cls, tag));
}

proof fn lemma_kept_all(sps: Seq<crate::ast::ImportSpecifier>, refs: Seq<Ref>, level: Seq<Stmt>)
    requires
        forall|j: int| 0 <= j < sps.len() ==> keeps_specifier(#[trigger] sps[j], refs, level),
    ensures
        kept_specifiers(sps, refs, level) == sps,
    decreases sps.len(),
{
    if sps.len() > 0 {
        assert forall|j: int| 0 <= j < sps.drop_last().len() implies keeps_specifier(#[trigger] sps.drop_last()[j], refs,
            level) by {
            assert(sps.drop_last()[j] == sps[j]);
        }
        lemma_kept_all(sps.drop_last(), refs, level);
        assert(keeps_specifier(sps[sps.len() - 1], refs, level));
        assert(sps.drop_last().push(sps.last()) =~= sps);
    }
}

proof fn lemma_kept_exports_all(e: crate::ast::NamedExport, sps: Seq<crate::ast::ExportSpecifier>, level: Seq<Stmt>)
    requires
        forall|j: int| 0 <= j < sps.len() ==> keeps_export(e, #[trigger] sps[j], level),
    ensures
        kept_exports(e, sps, level) == sps,
    decreases sps.len(),
{
    if sps.len() > 0 {
        assert forall|j: int| 0 <= j < sps.drop_last().len() implies keeps_export(e, #[trigger] sps.drop_last()[j], level) by {
            assert(sps.drop_last()[j] == sps[j]);
        }
        lemma_kept_exports_all(e, sps.drop_last(), level);
        assert(keeps_export(e, sps[sps.len() - 1], level));
        assert(sps.drop_last().push(sps.last()) =~= sps);
    }
}

proof fn lemma_no_type_decls(level: Seq<Stmt>, sym: Seq<char>)
    requires
        is_js_stmts(level),
    ensures
        !crate::strip::type_declared(level, sym),
{
    assert forall|i: int| 0 <= i < level.len() implies !crate::strip::declares_type(#[trigger] level[i], sym) by {
        assert(is_js_stmt(level[i]));
    }
}

/// Settled statements free of TypeScript-only syntax lower to themselves.
proof fn lemma_level_fixed(level: Seq<Stmt>, n: int, ns: Option<Ident>, refs: Seq<Ref>, cfg: Config)
    requires
        0 <= n <= level.len(),
        is_js_stmts(level),
        settled_stmts(level, ns is None, cfg.use_define_for_class_fields),
        imports_stay(level, refs),
    ensures
        lowered_level(level, n, ns, refs, cfg, level.subrange(0, n)),
        !level_fails(level, n, ns, refs, cfg),
    decreases level, 0int, n,
{
    if n > 0 {
        lemma_level_fixed(level, n - 1, ns, refs, cfg);
        assert(decreases_to!(level => level[n - 1]));
        lemma_stmt_fixed(level, n - 1, ns, refs, cfg);
        let out = level.subrange(0, n);
        assert(out.subrange(0, n - 1) =~= level.subrange(0, n - 1));
        assert(out.subrange(n - 1, out.len() as int) =~= seq![level[n - 1]]);
    }
}

proof fn lemma_stmt_fixed(level: Seq<Stmt>, i: int, ns: Option<Ident>, refs: Seq<Ref>, cfg: Config)
    requires
        0 <= i < level.len(),
        is_js_stmts(level),
        settled_stmts(level, ns is None, cfg.use_define_for_class_fields),
        imports_stay(level, refs),
    ensures
        lowered_stmt(level, i, ns, refs, cfg, seq![level[i]]),
        !stmt_fails(level, i, ns, refs, cfg),
    decreases level[i], 1int, 0int,
{
    let s = level[i];
    let out = seq![s];
    assert(is_js_stmt(s));
    assert(settled_stmt(s, ns is None, cfg.use_define_for_class_fields));
    match s {
        Stmt::Import(d) => {
            let sps = d.specifiers@;
            assert forall|j: int| 0 <= j < sps.len() implies keeps_specifier(#[trigger] sps[j], refs, level) by {
                assert(used_as_value(refs, sps[j].local) && !shadowed(level, sps[j].local.sym@));
            }
            lemma_kept_all(sps, refs, level);
        },
        Stmt::ExportNamed(e) => {
            let sps = e.specifiers@;
            assert forall|j: int| 0 <= j < sps.len() implies keeps_export(e, #[trigger] sps[j], level) by {
                lemma_no_type_decls(level, sps[j].orig.sym@);
            }
            lemma_kept_exports_all(e, sps, level);
        },
        Stmt::Var(v) => {
            if v.init is Some {
                lemma_js_expr_erases_to_itself(v.init->0);
            }
        },
        Stmt::Fn(f) => {
            lemma_function_fixed(f.function);
            assert(out.subrange(0, 1) =~= out);
        },
        Stmt::Class(c) => {
            let ud = cfg.use_define_for_class_fields;
            lemma_class_fixed(c.class, ud, c.ident, cfg.synth_tag);
            if !ud {
                lemma_assigned_props_empty(c.class.body@, true);
                lemma_hoisted_keys_empty(c.class.body@);
            }
            assert(out.subrange(0, 0) =~= Seq::<Stmt>::empty());
            assert(out.subrange(0, out.len() as int) =~= out);
            assert(out.subrange(0, 1) =~= out);
        },
        Stmt::Expr(e) => lemma_js_expr_erases_to_itself(e),
        Stmt::EnumClosure(c) => {
            assert forall|j: int| 0 <= j < c.assigns@.len() implies {
                let a = #[trigger] c.assigns@[j];
                match a.value {
                    EnumValue::Raw(x) => a.value matches EnumValue::Raw(y) && crate::erase::erased_expr(x, y),
                    _ => true,
                }
            } by {
                let a = c.assigns@[j];
                if a.value is Raw {
                    lemma_js_expr_erases_to_itself(a.value->Raw_0);
                }
            }
        },
        Stmt::NamespaceClosure(c) => {
            assert(decreases_to!(level[i] => level[i]->NamespaceClosure_0));
            assert(decreases_to!(level[i]->NamespaceClosure_0 => level[i]->NamespaceClosure_0.body));
            assert(decreases_to!(level[i]->NamespaceClosure_0.body => level[i]->NamespaceClosure_0.body@));
            let b = c.body@;
            assert(imports_stay(b, refs));
            lemma_level_fixed(b, b.len() as int, Some(c.name), refs, cfg);
            assert(b.subrange(0, b.len() as int) =~= b);
        },
        _ => {},
    }
}

/// Applying the pass to its own output is a no-op: the output is the
/// lowering of itself, and the second application does not fail. This
/// holds where every import binding that survives the first application is
/// still used as a value, and not shadowed, in the output. A binding whose
/// only value use stood in a part that lowering drops would go on the second
/// application: a `declare`d statement or member (`import { v } from "m";
/// class C { declare x = v; }`), an overload signature with a computed key,
/// or an enum initializer that folds to a constant.
pub proof fn lemma_strip_idempotent(m: Module, cfg: Config, r: Module)
    requires
        stripped_module(m, cfg, r),
        imports_stay(r.body@, stmts_refs(r.body@)),
    ensures
        stripped_module(r, cfg, r),
        !level_fails(r.body@, r.body@.len() as int, None, stmts_refs(r.body@), cfg),
{
    lemma_output_is_js(m, cfg, r);
    lemma_level_settled(m.body@, m.body@.len() as int, None, stmts_refs(m.body@), cfg, r.body@);
    lemma_level_fixed(r.body@, r.body@.len() as int, None, stmts_refs(r.body@), cfg);
    assert(r.body@.subrange(0, r.body@.len() as int) =~= r.body@);
}

} // verus!
