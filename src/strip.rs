//! The pass as a whole: every statement of a module, at the top level and
//! inside namespaces, lowered after the usage classification.

use vstd::prelude::*;

use crate::ast::{
    ClassDecl, EnumAssign, EnumClosure, EnumValue, Expr, FnDecl, Guard, Ident, ImportDecl, ImportKind,
    ImportSpecifier, Module, NamedExport, NamespaceClosure, Span, Stmt, TsEnumDecl, TsImportEqualsDecl,
    TsModuleRef, TsNamespaceDecl, VarDecl, VarKind,
};
use crate::class_fields::{hoist_keys, hoisted_keys, hoisted_ok, lower_class, lowered_class, static_props, static_temps};
use crate::enums::{all_have_values, enum_consts, lower_enum_members, lowered_member, EnumError};
use crate::erase::{copy_ident, erased_expr, erased_function, strip_expr, strip_function};
use crate::imports::{
    declares_value, import_with, kept_specifiers, lower_import, shadowed, ImportError,
    ImportsNotUsedAsValues, type_import_used_as_value,
};
use crate::usage::{collect_refs, stmts_refs, Ref};

verus! {

/// How `export =` and `import x = require(..)` are lowered.
#[derive(Clone, Copy, Debug, PartialEq, Eq, Hash, Structural)]
pub enum ImportExportAssignConfig {
    Classic,
    EsNext,
    /// `require` is made from the module's own URL with `createRequire`.
    NodeNext,
}

#[derive(Clone, Copy, Debug, PartialEq, Eq, Hash, Structural)]
pub struct Config {
    /// Drop an export statement that erasure emptied, instead of leaving the
    /// marker `export {}` that keeps the file a module.
    pub no_empty_export: bool,
    pub import_not_used_as_values: ImportsNotUsedAsValues,
    /// Keep class fields as declarations instead of constructor assignments.
    pub use_define_for_class_fields: bool,
    pub import_export_assign_config: ImportExportAssignConfig,
    /// The scope tag of unresolved (global) names such as `module` and `require`.
    pub unresolved_tag: u32,
    /// The scope tag of bindings that lowering introduces.
    pub synth_tag: u32,
}

#[derive(Debug, PartialEq, Eq)]
pub enum StripError {
    Enum(EnumError),
    Import(ImportError),
}

/// No statement of `level` before `i` declares a runtime binding with the
/// name of `id`: a lowered enum or namespace then declares its variable.
pub open spec fn first_decl(level: Seq<Stmt>, i: int, id: Ident) -> bool {
    !shadowed(level.subrange(0, i), id.sym@)
}

/// The variable that holds a lowered enum or namespace.
pub open spec fn holder_var(id: Ident, exported: bool, ns: Option<Ident>) -> Stmt {
    Stmt::Var(VarDecl {
        exported: exported && ns is None,
        declare: false,
        kind: if ns is Some { VarKind::Let } else { VarKind::Var },
        name: id,
        type_ann: None,
        init: None,
    })
}

/// The guard of a lowered enum or namespace: inside a namespace an exported
/// one lives on the namespace object.
pub open spec fn holder_guard(exported: bool, ns: Option<Ident>) -> Guard {
    if exported && ns is Some { Guard::Member { parent: ns->0 } } else { Guard::Plain }
}

/// `s` is the statement `ns.id = id`.
pub open spec fn is_ns_export(s: Stmt, ns: Ident, id: Ident) -> bool {
    s matches Stmt::Expr(e) && (e matches Expr::Assign { target, value } && (*target matches Expr::Member {
        obj,
        prop,
    } && *obj == Expr::Ident(ns) && prop@ == id.sym@) && *value == Expr::Ident(id))
}

/// `out` is `base`, followed by `ns.id = id` where the declaration is
/// exported from the namespace `ns`.
pub open spec fn with_ns_export(base: Seq<Stmt>, out: Seq<Stmt>, exported: bool, ns: Option<Ident>, id: Ident) -> bool {
    if exported && ns is Some {
        out.len() == base.len() + 1 && out.subrange(0, base.len() as int) == base && is_ns_export(
            out.last(),
            ns->0,
            id,
        )
    } else {
        out == base
    }
}

pub open spec fn lowered_enum_closure(e: TsEnumDecl, c: EnumClosure, ns: Option<Ident>) -> bool {
    &&& c.name == e.id
    &&& c.guard == holder_guard(e.exported, ns)
    &&& c.assigns@.len() == e.members@.len()
    &&& forall|i: int| 0 <= i < e.members@.len() ==> lowered_member(#[trigger] e.members@[i],
        enum_consts(e.members@, (i + 1) as nat)[i], c.assigns@[i])
}

/// The innermost name of a dotted namespace.
pub open spec fn inner_name(n: TsNamespaceDecl) -> Ident {
    if n.rest@.len() == 0 { n.id } else { n.rest@.last() }
}

/// What an import declaration becomes when erasure succeeds (see
/// `lower_import`).
pub open spec fn import_ok(d: ImportDecl, refs: Seq<Ref>, level: Seq<Stmt>, mode: ImportsNotUsedAsValues, out: Seq<
    Stmt,
>) -> bool {
    let kept = kept_specifiers(d.specifiers@, refs, level);
    let side_effect = out.len() == 1 && (out[0] matches Stmt::Import(o) && import_with(d, o, seq![]));
    if d.specifiers@.len() == 0 {
        side_effect
    } else if d.type_only {
        out.len() == 0
    } else if kept.len() > 0 {
        out.len() == 1 && (out[0] matches Stmt::Import(o) && import_with(d, o, kept))
    } else if mode == ImportsNotUsedAsValues::Preserve {
        side_effect
    } else {
        out.len() == 0
    }
}

/// A binding imported with `type` is used as a value, where that is an
/// error.
pub open spec fn import_fails(d: ImportDecl, refs: Seq<Ref>, mode: ImportsNotUsedAsValues) -> bool {
    mode == ImportsNotUsedAsValues::Error && type_import_used_as_value(d, refs)
}

/// `s` is an interface or a type alias named `sym`.
pub open spec fn declares_type(s: Stmt, sym: Seq<char>) -> bool {
    match s {
        Stmt::Interface(d) => d.id.sym@ == sym,
        Stmt::TypeAlias(d) => d.id.sym@ == sym,
        _ => false,
    }
}

/// `sym` names only a type at this level: an interface or a type alias,
/// and no runtime binding.
pub open spec fn type_declared(level: Seq<Stmt>, sym: Seq<char>) -> bool {
    &&& exists|i: int| 0 <= i < level.len() && declares_type(#[trigger] level[i], sym)
    &&& !shadowed(level, sym)
}

/// An export specifier that survives: not marked `type`, and not naming a
/// local type.
pub open spec fn keeps_export(e: NamedExport, sp: crate::ast::ExportSpecifier, level: Seq<Stmt>) -> bool {
    !sp.is_type_only && !(e.src is None && type_declared(level, sp.orig.sym@))
}

pub open spec fn kept_exports(e: NamedExport, sps: Seq<crate::ast::ExportSpecifier>, level: Seq<Stmt>) -> Seq<
    crate::ast::ExportSpecifier,
>
    decreases sps.len(),
{
    if sps.len() == 0 {
        seq![]
    } else {
        let prev = kept_exports(e, sps.drop_last(), level);
        if keeps_export(e, sps.last(), level) { prev.push(sps.last()) } else { prev }
    }
}

/// `export {}`
pub open spec fn is_empty_export(s: Stmt) -> bool {
    s matches Stmt::ExportNamed(e) && e.specifiers@.len() == 0 && e.src is None && !e.type_only
}

/// What `export { .. }` becomes: where erasure takes every specifier, the
/// marker `export {}` that keeps the file a module, or nothing under
/// `no_empty_export`.
pub open spec fn export_ok(e: NamedExport, level: Seq<Stmt>, no_empty_export: bool, out: Seq<Stmt>) -> bool {
    let kept = kept_exports(e, e.specifiers@, level);
    if e.type_only || (e.specifiers@.len() > 0 && kept.len() == 0) {
        if no_empty_export { out.len() == 0 } else { out.len() == 1 && is_empty_export(out[0]) }
    } else {
        out.len() == 1 && (out[0] matches Stmt::ExportNamed(o) && o.span == e.span && o.src == e.src && !o.type_only
            && o.specifiers@ == kept)
    }
}

/// `s` is the statement `ns.name = value`, with `value` erased.
pub open spec fn is_ns_assign(s: Stmt, ns: Ident, name: Ident, value: Expr) -> bool {
    s matches Stmt::Expr(x) && (x matches Expr::Assign { target, value: v } && (*target matches Expr::Member {
        obj,
        prop,
    } && *obj == Expr::Ident(ns) && prop@ == name.sym@) && erased_expr(value, *v))
}

/// `r` is the enum closure `c` with its raw values erased.
pub open spec fn erased_enum_closure(c: EnumClosure, r: EnumClosure) -> bool {
    &&& r.name == c.name
    &&& r.guard == c.guard
    &&& r.assigns@.len() == c.assigns@.len()
    &&& forall|j: int| 0 <= j < c.assigns@.len() ==> {
        let a = #[trigger] c.assigns@[j];
        let b = r.assigns@[j];
        &&& b.member@ == a.member@
        &&& b.reverse == a.reverse
        &&& match a.value {
            EnumValue::Raw(x) => b.value matches EnumValue::Raw(y) && erased_expr(x, y),
            EnumValue::Num(n) => b.value == EnumValue::Num(n),
            EnumValue::Str(t) => b.value matches EnumValue::Str(u) && u@ == t@,
        }
    }
}

/// `a` and `b` are `import { createRequire as _createRequire } from
/// "module"` and `const __require = _createRequire(import.meta.url)`.
pub open spec fn is_create_require(a: Stmt, b: Stmt) -> bool {
    &&& a matches Stmt::Import(d) && d.specifiers@.len() == 1 && !d.type_only && !d.specifiers@[0].is_type_only
        && d.specifiers@[0].local.sym@ == "_createRequire"@ && d.src@ == "module"@
    &&& b matches Stmt::Var(v) && !v.exported && !v.declare && v.kind == VarKind::Const && v.name.sym@ == "__require"@
        && v.type_ann is None && (v.init matches Some(Expr::Call { callee, type_args, args }) && (*callee matches Expr::Ident(
        f,
    ) && f.sym@ == "_createRequire"@) && type_args@.len() == 0 && args@.len() == 1 && (args@[0] matches Expr::Member {
        obj,
        prop,
    } && *obj == Expr::ImportMeta && prop@ == "url"@))
}

/// `e` is `require("src")`, or `__require("src")` where the mode makes a
/// local `require`.
pub open spec fn is_require_call(e: Expr, callee_name: Seq<char>, src: Seq<char>) -> bool {
    e matches Expr::Call { callee, type_args, args } && (*callee matches Expr::Ident(f) && f.sym@ == callee_name)
        && type_args@.len() == 0 && args@.len() == 1 && (args@[0] matches Expr::Str(x) && x@ == src)
}

/// The members of the class `c` whose computed keys are evaluated before
/// it: none where fields keep their declarations, which evaluate their keys
/// once where they stand.
pub open spec fn class_hoists(c: ClassDecl, cfg: Config) -> Seq<int> {
    if cfg.use_define_for_class_fields { seq![] } else { hoisted_keys(c.class.body@) }
}

/// `out` is the class `c` lowered, followed by the assignments of its
/// static properties and, where it is exported from a namespace, by
/// `ns.C = C`.
pub open spec fn lowered_class_decl(c: ClassDecl, ns: Option<Ident>, cfg: Config, out: Seq<Stmt>) -> bool {
    let ud = cfg.use_define_for_class_fields;
    let statics = static_props(c.class.body@, ud);
    let temps = static_temps(c.class.body@, ud, c.ident, cfg.synth_tag);
    let k: int = 1 + statics.len() as int;
    &&& out.len() >= k
    &&& out[0] matches Stmt::Class(r) && r.exported == (c.exported && ns is None) && !r.declare && r.ident == c.ident
        && lowered_class(c.class, r.class, ud, c.ident, cfg.synth_tag)
    &&& forall|j: int| 0 <= j < statics.len() ==> (#[trigger] out[1 + j] matches Stmt::Expr(x)
        && crate::class_fields::is_prop_assign(x, Expr::Ident(c.ident), statics[j].key, *statics[j].value->0, temps[j]))
    &&& with_ns_export(out.subrange(0, k), out, c.exported, ns, c.ident)
}

/// `out` holds `b`, the lowered body of the namespace `parent.rest[0]..`:
/// for each name of `rest` a variable and a closure nested in the one
/// before, and `b` itself in the innermost.
pub open spec fn dotted_body(parent: Ident, rest: Seq<Ident>, b: Seq<Stmt>, out: Seq<Stmt>) -> bool
    decreases rest.len(),
{
    if rest.len() == 0 {
        out == b
    } else {
        &&& out.len() == 2
        &&& out[0] == holder_var(rest[0], true, Some(parent))
        &&& out[1] matches Stmt::NamespaceClosure(c) && c.name == rest[0] && c.guard == (Guard::Member {
            parent,
        }) && dotted_body(rest[0], rest.drop_first(), b, c.body@)
    }
}

/// `out` is what the namespace `n` (statement `i` of `level`) becomes, given
/// `b`, its lowered body: nothing where `b` is empty, else its variable
/// (unless a declaration before it has the name) and the closure that
/// holds `b`.
pub open spec fn namespace_lowered(level: Seq<Stmt>, i: int, n: TsNamespaceDecl, ns: Option<Ident>, out: Seq<Stmt>, b: Seq<
    Stmt,
>) -> bool {
    let pre: Seq<Stmt> = if first_decl(level, i, n.id) { seq![holder_var(n.id, n.exported, ns)] } else { seq![] };
    if b.len() == 0 {
        out.len() == 0
    } else {
        &&& out.len() == pre.len() + 1
        &&& out.subrange(0, pre.len() as int) == pre
        &&& out.last() matches Stmt::NamespaceClosure(c) && c.name == n.id && c.guard == holder_guard(n.exported, ns)
            && dotted_body(n.id, n.rest@, b, c.body@)
    }
}

/// `out` is the lowered form of statement `i` of `level`, which stands in
/// the namespace `ns` (or at the top of the module where `ns` is `None`).
pub open spec fn lowered_stmt(level: Seq<Stmt>, i: int, ns: Option<Ident>, refs: Seq<Ref>, cfg: Config, out: Seq<Stmt>) -> bool
    decreases level[i], 1int, 0int,
{
    let top = ns is None;
    match level[i] {
        Stmt::Import(d) => import_ok(d, refs, level, cfg.import_not_used_as_values, out),
        Stmt::ExportNamed(e) => export_ok(e, level, cfg.no_empty_export, out),
        Stmt::Var(v) => if v.declare {
            out.len() == 0
        } else if v.exported && !top {
            match v.init {
                Some(init) => out.len() == 1 && is_ns_assign(out[0], ns->0, v.name, init),
                None => out.len() == 0,
            }
        } else {
            out.len() == 1 && (out[0] matches Stmt::Var(r) && r.exported == v.exported && !r.declare && r.kind == v.kind
                && r.name == v.name && r.type_ann is None && r.init is Some == v.init is Some && (v.init is Some
                ==> erased_expr(v.init->0, r.init->0)))
        },
        Stmt::Fn(f) => if f.declare || f.function.body is None {
            out.len() == 0
        } else {
            &&& out.len() >= 1
            &&& out[0] matches Stmt::Fn(r) && r.exported == (f.exported && top) && !r.declare && r.ident == f.ident
                && erased_function(f.function, r.function)
            &&& with_ns_export(out.subrange(0, 1), out, f.exported, ns, f.ident)
        },
        Stmt::Class(c) => if c.declare {
            out.len() == 0
        } else {
            let h = class_hoists(c, cfg).len() as int;
            &&& out.len() >= h
            &&& !cfg.use_define_for_class_fields ==> hoisted_ok(c.class.body@, c.ident, cfg.synth_tag, out.subrange(0, h))
            &&& lowered_class_decl(c, ns, cfg, out.subrange(h, out.len() as int))
        },
        Stmt::Expr(e) => out.len() == 1 && (out[0] matches Stmt::Expr(r) && erased_expr(e, r)),
        Stmt::Interface(_) => out.len() == 0,
        Stmt::TypeAlias(_) => out.len() == 0,
        Stmt::Enum(e) => if e.declare {
            out.len() == 0
        } else {
            let pre: Seq<Stmt> = if first_decl(level, i, e.id) { seq![holder_var(e.id, e.exported, ns)] } else { seq![] };
            &&& out.len() == pre.len() + 1
            &&& out.subrange(0, pre.len() as int) == pre
            &&& out.last() matches Stmt::EnumClosure(c) && lowered_enum_closure(e, c, ns)
        },
        Stmt::Namespace(n) => if n.declare {
            out.len() == 0
        } else {
            exists|b: Seq<Stmt>| #[trigger] namespace_lowered(level, i, n, ns, out, b) && lowered_level(
                n.body@,
                n.body@.len() as int,
                Some(inner_name(n)),
                refs,
                cfg,
                b,
            )
        },
        Stmt::ExportAssign(e) => out.len() == 1 && (out[0] matches Stmt::Expr(x) && (x matches Expr::Assign {
            target,
            value,
        } && (*target matches Expr::Member { obj, prop } && (*obj matches Expr::Ident(m) && m.sym@ == "module"@
            && m.tag == cfg.unresolved_tag) && prop@ == "exports"@) && erased_expr(e, *value))),
        Stmt::ImportEquals(q) => if q.is_type_only {
            out.len() == 0
        } else {
            match q.module_ref {
                TsModuleRef::Entity(x) => {
                    &&& out.len() >= 1
                    &&& out[0] matches Stmt::Var(r) && r.exported == (q.exported && top) && !r.declare && r.kind == VarKind::Var
                        && r.name == q.id && r.type_ann is None && (r.init matches Some(y) && erased_expr(x, y))
                    &&& with_ns_export(out.subrange(0, 1), out, q.exported, ns, q.id)
                },
                TsModuleRef::Require(src) => {
                    let k: int = if cfg.import_export_assign_config == ImportExportAssignConfig::NodeNext { 3 } else { 1 };
                    let callee: Seq<char> = if k == 3 { "__require"@ } else { "require"@ };
                    &&& out.len() >= k
                    &&& out[k - 1] matches Stmt::Var(r) && r.exported == (q.exported && top) && !r.declare && r.kind == VarKind::Const
                        && r.name == q.id && r.type_ann is None && (r.init matches Some(y) && is_require_call(
                        y,
                        callee,
                        src@,
                    ))
                    &&& with_ns_export(out.subrange(0, k), out, q.exported, ns, q.id)
                    &&& k == 3 ==> is_create_require(out[0], out[1])
                },
            }
        },
        Stmt::EnumClosure(c) => out.len() == 1 && (out[0] matches Stmt::EnumClosure(r) && erased_enum_closure(c, r)),
        Stmt::NamespaceClosure(c) => out.len() == 1 && (out[0] matches Stmt::NamespaceClosure(r) && r.name == c.name
            && r.guard == c.guard && lowered_level(c.body@, c.body@.len() as int, Some(c.name), refs, cfg, r.body@)),
    }
}

/// `out` is the lowered form of the first `n` statements of `level`, one
/// after the other.
pub open spec fn lowered_level(level: Seq<Stmt>, n: int, ns: Option<Ident>, refs: Seq<Ref>, cfg: Config, out: Seq<Stmt>) -> bool
    decreases level, 0int, n,
{
    if n <= 0 || n > level.len() {
        n <= 0 && out.len() == 0
    } else {
        exists|k: int| #![trigger out.subrange(0, k)]
            0 <= k <= out.len() && lowered_level(level, n - 1, ns, refs, cfg, out.subrange(0, k)) && lowered_stmt(
                level,
                n - 1,
                ns,
                refs,
                cfg,
                out.subrange(k, out.len() as int),
            )
    }
}

/// Statement `i` of `level` cannot be lowered.
pub open spec fn stmt_fails(level: Seq<Stmt>, i: int, ns: Option<Ident>, refs: Seq<Ref>, cfg: Config) -> bool
    decreases level[i], 1int, 0int,
{
    match level[i] {
        Stmt::Import(d) => import_fails(d, refs, cfg.import_not_used_as_values),
        Stmt::Enum(e) => !e.declare && !all_have_values(e.members@, e.members@.len() as int),
        Stmt::Namespace(n) => !n.declare && level_fails(n.body@, n.body@.len() as int, Some(inner_name(n)), refs, cfg),
        Stmt::NamespaceClosure(c) => level_fails(c.body@, c.body@.len() as int, Some(c.name), refs, cfg),
        _ => false,
    }
}

/// Some statement among the first `n` of `level` cannot be lowered.
pub open spec fn level_fails(level: Seq<Stmt>, n: int, ns: Option<Ident>, refs: Seq<Ref>, cfg: Config) -> bool
    decreases level, 0int, n,
{
    if n <= 0 || n > level.len() {
        false
    } else {
        level_fails(level, n - 1, ns, refs, cfg) || stmt_fails(level, n - 1, ns, refs, cfg)
    }
}

fn ns_export_stmt(ns: &Ident, id: &Ident) -> (r: Stmt)
    ensures
        is_ns_export(r, *ns, *id),
{
    Stmt::Expr(Expr::Assign {
        target: Box::new(Expr::Member { obj: Box::new(Expr::Ident(copy_ident(ns))), prop: id.sym.clone() }),
        value: Box::new(Expr::Ident(copy_ident(id))),
    })
}

/// Appends `ns.id = id` where the declaration is exported from a namespace.
fn push_ns_export(out: &mut Vec<Stmt>, exported: bool, ns: &Option<Ident>, id: &Ident)
    ensures
        with_ns_export(old(out)@, final(out)@, exported, *ns, *id),
{
    if exported {
        match ns {
            Some(n) => {
                let ghost before = out@;
                out.push(ns_export_stmt(n, id));
                assert(out@.subrange(0, before.len() as int) =~= before);
            },
            None => {},
        }
    }
}

fn is_declared_before(level: &Vec<Stmt>, i: usize, sym: &String) -> (r: bool)
    requires
        i <= level@.len(),
    ensures
        r == shadowed(level@.subrange(0, i as int), sym@),
{
    let ghost pre = level@.subrange(0, i as int);
    let mut j: usize = 0;
    while j < i
        invariant
            j <= i <= level@.len(),
            pre == level@.subrange(0, i as int),
            forall|k: int| 0 <= k < j ==> !declares_value(#[trigger] pre[k], sym@),
        decreases i - j,
    {
        let hit = match &level[j] {
            Stmt::Var(v) => !v.declare && v.name.sym == *sym,
            Stmt::Fn(f) => !f.declare && f.function.body.is_some() && f.ident.sym == *sym,
            Stmt::Class(c) => !c.declare && c.ident.sym == *sym,
            Stmt::Enum(e) => !e.declare && e.id.sym == *sym,
            Stmt::Namespace(n) => !n.declare && n.id.sym == *sym,
            Stmt::ImportEquals(q) => !q.is_type_only && q.id.sym == *sym,
            _ => false,
        };
        assert(pre[j as int] == level@[j as int]);
        if hit {
            return true;
        }
        j = j + 1;
    }
    false
}

fn holder_var_stmt(id: &Ident, exported: bool, ns: &Option<Ident>) -> (r: Stmt)
    ensures
        r == holder_var(*id, exported, *ns),
{
    Stmt::Var(VarDecl {
        exported: exported && ns.is_none(),
        declare: false,
        kind: if ns.is_some() { VarKind::Let } else { VarKind::Var },
        name: copy_ident(id),
        type_ann: None,
        init: None,
    })
}

fn holder_guard_of(exported: bool, ns: &Option<Ident>) -> (r: Guard)
    ensures
        r == holder_guard(exported, *ns),
{
    match ns {
        Some(n) => if exported { Guard::Member { parent: copy_ident(n) } } else { Guard::Plain },
        None => Guard::Plain,
    }
}

fn lower_var_stmt(v: &VarDecl, ns: &Option<Ident>) -> (r: Vec<Stmt>)
    requires
        !v.declare,
    ensures
        v.exported && ns is Some ==> match v.init {
            Some(init) => r@.len() == 1 && is_ns_assign(r@[0], ns->0, v.name, init),
            None => r@.len() == 0,
        },
        !(v.exported && ns is Some) ==> r@.len() == 1 && (r@[0] matches Stmt::Var(o) && o.exported == v.exported
            && !o.declare && o.kind == v.kind && o.name == v.name && o.type_ann is None && o.init is Some
            == v.init is Some && (v.init is Some ==> erased_expr(v.init->0, o.init->0))),
{
    let mut out: Vec<Stmt> = Vec::new();
    let init = match &v.init {
        Some(e) => Some(strip_expr(e)),
        None => None,
    };
    match ns {
        Some(n) => if v.exported {
            match init {
                Some(x) => {
                    out.push(Stmt::Expr(Expr::Assign {
                        target: Box::new(Expr::Member {
                            obj: Box::new(Expr::Ident(copy_ident(n))),
                            prop: v.name.sym.clone(),
                        }),
                        value: Box::new(x),
                    }));
                },
                None => {},
            }
            return out;
        },
        None => {},
    }
    out.push(Stmt::Var(VarDecl {
        exported: v.exported,
        declare: false,
        kind: v.kind,
        name: copy_ident(&v.name),
        type_ann: None,
        init,
    }));
    out
}

fn lower_fn_stmt(f: &FnDecl, ns: &Option<Ident>) -> (r: Vec<Stmt>)
    requires
        f.function.body is Some,
    ensures
        r@.len() >= 1,
        r@[0] matches Stmt::Fn(o) && o.exported == (f.exported && ns is None) && !o.declare && o.ident == f.ident
            && erased_function(f.function, o.function),
        with_ns_export(r@.subrange(0, 1), r@, f.exported, *ns, f.ident),
{
    let mut out: Vec<Stmt> = Vec::new();
    out.push(Stmt::Fn(FnDecl {
        exported: f.exported && ns.is_none(),
        declare: false,
        ident: copy_ident(&f.ident),
        function: strip_function(&f.function),
    }));
    let ghost first = out@;
    push_ns_export(&mut out, f.exported, ns, &f.ident);
    assert(first =~= out@.subrange(0, 1)) by {
        if out@.len() > 1 {
            assert(out@.subrange(0, first.len() as int) == first);
        }
    }
    assert(out@[0] == out@.subrange(0, 1)[0]);
    out
}

fn lower_class_stmt(c: &ClassDecl, ns: &Option<Ident>, cfg: &Config) -> (r: Vec<Stmt>)
    ensures
        lowered_class_decl(*c, *ns, *cfg, r@),
{
    let (class, statics) = lower_class(&c.class, &c.ident, cfg.use_define_for_class_fields, cfg.synth_tag);
    let mut out: Vec<Stmt> = Vec::new();
    out.push(Stmt::Class(ClassDecl {
        exported: c.exported && ns.is_none(),
        declare: false,
        ident: copy_ident(&c.ident),
        class,
    }));
    let ghost sv = statics@;
    let ghost props = static_props(c.class.body@, cfg.use_define_for_class_fields);
    let ghost temps = static_temps(c.class.body@, cfg.use_define_for_class_fields, c.ident, cfg.synth_tag);
    let mut statics = statics;
    let mut j: usize = 0;
    let n = statics.len();
    let mut rev: Vec<Expr> = Vec::new();
    while statics.len() > 0
        invariant
            statics@.len() + rev@.len() == n,
            n == sv.len(),
            statics@ == sv.subrange(0, statics@.len() as int),
            forall|k: int| 0 <= k < rev@.len() ==> #[trigger] rev@[k] == sv[n - 1 - k],
        decreases statics@.len(),
    {
        let ghost before = statics@;
        let x = statics.pop().unwrap();
        assert(statics@ =~= sv.subrange(0, statics@.len() as int));
        rev.push(x);
    }
    while rev.len() > 0
        invariant
            rev@.len() + j == n,
            n == sv.len(),
            forall|k: int| 0 <= k < rev@.len() ==> #[trigger] rev@[k] == sv[n - 1 - k],
            out@.len() == 1 + j,
            out@[0] matches Stmt::Class(o) && o.exported == (c.exported && ns is None) && !o.declare && o.ident
                == c.ident && lowered_class(c.class, o.class, cfg.use_define_for_class_fields, c.ident, cfg.synth_tag),
            forall|k: int| 0 <= k < j ==> #[trigger] out@[1 + k] == Stmt::Expr(sv[k]),
        decreases rev@.len(),
    {
        let x = rev.pop().unwrap();
        out.push(Stmt::Expr(x));
        j = j + 1;
    }
    let ghost base = out@;
    push_ns_export(&mut out, c.exported, ns, &c.ident);
    proof {
        if out@.len() > base.len() {
            assert(out@.subrange(0, base.len() as int) == base);
        }
        assert(out@.subrange(0, 1 + props.len() as int) =~= base);
        assert forall|k: int| 0 <= k < props.len() implies (#[trigger] out@[1 + k] matches Stmt::Expr(x)
            && crate::class_fields::is_prop_assign(x, Expr::Ident(c.ident), props[k].key, *props[k].value->0, temps[k])) by {
            assert(out@[1 + k] == base[1 + k]);
        }
    }
    out
}

fn lower_export_assign(e: &Expr, cfg: &Config) -> (r: Vec<Stmt>)
    ensures
        r@.len() == 1 && (r@[0] matches Stmt::Expr(x) && (x matches Expr::Assign { target, value } && (*target matches Expr::Member {
            obj,
            prop,
        } && (*obj matches Expr::Ident(m) && m.sym@ == "module"@ && m.tag == cfg.unresolved_tag) && prop@
            == "exports"@) && erased_expr(*e, *value))),
{
    let module = Ident { sym: String::from_str("module"), tag: cfg.unresolved_tag };
    let target = Expr::Member { obj: Box::new(Expr::Ident(module)), prop: String::from_str("exports") };
    let mut out: Vec<Stmt> = Vec::new();
    out.push(Stmt::Expr(Expr::Assign { target: Box::new(target), value: Box::new(strip_expr(e)) }));
    out
}

fn require_call(callee: Ident, src: &String) -> (r: Expr)
    ensures
        is_require_call(r, callee.sym@, src@),
{
    let mut args: Vec<Expr> = Vec::new();
    args.push(Expr::Str(src.clone()));
    Expr::Call { callee: Box::new(Expr::Ident(callee)), type_args: Vec::new(), args }
}

fn lower_import_equals(q: &TsImportEqualsDecl, ns: &Option<Ident>, cfg: &Config) -> (r: Vec<Stmt>)
    requires
        !q.is_type_only,
    ensures
        match q.module_ref {
            TsModuleRef::Entity(x) => {
                &&& r@.len() >= 1
                &&& r@[0] matches Stmt::Var(o) && o.exported == (q.exported && ns is None) && !o.declare && o.kind == VarKind::Var
                    && o.name == q.id && o.type_ann is None && (o.init matches Some(y) && erased_expr(x, y))
                &&& with_ns_export(r@.subrange(0, 1), r@, q.exported, *ns, q.id)
            },
            TsModuleRef::Require(src) => {
                let k: int = if cfg.import_export_assign_config == ImportExportAssignConfig::NodeNext { 3 } else { 1 };
                let callee: Seq<char> = if k == 3 { "__require"@ } else { "require"@ };
                &&& r@.len() >= k
                &&& r@[k - 1] matches Stmt::Var(o) && o.exported == (q.exported && ns is None) && !o.declare && o.kind
                    == VarKind::Const && o.name == q.id && o.type_ann is None && (o.init matches Some(y)
                    && is_require_call(y, callee, src@))
                &&& with_ns_export(r@.subrange(0, k), r@, q.exported, *ns, q.id)
                &&& k == 3 ==> is_create_require(r@[0], r@[1])
            },
        },
{
    let mut out: Vec<Stmt> = Vec::new();
    match &q.module_ref {
        TsModuleRef::Entity(x) => {
            out.push(Stmt::Var(VarDecl {
                exported: q.exported && ns.is_none(),
                declare: false,
                kind: VarKind::Var,
                name: copy_ident(&q.id),
                type_ann: None,
                init: Some(strip_expr(x)),
            }));
        },
        TsModuleRef::Require(src) => {
            let callee = match cfg.import_export_assign_config {
                ImportExportAssignConfig::NodeNext => {
                    let create = Ident { sym: String::from_str("_createRequire"), tag: cfg.synth_tag };
                    let req = Ident { sym: String::from_str("__require"), tag: cfg.synth_tag };
                    let mut specifiers: Vec<ImportSpecifier> = Vec::new();
                    specifiers.push(ImportSpecifier {
                        kind: ImportKind::Named,
                        local: copy_ident(&create),
                        imported: Some(String::from_str("createRequire")),
                        is_type_only: false,
                    });
                    out.push(Stmt::Import(ImportDecl {
                        span: Span::dummy(),
                        specifiers,
                        src: String::from_str("module"),
                        type_only: false,
                    }));
                    let mut args: Vec<Expr> = Vec::new();
                    args.push(Expr::Member { obj: Box::new(Expr::ImportMeta), prop: String::from_str("url") });
                    out.push(Stmt::Var(VarDecl {
                        exported: false,
                        declare: false,
                        kind: VarKind::Const,
                        name: copy_ident(&req),
                        type_ann: None,
                        init: Some(Expr::Call { callee: Box::new(Expr::Ident(create)), type_args: Vec::new(), args }),
                    }));
                    req
                },
                _ => Ident { sym: String::from_str("require"), tag: cfg.unresolved_tag },
            };
            out.push(Stmt::Var(VarDecl {
                exported: q.exported && ns.is_none(),
                declare: false,
                kind: VarKind::Const,
                name: copy_ident(&q.id),
                type_ann: None,
                init: Some(require_call(callee, src)),
            }));
        },
    }
    let ghost base = out@;
    push_ns_export(&mut out, q.exported, ns, &q.id);
    proof {
        if out@.len() > base.len() {
            assert(out@.subrange(0, base.len() as int) == base);
            assert(out@[base.len() - 1] == base[base.len() - 1]);
            if base.len() == 3 {
                assert(out@[0] == base[0]);
                assert(out@[1] == base[1]);
            }
        }
        assert(out@.subrange(0, base.len() as int) =~= base);
    }
    out
}

fn empty_export_marker(no_empty_export: bool) -> (r: Vec<Stmt>)
    ensures
        no_empty_export ==> r@.len() == 0,
        !no_empty_export ==> r@.len() == 1 && is_empty_export(r@[0]),
{
    let mut out: Vec<Stmt> = Vec::new();
    if !no_empty_export {
        out.push(Stmt::ExportNamed(NamedExport { span: Span::dummy(), specifiers: Vec::new(), src: None, type_only: false }));
    }
    out
}

fn lower_export_named(e: &NamedExport, level: &Vec<Stmt>, no_empty_export: bool) -> (r: Vec<Stmt>)
    ensures
        export_ok(*e, level@, no_empty_export, r@),
{
    let mut out: Vec<Stmt> = Vec::new();
    if e.type_only {
        return empty_export_marker(no_empty_export);
    }
    let sps = &e.specifiers;
    let mut kept: Vec<crate::ast::ExportSpecifier> = Vec::new();
    let mut i: usize = 0;
    while i < sps.len()
        invariant
            i <= sps@.len(),
            kept@ == kept_exports(*e, sps@.subrange(0, i as int), level@),
            sps == &e.specifiers,
        decreases sps@.len() - i,
    {
        assert(sps@.subrange(0, i + 1).drop_last() =~= sps@.subrange(0, i as int));
        let sp = &sps[i];
        let keep = !sp.is_type_only && !(e.src.is_none() && is_type_declared(level, &sp.orig.sym));
        if keep {
            kept.push(crate::ast::ExportSpecifier {
                orig: copy_ident(&sp.orig),
                exported: match &sp.exported {
                    Some(x) => Some(x.clone()),
                    None => None,
                },
                is_type_only: sp.is_type_only,
            });
        }
        i = i + 1;
    }
    assert(sps@.subrange(0, sps@.len() as int) =~= sps@);
    if sps.len() > 0 && kept.len() == 0 {
        return empty_export_marker(no_empty_export);
    }
    out.push(Stmt::ExportNamed(NamedExport {
        span: e.span,
        specifiers: kept,
        src: match &e.src {
            Some(x) => Some(x.clone()),
            None => None,
        },
        type_only: false,
    }));
    out
}

fn is_type_declared(level: &Vec<Stmt>, sym: &String) -> (r: bool)
    ensures
        r == type_declared(level@, sym@),
{
    let mut found = false;
    let mut i: usize = 0;
    while i < level.len()
        invariant
            i <= level@.len(),
            found == exists|j: int| 0 <= j < i && declares_type(#[trigger] level@[j], sym@),
        decreases level@.len() - i,
    {
        let hit = match &level[i] {
            Stmt::Interface(d) => d.id.sym == *sym,
            Stmt::TypeAlias(d) => d.id.sym == *sym,
            _ => false,
        };
        if hit {
            found = true;
        }
        i = i + 1;
    }
    found && !crate::imports::is_shadowed(level, sym)
}

fn lower_enum_stmt(level: &Vec<Stmt>, i: usize, e: &TsEnumDecl, ns: &Option<Ident>) -> (r: Result<Vec<Stmt>, StripError>)
    requires
        i < level@.len(),
        level@[i as int] == Stmt::Enum(*e),
    ensures
        r is Err <==> !all_have_values(e.members@, e.members@.len() as int),
        r matches Ok(out) ==> {
            let pre: Seq<Stmt> = if first_decl(level@, i as int, e.id) { seq![holder_var(e.id, e.exported, *ns)] } else { seq![] };
            &&& out@.len() == pre.len() + 1
            &&& out@.subrange(0, pre.len() as int) == pre
            &&& out@.last() matches Stmt::EnumClosure(c) && lowered_enum_closure(*e, c, *ns)
        },
{
    let assigns = match lower_enum_members(&e.members) {
        Ok(a) => a,
        Err(err) => {
            return Err(StripError::Enum(err));
        },
    };
    let mut out: Vec<Stmt> = Vec::new();
    if !is_declared_before(level, i, &e.id.sym) {
        out.push(holder_var_stmt(&e.id, e.exported, ns));
    }
    let ghost pre = out@;
    out.push(Stmt::EnumClosure(EnumClosure { name: copy_ident(&e.id), guard: holder_guard_of(e.exported, ns), assigns }));
    assert(out@.subrange(0, pre.len() as int) =~= pre);
    Ok(out)
}

fn lower_enum_closure(c: &EnumClosure) -> (r: EnumClosure)
    ensures
        erased_enum_closure(*c, r),
{
    let mut assigns: Vec<EnumAssign> = Vec::new();
    let mut j: usize = 0;
    while j < c.assigns.len()
        invariant
            j <= c.assigns@.len(),
            assigns@.len() == j,
            forall|k: int| 0 <= k < j ==> {
                let a = #[trigger] c.assigns@[k];
                let b = assigns@[k];
                &&& b.member@ == a.member@
                &&& b.reverse == a.reverse
                &&& match a.value {
                    EnumValue::Raw(x) => b.value matches EnumValue::Raw(y) && erased_expr(x, y),
                    EnumValue::Num(n) => b.value == EnumValue::Num(n),
                    EnumValue::Str(t) => b.value matches EnumValue::Str(u) && u@ == t@,
                }
            },
        decreases c.assigns@.len() - j,
    {
        let a = &c.assigns[j];
        let value = match &a.value {
            EnumValue::Raw(x) => EnumValue::Raw(strip_expr(x)),
            EnumValue::Num(n) => EnumValue::Num(*n),
            EnumValue::Str(t) => EnumValue::Str(t.clone()),
        };
        assigns.push(EnumAssign { member: a.member.clone(), value, reverse: a.reverse });
        j = j + 1;
    }
    let guard = match &c.guard {
        Guard::Plain => Guard::Plain,
        Guard::Member { parent } => Guard::Member { parent: copy_ident(parent) },
    };
    EnumClosure { name: copy_ident(&c.name), guard, assigns }
}

pub proof fn lemma_level_fails_grows(level: Seq<Stmt>, i: int, n: int, ns: Option<Ident>, refs: Seq<Ref>, cfg: Config)
    requires
        0 < i <= n <= level.len(),
        level_fails(level, i, ns, refs, cfg),
    ensures
        level_fails(level, n, ns, refs, cfg),
    decreases n - i,
{
    if i < n {
        lemma_level_fails_grows(level, i, n - 1, ns, refs, cfg);
    }
}

/// The name that a dotted namespace's `k`-th closure receives as parent.
pub open spec fn dotted_parent(n: TsNamespaceDecl, k: int) -> Ident {
    if k == 0 { n.id } else { n.rest@[k - 1] }
}

fn wrap_dotted(n: &TsNamespaceDecl, body: Vec<Stmt>) -> (r: Vec<Stmt>)
    ensures
        dotted_body(n.id, n.rest@, body@, r@),
{
    let ghost b = body@;
    let rest = &n.rest;
    let mut k: usize = rest.len();
    let mut cur = body;
    assert(rest@.subrange(k as int, rest@.len() as int) =~= Seq::<Ident>::empty());
    while k > 0
        invariant
            k <= rest@.len(),
            rest == &n.rest,
            dotted_body(dotted_parent(*n, k as int), rest@.subrange(k as int, rest@.len() as int), b, cur@),
        decreases k,
    {
        let parent = if k == 1 { copy_ident(&n.id) } else { copy_ident(&rest[k - 2]) };
        let name = &rest[k - 1];
        let mut next: Vec<Stmt> = Vec::new();
        next.push(holder_var_stmt(name, true, &Some(copy_ident(&parent))));
        next.push(Stmt::NamespaceClosure(NamespaceClosure {
            name: copy_ident(name),
            guard: Guard::Member { parent },
            body: cur,
        }));
        proof {
            let sub = rest@.subrange(k - 1, rest@.len() as int);
            assert(sub.drop_first() =~= rest@.subrange(k as int, rest@.len() as int));
            assert(sub[0] == rest@[k - 1]);
        }
        cur = next;
        k = k - 1;
    }
    assert(rest@.subrange(0, rest@.len() as int) =~= rest@);
    cur
}

fn lower_stmt(level: &Vec<Stmt>, i: usize, ns: &Option<Ident>, refs: &Vec<Ref>, cfg: &Config) -> (r: Result<Vec<Stmt>, StripError>)
    requires
        i < level@.len(),
    ensures
        r is Err <==> stmt_fails(level@, i as int, *ns, refs@, *cfg),
        r matches Ok(out) ==> lowered_stmt(level@, i as int, *ns, refs@, *cfg, out@),
    decreases level@[i as int], 1int,
{
    let empty: Vec<Stmt> = Vec::new();
    match &level[i] {
        Stmt::Import(d) => match lower_import(d, refs, level, cfg.import_not_used_as_values) {
            Ok(Some(o)) => {
                let mut out: Vec<Stmt> = Vec::new();
                out.push(Stmt::Import(o));
                Ok(out)
            },
            Ok(None) => Ok(empty),
            Err(e) => Err(StripError::Import(e)),
        },
        Stmt::ExportNamed(e) => Ok(lower_export_named(e, level, cfg.no_empty_export)),
        Stmt::Var(v) => if v.declare { Ok(empty) } else { Ok(lower_var_stmt(v, ns)) },
        Stmt::Fn(f) => if f.declare || f.function.body.is_none() { Ok(empty) } else { Ok(lower_fn_stmt(f, ns)) },
        Stmt::Class(c) => {
            if c.declare {
                return Ok(empty);
            }
            let mut out: Vec<Stmt> = if cfg.use_define_for_class_fields {
                Vec::new()
            } else {
                hoist_keys(&c.class.body, &c.ident, cfg.synth_tag)
            };
            let ghost hs = out@;
            let mut group = lower_class_stmt(c, ns, cfg);
            let ghost g = group@;
            out.append(&mut group);
            proof {
                let h = class_hoists(*c, *cfg).len() as int;
                if cfg.use_define_for_class_fields {
                    assert(hs =~= Seq::<Stmt>::empty());
                }
                assert(out@.subrange(0, h) =~= hs);
                assert(out@.subrange(h, out@.len() as int) =~= g);
            }
            Ok(out)
        },
        Stmt::Expr(e) => {
            let mut out: Vec<Stmt> = Vec::new();
            out.push(Stmt::Expr(strip_expr(e)));
            Ok(out)
        },
        Stmt::Interface(_) => Ok(empty),
        Stmt::TypeAlias(_) => Ok(empty),
        Stmt::Enum(e) => if e.declare { Ok(empty) } else { lower_enum_stmt(level, i, e, ns) },
        Stmt::Namespace(n) => {
            if n.declare {
                return Ok(empty);
            }
            let inner = if n.rest.len() == 0 { copy_ident(&n.id) } else { copy_ident(&n.rest[n.rest.len() - 1]) };
            proof {
                assert(decreases_to!(level@[i as int] => level@[i as int]->Namespace_0));
                assert(decreases_to!(level@[i as int]->Namespace_0 => level@[i as int]->Namespace_0.body));
            }
            let body = match lower_level(&n.body, &Some(inner), refs, cfg) {
                Ok(b) => b,
                Err(e) => {
                    return Err(e);
                },
            };
            if body.len() == 0 {
                assert(namespace_lowered(level@, i as int, *n, *ns, empty@, body@));
                return Ok(empty);
            }
            let ghost bv = body@;
            let inner_body = wrap_dotted(n, body);
            let mut out: Vec<Stmt> = Vec::new();
            if !is_declared_before(level, i, &n.id.sym) {
                out.push(holder_var_stmt(&n.id, n.exported, ns));
            }
            let ghost pre = out@;
            out.push(Stmt::NamespaceClosure(NamespaceClosure {
                name: copy_ident(&n.id),
                guard: holder_guard_of(n.exported, ns),
                body: inner_body,
            }));
            assert(out@.subrange(0, pre.len() as int) =~= pre);
            assert(namespace_lowered(level@, i as int, *n, *ns, out@, bv));
            Ok(out)
        },
        Stmt::ExportAssign(e) => Ok(lower_export_assign(e, cfg)),
        Stmt::ImportEquals(q) => if q.is_type_only { Ok(empty) } else { Ok(lower_import_equals(q, ns, cfg)) },
        Stmt::EnumClosure(c) => {
            let mut out: Vec<Stmt> = Vec::new();
            out.push(Stmt::EnumClosure(lower_enum_closure(c)));
            Ok(out)
        },
        Stmt::NamespaceClosure(c) => {
            proof {
                assert(decreases_to!(level@[i as int] => level@[i as int]->NamespaceClosure_0));
                assert(decreases_to!(level@[i as int]->NamespaceClosure_0 => level@[i as int]->NamespaceClosure_0.body));
            }
            let body = match lower_level(&c.body, &Some(copy_ident(&c.name)), refs, cfg) {
                Ok(b) => b,
                Err(e) => {
                    return Err(e);
                },
            };
            let guard = match &c.guard {
                Guard::Plain => Guard::Plain,
                Guard::Member { parent } => Guard::Member { parent: copy_ident(parent) },
            };
            let mut out: Vec<Stmt> = Vec::new();
            out.push(Stmt::NamespaceClosure(NamespaceClosure { name: copy_ident(&c.name), guard, body }));
            Ok(out)
        },
    }
}

/// Lowers the statements of one level: the module's top level (`ns` is
/// `None`) or the body of the namespace `ns`.
fn lower_level(level: &Vec<Stmt>, ns: &Option<Ident>, refs: &Vec<Ref>, cfg: &Config) -> (r: Result<Vec<Stmt>, StripError>)
    ensures
        r is Err <==> level_fails(level@, level@.len() as int, *ns, refs@, *cfg),
        r matches Ok(out) ==> lowered_level(level@, level@.len() as int, *ns, refs@, *cfg, out@),
    decreases level@, 0int,
{
    let mut out: Vec<Stmt> = Vec::new();
    let mut i: usize = 0;
    while i < level.len()
        invariant
            i <= level@.len(),
            lowered_level(level@, i as int, *ns, refs@, *cfg, out@),
            !level_fails(level@, i as int, *ns, refs@, *cfg),
        decreases level@.len() - i,
    {
        proof {
            assert(decreases_to!(level@ => level@[i as int]));
        }
        let group = lower_stmt(level, i, ns, refs, cfg);
        match group {
            Ok(g) => {
                let ghost before = out@;
                let ghost gv = g@;
                let mut g = g;
                out.append(&mut g);
                proof {
                    assert(out@.subrange(0, before.len() as int) =~= before);
                    assert(out@.subrange(before.len() as int, out@.len() as int) =~= gv);
                }
                i = i + 1;
            },
            Err(e) => {
                proof {
                    lemma_level_fails_grows(level@, i + 1, level@.len() as int, *ns, refs@, *cfg);
                }
                return Err(e);
            },
        }
    }
    Ok(out)
}

/// `r` is the module `m` with its TypeScript-only syntax erased or lowered.
pub open spec fn stripped_module(m: Module, cfg: Config, r: Module) -> bool {
    &&& r.span == m.span
    &&& lowered_level(m.body@, m.body@.len() as int, None, stmts_refs(m.body@), cfg, r.body@)
}

/// Erases the TypeScript-only syntax of a module: classifies every
/// reference first, then lowers each statement.
pub fn strip(m: &Module, cfg: &Config) -> (r: Result<Module, StripError>)
    ensures
        r is Err <==> level_fails(m.body@, m.body@.len() as int, None, stmts_refs(m.body@), *cfg),
        r matches Ok(out) ==> stripped_module(*m, *cfg, out),
{
    let refs = collect_refs(m);
    match lower_level(&m.body, &None, &refs, cfg) {
        Ok(body) => Ok(Module { span: m.span, body }),
        Err(e) => Err(e),
    }
}

/// An interface or a type alias leaves nothing in the output.
pub proof fn lemma_type_declarations_erased(level: Seq<Stmt>, i: int, ns: Option<Ident>, refs: Seq<Ref>, cfg: Config, out: Seq<Stmt>)
    requires
        0 <= i < level.len(),
        level[i] is Interface || level[i] is TypeAlias,
        lowered_stmt(level, i, ns, refs, cfg, out),
    ensures
        out.len() == 0,
{
}

} // verus!
