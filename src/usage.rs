//! The usage classifier: every reference of a module, marked as a type or a
//! value use.

use vstd::prelude::*;

use crate::ast::{
    key_of, Expr, Function, Ident, Module, Param, ParamOrTsParamProp, Stmt, TsModuleRef, TsType,
};
use crate::class::{Class, ClassMember, Decorator, PropName};
use crate::erase::copy_ident;

verus! {

/// A reference to a binding, in a type position or a value position.
#[derive(Debug, PartialEq, Eq)]
pub struct Ref {
    pub id: Ident,
    pub is_type: bool,
}

pub open spec fn type_refs(t: TsType) -> Seq<Ref> {
    t.names@.map_values(|id: Ident| Ref { id, is_type: true })
}

pub open spec fn opt_type_refs(t: Option<TsType>) -> Seq<Ref> {
    match t {
        Some(t) => type_refs(t),
        None => seq![],
    }
}

pub open spec fn types_refs(ts: Seq<TsType>) -> Seq<Ref>
    decreases ts.len(),
{
    if ts.len() == 0 { seq![] } else { types_refs(ts.drop_last()) + type_refs(ts.last()) }
}

/// Every reference in `e`, in source order.
pub open spec fn expr_refs(e: Expr) -> Seq<Ref>
    decreases e, 1int,
{
    match e {
        Expr::Ident(id) => seq![Ref { id, is_type: false }],
        Expr::Member { obj, .. } => expr_refs(*obj),
        Expr::Index { obj, index } => expr_refs(*obj) + expr_refs(*index),
        Expr::Call { callee, type_args, args } => expr_refs(*callee) + types_refs(type_args@) + exprs_refs(args@),
        Expr::Spread { arg } => expr_refs(*arg),
        Expr::Assign { target, value } => expr_refs(*target) + expr_refs(*value),
        Expr::Bin { left, right, .. } => expr_refs(*left) + expr_refs(*right),
        Expr::TsAs { expr, ty } => expr_refs(*expr) + type_refs(ty),
        Expr::TsSatisfies { expr, ty } => expr_refs(*expr) + type_refs(ty),
        Expr::TsTypeAssertion { expr, ty } => type_refs(ty) + expr_refs(*expr),
        Expr::TsNonNull { expr } => expr_refs(*expr),
        _ => seq![],
    }
}

pub open spec fn exprs_refs(es: Seq<Expr>) -> Seq<Ref>
    decreases es, 0int,
{
    if es.len() == 0 {
        seq![]
    } else {
        exprs_refs(es.subrange(0, es.len() - 1)) + expr_refs(es[es.len() - 1])
    }
}


pub open spec fn opt_expr_refs(e: Option<Expr>) -> Seq<Ref> {
    match e {
        Some(e) => expr_refs(e),
        None => seq![],
    }
}

pub open spec fn opt_box_expr_refs(e: Option<Box<Expr>>) -> Seq<Ref> {
    match e {
        Some(e) => expr_refs(*e),
        None => seq![],
    }
}

pub open spec fn param_refs(p: Param) -> Seq<Ref> {
    opt_type_refs(p.type_ann)
}

pub open spec fn ctor_param_refs(p: ParamOrTsParamProp) -> Seq<Ref> {
    match p {
        ParamOrTsParamProp::Param(q) => param_refs(q),
        ParamOrTsParamProp::TsParamProp(pp) => param_refs(pp.param),
    }
}

pub open spec fn function_refs(f: Function) -> Seq<Ref> {
    params_refs(f.params@) + opt_type_refs(f.type_params) + opt_type_refs(f.return_type)
        + match f.body {
        Some(b) => exprs_refs(b@),
        None => seq![],
    }
}

pub open spec fn decorator_refs(d: Decorator) -> Seq<Ref> {
    expr_refs(*d.expr)
}

pub open spec fn key_refs(k: PropName) -> Seq<Ref> {
    match k {
        PropName::Computed(e) => expr_refs(*e),
        _ => seq![],
    }
}

pub open spec fn opt_box_type_refs(t: Option<Box<TsType>>) -> Seq<Ref> {
    match t {
        Some(t) => type_refs(*t),
        None => seq![],
    }
}

pub open spec fn member_refs(m: ClassMember) -> Seq<Ref> {
    match m {
        ClassMember::Constructor(c) => key_refs(c.key) + ctor_params_refs(c.params@)
            + match c.body {
            Some(b) => exprs_refs(b@),
            None => seq![],
        },
        ClassMember::Method(f) => key_refs(f.key) + function_refs(*f.function),
        ClassMember::PrivateMethod(f) => function_refs(*f.function),
        ClassMember::ClassProp(p) => decorators_refs(p.decorators@) + key_refs(p.key)
            + opt_box_type_refs(p.type_ann) + opt_box_expr_refs(p.value),
        ClassMember::PrivateProp(p) => decorators_refs(p.decorators@)
            + opt_box_type_refs(p.type_ann) + opt_box_expr_refs(p.value),
        ClassMember::TsIndexSignature(t) => types_refs(t.params@) + opt_type_refs(t.type_ann),
        ClassMember::StaticBlock(b) => exprs_refs(b.body@),
        ClassMember::Empty(_) => seq![],
    }
}

pub open spec fn enum_member_refs(m: crate::ast::TsEnumMember) -> Seq<Ref> {
    opt_expr_refs(m.init)
}

pub open spec fn enum_assign_refs(a: crate::ast::EnumAssign) -> Seq<Ref> {
    match a.value {
        crate::ast::EnumValue::Raw(e) => expr_refs(e),
        _ => seq![],
    }
}

pub open spec fn params_refs(s: Seq<Param>) -> Seq<Ref>
    decreases s.len(),
{
    if s.len() == 0 { seq![] } else { params_refs(s.drop_last()) + param_refs(s.last()) }
}

pub open spec fn ctor_params_refs(s: Seq<ParamOrTsParamProp>) -> Seq<Ref>
    decreases s.len(),
{
    if s.len() == 0 { seq![] } else { ctor_params_refs(s.drop_last()) + ctor_param_refs(s.last()) }
}

pub open spec fn decorators_refs(s: Seq<Decorator>) -> Seq<Ref>
    decreases s.len(),
{
    if s.len() == 0 { seq![] } else { decorators_refs(s.drop_last()) + decorator_refs(s.last()) }
}

pub open spec fn members_refs(s: Seq<ClassMember>) -> Seq<Ref>
    decreases s.len(),
{
    if s.len() == 0 { seq![] } else { members_refs(s.drop_last()) + member_refs(s.last()) }
}

pub open spec fn enum_members_refs(s: Seq<crate::ast::TsEnumMember>) -> Seq<Ref>
    decreases s.len(),
{
    if s.len() == 0 { seq![] } else { enum_members_refs(s.drop_last()) + enum_member_refs(s.last()) }
}

pub open spec fn enum_assigns_refs(s: Seq<crate::ast::EnumAssign>) -> Seq<Ref>
    decreases s.len(),
{
    if s.len() == 0 { seq![] } else { enum_assigns_refs(s.drop_last()) + enum_assign_refs(s.last()) }
}

/// Every reference in a class: the `extends` expression is a value
/// position, its type arguments and `implements` are type positions.
pub open spec fn class_refs(c: Class) -> Seq<Ref> {
    decorators_refs(c.decorators@) + opt_box_expr_refs(c.super_class)
        + opt_box_type_refs(c.type_params) + opt_box_type_refs(c.super_type_params) + types_refs(c.implements@)
        + members_refs(c.body@)
}

/// A local `export { orig }` uses `orig` as a value, unless marked `type`.
pub open spec fn export_spec_refs(sp: crate::ast::ExportSpecifier) -> Seq<Ref> {
    if sp.is_type_only { seq![] } else { seq![Ref { id: sp.orig, is_type: false }] }
}

pub open spec fn export_specs_refs(s: Seq<crate::ast::ExportSpecifier>) -> Seq<Ref>
    decreases s.len(),
{
    if s.len() == 0 { seq![] } else { export_specs_refs(s.drop_last()) + export_spec_refs(s.last()) }
}

/// Every reference in a statement. Import specifiers declare bindings and
/// are no references; a local export of a binding uses it as a value.
pub open spec fn stmt_refs(s: Stmt) -> Seq<Ref>
    decreases s, 1int,
{
    match s {
        Stmt::ExportNamed(e) => if e.type_only || e.src is Some { seq![] } else { export_specs_refs(e.specifiers@) },
        Stmt::Var(v) => opt_type_refs(v.type_ann) + opt_expr_refs(v.init),
        Stmt::Fn(f) => function_refs(f.function),
        Stmt::Class(c) => class_refs(c.class),
        Stmt::Expr(e) => expr_refs(e),
        Stmt::Interface(i) => types_refs(i.extends@) + types_refs(i.body@),
        Stmt::TypeAlias(t) => type_refs(t.ty),
        Stmt::Enum(e) => enum_members_refs(e.members@),
        Stmt::Namespace(n) => stmts_refs(n.body@),
        Stmt::ExportAssign(e) => expr_refs(e),
        Stmt::ImportEquals(i) => match i.module_ref {
            TsModuleRef::Entity(e) => expr_refs(e),
            TsModuleRef::Require(_) => seq![],
        },
        Stmt::EnumClosure(c) => enum_assigns_refs(c.assigns@),
        Stmt::NamespaceClosure(n) => stmts_refs(n.body@),
        _ => seq![],
    }
}

pub open spec fn stmts_refs(ss: Seq<Stmt>) -> Seq<Ref>
    decreases ss, 0int,
{
    if ss.len() == 0 {
        seq![]
    } else {
        stmts_refs(ss.subrange(0, ss.len() - 1)) + stmt_refs(ss[ss.len() - 1])
    }
}

/// `id` is referenced in a value position somewhere in `refs`.
pub open spec fn used_as_value(refs: Seq<Ref>, id: Ident) -> bool {
    exists|i: int| 0 <= i < refs.len() && key_of((#[trigger] refs[i]).id) == key_of(id) && !refs[i].is_type
}

fn push_type_refs(t: &TsType, out: &mut Vec<Ref>)
    ensures
        final(out)@ == old(out)@ + type_refs(*t),
{
    let ghost start = out@;
    let mut i: usize = 0;
    while i < t.names.len()
        invariant
            i <= t.names@.len(),
            out@ == start + t.names@.subrange(0, i as int).map_values(|id: Ident| Ref { id, is_type: true }),
        decreases t.names@.len() - i,
    {
        out.push(Ref { id: copy_ident(&t.names[i]), is_type: true });
        assert(out@ =~= start + t.names@.subrange(0, i + 1).map_values(|id: Ident| Ref { id, is_type: true }));
        i = i + 1;
    }
    assert(t.names@.subrange(0, t.names@.len() as int) =~= t.names@);
}

fn push_opt_type_refs(t: &Option<TsType>, out: &mut Vec<Ref>)
    ensures
        final(out)@ == old(out)@ + opt_type_refs(*t),
{
    match t {
        Some(t) => push_type_refs(t, out),
        None => assert(out@ =~= out@ + Seq::<Ref>::empty()),
    }
}

fn push_opt_box_type_refs(t: &Option<Box<TsType>>, out: &mut Vec<Ref>)
    ensures
        final(out)@ == old(out)@ + opt_box_type_refs(*t),
{
    match t {
        Some(t) => push_type_refs(t, out),
        None => assert(out@ =~= out@ + Seq::<Ref>::empty()),
    }
}

fn push_expr_refs(e: &Expr, out: &mut Vec<Ref>)
    ensures
        final(out)@ == old(out)@ + expr_refs(*e),
    decreases e,
{
    let ghost start = out@;
    match e {
        Expr::Ident(id) => {
            out.push(Ref { id: copy_ident(id), is_type: false });
            assert(out@ =~= start + expr_refs(*e));
        },
        Expr::Member { obj, .. } => push_expr_refs(obj, out),
        Expr::Index { obj, index } => {
            push_expr_refs(obj, out);
            push_expr_refs(index, out);
            assert(out@ =~= start + expr_refs(*e));
        },
        Expr::Call { callee, type_args, args } => {
            push_expr_refs(callee, out);
            push_types_refs(type_args, out);
            let ghost mid = out@;
            let mut i: usize = 0;
            while i < args.len()
                invariant
                    *e == (Expr::Call { callee: *callee, type_args: *type_args, args: *args }),
                    i <= args@.len(),
                    out@ == mid + exprs_refs(args@.subrange(0, i as int)),
                decreases args@.len() - i,
            {
                proof {
                    assert(decreases_to!(*e => (*e)->args));
                    assert(decreases_to!((*e)->args => (*e)->args@));
                    assert(args@.subrange(0, i + 1).subrange(0, i as int) =~= args@.subrange(0, i as int));
                }
                push_expr_refs(&args[i], out);
                assert(out@ =~= mid + exprs_refs(args@.subrange(0, i + 1)));
                i = i + 1;
            }
            assert(args@.subrange(0, args@.len() as int) =~= args@);
            assert(out@ =~= start + expr_refs(*e));
        },
        Expr::Spread { arg } => push_expr_refs(arg, out),
        Expr::Assign { target, value } => {
            push_expr_refs(target, out);
            push_expr_refs(value, out);
            assert(out@ =~= start + expr_refs(*e));
        },
        Expr::Bin { left, right, .. } => {
            push_expr_refs(left, out);
            push_expr_refs(right, out);
            assert(out@ =~= start + expr_refs(*e));
        },
        Expr::TsAs { expr, ty } => {
            push_expr_refs(expr, out);
            push_type_refs(ty, out);
            assert(out@ =~= start + expr_refs(*e));
        },
        Expr::TsSatisfies { expr, ty } => {
            push_expr_refs(expr, out);
            push_type_refs(ty, out);
            assert(out@ =~= start + expr_refs(*e));
        },
        Expr::TsTypeAssertion { expr, ty } => {
            push_type_refs(ty, out);
            push_expr_refs(expr, out);
            assert(out@ =~= start + expr_refs(*e));
        },
        Expr::TsNonNull { expr } => push_expr_refs(expr, out),
        _ => assert(out@ =~= start + expr_refs(*e)),
    }
}

fn push_exprs_refs(s: &Vec<Expr>, out: &mut Vec<Ref>)
    ensures
        final(out)@ == old(out)@ + exprs_refs(s@),
{
    let ghost start = out@;
    let mut i: usize = 0;
    while i < s.len()
        invariant
            i <= s@.len(),
            out@ == start + exprs_refs(s@.subrange(0, i as int)),
        decreases s@.len() - i,
    {
        assert(s@.subrange(0, i + 1).subrange(0, i as int) =~= s@.subrange(0, i as int));
        push_expr_refs(&s[i], out);
        assert(out@ =~= start + exprs_refs(s@.subrange(0, i + 1)));
        i = i + 1;
    }
    assert(s@.subrange(0, s@.len() as int) =~= s@);
}

fn push_types_refs(s: &Vec<TsType>, out: &mut Vec<Ref>)
    ensures
        final(out)@ == old(out)@ + types_refs(s@),
{
    let ghost start = out@;
    let mut i: usize = 0;
    while i < s.len()
        invariant
            i <= s@.len(),
            out@ == start + types_refs(s@.subrange(0, i as int)),
        decreases s@.len() - i,
    {
        assert(s@.subrange(0, i + 1).drop_last() =~= s@.subrange(0, i as int));
        push_type_refs(&s[i], out);
        assert(out@ =~= start + types_refs(s@.subrange(0, i + 1)));
        i = i + 1;
    }
    assert(s@.subrange(0, s@.len() as int) =~= s@);
}

fn push_opt_expr_refs(e: &Option<Expr>, out: &mut Vec<Ref>)
    ensures
        final(out)@ == old(out)@ + opt_expr_refs(*e),
{
    match e {
        Some(e) => push_expr_refs(e, out),
        None => assert(out@ =~= out@ + Seq::<Ref>::empty()),
    }
}

fn push_opt_box_expr_refs(e: &Option<Box<Expr>>, out: &mut Vec<Ref>)
    ensures
        final(out)@ == old(out)@ + opt_box_expr_refs(*e),
{
    match e {
        Some(e) => push_expr_refs(e, out),
        None => assert(out@ =~= out@ + Seq::<Ref>::empty()),
    }
}

fn push_param_refs(p: &Param, out: &mut Vec<Ref>)
    ensures
        final(out)@ == old(out)@ + param_refs(*p),
{
    push_opt_type_refs(&p.type_ann, out);
}

fn push_ctor_param_refs(p: &ParamOrTsParamProp, out: &mut Vec<Ref>)
    ensures
        final(out)@ == old(out)@ + ctor_param_refs(*p),
{
    match p {
        ParamOrTsParamProp::Param(q) => push_param_refs(q, out),
        ParamOrTsParamProp::TsParamProp(pp) => push_param_refs(&pp.param, out),
    }
}

fn push_decorator_refs(d: &Decorator, out: &mut Vec<Ref>)
    ensures
        final(out)@ == old(out)@ + decorator_refs(*d),
{
    push_expr_refs(&d.expr, out);
}

fn push_enum_member_refs(m: &crate::ast::TsEnumMember, out: &mut Vec<Ref>)
    ensures
        final(out)@ == old(out)@ + enum_member_refs(*m),
{
    push_opt_expr_refs(&m.init, out);
}

fn push_enum_assign_refs(a: &crate::ast::EnumAssign, out: &mut Vec<Ref>)
    ensures
        final(out)@ == old(out)@ + enum_assign_refs(*a),
{
    match &a.value {
        crate::ast::EnumValue::Raw(e) => push_expr_refs(e, out),
        _ => assert(out@ =~= out@ + Seq::<Ref>::empty()),
    }
}

fn push_key_refs(k: &PropName, out: &mut Vec<Ref>)
    ensures
        final(out)@ == old(out)@ + key_refs(*k),
{
    match k {
        PropName::Computed(e) => push_expr_refs(e, out),
        _ => assert(out@ =~= out@ + Seq::<Ref>::empty()),
    }
}

fn push_function_refs(f: &Function, out: &mut Vec<Ref>)
    ensures
        final(out)@ == old(out)@ + function_refs(*f),
{
    let ghost start = out@;
    push_params_refs(&f.params, out);
    push_opt_type_refs(&f.type_params, out);
    push_opt_type_refs(&f.return_type, out);
    match &f.body {
        Some(b) => push_exprs_refs(b, out),
        None => {},
    }
    assert(out@ =~= start + function_refs(*f));
}

fn push_member_refs(m: &ClassMember, out: &mut Vec<Ref>)
    ensures
        final(out)@ == old(out)@ + member_refs(*m),
{
    let ghost start = out@;
    match m {
        ClassMember::Constructor(c) => {
            push_key_refs(&c.key, out);
            push_ctor_params_refs(&c.params, out);
            match &c.body {
                Some(b) => push_exprs_refs(b, out),
                None => {},
            }
        },
        ClassMember::Method(f) => {
            push_key_refs(&f.key, out);
            push_function_refs(&f.function, out);
        },
        ClassMember::PrivateMethod(f) => push_function_refs(&f.function, out),
        ClassMember::ClassProp(p) => {
            push_decorators_refs(&p.decorators, out);
            push_key_refs(&p.key, out);
            push_opt_box_type_refs(&p.type_ann, out);
            push_opt_box_expr_refs(&p.value, out);
        },
        ClassMember::PrivateProp(p) => {
            push_decorators_refs(&p.decorators, out);
            push_opt_box_type_refs(&p.type_ann, out);
            push_opt_box_expr_refs(&p.value, out);
        },
        ClassMember::TsIndexSignature(t) => {
            push_types_refs(&t.params, out);
            push_opt_type_refs(&t.type_ann, out);
        },
        ClassMember::StaticBlock(b) => push_exprs_refs(&b.body, out),
        ClassMember::Empty(_) => {},
    }
    assert(out@ =~= start + member_refs(*m));
}

fn push_class_refs(c: &Class, out: &mut Vec<Ref>)
    ensures
        final(out)@ == old(out)@ + class_refs(*c),
{
    let ghost start = out@;
    push_decorators_refs(&c.decorators, out);
    push_opt_box_expr_refs(&c.super_class, out);
    push_opt_box_type_refs(&c.type_params, out);
    push_opt_box_type_refs(&c.super_type_params, out);
    push_types_refs(&c.implements, out);
    push_members_refs(&c.body, out);
    assert(out@ =~= start + class_refs(*c));
}

fn push_params_refs(s: &Vec<Param>, out: &mut Vec<Ref>)
    ensures
        final(out)@ == old(out)@ + params_refs(s@),
{
    let ghost start = out@;
    let mut i: usize = 0;
    while i < s.len()
        invariant
            i <= s@.len(),
            out@ == start + params_refs(s@.subrange(0, i as int)),
        decreases s@.len() - i,
    {
        assert(s@.subrange(0, i + 1).drop_last() =~= s@.subrange(0, i as int));
        push_param_refs(&s[i], out);
        assert(out@ =~= start + params_refs(s@.subrange(0, i + 1)));
        i = i + 1;
    }
    assert(s@.subrange(0, s@.len() as int) =~= s@);
}

fn push_ctor_params_refs(s: &Vec<ParamOrTsParamProp>, out: &mut Vec<Ref>)
    ensures
        final(out)@ == old(out)@ + ctor_params_refs(s@),
{
    let ghost start = out@;
    let mut i: usize = 0;
    while i < s.len()
        invariant
            i <= s@.len(),
            out@ == start + ctor_params_refs(s@.subrange(0, i as int)),
        decreases s@.len() - i,
    {
        assert(s@.subrange(0, i + 1).drop_last() =~= s@.subrange(0, i as int));
        push_ctor_param_refs(&s[i], out);
        assert(out@ =~= start + ctor_params_refs(s@.subrange(0, i + 1)));
        i = i + 1;
    }
    assert(s@.subrange(0, s@.len() as int) =~= s@);
}

fn push_decorators_refs(s: &Vec<Decorator>, out: &mut Vec<Ref>)
    ensures
        final(out)@ == old(out)@ + decorators_refs(s@),
{
    let ghost start = out@;
    let mut i: usize = 0;
    while i < s.len()
        invariant
            i <= s@.len(),
            out@ == start + decorators_refs(s@.subrange(0, i as int)),
        decreases s@.len() - i,
    {
        assert(s@.subrange(0, i + 1).drop_last() =~= s@.subrange(0, i as int));
        push_decorator_refs(&s[i], out);
        assert(out@ =~= start + decorators_refs(s@.subrange(0, i + 1)));
        i = i + 1;
    }
    assert(s@.subrange(0, s@.len() as int) =~= s@);
}

fn push_members_refs(s: &Vec<ClassMember>, out: &mut Vec<Ref>)
    ensures
        final(out)@ == old(out)@ + members_refs(s@),
{
    let ghost start = out@;
    let mut i: usize = 0;
    while i < s.len()
        invariant
            i <= s@.len(),
            out@ == start + members_refs(s@.subrange(0, i as int)),
        decreases s@.len() - i,
    {
        assert(s@.subrange(0, i + 1).drop_last() =~= s@.subrange(0, i as int));
        push_member_refs(&s[i], out);
        assert(out@ =~= start + members_refs(s@.subrange(0, i + 1)));
        i = i + 1;
    }
    assert(s@.subrange(0, s@.len() as int) =~= s@);
}

fn push_enum_members_refs(s: &Vec<crate::ast::TsEnumMember>, out: &mut Vec<Ref>)
    ensures
        final(out)@ == old(out)@ + enum_members_refs(s@),
{
    let ghost start = out@;
    let mut i: usize = 0;
    while i < s.len()
        invariant
            i <= s@.len(),
            out@ == start + enum_members_refs(s@.subrange(0, i as int)),
        decreases s@.len() - i,
    {
        assert(s@.subrange(0, i + 1).drop_last() =~= s@.subrange(0, i as int));
        push_enum_member_refs(&s[i], out);
        assert(out@ =~= start + enum_members_refs(s@.subrange(0, i + 1)));
        i = i + 1;
    }
    assert(s@.subrange(0, s@.len() as int) =~= s@);
}

fn push_enum_assigns_refs(s: &Vec<crate::ast::EnumAssign>, out: &mut Vec<Ref>)
    ensures
        final(out)@ == old(out)@ + enum_assigns_refs(s@),
{
    let ghost start = out@;
    let mut i: usize = 0;
    while i < s.len()
        invariant
            i <= s@.len(),
            out@ == start + enum_assigns_refs(s@.subrange(0, i as int)),
        decreases s@.len() - i,
    {
        assert(s@.subrange(0, i + 1).drop_last() =~= s@.subrange(0, i as int));
        push_enum_assign_refs(&s[i], out);
        assert(out@ =~= start + enum_assigns_refs(s@.subrange(0, i + 1)));
        i = i + 1;
    }
    assert(s@.subrange(0, s@.len() as int) =~= s@);
}

fn push_export_spec_refs(sp: &crate::ast::ExportSpecifier, out: &mut Vec<Ref>)
    ensures
        final(out)@ == old(out)@ + export_spec_refs(*sp),
{
    if !sp.is_type_only {
        let ghost start = out@;
        out.push(Ref { id: copy_ident(&sp.orig), is_type: false });
        assert(out@ =~= start + export_spec_refs(*sp));
    } else {
        assert(out@ =~= out@ + Seq::<Ref>::empty());
    }
}

fn push_export_specs_refs(s: &Vec<crate::ast::ExportSpecifier>, out: &mut Vec<Ref>)
    ensures
        final(out)@ == old(out)@ + export_specs_refs(s@),
{
    let ghost start = out@;
    let mut i: usize = 0;
    while i < s.len()
        invariant
            i <= s@.len(),
            out@ == start + export_specs_refs(s@.subrange(0, i as int)),
        decreases s@.len() - i,
    {
        assert(s@.subrange(0, i + 1).drop_last() =~= s@.subrange(0, i as int));
        push_export_spec_refs(&s[i], out);
        assert(out@ =~= start + export_specs_refs(s@.subrange(0, i + 1)));
        i = i + 1;
    }
    assert(s@.subrange(0, s@.len() as int) =~= s@);
}

fn push_stmt_refs(s: &Stmt, out: &mut Vec<Ref>)
    ensures
        final(out)@ == old(out)@ + stmt_refs(*s),
    decreases s, 1int,
{
    let ghost start = out@;
    match s {
        Stmt::ExportNamed(e) => {
            if !e.type_only && e.src.is_none() {
                push_export_specs_refs(&e.specifiers, out);
            }
        },
        Stmt::Var(v) => {
            push_opt_type_refs(&v.type_ann, out);
            push_opt_expr_refs(&v.init, out);
        },
        Stmt::Fn(f) => push_function_refs(&f.function, out),
        Stmt::Class(c) => push_class_refs(&c.class, out),
        Stmt::Expr(e) => push_expr_refs(e, out),
        Stmt::Interface(i) => {
            push_types_refs(&i.extends, out);
            push_types_refs(&i.body, out);
        },
        Stmt::TypeAlias(t) => push_type_refs(&t.ty, out),
        Stmt::Enum(e) => push_enum_members_refs(&e.members, out),
        Stmt::Namespace(n) => {
            proof {
                assert(decreases_to!(*s => (*s)->Namespace_0));
                assert(decreases_to!((*s)->Namespace_0 => (*s)->Namespace_0.body));
            }
            push_stmts_refs(&n.body, out);
        },
        Stmt::ExportAssign(e) => push_expr_refs(e, out),
        Stmt::ImportEquals(i) => match &i.module_ref {
            TsModuleRef::Entity(e) => push_expr_refs(e, out),
            TsModuleRef::Require(_) => {},
        },
        Stmt::EnumClosure(c) => push_enum_assigns_refs(&c.assigns, out),
        Stmt::NamespaceClosure(n) => {
            proof {
                assert(decreases_to!(*s => (*s)->NamespaceClosure_0));
                assert(decreases_to!((*s)->NamespaceClosure_0 => (*s)->NamespaceClosure_0.body));
            }
            push_stmts_refs(&n.body, out);
        },
        _ => {},
    }
    assert(out@ =~= start + stmt_refs(*s));
}

fn push_stmts_refs(ss: &Vec<Stmt>, out: &mut Vec<Ref>)
    ensures
        final(out)@ == old(out)@ + stmts_refs(ss@),
    decreases ss, 0int,
{
    let ghost start = out@;
    let mut i: usize = 0;
    while i < ss.len()
        invariant
            i <= ss@.len(),
            out@ == start + stmts_refs(ss@.subrange(0, i as int)),
        decreases ss@.len() - i,
    {
        proof {
            assert(decreases_to!(*ss => ss@));
            assert(ss@.subrange(0, i + 1).subrange(0, i as int) =~= ss@.subrange(0, i as int));
        }
        push_stmt_refs(&ss[i], out);
        assert(out@ =~= start + stmts_refs(ss@.subrange(0, i + 1)));
        i = i + 1;
    }
    assert(ss@.subrange(0, ss@.len() as int) =~= ss@);
}

/// Every reference in the module, each marked as a type-position or a
/// value-position use; built once, before any lowering.
pub fn collect_refs(m: &Module) -> (r: Vec<Ref>)
    ensures
        r@ == stmts_refs(m.body@),
{
    let mut out: Vec<Ref> = Vec::new();
    push_stmts_refs(&m.body, &mut out);
    assert(out@ =~= Seq::<Ref>::empty() + stmts_refs(m.body@));
    out
}

/// Whether `id` is referenced in a value position in `refs`.
pub fn is_used_as_value(refs: &Vec<Ref>, id: &Ident) -> (r: bool)
    ensures
        r == used_as_value(refs@, *id),
{
    let mut i: usize = 0;
    while i < refs.len()
        invariant
            i <= refs@.len(),
            forall|j: int| 0 <= j < i ==> !(key_of((#[trigger] refs@[j]).id) == key_of(*id) && !refs@[j].is_type),
        decreases refs@.len() - i,
    {
        if !refs[i].is_type && refs[i].id.tag == id.tag && refs[i].id.sym == id.sym {
            return true;
        }
        i = i + 1;
    }
    false
}

} // verus!
