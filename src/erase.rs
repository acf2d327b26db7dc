//! Erasure of type syntax from expressions, parameters and functions.

use vstd::prelude::*;

use crate::ast::{Expr, Function, Ident, Param};

verus! {

/// `r` is `e` with every type assertion, `satisfies`, non-null assertion and
/// type argument list removed, all else kept as it stands.
pub open spec fn erased_expr(e: Expr, r: Expr) -> bool
    decreases e,
{
    match e {
        Expr::Member { obj, prop } => match r {
            Expr::Member { obj: ro, prop: rp } => rp@ == prop@ && erased_expr(*obj, *ro),
            _ => false,
        },
        Expr::Index { obj, index } => match r {
            Expr::Index { obj: ro, index: ri } => erased_expr(*obj, *ro) && erased_expr(*index, *ri),
            _ => false,
        },
        Expr::Call { callee, type_args, args } => match r {
            Expr::Call { callee: rc, type_args: rt, args: ra } => {
                &&& erased_expr(*callee, *rc)
                &&& rt@.len() == 0
                &&& ra@.len() == args@.len()
                &&& forall|i: int| 0 <= i < args@.len() ==> erased_expr(#[trigger] args@[i], ra@[i])
            },
            _ => false,
        },
        Expr::Spread { arg } => match r {
            Expr::Spread { arg: ra } => erased_expr(*arg, *ra),
            _ => false,
        },
        Expr::Assign { target, value } => match r {
            Expr::Assign { target: rt, value: rv } => erased_expr(*target, *rt) && erased_expr(*value, *rv),
            _ => false,
        },
        Expr::Bin { op, left, right } => match r {
            Expr::Bin { op: ro, left: rl, right: rr } => ro == op && erased_expr(*left, *rl)
                && erased_expr(*right, *rr),
            _ => false,
        },
        Expr::TsAs { expr, ty } => erased_expr(*expr, r),
        Expr::TsSatisfies { expr, ty } => erased_expr(*expr, r),
        Expr::TsTypeAssertion { expr, ty } => erased_expr(*expr, r),
        Expr::TsNonNull { expr } => erased_expr(*expr, r),
        _ => r == e,
    }
}

/// `e` holds no TypeScript-only syntax.
pub open spec fn is_js_expr(e: Expr) -> bool
    decreases e,
{
    match e {
        Expr::Member { obj, prop } => is_js_expr(*obj),
        Expr::Index { obj, index } => is_js_expr(*obj) && is_js_expr(*index),
        Expr::Call { callee, type_args, args } => {
            &&& is_js_expr(*callee)
            &&& type_args@.len() == 0
            &&& forall|i: int| 0 <= i < args@.len() ==> is_js_expr(#[trigger] args@[i])
        },
        Expr::Spread { arg } => is_js_expr(*arg),
        Expr::Assign { target, value } => is_js_expr(*target) && is_js_expr(*value),
        Expr::Bin { op, left, right } => is_js_expr(*left) && is_js_expr(*right),
        Expr::TsAs { .. } => false,
        Expr::TsSatisfies { .. } => false,
        Expr::TsTypeAssertion { .. } => false,
        Expr::TsNonNull { .. } => false,
        _ => true,
    }
}

pub fn copy_ident(id: &Ident) -> (r: Ident)
    ensures
        r == *id,
{
    Ident { sym: id.sym.clone(), tag: id.tag }
}

/// Removes the type-only syntax from an expression.
pub fn strip_expr(e: &Expr) -> (r: Expr)
    ensures
        erased_expr(*e, r),
    decreases e,
{
    match e {
        Expr::Ident(id) => Expr::Ident(copy_ident(id)),
        Expr::This => Expr::This,
        Expr::Super => Expr::Super,
        Expr::ImportMeta => Expr::ImportMeta,
        Expr::Num(n) => Expr::Num(*n),
        Expr::Str(s) => Expr::Str(s.clone()),
        Expr::Member { obj, prop } => Expr::Member { obj: Box::new(strip_expr(obj)), prop: prop.clone() },
        Expr::Index { obj, index } => Expr::Index {
            obj: Box::new(strip_expr(obj)),
            index: Box::new(strip_expr(index)),
        },
        Expr::Call { callee, type_args, args } => {
            let rc = strip_expr(callee);
            let mut ra: Vec<Expr> = Vec::new();
            let mut i: usize = 0;
            while i < args.len()
                invariant
                    *e == (Expr::Call { callee: *callee, type_args: *type_args, args: *args }),
                    i <= args@.len(),
                    ra@.len() == i,
                    forall|j: int| 0 <= j < i ==> erased_expr(#[trigger] args@[j], ra@[j]),
                decreases args@.len() - i,
            {
                proof {
                    assert(decreases_to!(*e => (*e)->args));
                    assert(decreases_to!((*e)->args => (*e)->args@));
                }
                let a = strip_expr(&args[i]);
                ra.push(a);
                i = i + 1;
            }
            Expr::Call { callee: Box::new(rc), type_args: Vec::new(), args: ra }
        },
        Expr::Spread { arg } => Expr::Spread { arg: Box::new(strip_expr(arg)) },
        Expr::Assign { target, value } => Expr::Assign {
            target: Box::new(strip_expr(target)),
            value: Box::new(strip_expr(value)),
        },
        Expr::Bin { op, left, right } => Expr::Bin {
            op: *op,
            left: Box::new(strip_expr(left)),
            right: Box::new(strip_expr(right)),
        },
        Expr::TsAs { expr, .. } => strip_expr(expr),
        Expr::TsSatisfies { expr, .. } => strip_expr(expr),
        Expr::TsTypeAssertion { expr, .. } => strip_expr(expr),
        Expr::TsNonNull { expr } => strip_expr(expr),
    }
}

/// Erasing yields an expression free of TypeScript-only syntax, and erasing
/// that again leaves it as it is.
pub proof fn lemma_erased_expr_is_js(e: Expr, r: Expr)
    requires
        erased_expr(e, r),
    ensures
        is_js_expr(r),
        erased_expr(r, r),
    decreases e,
{
    match e {
        Expr::Member { obj, prop } => {
            lemma_erased_expr_is_js(*obj, *r->Member_obj);
        },
        Expr::Index { obj, index } => {
            lemma_erased_expr_is_js(*obj, *r->Index_obj);
            lemma_erased_expr_is_js(*index, *r->Index_index);
        },
        Expr::Call { callee, type_args, args } => {
            let ra = r->Call_args;
            lemma_erased_expr_is_js(*callee, *r->Call_callee);
            assert forall|i: int| 0 <= i < ra@.len() implies is_js_expr(#[trigger] ra@[i])
                && erased_expr(ra@[i], ra@[i]) by {
                lemma_erased_expr_is_js(args@[i], ra@[i]);
            }
        },
        Expr::Spread { arg } => {
            lemma_erased_expr_is_js(*arg, *r->Spread_arg);
        },
        Expr::Assign { target, value } => {
            lemma_erased_expr_is_js(*target, *r->Assign_target);
            lemma_erased_expr_is_js(*value, *r->Assign_value);
        },
        Expr::Bin { op, left, right } => {
            lemma_erased_expr_is_js(*left, *r->Bin_left);
            lemma_erased_expr_is_js(*right, *r->Bin_right);
        },
        Expr::TsAs { expr, ty } => lemma_erased_expr_is_js(*expr, r),
        Expr::TsSatisfies { expr, ty } => lemma_erased_expr_is_js(*expr, r),
        Expr::TsTypeAssertion { expr, ty } => lemma_erased_expr_is_js(*expr, r),
        Expr::TsNonNull { expr } => lemma_erased_expr_is_js(*expr, r),
        _ => {},
    }
}

/// `r` is `es` with each expression erased, in the same order.
pub open spec fn erased_exprs(es: Seq<Expr>, r: Seq<Expr>) -> bool {
    &&& r.len() == es.len()
    &&& forall|i: int| 0 <= i < es.len() ==> erased_expr(#[trigger] es[i], r[i])
}

pub fn strip_exprs(es: &Vec<Expr>) -> (r: Vec<Expr>)
    ensures
        erased_exprs(es@, r@),
{
    let mut out: Vec<Expr> = Vec::new();
    let mut i: usize = 0;
    while i < es.len()
        invariant
            i <= es@.len(),
            out@.len() == i,
            forall|j: int| 0 <= j < i ==> erased_expr(#[trigger] es@[j], out@[j]),
        decreases es@.len() - i,
    {
        out.push(strip_expr(&es[i]));
        i = i + 1;
    }
    out
}

/// `r` is the parameter `p` without its type annotation.
pub open spec fn erased_param(p: Param, r: Param) -> bool {
    r.name == p.name && r.type_ann is None && r.rest == p.rest
}

pub fn strip_param(p: &Param) -> (r: Param)
    ensures
        erased_param(*p, r),
{
    Param { name: copy_ident(&p.name), type_ann: None, rest: p.rest }
}

pub open spec fn erased_params(ps: Seq<Param>, r: Seq<Param>) -> bool {
    &&& r.len() == ps.len()
    &&& forall|i: int| 0 <= i < ps.len() ==> erased_param(#[trigger] ps[i], r[i])
}

pub fn strip_params(ps: &Vec<Param>) -> (r: Vec<Param>)
    ensures
        erased_params(ps@, r@),
{
    let mut out: Vec<Param> = Vec::new();
    let mut i: usize = 0;
    while i < ps.len()
        invariant
            i <= ps@.len(),
            out@.len() == i,
            forall|j: int| 0 <= j < i ==> erased_param(#[trigger] ps@[j], out@[j]),
        decreases ps@.len() - i,
    {
        out.push(strip_param(&ps[i]));
        i = i + 1;
    }
    out
}

/// `r` is the function `f` with its types erased; a function without a body
/// (an overload or an ambient signature) has no runtime form.
pub open spec fn erased_function(f: Function, r: Function) -> bool {
    &&& f.body is Some
    &&& r.body is Some
    &&& erased_params(f.params@, r.params@)
    &&& erased_exprs(f.body->0@, r.body->0@)
    &&& r.type_params is None
    &&& r.return_type is None
}

pub fn strip_function(f: &Function) -> (r: Function)
    requires
        f.body is Some,
    ensures
        erased_function(*f, r),
{
    let body = match &f.body {
        Some(b) => strip_exprs(b),
        None => Vec::new(),
    };
    Function { params: strip_params(&f.params), body: Some(body), type_params: None, return_type: None }
}

/// An expression free of TypeScript-only syntax erases to itself.
pub proof fn lemma_js_expr_erases_to_itself(e: Expr)
    requires
        is_js_expr(e),
    ensures
        erased_expr(e, e),
    decreases e,
{
    match e {
        Expr::Member { obj, .. } => lemma_js_expr_erases_to_itself(*obj),
        Expr::Index { obj, index } => {
            lemma_js_expr_erases_to_itself(*obj);
            lemma_js_expr_erases_to_itself(*index);
        },
        Expr::Call { callee, args, .. } => {
            lemma_js_expr_erases_to_itself(*callee);
            assert forall|i: int| 0 <= i < args@.len() implies erased_expr(#[trigger] args@[i], args@[i]) by {
                lemma_js_expr_erases_to_itself(args@[i]);
            }
        },
        Expr::Spread { arg } => lemma_js_expr_erases_to_itself(*arg),
        Expr::Assign { target, value } => {
            lemma_js_expr_erases_to_itself(*target);
            lemma_js_expr_erases_to_itself(*value);
        },
        Expr::Bin { left, right, .. } => {
            lemma_js_expr_erases_to_itself(*left);
            lemma_js_expr_erases_to_itself(*right);
        },
        _ => {},
    }
}

} // verus!
