//! Lowering of classes: parameter properties and property initializers
//! move into the constructor, TypeScript-only members and modifiers go.

use vstd::prelude::*;

use crate::ast::{key_of, Expr, Ident, Param, ParamOrTsParamProp, Span, VarDecl, VarKind};
use crate::class::{
    Class, ClassMember, ClassMethod, ClassProp, Constructor, Decorator, PrivateMethod, PrivateProp,
    PropName, StaticBlock,
};
use crate::erase::{
    copy_ident, erased_expr, erased_exprs, erased_function, erased_param, strip_expr, strip_exprs,
    strip_function, strip_param,
};

verus! {

/// The decimal digits of `n`.
pub open spec fn decimal(n: nat) -> Seq<char>
    decreases n,
{
    if n < 10 {
        seq![digit_char(n)]
    } else {
        decimal(n / 10) + seq![digit_char(n % 10)]
    }
}

pub open spec fn digit_char(d: nat) -> char {
    if d == 0 { '0' } else if d == 1 { '1' } else if d == 2 { '2' } else if d == 3 { '3' } else if d == 4 { '4' }
    else if d == 5 { '5' } else if d == 6 { '6' } else if d == 7 { '7' } else if d == 8 { '8' } else { '9' }
}

/// The binding that holds the computed key of member `j` of class `cls`:
/// `_<cls>_key<j>`, with the tag of bindings that lowering introduces.
pub open spec fn key_temp(cls: Ident, j: int, tag: u32) -> (Seq<char>, u32) {
    ("_"@ + cls.sym@ + "_key"@ + decimal(j as nat), tag)
}

/// `t` is the target `owner.key` (or `owner[key]`) of an assignment to the
/// property `key`; a computed key is read from the binding `temp`, which
/// holds its value.
pub open spec fn key_target(owner: Expr, key: PropName, temp: (Seq<char>, u32), t: Expr) -> bool {
    match key {
        PropName::Ident(s) => t matches Expr::Member { obj, prop } && *obj == owner && prop@ == s@,
        PropName::Str(s) => t matches Expr::Index { obj, index } && *obj == owner
            && (*index matches Expr::Str(x) && x@ == s@),
        PropName::Num(n) => t matches Expr::Index { obj, index } && *obj == owner && *index == Expr::Num(n),
        PropName::Computed(k) => t matches Expr::Index { obj, index } && *obj == owner && (*index matches Expr::Ident(
            x,
        ) && key_of(x) == temp),
    }
}

/// `e` is `owner.key = value`, with the value erased.
pub open spec fn is_prop_assign(e: Expr, owner: Expr, key: PropName, value: Expr, temp: (Seq<char>, u32)) -> bool {
    e matches Expr::Assign { target, value: v } && key_target(owner, key, temp, *target) && erased_expr(value, *v)
}

/// `e` is `this.id = id`.
pub open spec fn is_param_assign(e: Expr, id: Ident) -> bool {
    e matches Expr::Assign { target, value } && (*target matches Expr::Member { obj, prop }
        && *obj == Expr::This && prop@ == id.sym@) && *value == Expr::Ident(id)
}

/// The names of the parameter properties among `ps`, in order.
pub open spec fn param_prop_ids(ps: Seq<ParamOrTsParamProp>) -> Seq<Ident>
    decreases ps.len(),
{
    if ps.len() == 0 {
        seq![]
    } else {
        let prev = param_prop_ids(ps.drop_last());
        match ps.last() {
            ParamOrTsParamProp::TsParamProp(pp) => prev.push(pp.param.name),
            ParamOrTsParamProp::Param(_) => prev,
        }
    }
}

/// A property that has a runtime form: neither `declare` nor `abstract`.
pub open spec fn is_runtime_prop(p: ClassProp) -> bool {
    !p.declare && !p.is_abstract
}

/// The properties among `ms` with an initializer that the constructor (or,
/// for `is_static`, the code after the class) assigns, in order.
pub open spec fn assigned_props(ms: Seq<ClassMember>, is_static: bool) -> Seq<ClassProp>
    decreases ms.len(),
{
    if ms.len() == 0 {
        seq![]
    } else {
        let prev = assigned_props(ms.drop_last(), is_static);
        match ms.last() {
            ClassMember::ClassProp(p) => if is_runtime_prop(p) && p.is_static == is_static && p.value is Some {
                prev.push(p)
            } else {
                prev
            },
            _ => prev,
        }
    }
}

pub open spec fn is_super_call(e: Expr) -> bool {
    e matches Expr::Call { callee, .. } && *callee == Expr::Super
}

/// The bindings that hold the computed keys of `assigned_props(ms,
/// is_static)`, one per property (used only where the key is computed).
pub open spec fn assigned_temps(ms: Seq<ClassMember>, is_static: bool, cls: Ident, tag: u32) -> Seq<(Seq<char>, u32)>
    decreases ms.len(),
{
    if ms.len() == 0 {
        seq![]
    } else {
        let prev = assigned_temps(ms.drop_last(), is_static, cls, tag);
        match ms.last() {
            ClassMember::ClassProp(p) => if is_runtime_prop(p) && p.is_static == is_static && p.value is Some {
                prev.push(key_temp(cls, ms.len() - 1, tag))
            } else {
                prev
            },
            _ => prev,
        }
    }
}

/// The members of `ms` whose computed keys are evaluated before the class:
/// the properties with a runtime form and a computed key, by index.
pub open spec fn hoisted_keys(ms: Seq<ClassMember>) -> Seq<int>
    decreases ms.len(),
{
    if ms.len() == 0 {
        seq![]
    } else {
        let prev = hoisted_keys(ms.drop_last());
        match ms.last() {
            ClassMember::ClassProp(p) => if is_runtime_prop(p) && p.key is Computed {
                prev.push(ms.len() - 1)
            } else {
                prev
            },
            _ => prev,
        }
    }
}

/// `hs` declares, in member order, `var _<cls>_key<j> = key` for each member
/// `j` of `hoisted_keys(ms)`, with the key erased.
pub open spec fn hoisted_ok(ms: Seq<ClassMember>, cls: Ident, tag: u32, hs: Seq<crate::ast::Stmt>) -> bool {
    let idx = hoisted_keys(ms);
    &&& hs.len() == idx.len()
    &&& forall|q: int| 0 <= q < idx.len() ==> (#[trigger] hs[q] matches crate::ast::Stmt::Var(v) && !v.exported
        && !v.declare && v.kind == VarKind::Var && v.type_ann is None && key_of(v.name) == key_temp(cls, idx[q], tag)
        && (v.init matches Some(y) && erased_expr(*ms[idx[q]]->ClassProp_0.key->Computed_0, y)))
}

/// The index of the first `super(..)` call among `body` from `i` on, or -1.
pub open spec fn first_super_from(body: Seq<Expr>, i: int) -> int
    decreases body.len() - i,
{
    if i < 0 || i >= body.len() {
        -1
    } else if is_super_call(body[i]) {
        i
    } else {
        first_super_from(body, i + 1)
    }
}

pub open spec fn first_super_call(body: Seq<Expr>) -> int {
    first_super_from(body, 0)
}

/// Where the constructor's assignments go: right after the first `super(..)`
/// call in a derived class, else at the start of the body.
pub open spec fn insert_at(body: Seq<Expr>, derived: bool) -> int {
    if derived && first_super_call(body) >= 0 { first_super_call(body) + 1 } else { 0 }
}

/// `out` is `assigns`: one `this.p = p` per parameter property, then one
/// `this.key = init` per assigned instance property, each in declaration
/// order.
pub open spec fn ctor_assigns(out: Seq<Expr>, ids: Seq<Ident>, props: Seq<ClassProp>, temps: Seq<(Seq<char>, u32)>) -> bool {
    &&& out.len() == ids.len() + props.len()
    &&& forall|k: int| 0 <= k < ids.len() ==> is_param_assign(#[trigger] out[k], ids[k])
    &&& forall|k: int| 0 <= k < props.len() ==> is_prop_assign(#[trigger] out[ids.len() + k], Expr::This,
        props[k].key, *props[k].value->0, temps[k])
}

/// `r` is the body `b` erased, with the assignments of `ids` and `props`
/// inserted at `at`.
pub open spec fn body_with(b: Seq<Expr>, r: Seq<Expr>, at: int, ids: Seq<Ident>, props: Seq<ClassProp>, temps: Seq<
    (Seq<char>, u32),
>) -> bool {
    let n = ids.len() + props.len();
    &&& 0 <= at <= b.len()
    &&& r.len() == b.len() + n
    &&& forall|j: int| 0 <= j < at ==> erased_expr(#[trigger] b[j], r[j])
    &&& ctor_assigns(r.subrange(at, at + n), ids, props, temps)
    &&& forall|j: int| at <= j < b.len() ==> erased_expr(#[trigger] b[j], r[j + n])
}

/// A parameter with its modifiers and type removed.
pub open spec fn erased_ctor_param(p: ParamOrTsParamProp, r: ParamOrTsParamProp) -> bool {
    match p {
        ParamOrTsParamProp::Param(q) => r matches ParamOrTsParamProp::Param(rq) && erased_param(q, rq),
        ParamOrTsParamProp::TsParamProp(pp) => r matches ParamOrTsParamProp::Param(rq)
            && erased_param(pp.param, rq),
    }
}

pub open spec fn erased_key(k: PropName, r: PropName) -> bool {
    match k {
        PropName::Computed(e) => r matches PropName::Computed(re) && erased_expr(*e, *re),
        _ => r == k,
    }
}

pub open spec fn erased_decorators(ds: Seq<Decorator>, r: Seq<Decorator>) -> bool {
    &&& r.len() == ds.len()
    &&& forall|i: int| 0 <= i < ds.len() ==> erased_expr(*(#[trigger] ds[i]).expr, *r[i].expr)
}

/// Whether member `m` has a runtime form in the lowered class.
pub open spec fn member_kept(m: ClassMember, use_define: bool) -> bool {
    match m {
        ClassMember::Constructor(c) => c.body is Some,
        ClassMember::Method(f) => f.function.body is Some,
        ClassMember::PrivateMethod(f) => f.function.body is Some,
        ClassMember::ClassProp(p) => use_define && is_runtime_prop(p),
        ClassMember::TsIndexSignature(_) => false,
        _ => true,
    }
}

/// `r` is the kept member `m` with its TypeScript-only parts removed; a
/// constructor also gets the assignments of its parameter properties and of
/// `props` after its `super(..)` call (or at its start).
pub open spec fn lowered_member(m: ClassMember, r: ClassMember, derived: bool, props: Seq<ClassProp>, temps: Seq<
    (Seq<char>, u32),
>) -> bool {
    match m {
        ClassMember::Constructor(c) => r matches ClassMember::Constructor(rc) && {
            &&& erased_key(c.key, rc.key)
            &&& rc.params@.len() == c.params@.len()
            &&& forall|i: int| 0 <= i < c.params@.len() ==> erased_ctor_param(#[trigger] c.params@[i], rc.params@[i])
            &&& rc.body is Some
            &&& body_with(c.body->0@, rc.body->0@, insert_at(c.body->0@, derived), param_prop_ids(c.params@), props, temps)
            &&& rc.accessibility is None
            &&& !rc.is_optional
        },
        ClassMember::Method(f) => r matches ClassMember::Method(rf) && {
            &&& erased_key(f.key, rf.key)
            &&& erased_function(*f.function, *rf.function)
            &&& rf.kind == f.kind
            &&& rf.is_static == f.is_static
            &&& rf.accessibility is None
            &&& !rf.is_abstract && !rf.is_optional && !rf.is_override
        },
        ClassMember::PrivateMethod(f) => r matches ClassMember::PrivateMethod(rf) && {
            &&& rf.key == f.key
            &&& erased_function(*f.function, *rf.function)
            &&& rf.kind == f.kind
            &&& rf.is_static == f.is_static
            &&& rf.accessibility is None
            &&& !rf.is_abstract && !rf.is_optional && !rf.is_override
        },
        ClassMember::ClassProp(p) => r matches ClassMember::ClassProp(rp) && {
            &&& erased_key(p.key, rp.key)
            &&& rp.value is Some == p.value is Some
            &&& (p.value is Some ==> erased_expr(*p.value->0, *rp.value->0))
            &&& rp.type_ann is None
            &&& rp.is_static == p.is_static
            &&& erased_decorators(p.decorators@, rp.decorators@)
            &&& rp.accessibility is None
            &&& !rp.is_abstract && !rp.is_optional && !rp.is_override && !rp.readonly
            &&& !rp.declare && !rp.definite
        },
        ClassMember::PrivateProp(p) => r matches ClassMember::PrivateProp(rp) && {
            &&& rp.key == p.key
            &&& rp.value is Some == p.value is Some
            &&& (p.value is Some ==> erased_expr(*p.value->0, *rp.value->0))
            &&& rp.type_ann is None
            &&& rp.is_static == p.is_static
            &&& erased_decorators(p.decorators@, rp.decorators@)
            &&& rp.accessibility is None
            &&& !rp.is_optional && !rp.is_override && !rp.readonly && !rp.definite
        },
        ClassMember::StaticBlock(b) => r matches ClassMember::StaticBlock(rb) && erased_exprs(b.body@, rb.body@),
        _ => r == m,
    }
}

/// `out` holds, in order, the lowered form of each kept member of `ms`.
pub open spec fn lowered_members(ms: Seq<ClassMember>, out: Seq<ClassMember>, use_define: bool, derived: bool,
    props: Seq<ClassProp>, temps: Seq<(Seq<char>, u32)>) -> bool
    decreases ms.len(),
{
    if ms.len() == 0 {
        out.len() == 0
    } else if !member_kept(ms.last(), use_define) {
        lowered_members(ms.drop_last(), out, use_define, derived, props, temps)
    } else {
        &&& out.len() > 0
        &&& lowered_member(ms.last(), out.last(), derived, props, temps)
        &&& lowered_members(ms.drop_last(), out.drop_last(), use_define, derived, props, temps)
    }
}

/// The instance properties whose initializers move into the constructor:
/// none where fields keep their declarations.
pub open spec fn instance_props(ms: Seq<ClassMember>, use_define: bool) -> Seq<ClassProp> {
    if use_define { seq![] } else { assigned_props(ms, false) }
}

/// The static properties whose initializers move after the class.
pub open spec fn static_props(ms: Seq<ClassMember>, use_define: bool) -> Seq<ClassProp> {
    if use_define { seq![] } else { assigned_props(ms, true) }
}

pub open spec fn instance_temps(ms: Seq<ClassMember>, use_define: bool, cls: Ident, tag: u32) -> Seq<(Seq<char>, u32)> {
    if use_define { seq![] } else { assigned_temps(ms, false, cls, tag) }
}

pub open spec fn static_temps(ms: Seq<ClassMember>, use_define: bool, cls: Ident, tag: u32) -> Seq<(Seq<char>, u32)> {
    if use_define { seq![] } else { assigned_temps(ms, true, cls, tag) }
}

fn digit_string(d: usize) -> (r: String)
    requires
        d < 10,
    ensures
        r@ == seq![digit_char(d as nat)],
{
    let lit = if d == 0 { "0" } else if d == 1 { "1" } else if d == 2 { "2" } else if d == 3 { "3" } else if d == 4 {
        "4"
    } else if d == 5 { "5" } else if d == 6 { "6" } else if d == 7 { "7" } else if d == 8 { "8" } else { "9" };
    proof {
        reveal_strlit("0");
        reveal_strlit("1");
        reveal_strlit("2");
        reveal_strlit("3");
        reveal_strlit("4");
        reveal_strlit("5");
        reveal_strlit("6");
        reveal_strlit("7");
        reveal_strlit("8");
        reveal_strlit("9");
    }
    let r = String::from_str(lit);
    assert(r@ =~= seq![digit_char(d as nat)]);
    r
}

fn decimal_string(n: usize) -> (r: String)
    ensures
        r@ == decimal(n as nat),
    decreases n,
{
    if n < 10 {
        digit_string(n)
    } else {
        let mut s = decimal_string(n / 10);
        let d = digit_string(n % 10);
        s.append(d.as_str());
        s
    }
}

/// The binding `_<cls>_key<j>` that holds the computed key of member `j`.
fn key_temp_ident(cls: &Ident, j: usize, tag: u32) -> (r: Ident)
    ensures
        key_of(r) == key_temp(*cls, j as int, tag),
{
    let mut sym = String::from_str("_");
    sym.append(cls.sym.as_str());
    sym.append("_key");
    let digits = decimal_string(j);
    sym.append(digits.as_str());
    Ident { sym, tag }
}

/// Declares, before the class, the bindings that hold its computed
/// property keys, each key evaluated once, in member order.
pub fn hoist_keys(ms: &Vec<ClassMember>, cls: &Ident, tag: u32) -> (r: Vec<crate::ast::Stmt>)
    ensures
        hoisted_ok(ms@, *cls, tag, r@),
{
    let mut out: Vec<crate::ast::Stmt> = Vec::new();
    let mut i: usize = 0;
    while i < ms.len()
        invariant
            i <= ms@.len(),
            hoisted_ok(ms@.subrange(0, i as int), *cls, tag, out@),
            forall|q: int| 0 <= q < hoisted_keys(ms@.subrange(0, i as int)).len() ==> 0 <= #[trigger] hoisted_keys(
                ms@.subrange(0, i as int),
            )[q] < i,
        decreases ms@.len() - i,
    {
        let ghost pre = ms@.subrange(0, i as int);
        let ghost next = ms@.subrange(0, i + 1);
        assert(next.drop_last() =~= pre);
        let ghost before = out@;
        match &ms[i] {
            ClassMember::ClassProp(p) => {
                if !p.declare && !p.is_abstract {
                    match &p.key {
                        PropName::Computed(k) => {
                            out.push(crate::ast::Stmt::Var(VarDecl {
                                exported: false,
                                declare: false,
                                kind: VarKind::Var,
                                name: key_temp_ident(cls, i, tag),
                                type_ann: None,
                                init: Some(strip_expr(k)),
                            }));
                        },
                        _ => {},
                    }
                }
            },
            _ => {},
        }
        proof {
            let idx = hoisted_keys(next);
            assert forall|q: int| 0 <= q < idx.len() implies (#[trigger] out@[q] matches crate::ast::Stmt::Var(v)
                && !v.exported && !v.declare && v.kind == VarKind::Var && v.type_ann is None && key_of(v.name)
                == key_temp(*cls, idx[q], tag) && (v.init matches Some(y) && erased_expr(
                *next[idx[q]]->ClassProp_0.key->Computed_0,
                y,
            ))) by {
                if q < hoisted_keys(pre).len() {
                    assert(idx[q] == hoisted_keys(pre)[q]);
                    assert(out@[q] == before[q]);
                    assert(next[idx[q]] == pre[idx[q]]);
                }
            }
        }
        i = i + 1;
    }
    assert(ms@.subrange(0, ms@.len() as int) =~= ms@);
    out
}

pub open spec fn owner_of(owner: Option<&Ident>) -> Expr {
    match owner {
        Some(id) => Expr::Ident(*id),
        None => Expr::This,
    }
}

fn make_owner(owner: Option<&Ident>) -> (r: Expr)
    ensures
        r == owner_of(owner),
{
    match owner {
        Some(id) => Expr::Ident(copy_ident(id)),
        None => Expr::This,
    }
}

fn param_assign(id: &Ident) -> (r: Expr)
    ensures
        is_param_assign(r, *id),
{
    Expr::Assign {
        target: Box::new(Expr::Member { obj: Box::new(Expr::This), prop: id.sym.clone() }),
        value: Box::new(Expr::Ident(copy_ident(id))),
    }
}

fn target_of(owner: Option<&Ident>, key: &PropName, temp: &Ident) -> (r: Expr)
    ensures
        key_target(owner_of(owner), *key, key_of(*temp), r),
{
    let obj = Box::new(make_owner(owner));
    match key {
        PropName::Ident(s) => Expr::Member { obj, prop: s.clone() },
        PropName::Str(s) => Expr::Index { obj, index: Box::new(Expr::Str(s.clone())) },
        PropName::Num(n) => Expr::Index { obj, index: Box::new(Expr::Num(*n)) },
        PropName::Computed(_) => Expr::Index { obj, index: Box::new(Expr::Ident(copy_ident(temp))) },
    }
}

/// Appends `this.p = p` for each parameter property among `ps`.
fn push_param_assigns(ps: &Vec<ParamOrTsParamProp>, out: &mut Vec<Expr>)
    ensures
        final(out)@.len() == old(out)@.len() + param_prop_ids(ps@).len(),
        final(out)@.subrange(0, old(out)@.len() as int) == old(out)@,
        forall|k: int| 0 <= k < param_prop_ids(ps@).len() ==> is_param_assign(
            #[trigger] final(out)@[old(out)@.len() + k], param_prop_ids(ps@)[k]),
{
    let ghost start = out@;
    let mut i: usize = 0;
    while i < ps.len()
        invariant
            i <= ps@.len(),
            out@.len() == start.len() + param_prop_ids(ps@.subrange(0, i as int)).len(),
            out@.subrange(0, start.len() as int) == start,
            forall|k: int| 0 <= k < param_prop_ids(ps@.subrange(0, i as int)).len() ==> is_param_assign(
                #[trigger] out@[start.len() + k], param_prop_ids(ps@.subrange(0, i as int))[k]),
        decreases ps@.len() - i,
    {
        assert(ps@.subrange(0, i + 1).drop_last() =~= ps@.subrange(0, i as int));
        match &ps[i] {
            ParamOrTsParamProp::TsParamProp(pp) => {
                out.push(param_assign(&pp.param.name));
            },
            ParamOrTsParamProp::Param(_) => {},
        }
        assert(out@.subrange(0, start.len() as int) =~= start);
        i = i + 1;
    }
    assert(ps@.subrange(0, ps@.len() as int) =~= ps@);
}

/// Appends `owner.key = init` for each property of `assigned_props(ms, is_static)`.
fn push_prop_assigns(ms: &Vec<ClassMember>, is_static: bool, owner: Option<&Ident>, cls: &Ident, tag: u32, out: &mut Vec<Expr>)
    ensures
        final(out)@.len() == old(out)@.len() + assigned_props(ms@, is_static).len(),
        final(out)@.subrange(0, old(out)@.len() as int) == old(out)@,
        forall|k: int| 0 <= k < assigned_props(ms@, is_static).len() ==> is_prop_assign(
            #[trigger] final(out)@[old(out)@.len() + k], owner_of(owner), assigned_props(ms@, is_static)[k].key,
            *assigned_props(ms@, is_static)[k].value->0, assigned_temps(ms@, is_static, *cls, tag)[k]),
{
    let ghost start = out@;
    let mut i: usize = 0;
    while i < ms.len()
        invariant
            i <= ms@.len(),
            out@.len() == start.len() + assigned_props(ms@.subrange(0, i as int), is_static).len(),
            assigned_temps(ms@.subrange(0, i as int), is_static, *cls, tag).len() == assigned_props(
                ms@.subrange(0, i as int),
                is_static,
            ).len(),
            out@.subrange(0, start.len() as int) == start,
            forall|k: int| 0 <= k < assigned_props(ms@.subrange(0, i as int), is_static).len() ==> is_prop_assign(
                #[trigger] out@[start.len() + k], owner_of(owner),
                assigned_props(ms@.subrange(0, i as int), is_static)[k].key,
                *assigned_props(ms@.subrange(0, i as int), is_static)[k].value->0,
                assigned_temps(ms@.subrange(0, i as int), is_static, *cls, tag)[k]),
        decreases ms@.len() - i,
    {
        assert(ms@.subrange(0, i + 1).drop_last() =~= ms@.subrange(0, i as int));
        let ghost pre_props = assigned_props(ms@.subrange(0, i as int), is_static);
        let ghost pre_temps = assigned_temps(ms@.subrange(0, i as int), is_static, *cls, tag);
        let ghost before = out@;
        match &ms[i] {
            ClassMember::ClassProp(p) => {
                if !p.declare && !p.is_abstract && p.is_static == is_static {
                    match &p.value {
                        Some(v) => {
                            let temp = key_temp_ident(cls, i, tag);
                            let target = target_of(owner, &p.key, &temp);
                            let value = strip_expr(v);
                            out.push(Expr::Assign { target: Box::new(target), value: Box::new(value) });
                        },
                        None => {},
                    }
                }
            },
            _ => {},
        }
        assert(out@.subrange(0, start.len() as int) =~= start);
        proof {
            let props = assigned_props(ms@.subrange(0, i + 1), is_static);
            let temps = assigned_temps(ms@.subrange(0, i + 1), is_static, *cls, tag);
            assert forall|k: int| 0 <= k < props.len() implies is_prop_assign(#[trigger] out@[start.len() + k],
                owner_of(owner), props[k].key, *props[k].value->0, temps[k]) by {
                if k < pre_props.len() {
                    assert(props[k] == pre_props[k]);
                    assert(temps[k] == pre_temps[k]);
                    assert(out@[start.len() + k] == before[start.len() + k]);
                }
            }
        }
        i = i + 1;
    }
    assert(ms@.subrange(0, ms@.len() as int) =~= ms@);
}

fn find_super_call(b: &Vec<Expr>) -> (r: usize)
    ensures
        first_super_call(b@) < 0 ==> r == b@.len(),
        first_super_call(b@) >= 0 ==> r == first_super_call(b@) && r < b@.len(),
{
    let mut i: usize = 0;
    while i < b.len()
        invariant
            i <= b@.len(),
            first_super_from(b@, 0) == first_super_from(b@, i as int),
        decreases b@.len() - i,
    {
        let found = match &b[i] {
            Expr::Call { callee, .. } => match &**callee {
                Expr::Super => true,
                _ => false,
            },
            _ => false,
        };
        if found {
            return i;
        }
        i = i + 1;
    }
    i
}

/// The assignments that a constructor with parameters `ps` receives.
fn ctor_assignments(ps: &Vec<ParamOrTsParamProp>, ms: &Vec<ClassMember>, use_define: bool, cls: &Ident, tag: u32) -> (r: Vec<Expr>)
    ensures
        ctor_assigns(r@, param_prop_ids(ps@), instance_props(ms@, use_define), instance_temps(ms@, use_define, *cls, tag)),
{
    let mut a: Vec<Expr> = Vec::new();
    push_param_assigns(ps, &mut a);
    let ghost a1 = a@;
    let ghost n = param_prop_ids(ps@).len();
    assert forall|k: int| 0 <= k < n implies is_param_assign(#[trigger] a1[k], param_prop_ids(ps@)[k]) by {
        assert(a1[0 + k] == a1[k]);
    }
    if !use_define {
        push_prop_assigns(ms, false, None, cls, tag, &mut a);
    }
    assert forall|k: int| 0 <= k < n implies is_param_assign(#[trigger] a@[k], param_prop_ids(ps@)[k]) by {
        assert(a@[k] == a@.subrange(0, n as int)[k]);
    }
    a
}

fn lower_ctor_body(b: &Vec<Expr>, derived: bool, assigns: Vec<Expr>, Ghost(ids): Ghost<Seq<Ident>>,
    Ghost(props): Ghost<Seq<ClassProp>>, Ghost(temps): Ghost<Seq<(Seq<char>, u32)>>) -> (r: Vec<Expr>)
    requires
        ctor_assigns(assigns@, ids, props, temps),
    ensures
        body_with(b@, r@, insert_at(b@, derived), ids, props, temps),
{
    let at: usize = if derived {
        let k = find_super_call(b);
        if k < b.len() { k + 1 } else { 0 }
    } else {
        0
    };
    let ghost n = assigns@.len() as int;
    let ghost a0 = assigns@;
    let mut assigns = assigns;
    let mut out: Vec<Expr> = Vec::new();
    let mut i: usize = 0;
    while i < at
        invariant
            i <= at <= b@.len(),
            out@.len() == i,
            forall|j: int| 0 <= j < i ==> erased_expr(#[trigger] b@[j], out@[j]),
        decreases at - i,
    {
        out.push(strip_expr(&b[i]));
        i = i + 1;
    }
    let mut post: Vec<Expr> = Vec::new();
    while i < b.len()
        invariant
            at <= i <= b@.len(),
            post@.len() == i - at,
            forall|j: int| at <= j < i ==> erased_expr(#[trigger] b@[j], post@[j - at]),
        decreases b@.len() - i,
    {
        post.push(strip_expr(&b[i]));
        i = i + 1;
    }
    let ghost pre = out@;
    let ghost q = post@;
    out.append(&mut assigns);
    out.append(&mut post);
    proof {
        let r = out@;
        assert(r.subrange(at as int, at + n) =~= a0);
        assert forall|j: int| 0 <= j < at implies erased_expr(#[trigger] b@[j], r[j]) by {
            assert(r[j] == pre[j]);
        }
        assert forall|j: int| at <= j < b@.len() implies erased_expr(#[trigger] b@[j], r[j + n]) by {
            assert(r[j + n] == q[j - at]);
        }
    }
    out
}

fn strip_decorators(ds: &Vec<Decorator>) -> (r: Vec<Decorator>)
    ensures
        erased_decorators(ds@, r@),
{
    let mut out: Vec<Decorator> = Vec::new();
    let mut i: usize = 0;
    while i < ds.len()
        invariant
            i <= ds@.len(),
            out@.len() == i,
            forall|j: int| 0 <= j < i ==> erased_expr(*(#[trigger] ds@[j]).expr, *out@[j].expr),
        decreases ds@.len() - i,
    {
        out.push(Decorator { span: ds[i].span, expr: Box::new(strip_expr(&ds[i].expr)) });
        i = i + 1;
    }
    out
}

fn strip_key(k: &PropName) -> (r: PropName)
    ensures
        erased_key(*k, r),
{
    match k {
        PropName::Ident(s) => PropName::Ident(s.clone()),
        PropName::Str(s) => PropName::Str(s.clone()),
        PropName::Num(n) => PropName::Num(*n),
        PropName::Computed(e) => PropName::Computed(Box::new(strip_expr(e))),
    }
}

fn strip_value(v: &Option<Box<Expr>>) -> (r: Option<Box<Expr>>)
    ensures
        r is Some == v is Some,
        v is Some ==> erased_expr(*v->0, *r->0),
{
    match v {
        Some(e) => Some(Box::new(strip_expr(e))),
        None => None,
    }
}

fn lower_member(m: &ClassMember, ms: &Vec<ClassMember>, use_define: bool, derived: bool, cls: &Ident, tag: u32) -> (r:
    ClassMember)
    requires
        member_kept(*m, use_define),
    ensures
        lowered_member(*m, r, derived, instance_props(ms@, use_define), instance_temps(ms@, use_define, *cls, tag)),
{
    match m {
        ClassMember::Constructor(c) => {
            let mut params: Vec<ParamOrTsParamProp> = Vec::new();
            let mut i: usize = 0;
            while i < c.params.len()
                invariant
                    i <= c.params@.len(),
                    params@.len() == i,
                    forall|j: int| 0 <= j < i ==> erased_ctor_param(#[trigger] c.params@[j], params@[j]),
                decreases c.params@.len() - i,
            {
                let q = match &c.params[i] {
                    ParamOrTsParamProp::Param(q) => strip_param(q),
                    ParamOrTsParamProp::TsParamProp(pp) => strip_param(&pp.param),
                };
                params.push(ParamOrTsParamProp::Param(q));
                i = i + 1;
            }
            let assigns = ctor_assignments(&c.params, ms, use_define, cls, tag);
            let body = match &c.body {
                Some(b) => lower_ctor_body(b, derived, assigns, Ghost(param_prop_ids(c.params@)),
                    Ghost(instance_props(ms@, use_define)), Ghost(instance_temps(ms@, use_define, *cls, tag))),
                None => Vec::new(),
            };
            ClassMember::Constructor(Constructor {
                span: c.span,
                key: strip_key(&c.key),
                params,
                body: Some(body),
                accessibility: None,
                is_optional: false,
            })
        },
        ClassMember::Method(f) => ClassMember::Method(ClassMethod {
            span: f.span,
            key: strip_key(&f.key),
            function: Box::new(strip_function(&f.function)),
            kind: f.kind,
            is_static: f.is_static,
            accessibility: None,
            is_abstract: false,
            is_optional: false,
            is_override: false,
        }),
        ClassMember::PrivateMethod(f) => ClassMember::PrivateMethod(PrivateMethod {
            span: f.span,
            key: crate::class::PrivateName { name: f.key.name.clone() },
            function: Box::new(strip_function(&f.function)),
            kind: f.kind,
            is_static: f.is_static,
            accessibility: None,
            is_abstract: false,
            is_optional: false,
            is_override: false,
        }),
        ClassMember::ClassProp(p) => ClassMember::ClassProp(ClassProp {
            span: p.span,
            key: strip_key(&p.key),
            value: strip_value(&p.value),
            type_ann: None,
            is_static: p.is_static,
            decorators: strip_decorators(&p.decorators),
            accessibility: None,
            is_abstract: false,
            is_optional: false,
            is_override: false,
            readonly: false,
            declare: false,
            definite: false,
        }),
        ClassMember::PrivateProp(p) => ClassMember::PrivateProp(PrivateProp {
            span: p.span,
            key: crate::class::PrivateName { name: p.key.name.clone() },
            value: strip_value(&p.value),
            type_ann: None,
            is_static: p.is_static,
            decorators: strip_decorators(&p.decorators),
            accessibility: None,
            is_optional: false,
            is_override: false,
            readonly: false,
            definite: false,
        }),
        ClassMember::StaticBlock(b) => ClassMember::StaticBlock(StaticBlock { span: b.span, body: strip_exprs(&b.body) }),
        ClassMember::Empty(e) => ClassMember::Empty(*e),
        ClassMember::TsIndexSignature(_) => ClassMember::Empty(crate::class::EmptyStmt { span: Span::dummy() }),
    }
}

/// Some member of `ms` is a constructor with a body.
pub open spec fn has_ctor(ms: Seq<ClassMember>) -> bool {
    exists|i: int| 0 <= i < ms.len() && (#[trigger] ms[i] matches ClassMember::Constructor(c) && c.body is Some)
}

/// `r` is the constructor made for a class that has none: in a derived
/// class `constructor(...args) { super(...args); .. }`, and then the
/// assignments of `props`.
pub open spec fn synthesized_ctor(r: ClassMember, derived: bool, props: Seq<ClassProp>, temps: Seq<(Seq<char>, u32)>) -> bool {
    r matches ClassMember::Constructor(rc) && rc.body is Some && {
        let b = rc.body->0@;
        let k: int = if derived { 1 } else { 0 };
        &&& rc.key matches PropName::Ident(name) && name@ == "constructor"@
        &&& rc.accessibility is None
        &&& !rc.is_optional
        &&& rc.params@.len() == k
        &&& b.len() == k + props.len()
        &&& ctor_assigns(b.subrange(k, b.len() as int), seq![], props, temps)
        &&& derived ==> (rc.params@[0] matches ParamOrTsParamProp::Param(p) && p.rest && p.type_ann is None
            && (b[0] matches Expr::Call { callee, type_args, args } && *callee == Expr::Super
            && type_args@.len() == 0 && args@.len() == 1 && args@[0] is Spread && *args@[0]->Spread_arg == Expr::Ident(p.name)))
    }
}

/// `r` is the class `c` lowered: TypeScript-only parts gone, parameter
/// properties and (unless `use_define`) instance property initializers
/// moved into the constructor, which is made where the class has none;
/// computed keys of moved properties are read from the bindings that
/// `hoist_keys` declares for the class `cls`.
pub open spec fn lowered_class(c: Class, r: Class, use_define: bool, cls: Ident, tag: u32) -> bool {
    let derived = c.super_class is Some;
    let props = instance_props(c.body@, use_define);
    let temps = instance_temps(c.body@, use_define, cls, tag);
    &&& r.span == c.span
    &&& erased_decorators(c.decorators@, r.decorators@)
    &&& r.super_class is Some == derived
    &&& (derived ==> erased_expr(*c.super_class->0, *r.super_class->0))
    &&& !r.is_abstract
    &&& r.type_params is None
    &&& r.super_type_params is None
    &&& r.implements@.len() == 0
    &&& if !has_ctor(c.body@) && props.len() > 0 {
        &&& r.body@.len() > 0
        &&& synthesized_ctor(r.body@[0], derived, props, temps)
        &&& lowered_members(c.body@, r.body@.drop_first(), use_define, derived, props, temps)
    } else {
        lowered_members(c.body@, r.body@, use_define, derived, props, temps)
    }
}

/// `out` holds `name.key = init` for each of `props`, in order.
pub open spec fn static_assigns(out: Seq<Expr>, name: Ident, props: Seq<ClassProp>, temps: Seq<(Seq<char>, u32)>) -> bool {
    &&& out.len() == props.len()
    &&& forall|k: int| 0 <= k < props.len() ==> is_prop_assign(#[trigger] out[k], Expr::Ident(name),
        props[k].key, *props[k].value->0, temps[k])
}

fn find_ctor(ms: &Vec<ClassMember>) -> (r: bool)
    ensures
        r == has_ctor(ms@),
{
    let mut i: usize = 0;
    while i < ms.len()
        invariant
            i <= ms@.len(),
            forall|j: int| 0 <= j < i ==> !(#[trigger] ms@[j] matches ClassMember::Constructor(c) && c.body is Some),
        decreases ms@.len() - i,
    {
        match &ms[i] {
            ClassMember::Constructor(c) => {
                if c.body.is_some() {
                    return true;
                }
            },
            _ => {},
        }
        i = i + 1;
    }
    false
}

fn synthesize_ctor(ms: &Vec<ClassMember>, derived: bool, rest_tag: u32, cls: &Ident) -> (r: ClassMember)
    ensures
        synthesized_ctor(r, derived, assigned_props(ms@, false), assigned_temps(ms@, false, *cls, rest_tag)),
{
    let mut params: Vec<ParamOrTsParamProp> = Vec::new();
    let mut body: Vec<Expr> = Vec::new();
    if derived {
        let args = Ident { sym: String::from_str("args"), tag: rest_tag };
        let spread = Expr::Spread { arg: Box::new(Expr::Ident(copy_ident(&args))) };
        let mut call_args: Vec<Expr> = Vec::new();
        call_args.push(spread);
        body.push(Expr::Call { callee: Box::new(Expr::Super), type_args: Vec::new(), args: call_args });
        params.push(ParamOrTsParamProp::Param(Param { name: args, type_ann: None, rest: true }));
    }
    let ghost k: int = body@.len() as int;
    let ghost b0 = body@;
    push_prop_assigns(ms, false, None, cls, rest_tag, &mut body);
    proof {
        let b = body@;
        if derived {
            assert(b[0] == b.subrange(0, k)[0]);
            assert(b[0] == b0[0]);
        }
        let props = assigned_props(ms@, false);
        let temps = assigned_temps(ms@, false, *cls, rest_tag);
        assert forall|j: int| 0 <= j < props.len() implies is_prop_assign(
            #[trigger] b.subrange(k, b.len() as int)[Seq::<Ident>::empty().len() + j], Expr::This, props[j].key,
            *props[j].value->0, temps[j]) by {
            assert(b.subrange(k, b.len() as int)[Seq::<Ident>::empty().len() + j] == b[k + j]);
        }
    }
    ClassMember::Constructor(Constructor {
        span: Span::dummy(),
        key: PropName::Ident(String::from_str("constructor")),
        params,
        body: Some(body),
        accessibility: None,
        is_optional: false,
    })
}

/// Lowers the class declared as `name`; also gives the assignments
/// `name.key = init` of its static properties, which follow the class.
/// Bindings that lowering introduces (the rest parameter `args` of a
/// constructor that has to be made, the bindings of computed keys) take the
/// scope tag `rest_tag`.
pub fn lower_class(c: &Class, name: &Ident, use_define: bool, rest_tag: u32) -> (r: (Class, Vec<Expr>))
    ensures
        lowered_class(*c, r.0, use_define, *name, rest_tag),
        static_assigns(r.1@, *name, static_props(c.body@, use_define), static_temps(c.body@, use_define, *name, rest_tag)),
{
    let ms = &c.body;
    let derived = c.super_class.is_some();
    let mut out: Vec<ClassMember> = Vec::new();
    let mut i: usize = 0;
    while i < ms.len()
        invariant
            i <= ms@.len(),
            derived == c.super_class is Some,
            ms == &c.body,
            lowered_members(ms@.subrange(0, i as int), out@, use_define, derived, instance_props(ms@, use_define),
                instance_temps(ms@, use_define, *name, rest_tag)),
        decreases ms@.len() - i,
    {
        assert(ms@.subrange(0, i + 1).drop_last() =~= ms@.subrange(0, i as int));
        let m = &ms[i];
        let keep = match m {
            ClassMember::Constructor(k) => k.body.is_some(),
            ClassMember::Method(f) => f.function.body.is_some(),
            ClassMember::PrivateMethod(f) => f.function.body.is_some(),
            ClassMember::ClassProp(p) => use_define && !p.declare && !p.is_abstract,
            ClassMember::TsIndexSignature(_) => false,
            _ => true,
        };
        if keep {
            let ghost before = out@;
            out.push(lower_member(m, ms, use_define, derived, name, rest_tag));
            assert(out@.drop_last() =~= before);
        }
        i = i + 1;
    }
    assert(ms@.subrange(0, ms@.len() as int) =~= ms@);
    let needs_ctor = !use_define && !find_ctor(ms);
    let body = if needs_ctor {
        let mut probe: Vec<Expr> = Vec::new();
        push_prop_assigns(ms, false, None, name, rest_tag, &mut probe);
        if probe.len() > 0 {
            let mut body: Vec<ClassMember> = Vec::new();
            body.push(synthesize_ctor(ms, derived, rest_tag, name));
            let ghost rest = out@;
            body.append(&mut out);
            assert(body@.drop_first() =~= rest);
            body
        } else {
            out
        }
    } else {
        out
    };
    let mut statics: Vec<Expr> = Vec::new();
    if !use_define {
        push_prop_assigns(ms, true, Some(name), name, rest_tag, &mut statics);
        proof {
            let props = assigned_props(ms@, true);
            let temps = assigned_temps(ms@, true, *name, rest_tag);
            assert forall|k: int| 0 <= k < props.len() implies is_prop_assign(#[trigger] statics@[k],
                Expr::Ident(*name), props[k].key, *props[k].value->0, temps[k]) by {
                assert(statics@[0 + k] == statics@[k]);
            }
        }
    }
    let super_class = match &c.super_class {
        Some(e) => Some(Box::new(strip_expr(e))),
        None => None,
    };
    let class = Class {
        span: c.span,
        decorators: strip_decorators(&c.decorators),
        body,
        super_class,
        is_abstract: false,
        type_params: None,
        super_type_params: None,
        implements: Vec::new(),
    };
    (class, statics)
}

/// In a lowered constructor body, the parameter-property assignments come
/// first, in parameter order, and the property initializers follow all of
/// them, in declaration order.
pub proof fn lemma_ctor_assign_order(b: Seq<Expr>, r: Seq<Expr>, at: int, ids: Seq<Ident>, props: Seq<ClassProp>,
    temps: Seq<(Seq<char>, u32)>)
    requires
        body_with(b, r, at, ids, props, temps),
    ensures
        forall|k: int| 0 <= k < ids.len() ==> is_param_assign(#[trigger] r[at + k], ids[k]),
        forall|k: int| 0 <= k < props.len() ==> is_prop_assign(#[trigger] r[at + ids.len() + k], Expr::This,
            props[k].key, *props[k].value->0, temps[k]),
{
    let n = ids.len() + props.len();
    let s = r.subrange(at, at + n);
    assert forall|k: int| 0 <= k < ids.len() implies is_param_assign(#[trigger] r[at + k], ids[k]) by {
        assert(s[k] == r[at + k]);
    }
    assert forall|k: int| 0 <= k < props.len() implies is_prop_assign(#[trigger] r[at + ids.len() + k],
        Expr::This, props[k].key, *props[k].value->0, temps[k]) by {
        assert(s[ids.len() + k] == r[at + ids.len() + k]);
    }
}

} // verus!
