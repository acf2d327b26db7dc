//! Lowering of enums: member values, auto-increment and reverse maps.

use vstd::prelude::*;

use crate::ast::{BinOp, EnumAssign, EnumClosure, EnumValue, Expr, Guard, TsEnumDecl, TsEnumMember};
use crate::erase::{copy_ident, erased_expr, strip_expr};

verus! {

/// A compile-time constant value of an enum member.
pub enum ConstVal {
    Num(int),
    Str(Seq<char>),
}

pub open spec fn fits_i64(n: int) -> bool {
    i64::MIN <= n <= i64::MAX
}

/// The index of the last of the first `k` members named `name`, or -1.
pub open spec fn latest_named(ms: Seq<TsEnumMember>, k: int, name: Seq<char>) -> int
    decreases k,
{
    if k <= 0 {
        -1
    } else if ms[k - 1].name@ == name {
        k - 1
    } else {
        latest_named(ms, k - 1, name)
    }
}

/// The constant value of an initializer of member `k`, where `vals` holds
/// the constant values of the members before it: literals, names of earlier
/// members, and `+`, `-`, `*` over numbers (`+` also over strings), as long
/// as every number fits in an `i64`.
pub open spec fn const_eval(e: Expr, ms: Seq<TsEnumMember>, k: int, vals: Seq<Option<ConstVal>>) -> Option<ConstVal>
    decreases e,
{
    match e {
        Expr::Num(n) => Some(ConstVal::Num(n as int)),
        Expr::Str(s) => Some(ConstVal::Str(s@)),
        Expr::Ident(id) => {
            let j = latest_named(ms, k, id.sym@);
            if j >= 0 { vals[j] } else { None }
        },
        Expr::Bin { op, left, right } => {
            let l = const_eval(*left, ms, k, vals);
            let r = const_eval(*right, ms, k, vals);
            match (l, r) {
                (Some(ConstVal::Num(a)), Some(ConstVal::Num(b))) => {
                    let v = match op {
                        BinOp::Add => a + b,
                        BinOp::Sub => a - b,
                        BinOp::Mul => a * b,
                        BinOp::LogicalOr => if a != 0 { a } else { b },
                    };
                    if fits_i64(v) { Some(ConstVal::Num(v)) } else { None }
                },
                (Some(ConstVal::Str(a)), Some(ConstVal::Str(b))) => {
                    if op == BinOp::Add { Some(ConstVal::Str(a + b)) } else { None }
                },
                _ => None,
            }
        },
        _ => None,
    }
}

/// The value that a member without an initializer counts up from: 0 for
/// the first member, else one more than the numeric value before it.
pub open spec fn auto_value(vals: Seq<Option<ConstVal>>) -> Option<int> {
    if vals.len() == 0 {
        Some(0)
    } else {
        match vals.last() {
            Some(ConstVal::Num(n)) => if fits_i64(n + 1) { Some(n + 1) } else { None },
            _ => None,
        }
    }
}

/// The constant values of the first `k` members (`None` where a member's
/// value is no constant).
pub open spec fn enum_consts(ms: Seq<TsEnumMember>, k: nat) -> Seq<Option<ConstVal>>
    decreases k,
{
    if k == 0 {
        seq![]
    } else {
        let vals = enum_consts(ms, (k - 1) as nat);
        let v = match ms[k - 1].init {
            Some(e) => const_eval(e, ms, k - 1, vals),
            None => match auto_value(vals) {
                Some(n) => Some(ConstVal::Num(n)),
                None => None,
            },
        };
        vals.push(v)
    }
}

/// Member `i` has no initializer and nothing to count up from.
pub open spec fn lacks_value(ms: Seq<TsEnumMember>, i: int) -> bool {
    ms[i].init is None && auto_value(enum_consts(ms, i as nat)) is None
}

pub open spec fn const_of(v: EnumValue) -> Option<ConstVal> {
    match v {
        EnumValue::Num(n) => Some(ConstVal::Num(n as int)),
        EnumValue::Str(s) => Some(ConstVal::Str(s@)),
        EnumValue::Raw(_) => None,
    }
}

pub open spec fn consts_of(vals: Seq<EnumValue>) -> Seq<Option<ConstVal>> {
    vals.map_values(|v: EnumValue| const_of(v))
}

/// `a` is the lowered assignment of member `m` whose constant value is `c`.
pub open spec fn lowered_member(m: TsEnumMember, c: Option<ConstVal>, a: EnumAssign) -> bool {
    &&& a.member@ == m.name@
    &&& const_of(a.value) == c
    &&& (c is None ==> m.init is Some && a.value is Raw && erased_expr(m.init->0, a.value->Raw_0))
    &&& a.reverse == !(a.value is Str)
}

#[derive(Debug, PartialEq, Eq)]
pub enum EnumError {
    /// The named member has no initializer, and the member before it has no
    /// numeric constant value to count up from.
    MissingInitializer { member: String },
}

fn copy_value(v: &EnumValue) -> (r: EnumValue)
    requires
        !(v is Raw),
    ensures
        r == *v,
{
    match v {
        EnumValue::Num(n) => EnumValue::Num(*n),
        EnumValue::Str(s) => EnumValue::Str(s.clone()),
        EnumValue::Raw(_) => EnumValue::Num(0),
    }
}

/// The constant value of the initializer `e` of member `k`, given the values
/// `vals` of the members before it.
fn eval_const(e: &Expr, ms: &Vec<TsEnumMember>, k: usize, vals: &Vec<EnumValue>) -> (r: Option<EnumValue>)
    requires
        k <= ms@.len(),
        vals@.len() == k,
    ensures
        match r {
            Some(v) => !(v is Raw) && Some(const_of(v)->0) == const_eval(*e, ms@, k as int, consts_of(vals@)),
            None => const_eval(*e, ms@, k as int, consts_of(vals@)) is None,
        },
    decreases e,
{
    let ghost cv = consts_of(vals@);
    match e {
        Expr::Num(n) => Some(EnumValue::Num(*n)),
        Expr::Str(s) => Some(EnumValue::Str(s.clone())),
        Expr::Ident(id) => {
            let mut j: usize = k;
            let mut found = false;
            while j > 0 && !found
                invariant
                    j <= k,
                    k <= ms@.len(),
                    latest_named(ms@, k as int, id.sym@) == latest_named(ms@, j as int, id.sym@),
                    found ==> j > 0 && ms@[j - 1].name@ == id.sym@,
                decreases j, if found { 0int } else { 1int },
            {
                if ms[j - 1].name == id.sym {
                    found = true;
                } else {
                    j = j - 1;
                }
            }
            if !found {
                None
            } else {
                assert(cv[j - 1] == const_of(vals@[j - 1]));
                match &vals[j - 1] {
                    EnumValue::Raw(_) => None,
                    v => Some(copy_value(v)),
                }
            }
        },
        Expr::Bin { op, left, right } => {
            let l = eval_const(left, ms, k, vals);
            let r = eval_const(right, ms, k, vals);
            match (l, r) {
                (Some(EnumValue::Num(a)), Some(EnumValue::Num(b))) => {
                    let v = match op {
                        BinOp::Add => a.checked_add(b),
                        BinOp::Sub => a.checked_sub(b),
                        BinOp::Mul => a.checked_mul(b),
                        BinOp::LogicalOr => if a != 0 { Some(a) } else { Some(b) },
                    };
                    match v {
                        Some(n) => {
                            assert(const_eval(*e, ms@, k as int, cv) == Some(ConstVal::Num(n as int)));
                            Some(EnumValue::Num(n))
                        },
                        None => None,
                    }
                },
                (Some(EnumValue::Str(a)), Some(EnumValue::Str(b))) => {
                    if *op == BinOp::Add {
                        let mut s = a;
                        s.append(b.as_str());
                        Some(EnumValue::Str(s))
                    } else {
                        None
                    }
                },
                _ => None,
            }
        },
        _ => None,
    }
}

/// The value of member `i`, given the values `vals` of the members before
/// it; `None` where it lacks one.
fn member_value(ms: &Vec<TsEnumMember>, i: usize, vals: &Vec<EnumValue>) -> (r: Option<EnumValue>)
    requires
        i < ms@.len(),
        vals@.len() == i,
        consts_of(vals@) == enum_consts(ms@, i as nat),
    ensures
        r is None <==> lacks_value(ms@, i as int),
        r is Some ==> {
            &&& enum_consts(ms@, (i + 1) as nat) == consts_of(vals@).push(const_of(r->0))
            &&& (const_of(r->0) is None ==> ms@[i as int].init is Some && r->0 is Raw
                && erased_expr(ms@[i as int].init->0, r->0->Raw_0))
        },
{
    let ghost cv = consts_of(vals@);
    match &ms[i].init {
        Some(e) => match eval_const(e, ms, i, vals) {
            Some(v) => Some(v),
            None => Some(EnumValue::Raw(strip_expr(e))),
        },
        None => {
            let next = if i == 0 {
                Some(0i64)
            } else {
                assert(cv[i - 1] == const_of(vals@[i - 1]));
                match &vals[i - 1] {
                    EnumValue::Num(n) => n.checked_add(1),
                    _ => None,
                }
            };
            match next {
                Some(n) => Some(EnumValue::Num(n)),
                None => None,
            }
        },
    }
}

/// No member among the first `n` lacks a value.
pub open spec fn all_have_values(ms: Seq<TsEnumMember>, n: int) -> bool {
    forall|j: int| 0 <= j < n ==> !lacks_value(ms, j)
}

/// Resolves the value of each member in order and gives its assignment:
/// reverse-indexed unless the value is a string.
pub fn lower_enum_members(ms: &Vec<TsEnumMember>) -> (r: Result<Vec<EnumAssign>, EnumError>)
    ensures
        r is Ok <==> all_have_values(ms@, ms@.len() as int),
        match r {
            Ok(assigns) => {
                &&& assigns@.len() == ms@.len()
                &&& forall|i: int| 0 <= i < ms@.len() ==> lowered_member(#[trigger] ms@[i],
                    enum_consts(ms@, (i + 1) as nat)[i], assigns@[i])
            },
            Err(EnumError::MissingInitializer { member }) => exists|i: int| {
                &&& 0 <= i < ms@.len()
                &&& lacks_value(ms@, i)
                &&& all_have_values(ms@, i)
                &&& member@ == ms@[i].name@
            },
        },
{
    let mut assigns: Vec<EnumAssign> = Vec::new();
    let mut vals: Vec<EnumValue> = Vec::new();
    let mut i: usize = 0;
    while i < ms.len()
        invariant
            i <= ms@.len(),
            assigns@.len() == i,
            vals@.len() == i,
            consts_of(vals@) == enum_consts(ms@, i as nat),
            all_have_values(ms@, i as int),
            forall|j: int| 0 <= j < i ==> lowered_member(#[trigger] ms@[j],
                enum_consts(ms@, (j + 1) as nat)[j], assigns@[j]),
        decreases ms@.len() - i,
    {
        let ghost cv = consts_of(vals@);
        let m = &ms[i];
        let value = match member_value(ms, i, &vals) {
            Some(v) => v,
            None => {
                assert(!all_have_values(ms@, ms@.len() as int));
                return Err(EnumError::MissingInitializer { member: m.name.clone() });
            },
        };
        let kept = match &value {
            EnumValue::Raw(_) => EnumValue::Raw(Expr::Num(0)),
            v => copy_value(v),
        };
        vals.push(kept);
        let reverse = match &value {
            EnumValue::Str(_) => false,
            _ => true,
        };
        assigns.push(EnumAssign { member: m.name.clone(), value, reverse });
        proof {
            assert(consts_of(vals@) =~= cv.push(const_of(value)));
        }
        i = i + 1;
    }
    Ok(assigns)
}

/// Lowers an enum declaration to the closure that fills its object.
pub fn lower_enum(decl: &TsEnumDecl) -> (r: Result<EnumClosure, EnumError>)
    ensures
        r is Ok <==> all_have_values(decl.members@, decl.members@.len() as int),
        r is Ok ==> {
            let c = r->Ok_0;
            &&& c.name == decl.id
            &&& c.guard == Guard::Plain
            &&& c.assigns@.len() == decl.members@.len()
            &&& forall|i: int| 0 <= i < decl.members@.len() ==> lowered_member(#[trigger] decl.members@[i],
                enum_consts(decl.members@, (i + 1) as nat)[i], c.assigns@[i])
        },
{
    match lower_enum_members(&decl.members) {
        Ok(assigns) => Ok(EnumClosure { name: copy_ident(&decl.id), guard: Guard::Plain, assigns }),
        Err(e) => Err(e),
    }
}

/// A member without an initializer resolves to 0 when it comes first, and
/// otherwise to one more than the numeric value of the member before it.
pub proof fn lemma_auto_increment(ms: Seq<TsEnumMember>, i: int)
    requires
        0 <= i < ms.len(),
        ms[i].init is None,
        !lacks_value(ms, i),
    ensures
        i == 0 ==> enum_consts(ms, 1)[0] == Some(ConstVal::Num(0)),
        i > 0 ==> (enum_consts(ms, i as nat)[i - 1] matches Some(ConstVal::Num(n))
            && enum_consts(ms, (i + 1) as nat)[i] == Some(ConstVal::Num(n + 1))),
{
    if i > 0 {
        let vals = enum_consts(ms, i as nat);
        assert(vals.len() == i) by {
            lemma_enum_consts_len(ms, i as nat);
        }
        match vals.last() {
            Some(ConstVal::Num(n)) => {
                assert(enum_consts(ms, (i + 1) as nat)[i] == Some(ConstVal::Num(n + 1)));
            },
            _ => {},
        }
    }
}

pub proof fn lemma_enum_consts_len(ms: Seq<TsEnumMember>, k: nat)
    ensures
        enum_consts(ms, k).len() == k,
    decreases k,
{
    if k > 0 {
        lemma_enum_consts_len(ms, (k - 1) as nat);
    }
}

} // verus!
