//! Which import bindings survive erasure.

use vstd::prelude::*;

use crate::ast::{key_of, ImportDecl, ImportSpecifier, Stmt};
use crate::erase::copy_ident;
use crate::usage::{is_used_as_value, used_as_value, Ref};

verus! {

/// What becomes of an import whose bindings are all erased.
#[derive(Clone, Copy, Debug, PartialEq, Eq, Hash, Structural)]
pub enum ImportsNotUsedAsValues {
    /// It is dropped.
    Remove,
    /// It stays as a side-effect import, so that the module still runs.
    Preserve,
    /// It is dropped, and a binding imported with `type` that is used as a
    /// value is an error.
    Error,
}

/// `s` declares a runtime binding named `sym`.
pub open spec fn declares_value(s: Stmt, sym: Seq<char>) -> bool {
    match s {
        Stmt::Var(v) => !v.declare && v.name.sym@ == sym,
        Stmt::Fn(f) => !f.declare && f.function.body is Some && f.ident.sym@ == sym,
        Stmt::Class(c) => !c.declare && c.ident.sym@ == sym,
        Stmt::Enum(e) => !e.declare && e.id.sym@ == sym,
        Stmt::Namespace(n) => !n.declare && n.id.sym@ == sym,
        Stmt::ImportEquals(i) => !i.is_type_only && i.id.sym@ == sym,
        _ => false,
    }
}

/// Some statement of `level` declares a runtime binding named `sym`.
pub open spec fn shadowed(level: Seq<Stmt>, sym: Seq<char>) -> bool {
    exists|i: int| 0 <= i < level.len() && declares_value(#[trigger] level[i], sym)
}

/// An import binding that survives erasure: imported for its value, used as
/// a value, and not shadowed by a runtime declaration of the same name.
pub open spec fn keeps_specifier(sp: ImportSpecifier, refs: Seq<Ref>, level: Seq<Stmt>) -> bool {
    !sp.is_type_only && used_as_value(refs, sp.local) && !shadowed(level, sp.local.sym@)
}

/// The specifiers among `sps` that survive, in order.
pub open spec fn kept_specifiers(sps: Seq<ImportSpecifier>, refs: Seq<Ref>, level: Seq<Stmt>) -> Seq<ImportSpecifier>
    decreases sps.len(),
{
    if sps.len() == 0 {
        seq![]
    } else {
        let prev = kept_specifiers(sps.drop_last(), refs, level);
        if keeps_specifier(sps.last(), refs, level) { prev.push(sps.last()) } else { prev }
    }
}

/// Some binding that `d` imports with `type` is used as a value.
pub open spec fn type_import_used_as_value(d: ImportDecl, refs: Seq<Ref>) -> bool {
    exists|i: int| 0 <= i < d.specifiers@.len() && (d.type_only || (#[trigger] d.specifiers@[i]).is_type_only)
        && used_as_value(refs, d.specifiers@[i].local)
}

/// `r` is `d` with only the specifiers `sps`.
pub open spec fn import_with(d: ImportDecl, r: ImportDecl, sps: Seq<ImportSpecifier>) -> bool {
    r.span == d.span && r.src@ == d.src@ && !r.type_only && r.specifiers@ == sps
}

pub fn copy_specifier(sp: &ImportSpecifier) -> (r: ImportSpecifier)
    ensures
        r == *sp,
{
    ImportSpecifier {
        kind: sp.kind,
        local: copy_ident(&sp.local),
        imported: match &sp.imported {
            Some(s) => Some(s.clone()),
            None => None,
        },
        is_type_only: sp.is_type_only,
    }
}

/// Whether some statement of `level` declares a runtime binding named `sym`.
pub fn is_shadowed(level: &Vec<Stmt>, sym: &String) -> (r: bool)
    ensures
        r == shadowed(level@, sym@),
{
    let mut i: usize = 0;
    while i < level.len()
        invariant
            i <= level@.len(),
            forall|j: int| 0 <= j < i ==> !declares_value(#[trigger] level@[j], sym@),
        decreases level@.len() - i,
    {
        let hit = match &level[i] {
            Stmt::Var(v) => !v.declare && v.name.sym == *sym,
            Stmt::Fn(f) => !f.declare && f.function.body.is_some() && f.ident.sym == *sym,
            Stmt::Class(c) => !c.declare && c.ident.sym == *sym,
            Stmt::Enum(e) => !e.declare && e.id.sym == *sym,
            Stmt::Namespace(n) => !n.declare && n.id.sym == *sym,
            Stmt::ImportEquals(q) => !q.is_type_only && q.id.sym == *sym,
            _ => false,
        };
        if hit {
            return true;
        }
        i = i + 1;
    }
    false
}

#[derive(Debug, PartialEq, Eq)]
pub enum ImportError {
    /// A binding imported from `src` with `type` is used as a value.
    TypeOnlyUsedAsValue { src: String },
}

/// Decides what an import declaration becomes, given every reference of
/// the module (`refs`) and the statements of its level (`level`).
pub fn lower_import(d: &ImportDecl, refs: &Vec<Ref>, level: &Vec<Stmt>, mode: ImportsNotUsedAsValues) -> (r: Result<
    Option<ImportDecl>,
    ImportError,
>)
    ensures
        mode == ImportsNotUsedAsValues::Error && type_import_used_as_value(*d, refs@) ==> (r matches Err(
            ImportError::TypeOnlyUsedAsValue { src },
        ) && src@ == d.src@),
        !(mode == ImportsNotUsedAsValues::Error && type_import_used_as_value(*d, refs@)) ==> {
            let kept = kept_specifiers(d.specifiers@, refs@, level@);
            if d.specifiers@.len() == 0 {
                r matches Ok(Some(o)) && import_with(*d, o, seq![])
            } else if d.type_only {
                r == Ok::<Option<ImportDecl>, ImportError>(None)
            } else if kept.len() > 0 {
                r matches Ok(Some(o)) && import_with(*d, o, kept)
            } else if mode == ImportsNotUsedAsValues::Preserve {
                r matches Ok(Some(o)) && import_with(*d, o, seq![])
            } else {
                r == Ok::<Option<ImportDecl>, ImportError>(None)
            }
        },
{
    let sps = &d.specifiers;
    if let ImportsNotUsedAsValues::Error = mode {
        let mut i: usize = 0;
        while i < sps.len()
            invariant
                i <= sps@.len(),
                sps == &d.specifiers,
                mode == ImportsNotUsedAsValues::Error,
                forall|j: int| 0 <= j < i ==> !((d.type_only || (#[trigger] sps@[j]).is_type_only) && used_as_value(
                    refs@,
                    sps@[j].local,
                )),
            decreases sps@.len() - i,
        {
            if (d.type_only || sps[i].is_type_only) && is_used_as_value(refs, &sps[i].local) {
                assert(type_import_used_as_value(*d, refs@)) by {
                    assert(d.specifiers@[i as int] == sps@[i as int]);
                }
                return Err(ImportError::TypeOnlyUsedAsValue { src: d.src.clone() });
            }
            i = i + 1;
        }
    }
    if sps.len() == 0 {
        return Ok(Some(ImportDecl { span: d.span, specifiers: Vec::new(), src: d.src.clone(), type_only: false }));
    }
    if d.type_only {
        return Ok(None);
    }
    let mut kept: Vec<ImportSpecifier> = Vec::new();
    let mut i: usize = 0;
    while i < sps.len()
        invariant
            i <= sps@.len(),
            kept@ == kept_specifiers(sps@.subrange(0, i as int), refs@, level@),
        decreases sps@.len() - i,
    {
        assert(sps@.subrange(0, i + 1).drop_last() =~= sps@.subrange(0, i as int));
        let sp = &sps[i];
        if !sp.is_type_only && !is_shadowed(level, &sp.local.sym) && is_used_as_value(refs, &sp.local) {
            kept.push(copy_specifier(sp));
        }
        i = i + 1;
    }
    assert(sps@.subrange(0, sps@.len() as int) =~= sps@);
    if kept.len() > 0 {
        return Ok(Some(ImportDecl { span: d.span, specifiers: kept, src: d.src.clone(), type_only: false }));
    }
    match mode {
        ImportsNotUsedAsValues::Preserve => Ok(
            Some(ImportDecl { span: d.span, specifiers: Vec::new(), src: d.src.clone(), type_only: false }),
        ),
        _ => Ok(None),
    }
}

/// A binding referenced only in type positions is absent from the import
/// that erasure leaves, and so is every binding imported with `type`.
pub proof fn lemma_type_only_binding_erased(sps: Seq<ImportSpecifier>, refs: Seq<Ref>, level: Seq<Stmt>, i: int)
    requires
        0 <= i < sps.len(),
    ensures
        !used_as_value(refs, sps[i].local) ==> forall|k: int| 0 <= k < kept_specifiers(sps, refs, level).len()
            ==> key_of((#[trigger] kept_specifiers(sps, refs, level)[k]).local) != key_of(sps[i].local),
        sps[i].is_type_only ==> forall|k: int| 0 <= k < kept_specifiers(sps, refs, level).len()
            ==> #[trigger] kept_specifiers(sps, refs, level)[k] != sps[i],
{
    lemma_kept_are_kept(sps, refs, level);
    let kept = kept_specifiers(sps, refs, level);
    assert forall|k: int| 0 <= k < kept.len() && !used_as_value(refs, sps[i].local)
        implies key_of((#[trigger] kept[k]).local) != key_of(sps[i].local) by {
        if key_of(kept[k].local) == key_of(sps[i].local) {
            let j = choose|j: int| 0 <= j < refs.len() && key_of((#[trigger] refs[j]).id) == key_of(kept[k].local)
                && !refs[j].is_type;
            assert(used_as_value(refs, sps[i].local));
        }
    }
}

/// Every specifier that survives meets `keeps_specifier`.
pub proof fn lemma_kept_are_kept(sps: Seq<ImportSpecifier>, refs: Seq<Ref>, level: Seq<Stmt>)
    ensures
        forall|k: int| 0 <= k < kept_specifiers(sps, refs, level).len() ==> keeps_specifier(
            #[trigger] kept_specifiers(sps, refs, level)[k], refs, level),
    decreases sps.len(),
{
    if sps.len() > 0 {
        lemma_kept_are_kept(sps.drop_last(), refs, level);
        let prev = kept_specifiers(sps.drop_last(), refs, level);
        let kept = kept_specifiers(sps, refs, level);
        assert forall|k: int| 0 <= k < kept.len() implies keeps_specifier(#[trigger] kept[k], refs, level) by {
            if k < prev.len() {
                assert(kept[k] == prev[k]);
            }
        }
    }
}

} // verus!
