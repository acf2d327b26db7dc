use ts_strip::ast::{ImportDecl, ImportKind, ImportSpecifier, Ident, Span};
use ts_strip::class::{Class, ClassMember, EmptyStmt, MethodKind, StaticBlock};
use ts_strip::corejs_entry::{Entry, Feature, Version};
use ts_strip::marks::{Marks, TagArena};

#[test]
fn marks_are_fresh_and_distinct() {
    let mut arena = TagArena::new();
    let first = arena.fresh();
    let m = Marks::new(&mut arena);
    let tags = [
        m.non_top_level,
        m.synthesized_seq,
        m.standalone,
        m.bundle_of_standalone,
        m.const_ann,
        m.noinline,
        m.pure,
        m.fake_block,
        m.unresolved_mark,
    ];
    for (i, t) in tags.iter().enumerate() {
        assert_eq!(*t, first + 1 + i as u32);
    }
    assert_eq!(arena.fresh(), first + 10);
}

fn v(major: u32, minor: u32) -> Version {
    Version { major, minor, patch: 0 }
}

fn feature(name: &str, enabled: Option<bool>, min: Option<Version>) -> Feature {
    Feature { name: name.to_string(), enabled_for_target: enabled, min_corejs: min }
}

fn items(e: &Entry) -> Vec<String> {
    e.imports.iter().cloned().collect()
}

#[test]
fn entry_adds_wanted_features_in_order() {
    let mut e = Entry::new(false, v(3, 20), false);
    let fs = vec![
        feature("es.array.at", Some(true), None),
        feature("es.array.flat", Some(false), None),
        feature("esnext.new", None, Some(v(3, 30))),
        feature("es.map", None, Some(v(3, 0))),
        feature("es.array.at", Some(true), None),
    ];
    assert!(e.add("core-js/stable", Some(&fs)));
    assert_eq!(items(&e), vec!["es.array.at".to_string(), "es.map".to_string()]);
    assert!(!e.add("lodash", None));
}

#[test]
fn any_target_ignores_target_data() {
    let mut e = Entry::new(true, v(3, 0), false);
    assert!(e.add("core-js", Some(&vec![feature("es.array.flat", Some(false), None)])));
    assert_eq!(items(&e), vec!["es.array.flat".to_string()]);
}

#[test]
fn regenerator_runtime_is_dropped_when_asked() {
    let mut e = Entry::new(false, v(3, 0), true);
    assert!(e.add("regenerator-runtime/runtime.js", None));
    assert!(items(&e).is_empty());
}

#[test]
fn entry_import_loses_its_source() {
    let mut e = Entry::new(false, v(3, 0), false);
    let decl = ImportDecl { span: Span { lo: 1, hi: 2 }, specifiers: vec![], src: "core-js".to_string(), type_only: false };
    let out = e.fold_import_decl(decl, Some(&vec![feature("es.map", None, None)]));
    assert_eq!(out.src, "");
    let named = ImportDecl {
        span: Span { lo: 1, hi: 2 },
        specifiers: vec![ImportSpecifier {
            kind: ImportKind::Default,
            local: Ident { sym: "x".to_string(), tag: 2 },
            imported: None,
            is_type_only: false,
        }],
        src: "core-js".to_string(),
        type_only: false,
    };
    let out = e.fold_import_decl(named, Some(&vec![feature("es.set", None, None)]));
    assert_eq!(out.src, "core-js");
    assert_eq!(items(&e), vec!["es.map".to_string()]);
}

#[test]
fn dummies_are_empty() {
    let c = Class::dummy();
    assert!(c.body.is_empty() && c.super_class.is_none() && !c.is_abstract);
    assert_eq!(ClassMember::dummy(), ClassMember::Empty(EmptyStmt { span: Span { lo: 0, hi: 0 } }));
    assert!(StaticBlock::dummy().body.is_empty());
    assert_ne!(MethodKind::Getter, MethodKind::Setter);
}

#[test]
fn folding_the_folded_import_changes_nothing() {
    let mut e = Entry::new(false, v(3, 0), false);
    let decl = ImportDecl { span: Span { lo: 1, hi: 2 }, specifiers: vec![], src: "core-js".to_string(), type_only: false };
    let once = e.fold_import_decl(decl, Some(&vec![feature("es.map", None, None)]));
    let recorded = items(&e);
    let again = ImportDecl { span: once.span, specifiers: vec![], src: once.src.clone(), type_only: once.type_only };
    let twice = e.fold_import_decl(again, None);
    assert_eq!(twice, once);
    assert_eq!(items(&e), recorded);
}
