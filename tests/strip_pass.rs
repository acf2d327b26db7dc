use ts_strip::ast::{
    BinOp, EnumAssign, EnumClosure, EnumValue, Expr, FnDecl, Function, Guard, Ident, ImportDecl, ImportKind,
    ImportSpecifier, Module, NamedExport, NamespaceClosure, Param, ParamOrTsParamProp, Span, Stmt, TsEnumDecl,
    TsEnumMember, TsInterfaceDecl, TsNamespaceDecl, TsParamProp, TsType, VarDecl, VarKind,
};
use ts_strip::ast::{Accessibility, ClassDecl, ExportSpecifier, TsImportEqualsDecl, TsModuleRef};
use ts_strip::class::{Class, ClassMember, ClassProp, Constructor, PropName};
use ts_strip::enums::{lower_enum, EnumError};
use ts_strip::imports::{ImportError, ImportsNotUsedAsValues};
use ts_strip::strip::{strip, Config, ImportExportAssignConfig, StripError};

const UNRESOLVED: u32 = 1;

fn id(s: &str) -> Ident {
    Ident { sym: s.to_string(), tag: 2 }
}

fn global(s: &str) -> Ident {
    Ident { sym: s.to_string(), tag: UNRESOLVED }
}

fn sp() -> Span {
    Span { lo: 0, hi: 0 }
}

fn cfg() -> Config {
    Config {
        no_empty_export: false,
        import_not_used_as_values: ImportsNotUsedAsValues::Remove,
        use_define_for_class_fields: false,
        import_export_assign_config: ImportExportAssignConfig::Classic,
        unresolved_tag: UNRESOLVED,
        synth_tag: 9,
    }
}

fn module(body: Vec<Stmt>) -> Module {
    Module { span: sp(), body }
}

fn ident(s: &str) -> Expr {
    Expr::Ident(id(s))
}

fn call(callee: Expr, args: Vec<Expr>) -> Expr {
    Expr::Call { callee: Box::new(callee), type_args: vec![], args }
}

fn member(obj: Expr, prop: &str) -> Expr {
    Expr::Member { obj: Box::new(obj), prop: prop.to_string() }
}

fn assign(target: Expr, value: Expr) -> Expr {
    Expr::Assign { target: Box::new(target), value: Box::new(value) }
}

fn console_log(arg: Expr) -> Expr {
    call(member(Expr::Ident(global("console")), "log"), vec![arg])
}

fn enum_decl(name: &str, members: Vec<TsEnumMember>) -> Stmt {
    Stmt::Enum(TsEnumDecl { exported: false, declare: false, is_const: false, id: id(name), members })
}

fn member_of(name: &str, init: Option<Expr>) -> TsEnumMember {
    TsEnumMember { name: name.to_string(), init }
}

fn holder(name: &str) -> Stmt {
    Stmt::Var(VarDecl { exported: false, declare: false, kind: VarKind::Var, name: id(name), type_ann: None, init: None })
}

fn num_assign(member: &str, n: i64) -> EnumAssign {
    EnumAssign { member: member.to_string(), value: EnumValue::Num(n), reverse: true }
}

fn str_assign(member: &str, s: &str) -> EnumAssign {
    EnumAssign { member: member.to_string(), value: EnumValue::Str(s.to_string()), reverse: false }
}

fn func(params: Vec<Param>, body: Vec<Expr>) -> Function {
    Function { params, body: Some(body), type_params: None, return_type: None }
}

fn fn_decl(exported: bool, name: &str, body: Vec<Expr>) -> Stmt {
    Stmt::Fn(FnDecl { exported, declare: false, ident: id(name), function: func(vec![], body) })
}

fn param(name: &str, ty: Option<TsType>) -> Param {
    Param { name: id(name), type_ann: ty, rest: false }
}

fn ty(names: &[&str]) -> TsType {
    TsType { names: names.iter().map(|n| id(n)).collect() }
}

fn class_with(super_class: Option<Expr>, body: Vec<ClassMember>) -> Class {
    let mut c = Class::dummy();
    c.super_class = super_class.map(Box::new);
    c.body = body;
    c
}

fn class_stmt(name: &str, class: Class) -> Stmt {
    Stmt::Class(ClassDecl { exported: false, declare: false, ident: id(name), class })
}

fn ctor(params: Vec<ParamOrTsParamProp>, body: Vec<Expr>) -> ClassMember {
    ClassMember::Constructor(Constructor {
        span: sp(),
        key: PropName::Ident("constructor".to_string()),
        params,
        body: Some(body),
        accessibility: None,
        is_optional: false,
    })
}

fn prop(name: &str, value: Option<Expr>, is_static: bool) -> ClassProp {
    ClassProp {
        span: sp(),
        key: PropName::Ident(name.to_string()),
        value: value.map(Box::new),
        type_ann: Some(Box::new(ty(&[]))),
        is_static,
        decorators: vec![],
        accessibility: None,
        is_abstract: false,
        is_optional: false,
        is_override: false,
        readonly: false,
        declare: false,
        definite: false,
    }
}

fn this_assign(name: &str, value: Expr) -> Expr {
    assign(member(Expr::This, name), value)
}

fn super_call() -> Expr {
    call(Expr::Super, vec![])
}

fn import(locals: &[(&str, bool)], src: &str) -> Stmt {
    Stmt::Import(ImportDecl {
        span: sp(),
        specifiers: locals
            .iter()
            .map(|(l, t)| ImportSpecifier {
                kind: ImportKind::Named,
                local: id(l),
                imported: None,
                is_type_only: *t,
            })
            .collect(),
        src: src.to_string(),
        type_only: false,
    })
}

fn interface(name: &str) -> Stmt {
    Stmt::Interface(TsInterfaceDecl { exported: false, declare: false, id: id(name), extends: vec![], body: vec![] })
}

fn stripped(body: Vec<Stmt>) -> Vec<Stmt> {
    strip(&module(body), &cfg()).unwrap().body
}

#[test]
fn lowers_enum_single_member() {
    let out = stripped(vec![enum_decl("Foo", vec![member_of("a", None)])]);
    let expected = vec![
        holder("Foo"),
        Stmt::EnumClosure(EnumClosure { name: id("Foo"), guard: Guard::Plain, assigns: vec![num_assign("a", 0)] }),
    ];
    assert_eq!(out, expected);
}

#[test]
fn lowers_string_enum() {
    let out = stripped(vec![enum_decl(
        "State",
        vec![
            member_of("closed", Some(Expr::Str("closed".to_string()))),
            member_of("opened", Some(Expr::Str("opened".to_string()))),
        ],
    )]);
    let expected = vec![
        holder("State"),
        Stmt::EnumClosure(EnumClosure {
            name: id("State"),
            guard: Guard::Plain,
            assigns: vec![str_assign("closed", "closed"), str_assign("opened", "opened")],
        }),
    ];
    assert_eq!(out, expected);
}

#[test]
fn lowers_parameter_property() {
    let pp = ParamOrTsParamProp::TsParamProp(TsParamProp {
        accessibility: Some(Accessibility::Private),
        readonly: true,
        is_override: false,
        param: param("a", Some(ty(&[]))),
    });
    let input = class_stmt("A", class_with(Some(ident("B")), vec![ctor(vec![pp], vec![super_call()])]));
    let out = stripped(vec![input]);
    let expected = vec![class_stmt(
        "A",
        class_with(
            Some(ident("B")),
            vec![ctor(
                vec![ParamOrTsParamProp::Param(param("a", None))],
                vec![super_call(), this_assign("a", ident("a"))],
            )],
        ),
    )];
    assert_eq!(out, expected);
}

#[test]
fn lowers_import_shadowed_by_value() {
    let input = vec![
        import(&[("Test", false)], "test"),
        Stmt::Var(VarDecl {
            exported: false,
            declare: false,
            kind: VarKind::Const,
            name: id("Test"),
            type_ann: None,
            init: Some(Expr::Num(2)),
        }),
        Stmt::Expr(console_log(ident("Test"))),
    ];
    let out = stripped(input);
    let expected = vec![
        Stmt::Var(VarDecl {
            exported: false,
            declare: false,
            kind: VarKind::Const,
            name: id("Test"),
            type_ann: None,
            init: Some(Expr::Num(2)),
        }),
        Stmt::Expr(console_log(ident("Test"))),
    ];
    assert_eq!(out, expected);
}

#[test]
fn lowers_exported_namespace() {
    let input = vec![Stmt::Namespace(TsNamespaceDecl {
        exported: true,
        declare: false,
        id: id("util"),
        rest: vec![],
        body: vec![fn_decl(true, "f", vec![]), fn_decl(false, "g", vec![])],
    })];
    let out = stripped(input);
    let expected = vec![
        Stmt::Var(VarDecl { exported: true, declare: false, kind: VarKind::Var, name: id("util"), type_ann: None, init: None }),
        Stmt::NamespaceClosure(NamespaceClosure {
            name: id("util"),
            guard: Guard::Plain,
            body: vec![
                fn_decl(false, "f", vec![]),
                Stmt::Expr(assign(member(ident("util"), "f"), ident("f"))),
                fn_decl(false, "g", vec![]),
            ],
        }),
    ];
    assert_eq!(out, expected);
}

#[test]
fn enum_members_count_up_from_previous() {
    let out = stripped(vec![enum_decl(
        "E",
        vec![member_of("a", Some(Expr::Num(5))), member_of("b", None), member_of("c", None)],
    )]);
    match &out[1] {
        Stmt::EnumClosure(c) => {
            assert_eq!(c.assigns, vec![num_assign("a", 5), num_assign("b", 6), num_assign("c", 7)]);
        },
        other => panic!("unexpected {:?}", other),
    }
}

#[test]
fn enum_member_refers_to_earlier_members() {
    let init = Expr::Bin { op: BinOp::Add, left: Box::new(ident("a")), right: Box::new(Expr::Num(10)) };
    let out = stripped(vec![enum_decl("E", vec![member_of("a", Some(Expr::Num(1))), member_of("b", Some(init))])]);
    match &out[1] {
        Stmt::EnumClosure(c) => assert_eq!(c.assigns, vec![num_assign("a", 1), num_assign("b", 11)]),
        other => panic!("unexpected {:?}", other),
    }
}

#[test]
fn enum_string_concatenation_has_no_reverse_map() {
    let init = Expr::Bin { op: BinOp::Add, left: Box::new(ident("a")), right: Box::new(Expr::Str("y".to_string())) };
    let out = stripped(vec![enum_decl(
        "E",
        vec![member_of("a", Some(Expr::Str("x".to_string()))), member_of("b", Some(init))],
    )]);
    match &out[1] {
        Stmt::EnumClosure(c) => assert_eq!(c.assigns, vec![str_assign("a", "x"), str_assign("b", "xy")]),
        other => panic!("unexpected {:?}", other),
    }
}

#[test]
fn enum_non_constant_initializer_is_kept_raw() {
    let init = call(Expr::Ident(global("compute")), vec![]);
    let out = stripped(vec![enum_decl("E", vec![member_of("a", Some(init))])]);
    match &out[1] {
        Stmt::EnumClosure(c) => {
            let raw = call(Expr::Ident(global("compute")), vec![]);
            assert_eq!(
                c.assigns,
                vec![EnumAssign { member: "a".to_string(), value: EnumValue::Raw(raw), reverse: true }]
            );
        },
        other => panic!("unexpected {:?}", other),
    }
}

#[test]
fn enum_member_after_non_constant_needs_initializer() {
    let init = call(Expr::Ident(global("compute")), vec![]);
    let r = strip(&module(vec![enum_decl("E", vec![member_of("a", Some(init)), member_of("b", None)])]), &cfg());
    assert_eq!(r, Err(StripError::Enum(EnumError::MissingInitializer { member: "b".to_string() })));
}

#[test]
fn merged_enums_share_one_variable() {
    let out = stripped(vec![
        enum_decl("E", vec![member_of("a", None)]),
        enum_decl("E", vec![member_of("b", Some(Expr::Num(3)))]),
    ]);
    assert_eq!(out.len(), 3);
    assert_eq!(out[0], holder("E"));
    assert!(matches!(out[1], Stmt::EnumClosure(_)));
    assert!(matches!(out[2], Stmt::EnumClosure(_)));
}

#[test]
fn property_initializers_follow_parameter_properties() {
    let pp = ParamOrTsParamProp::TsParamProp(TsParamProp {
        accessibility: Some(Accessibility::Public),
        readonly: false,
        is_override: false,
        param: param("p", None),
    });
    let body = vec![
        ClassMember::ClassProp(prop("x", Some(Expr::Num(1)), false)),
        ctor(vec![pp], vec![call(Expr::Ident(global("foo")), vec![])]),
        ClassMember::ClassProp(prop("y", Some(Expr::Num(2)), false)),
    ];
    let out = stripped(vec![class_stmt("C", class_with(None, body))]);
    let expected = vec![class_stmt(
        "C",
        class_with(
            None,
            vec![ctor(
                vec![ParamOrTsParamProp::Param(param("p", None))],
                vec![
                    this_assign("p", ident("p")),
                    this_assign("x", Expr::Num(1)),
                    this_assign("y", Expr::Num(2)),
                    call(Expr::Ident(global("foo")), vec![]),
                ],
            )],
        ),
    )];
    assert_eq!(out, expected);
}

#[test]
fn static_property_moves_after_class() {
    let body = vec![ClassMember::ClassProp(prop("s", Some(Expr::Num(1)), true))];
    let out = stripped(vec![class_stmt("C", class_with(None, body))]);
    let expected = vec![
        class_stmt("C", class_with(None, vec![])),
        Stmt::Expr(assign(member(ident("C"), "s"), Expr::Num(1))),
    ];
    assert_eq!(out, expected);
}

#[test]
fn derived_class_without_constructor_gets_one() {
    let body = vec![ClassMember::ClassProp(prop("x", Some(Expr::Num(1)), false))];
    let out = stripped(vec![class_stmt("C", class_with(Some(ident("B")), body))]);
    let args = Ident { sym: "args".to_string(), tag: 9 };
    let made = ClassMember::Constructor(Constructor {
        span: sp(),
        key: PropName::Ident("constructor".to_string()),
        params: vec![ParamOrTsParamProp::Param(Param { name: args.clone(), type_ann: None, rest: true })],
        body: Some(vec![
            call(Expr::Super, vec![Expr::Spread { arg: Box::new(Expr::Ident(args)) }]),
            this_assign("x", Expr::Num(1)),
        ]),
        accessibility: None,
        is_optional: false,
    });
    assert_eq!(out, vec![class_stmt("C", class_with(Some(ident("B")), vec![made]))]);
}

#[test]
fn define_semantics_keep_fields() {
    let mut c = cfg();
    c.use_define_for_class_fields = true;
    let mut declared = prop("d", None, false);
    declared.declare = true;
    let body = vec![ClassMember::ClassProp(prop("x", Some(Expr::Num(1)), false)), ClassMember::ClassProp(declared)];
    let out = strip(&module(vec![class_stmt("C", class_with(None, body))]), &c).unwrap().body;
    let mut kept = prop("x", Some(Expr::Num(1)), false);
    kept.type_ann = None;
    assert_eq!(out, vec![class_stmt("C", class_with(None, vec![ClassMember::ClassProp(kept)]))]);
}

#[test]
fn type_only_binding_is_erased() {
    let input = vec![
        import(&[("T", false), ("v", false)], "m"),
        Stmt::Var(VarDecl {
            exported: false,
            declare: false,
            kind: VarKind::Let,
            name: id("x"),
            type_ann: Some(ty(&["T"])),
            init: Some(ident("v")),
        }),
        interface("I"),
    ];
    let out = stripped(input);
    let expected = vec![
        import(&[("v", false)], "m"),
        Stmt::Var(VarDecl { exported: false, declare: false, kind: VarKind::Let, name: id("x"), type_ann: None, init: Some(ident("v")) }),
    ];
    assert_eq!(out, expected);
}

#[test]
fn preserve_keeps_side_effect_import() {
    let mut c = cfg();
    c.import_not_used_as_values = ImportsNotUsedAsValues::Preserve;
    let out = strip(&module(vec![import(&[("T", false)], "m")]), &c).unwrap().body;
    assert_eq!(out, vec![import(&[], "m")]);
}

#[test]
fn error_mode_rejects_type_import_used_as_value() {
    let mut c = cfg();
    c.import_not_used_as_values = ImportsNotUsedAsValues::Error;
    let r = strip(&module(vec![import(&[("T", true)], "m"), Stmt::Expr(ident("T"))]), &c);
    assert_eq!(r, Err(StripError::Import(ImportError::TypeOnlyUsedAsValue { src: "m".to_string() })));
    let out = strip(&module(vec![import(&[("T", false)], "m")]), &c).unwrap().body;
    assert_eq!(out, vec![]);
}

#[test]
fn side_effect_import_is_kept() {
    assert_eq!(stripped(vec![import(&[], "polyfill")]), vec![import(&[], "polyfill")]);
}

fn export_of(names: &[&str]) -> Stmt {
    Stmt::ExportNamed(NamedExport {
        span: sp(),
        specifiers: names
            .iter()
            .map(|n| ExportSpecifier { orig: id(n), exported: None, is_type_only: false })
            .collect(),
        src: None,
        type_only: false,
    })
}

#[test]
fn export_of_only_types_leaves_marker() {
    let out = stripped(vec![interface("I"), export_of(&["I"])]);
    assert_eq!(out, vec![export_of(&[])]);
    let mut c = cfg();
    c.no_empty_export = true;
    let out = strip(&module(vec![interface("I"), export_of(&["I"])]), &c).unwrap().body;
    assert_eq!(out, vec![]);
}

#[test]
fn export_assignment_becomes_module_exports() {
    let out = stripped(vec![Stmt::ExportAssign(ident("x"))]);
    let target = member(Expr::Ident(global("module")), "exports");
    assert_eq!(out, vec![Stmt::Expr(assign(target, ident("x")))]);
}

#[test]
fn import_require_becomes_const() {
    let q = TsImportEqualsDecl {
        exported: false,
        is_type_only: false,
        id: id("fs"),
        module_ref: TsModuleRef::Require("fs".to_string()),
    };
    let out = stripped(vec![Stmt::ImportEquals(q)]);
    let init = call(Expr::Ident(global("require")), vec![Expr::Str("fs".to_string())]);
    let expected = Stmt::Var(VarDecl {
        exported: false,
        declare: false,
        kind: VarKind::Const,
        name: id("fs"),
        type_ann: None,
        init: Some(init),
    });
    assert_eq!(out, vec![expected]);
}

#[test]
fn dotted_namespace_nests_closures() {
    let input = vec![Stmt::Namespace(TsNamespaceDecl {
        exported: false,
        declare: false,
        id: id("A"),
        rest: vec![id("B")],
        body: vec![fn_decl(true, "f", vec![])],
    })];
    let out = stripped(input);
    let inner = Stmt::NamespaceClosure(NamespaceClosure {
        name: id("B"),
        guard: Guard::Member { parent: id("A") },
        body: vec![fn_decl(false, "f", vec![]), Stmt::Expr(assign(member(ident("B"), "f"), ident("f")))],
    });
    let expected = vec![
        holder("A"),
        Stmt::NamespaceClosure(NamespaceClosure {
            name: id("A"),
            guard: Guard::Plain,
            body: vec![
                Stmt::Var(VarDecl { exported: false, declare: false, kind: VarKind::Let, name: id("B"), type_ann: None, init: None }),
                inner,
            ],
        }),
    ];
    assert_eq!(out, expected);
}

#[test]
fn ambient_namespace_produces_nothing() {
    let input = vec![Stmt::Namespace(TsNamespaceDecl {
        exported: false,
        declare: false,
        id: id("N"),
        rest: vec![],
        body: vec![interface("I")],
    })];
    assert_eq!(stripped(input), vec![]);
}

#[test]
fn assertions_collapse_to_inner_expression() {
    let e = Expr::TsNonNull {
        expr: Box::new(Expr::TsNonNull {
            expr: Box::new(Expr::TsAs { expr: Box::new(ident("x")), ty: ty(&["T"]) }),
        }),
    };
    assert_eq!(stripped(vec![Stmt::Expr(e)]), vec![Stmt::Expr(ident("x"))]);
}

#[test]
fn stripping_twice_changes_nothing() {
    let inputs = vec![
        vec![enum_decl("Foo", vec![member_of("a", None)])],
        vec![
            import(&[("v", false), ("T", false)], "m"),
            Stmt::Expr(Expr::TsAs { expr: Box::new(ident("v")), ty: ty(&["T"]) }),
        ],
        vec![Stmt::Namespace(TsNamespaceDecl {
            exported: true,
            declare: false,
            id: id("util"),
            rest: vec![],
            body: vec![fn_decl(true, "f", vec![])],
        })],
    ];
    for body in inputs {
        let once = strip(&module(body), &cfg()).unwrap();
        let twice = strip(&once, &cfg()).unwrap();
        assert_eq!(twice, once);
    }
}

#[test]
fn auto_increment_past_largest_value_needs_initializer() {
    let r = strip(
        &module(vec![enum_decl("E", vec![member_of("a", Some(Expr::Num(i64::MAX))), member_of("b", None)])]),
        &cfg(),
    );
    assert_eq!(r, Err(StripError::Enum(EnumError::MissingInitializer { member: "b".to_string() })));
}

#[test]
fn node_next_require_uses_create_require() {
    let mut c = cfg();
    c.import_export_assign_config = ImportExportAssignConfig::NodeNext;
    let q = TsImportEqualsDecl {
        exported: false,
        is_type_only: false,
        id: id("fs"),
        module_ref: TsModuleRef::Require("fs".to_string()),
    };
    let out = strip(&module(vec![Stmt::ImportEquals(q)]), &c).unwrap().body;
    assert_eq!(out.len(), 3);
    let create = Ident { sym: "_createRequire".to_string(), tag: 9 };
    let req = Ident { sym: "__require".to_string(), tag: 9 };
    let expected_import = Stmt::Import(ImportDecl {
        span: sp(),
        specifiers: vec![ImportSpecifier {
            kind: ImportKind::Named,
            local: create.clone(),
            imported: Some("createRequire".to_string()),
            is_type_only: false,
        }],
        src: "module".to_string(),
        type_only: false,
    });
    assert_eq!(out[0], expected_import);
    let url = Expr::Member { obj: Box::new(Expr::ImportMeta), prop: "url".to_string() };
    let expected_req = Stmt::Var(VarDecl {
        exported: false,
        declare: false,
        kind: VarKind::Const,
        name: req.clone(),
        type_ann: None,
        init: Some(call(Expr::Ident(create), vec![url])),
    });
    assert_eq!(out[1], expected_req);
    let expected_fs = Stmt::Var(VarDecl {
        exported: false,
        declare: false,
        kind: VarKind::Const,
        name: id("fs"),
        type_ann: None,
        init: Some(call(Expr::Ident(req), vec![Expr::Str("fs".to_string())])),
    });
    assert_eq!(out[2], expected_fs);
}

#[test]
fn namespace_merges_into_earlier_class() {
    let input = vec![
        class_stmt("C", class_with(None, vec![])),
        Stmt::Namespace(TsNamespaceDecl {
            exported: false,
            declare: false,
            id: id("C"),
            rest: vec![],
            body: vec![fn_decl(true, "f", vec![])],
        }),
    ];
    let out = stripped(input);
    assert_eq!(out.len(), 2);
    assert!(matches!(out[0], Stmt::Class(_)));
    assert!(matches!(&out[1], Stmt::NamespaceClosure(c) if c.name == id("C") && c.guard == Guard::Plain));
}

#[test]
fn import_type_is_erased_even_when_named_like_a_value() {
    let decl = Stmt::Import(ImportDecl {
        span: sp(),
        specifiers: vec![ImportSpecifier { kind: ImportKind::Named, local: id("T"), imported: None, is_type_only: false }],
        src: "m".to_string(),
        type_only: true,
    });
    assert_eq!(stripped(vec![decl, Stmt::Expr(ident("T"))]), vec![Stmt::Expr(ident("T"))]);
}

#[test]
fn declared_and_abstract_members_leave_nothing() {
    let mut declared = prop("d", Some(Expr::Num(1)), false);
    declared.declare = true;
    let mut c = class_with(None, vec![ClassMember::ClassProp(declared)]);
    c.is_abstract = true;
    let mut declared_stmt = class_stmt("Base", class_with(None, vec![]));
    if let Stmt::Class(d) = &mut declared_stmt {
        d.declare = true;
    }
    let out = stripped(vec![class_stmt("C", c), declared_stmt]);
    assert_eq!(out, vec![class_stmt("C", class_with(None, vec![]))]);
}

#[test]
fn lower_enum_gives_one_closure() {
    let decl = TsEnumDecl {
        exported: true,
        declare: false,
        is_const: false,
        id: id("Dir"),
        members: vec![member_of("Up", Some(Expr::Num(1))), member_of("Down", None)],
    };
    let c = lower_enum(&decl).unwrap();
    assert_eq!(c, EnumClosure { name: id("Dir"), guard: Guard::Plain, assigns: vec![num_assign("Up", 1), num_assign("Down", 2)] });
}

#[test]
fn namespace_members_assign_onto_namespace_object() {
    let body = vec![
        Stmt::Var(VarDecl {
            exported: true,
            declare: false,
            kind: VarKind::Const,
            name: id("x"),
            type_ann: Some(ty(&[])),
            init: Some(Expr::Num(1)),
        }),
        Stmt::Namespace(TsNamespaceDecl {
            exported: true,
            declare: false,
            id: id("Inner"),
            rest: vec![],
            body: vec![fn_decl(true, "g", vec![])],
        }),
        Stmt::ImportEquals(TsImportEqualsDecl {
            exported: true,
            is_type_only: false,
            id: id("alias"),
            module_ref: TsModuleRef::Entity(member(ident("Other"), "thing")),
        }),
    ];
    let input = vec![Stmt::Namespace(TsNamespaceDecl { exported: false, declare: false, id: id("N"), rest: vec![], body })];
    let out = stripped(input);
    let inner = Stmt::NamespaceClosure(NamespaceClosure {
        name: id("Inner"),
        guard: Guard::Member { parent: id("N") },
        body: vec![fn_decl(false, "g", vec![]), Stmt::Expr(assign(member(ident("Inner"), "g"), ident("g")))],
    });
    let expected_body = vec![
        Stmt::Expr(assign(member(ident("N"), "x"), Expr::Num(1))),
        Stmt::Var(VarDecl { exported: false, declare: false, kind: VarKind::Let, name: id("Inner"), type_ann: None, init: None }),
        inner,
        Stmt::Var(VarDecl {
            exported: false,
            declare: false,
            kind: VarKind::Var,
            name: id("alias"),
            type_ann: None,
            init: Some(member(ident("Other"), "thing")),
        }),
        Stmt::Expr(assign(member(ident("N"), "alias"), ident("alias"))),
    ];
    let expected = vec![
        holder("N"),
        Stmt::NamespaceClosure(NamespaceClosure { name: id("N"), guard: Guard::Plain, body: expected_body }),
    ];
    assert_eq!(out, expected);
}

#[test]
fn unused_import_alias_stays_a_variable() {
    let q = TsImportEqualsDecl {
        exported: false,
        is_type_only: false,
        id: id("alias"),
        module_ref: TsModuleRef::Entity(member(ident("a"), "thing")),
    };
    let input = vec![import(&[("a", false)], "m"), Stmt::ImportEquals(q)];
    let once = strip(&module(input), &cfg()).unwrap();
    let expected = vec![
        import(&[("a", false)], "m"),
        Stmt::Var(VarDecl {
            exported: false,
            declare: false,
            kind: VarKind::Var,
            name: id("alias"),
            type_ann: None,
            init: Some(member(ident("a"), "thing")),
        }),
    ];
    assert_eq!(once.body, expected);
    assert_eq!(strip(&once, &cfg()).unwrap(), once);
}

#[test]
fn exported_class_in_namespace_keeps_statics_before_export() {
    let body = vec![Stmt::Class(ClassDecl {
        exported: true,
        declare: false,
        ident: id("C"),
        class: class_with(None, vec![ClassMember::ClassProp(prop("s", Some(Expr::Num(3)), true))]),
    })];
    let out = stripped(vec![Stmt::Namespace(TsNamespaceDecl { exported: false, declare: false, id: id("N"), rest: vec![], body })]);
    let expected_body = vec![
        class_stmt("C", class_with(None, vec![])),
        Stmt::Expr(assign(member(ident("C"), "s"), Expr::Num(3))),
        Stmt::Expr(assign(member(ident("N"), "C"), ident("C"))),
    ];
    assert_eq!(
        out,
        vec![holder("N"), Stmt::NamespaceClosure(NamespaceClosure { name: id("N"), guard: Guard::Plain, body: expected_body })]
    );
}

#[test]
fn reexport_of_imported_value_keeps_import() {
    let out = stripped(vec![import(&[("a", false)], "m"), export_of(&["a"])]);
    assert_eq!(out, vec![import(&[("a", false)], "m"), export_of(&["a"])]);
}

#[test]
fn computed_property_key_is_evaluated_once_before_class() {
    let key = console_log(Expr::Num(123));
    let pp = ParamOrTsParamProp::TsParamProp(TsParamProp {
        accessibility: Some(Accessibility::Public),
        readonly: false,
        is_override: false,
        param: param("a", None),
    });
    let mut p = prop("unused", Some(Expr::Num(456)), false);
    p.key = PropName::Computed(Box::new(key));
    let input = class_stmt("A", class_with(None, vec![ClassMember::ClassProp(p), ctor(vec![pp], vec![])]));
    let out = stripped(vec![input]);
    let temp = Ident { sym: "_A_key0".to_string(), tag: 9 };
    let expected = vec![
        Stmt::Var(VarDecl {
            exported: false,
            declare: false,
            kind: VarKind::Var,
            name: temp.clone(),
            type_ann: None,
            init: Some(console_log(Expr::Num(123))),
        }),
        class_stmt(
            "A",
            class_with(
                None,
                vec![ctor(
                    vec![ParamOrTsParamProp::Param(param("a", None))],
                    vec![
                        this_assign("a", ident("a")),
                        assign(Expr::Index { obj: Box::new(Expr::This), index: Box::new(Expr::Ident(temp)) }, Expr::Num(456)),
                    ],
                )],
            ),
        ),
    ];
    assert_eq!(out, expected);
}

#[test]
fn computed_key_without_initializer_still_runs() {
    let mut p = prop("unused", None, false);
    p.key = PropName::Computed(Box::new(call(Expr::Ident(global("sideEffect")), vec![])));
    let mut s = prop("unused", Some(Expr::Num(1)), true);
    s.key = PropName::Computed(Box::new(ident("k")));
    let out = stripped(vec![class_stmt("C", class_with(None, vec![ClassMember::ClassProp(p), ClassMember::ClassProp(s)]))]);
    let t0 = Ident { sym: "_C_key0".to_string(), tag: 9 };
    let t1 = Ident { sym: "_C_key1".to_string(), tag: 9 };
    let var = |name: Ident, init: Expr| {
        Stmt::Var(VarDecl { exported: false, declare: false, kind: VarKind::Var, name, type_ann: None, init: Some(init) })
    };
    let expected = vec![
        var(t0, call(Expr::Ident(global("sideEffect")), vec![])),
        var(t1.clone(), ident("k")),
        class_stmt("C", class_with(None, vec![])),
        Stmt::Expr(assign(Expr::Index { obj: Box::new(ident("C")), index: Box::new(Expr::Ident(t1)) }, Expr::Num(1))),
    ];
    assert_eq!(out, expected);
    let once = strip(&module(expected), &cfg()).unwrap();
    assert_eq!(once.body.len(), 4);
}
