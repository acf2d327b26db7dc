//! The syntax tree that the pass reads and writes: TypeScript forms, and
//! the JavaScript forms that lowering produces (enum and namespace closures).

use vstd::prelude::*;

use crate::class::Class;

verus! {

/// A source range, kept for diagnostics only.
#[derive(Clone, Copy, Debug, PartialEq, Eq, Hash, Structural)]
pub struct Span {
    pub lo: u32,
    pub hi: u32,
}

impl Span {
    /// The span of synthesized nodes.
    pub fn dummy() -> (r: Span)
        ensures
            r == (Span { lo: 0, hi: 0 }),
    {
        Span { lo: 0, hi: 0 }
    }
}

/// A name together with the scope tag that the resolver gave it: two
/// occurrences denote the same binding exactly when both parts agree.
#[derive(Clone, Debug, PartialEq, Eq)]
pub struct Ident {
    pub sym: String,
    pub tag: u32,
}

/// The identity of a binding in specifications.
pub open spec fn key_of(id: Ident) -> (Seq<char>, u32) {
    (id.sym@, id.tag)
}

/// A type in a type position, reduced to the bindings that it names.
#[derive(Debug, PartialEq, Eq)]
pub struct TsType {
    pub names: Vec<Ident>,
}

#[derive(Clone, Copy, Debug, PartialEq, Eq, Hash, Structural)]
pub enum BinOp {
    Add,
    Sub,
    Mul,
    LogicalOr,
}

#[derive(Debug, PartialEq, Eq)]
pub enum Expr {
    Ident(Ident),
    This,
    Super,
    ImportMeta,
    Num(i64),
    Str(String),
    /// `obj.prop`
    Member { obj: Box<Expr>, prop: String },
    /// `obj[index]`
    Index { obj: Box<Expr>, index: Box<Expr> },
    /// `callee<type_args>(args)`
    Call { callee: Box<Expr>, type_args: Vec<TsType>, args: Vec<Expr> },
    /// `...arg`
    Spread { arg: Box<Expr> },
    /// `target = value`
    Assign { target: Box<Expr>, value: Box<Expr> },
    Bin { op: BinOp, left: Box<Expr>, right: Box<Expr> },
    /// `expr as ty`
    TsAs { expr: Box<Expr>, ty: TsType },
    /// `expr satisfies ty`
    TsSatisfies { expr: Box<Expr>, ty: TsType },
    /// `<ty>expr`
    TsTypeAssertion { expr: Box<Expr>, ty: TsType },
    /// `expr!`
    TsNonNull { expr: Box<Expr> },
}

#[derive(Clone, Copy, Debug, PartialEq, Eq, Hash, Structural)]
pub enum Accessibility {
    Public,
    Protected,
    Private,
}

/// A plain parameter: `name: ty`, or `...name: ty` when `rest` is set.
#[derive(Debug, PartialEq, Eq)]
pub struct Param {
    pub name: Ident,
    pub type_ann: Option<TsType>,
    pub rest: bool,
}

/// A constructor parameter with a modifier, which also declares a field.
#[derive(Debug, PartialEq, Eq)]
pub struct TsParamProp {
    pub accessibility: Option<Accessibility>,
    pub readonly: bool,
    pub is_override: bool,
    pub param: Param,
}

#[derive(Debug, PartialEq, Eq)]
pub enum ParamOrTsParamProp {
    Param(Param),
    TsParamProp(TsParamProp),
}

/// A function: its body, when present, is a sequence of expression
/// statements.
#[derive(Debug, PartialEq, Eq)]
pub struct Function {
    pub params: Vec<Param>,
    pub body: Option<Vec<Expr>>,
    pub type_params: Option<TsType>,
    pub return_type: Option<TsType>,
}

#[derive(Clone, Copy, Debug, PartialEq, Eq, Hash, Structural)]
pub enum VarKind {
    Var,
    Let,
    Const,
}

#[derive(Debug, PartialEq, Eq)]
pub struct VarDecl {
    pub exported: bool,
    pub declare: bool,
    pub kind: VarKind,
    pub name: Ident,
    pub type_ann: Option<TsType>,
    pub init: Option<Expr>,
}

#[derive(Debug, PartialEq, Eq)]
pub struct FnDecl {
    pub exported: bool,
    pub declare: bool,
    pub ident: Ident,
    pub function: Function,
}

#[derive(Debug, PartialEq, Eq)]
pub struct ClassDecl {
    pub exported: bool,
    pub declare: bool,
    pub ident: Ident,
    pub class: Class,
}

#[derive(Clone, Copy, Debug, PartialEq, Eq, Hash, Structural)]
pub enum ImportKind {
    /// `import { imported as local }`
    Named,
    /// `import local from`
    Default,
    /// `import * as local from`
    Namespace,
}

#[derive(Debug, PartialEq, Eq)]
pub struct ImportSpecifier {
    pub kind: ImportKind,
    pub local: Ident,
    pub imported: Option<String>,
    pub is_type_only: bool,
}

#[derive(Debug, PartialEq, Eq)]
pub struct ImportDecl {
    pub span: Span,
    pub specifiers: Vec<ImportSpecifier>,
    pub src: String,
    pub type_only: bool,
}

#[derive(Debug, PartialEq, Eq)]
pub struct ExportSpecifier {
    pub orig: Ident,
    pub exported: Option<String>,
    pub is_type_only: bool,
}

/// `export { .. }`, or `export { .. } from src`.
#[derive(Debug, PartialEq, Eq)]
pub struct NamedExport {
    pub span: Span,
    pub specifiers: Vec<ExportSpecifier>,
    pub src: Option<String>,
    pub type_only: bool,
}

#[derive(Debug, PartialEq, Eq)]
pub struct TsInterfaceDecl {
    pub exported: bool,
    pub declare: bool,
    pub id: Ident,
    pub extends: Vec<TsType>,
    pub body: Vec<TsType>,
}

#[derive(Debug, PartialEq, Eq)]
pub struct TsTypeAliasDecl {
    pub exported: bool,
    pub declare: bool,
    pub id: Ident,
    pub ty: TsType,
}

#[derive(Debug, PartialEq, Eq)]
pub struct TsEnumMember {
    pub name: String,
    pub init: Option<Expr>,
}

#[derive(Debug, PartialEq, Eq)]
pub struct TsEnumDecl {
    pub exported: bool,
    pub declare: bool,
    pub is_const: bool,
    pub id: Ident,
    pub members: Vec<TsEnumMember>,
}

/// `namespace id.rest[0].rest[1] { body }`; members of the body are marked
/// exported by their own flags.
#[derive(Debug, PartialEq, Eq)]
pub struct TsNamespaceDecl {
    pub exported: bool,
    pub declare: bool,
    pub id: Ident,
    pub rest: Vec<Ident>,
    pub body: Vec<Stmt>,
}

#[derive(Debug, PartialEq, Eq)]
pub enum TsModuleRef {
    /// `import id = a.b.c`
    Entity(Expr),
    /// `import id = require("src")`
    Require(String),
}

#[derive(Debug, PartialEq, Eq)]
pub struct TsImportEqualsDecl {
    pub exported: bool,
    pub is_type_only: bool,
    pub id: Ident,
    pub module_ref: TsModuleRef,
}

/// The resolved value of an enum member.
#[derive(Debug, PartialEq, Eq)]
pub enum EnumValue {
    Num(i64),
    Str(String),
    /// An initializer that is no compile-time constant, kept as written.
    Raw(Expr),
}

/// One member's assignment in a lowered enum: `E["m"] = value;`, or
/// `E[E["m"] = value] = "m";` when `reverse` is set.
#[derive(Debug, PartialEq, Eq)]
pub struct EnumAssign {
    pub member: String,
    pub value: EnumValue,
    pub reverse: bool,
}

/// How the object that a closure fills is found or created.
#[derive(Debug, PartialEq, Eq)]
pub enum Guard {
    /// `(name || (name = {}))`
    Plain,
    /// `(name = parent.name || (parent.name = {}))`
    Member { parent: Ident },
}

/// `(function(name) { assigns })(guard)`
#[derive(Debug, PartialEq, Eq)]
pub struct EnumClosure {
    pub name: Ident,
    pub guard: Guard,
    pub assigns: Vec<EnumAssign>,
}

/// `(function(name) { body })(guard)`
#[derive(Debug, PartialEq, Eq)]
pub struct NamespaceClosure {
    pub name: Ident,
    pub guard: Guard,
    pub body: Vec<Stmt>,
}

#[derive(Debug, PartialEq, Eq)]
pub enum Stmt {
    Import(ImportDecl),
    ExportNamed(NamedExport),
    Var(VarDecl),
    Fn(FnDecl),
    Class(ClassDecl),
    Expr(Expr),
    Interface(TsInterfaceDecl),
    TypeAlias(TsTypeAliasDecl),
    Enum(TsEnumDecl),
    Namespace(TsNamespaceDecl),
    /// `export = expr`
    ExportAssign(Expr),
    ImportEquals(TsImportEqualsDecl),
    EnumClosure(EnumClosure),
    NamespaceClosure(NamespaceClosure),
}

#[derive(Debug, PartialEq, Eq)]
pub struct Module {
    pub span: Span,
    pub body: Vec<Stmt>,
}

} // verus!
