//! Classes and their members.

use vstd::prelude::*;

use crate::ast::{Accessibility, Expr, Function, ParamOrTsParamProp, Span, TsType};

verus! {

#[derive(Debug, PartialEq, Eq)]
pub struct Class {
    pub span: Span,
    pub decorators: Vec<Decorator>,
    pub body: Vec<ClassMember>,
    pub super_class: Option<Box<Expr>>,
    pub is_abstract: bool,
    pub type_params: Option<Box<TsType>>,
    pub super_type_params: Option<Box<TsType>>,
    pub implements: Vec<TsType>,
}

impl Class {
    /// An empty class with no heritage.
    pub fn dummy() -> (r: Class)
        ensures
            r.span == (Span { lo: 0, hi: 0 }),
            r.decorators@.len() == 0,
            r.body@.len() == 0,
            r.super_class is None,
            !r.is_abstract,
            r.type_params is None,
            r.super_type_params is None,
            r.implements@.len() == 0,
    {
        Class {
            span: Span::dummy(),
            decorators: Vec::new(),
            body: Vec::new(),
            super_class: None,
            is_abstract: false,
            type_params: None,
            super_type_params: None,
            implements: Vec::new(),
        }
    }
}

#[derive(Debug, PartialEq, Eq)]
pub enum ClassMember {
    Constructor(Constructor),
    Method(ClassMethod),
    PrivateMethod(PrivateMethod),
    ClassProp(ClassProp),
    PrivateProp(PrivateProp),
    TsIndexSignature(TsIndexSignature),
    Empty(EmptyStmt),
    StaticBlock(StaticBlock),
}

impl ClassMember {
    /// An empty member (`;`).
    pub fn dummy() -> (r: ClassMember)
        ensures
            r == ClassMember::Empty(EmptyStmt { span: Span { lo: 0, hi: 0 } }),
    {
        ClassMember::Empty(EmptyStmt { span: Span::dummy() })
    }
}

#[derive(Clone, Copy, Debug, PartialEq, Eq, Hash, Structural)]
pub struct EmptyStmt {
    pub span: Span,
}

/// The key of a property or method.
#[derive(Debug, PartialEq, Eq)]
pub enum PropName {
    Ident(String),
    Str(String),
    Num(i64),
    Computed(Box<Expr>),
}

/// `#name`
#[derive(Debug, PartialEq, Eq)]
pub struct PrivateName {
    pub name: String,
}

#[derive(Debug, PartialEq, Eq)]
pub struct ClassProp {
    pub span: Span,
    pub key: PropName,
    pub value: Option<Box<Expr>>,
    pub type_ann: Option<Box<TsType>>,
    pub is_static: bool,
    pub decorators: Vec<Decorator>,
    pub accessibility: Option<Accessibility>,
    pub is_abstract: bool,
    pub is_optional: bool,
    pub is_override: bool,
    pub readonly: bool,
    pub declare: bool,
    pub definite: bool,
}

#[derive(Debug, PartialEq, Eq)]
pub struct PrivateProp {
    pub span: Span,
    pub key: PrivateName,
    pub value: Option<Box<Expr>>,
    pub type_ann: Option<Box<TsType>>,
    pub is_static: bool,
    pub decorators: Vec<Decorator>,
    pub accessibility: Option<Accessibility>,
    pub is_optional: bool,
    pub is_override: bool,
    pub readonly: bool,
    pub definite: bool,
}

#[derive(Debug, PartialEq, Eq)]
pub struct ClassMethod {
    pub span: Span,
    pub key: PropName,
    pub function: Box<Function>,
    pub kind: MethodKind,
    pub is_static: bool,
    pub accessibility: Option<Accessibility>,
    pub is_abstract: bool,
    pub is_optional: bool,
    pub is_override: bool,
}

#[derive(Debug, PartialEq, Eq)]
pub struct PrivateMethod {
    pub span: Span,
    pub key: PrivateName,
    pub function: Box<Function>,
    pub kind: MethodKind,
    pub is_static: bool,
    pub accessibility: Option<Accessibility>,
    pub is_abstract: bool,
    pub is_optional: bool,
    pub is_override: bool,
}

#[derive(Debug, PartialEq, Eq)]
pub struct Constructor {
    pub span: Span,
    pub key: PropName,
    pub params: Vec<ParamOrTsParamProp>,
    pub body: Option<Vec<Expr>>,
    pub accessibility: Option<Accessibility>,
    pub is_optional: bool,
}

#[derive(Debug, PartialEq, Eq)]
pub struct Decorator {
    pub span: Span,
    pub expr: Box<Expr>,
}

#[derive(Clone, Copy, Debug, PartialEq, Eq, Hash, Structural)]
pub enum MethodKind {
    Method,
    Getter,
    Setter,
}

/// `[key: ty]` inside a class body.
#[derive(Debug, PartialEq, Eq)]
pub struct TsIndexSignature {
    pub span: Span,
    pub params: Vec<TsType>,
    pub type_ann: Option<TsType>,
    pub is_static: bool,
}

#[derive(Debug, PartialEq, Eq)]
pub struct StaticBlock {
    pub span: Span,
    pub body: Vec<Expr>,
}

impl StaticBlock {
    /// An empty static block.
    pub fn dummy() -> (r: StaticBlock)
        ensures
            r.span == (Span { lo: 0, hi: 0 }),
            r.body@.len() == 0,
    {
        StaticBlock { span: Span::dummy(), body: Vec::new() }
    }
}

} // verus!
