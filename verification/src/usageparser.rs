//! The places where bound resources are used, as the resolver reads them.
use vstd::prelude::*;
use crate::diagnostics::Range;
use crate::diagnostics::Span;
use crate::objects::BucketUsage;
use crate::types::Type;
use crate::types::TypeChecker;

verus! {

/// A name in the source text.
#[derive(Debug, PartialEq, Eq)]
pub struct Ident {
    pub name: String,
    pub span: Span,
}

impl Clone for Ident {
    fn clone(&self) -> (copy: Self)
        ensures
            copy == *self,
    {
        Ident { name: self.name.clone(), span: self.span }
    }
}

/// A type argument of a call, with the type that it was resolved to.
#[derive(Debug, PartialEq, Eq)]
pub struct TypeArg {
    pub span: Span,
    pub typ: Type,
}

/// A call of a method on a bound resource, `resource.method<..>(..)`.
#[derive(Debug, PartialEq, Eq)]
pub struct MethodCall {
    /// The method's name.
    pub method: Ident,
    /// The whole call.
    pub span: Span,
    /// The type arguments, if any are written.
    pub type_args: Option<Vec<TypeArg>>,
}

/// The ways in which an expression can use a bound resource.
#[derive(Debug, PartialEq, Eq)]
pub enum UsageExprKind {
    /// A method is called on it.
    MethodCall(MethodCall),
    /// A field of it is read.
    FieldAccess(Ident),
    /// It is passed to a function.
    CallArg,
    /// It is passed to a constructor.
    ConstructorArg,
    /// Anything else.
    Other,
}

/// An expression that uses a bound resource.
#[derive(Debug, PartialEq, Eq)]
pub struct UsageExpr {
    pub range: Range,
    pub kind: UsageExprKind,
}

/// What resolving one usage works on: the expression and the types known.
pub struct ResolveUsageData<'a> {
    pub expr: &'a UsageExpr,
    pub type_checker: &'a TypeChecker,
}

/// How a piece of code uses a resource.
#[derive(Debug)]
pub enum Usage {
    Bucket(BucketUsage),
}

} // verus!
