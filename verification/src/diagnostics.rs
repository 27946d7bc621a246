//! Positions in source text, and the errors that an analysis pass reports
//! about them without stopping.
use vstd::prelude::*;

verus! {

/// A stretch of source text, from byte offset `lo` up to `hi`.
#[derive(Debug, Clone, Copy, PartialEq, Eq, Hash, Structural)]
pub struct Span {
    pub lo: u32,
    pub hi: u32,
}

/// The stretch of source text that an expression covers.
#[derive(Debug, Clone, Copy, PartialEq, Eq, Hash, Structural)]
pub struct Range {
    pub start: u32,
    pub end: u32,
}

impl Range {
    /// The same stretch as a span.
    pub fn to_span(&self) -> (span: Span)
        ensures
            span == (Span { lo: self.start, hi: self.end }),
    {
        Span { lo: self.start, hi: self.end }
    }
}

/// What an error is about.
#[derive(Debug, Clone, Copy, PartialEq, Eq, Hash, Structural)]
pub enum DiagnosticKind {
    /// A call to `ref` names no type argument, or more than one.
    TypeArgumentCount,
    /// A method is called on a bucket that stands for no operation.
    UnsupportedOperation,
    /// A bucket is used in another way than by calling one of its methods.
    InvalidUse,
    /// A type argument has a shape that grants no permissions.
    UnsupportedPermissionType,
    /// A type argument grants no permission at all.
    NoPermissionsFound,
    /// A type argument refers to other types more deeply than is followed.
    DepthExceeded,
    /// A resource is declared without a literal name.
    InvalidResourceName,
    /// A resource's configuration does not have the expected shape.
    InvalidConfig,
}

/// An error at a place in the source text.
#[derive(Debug, Clone, Copy, PartialEq, Eq, Hash, Structural)]
pub struct Diagnostic {
    pub span: Span,
    pub kind: DiagnosticKind,
}

impl Diagnostic {
    /// The error in words.
    pub fn msg(&self) -> (text: String)
        ensures
            text@ == message_of(self.kind),
    {
        let text = match self.kind {
            DiagnosticKind::TypeArgumentCount => "expected exactly one type argument in call to Bucket.ref",
            DiagnosticKind::UnsupportedOperation => "unsupported bucket operation",
            DiagnosticKind::InvalidUse => "invalid use of bucket resource",
            DiagnosticKind::UnsupportedPermissionType => "unsupported bucket permission type",
            DiagnosticKind::NoPermissionsFound => "no bucket permissions found in type argument",
            DiagnosticKind::DepthExceeded => "bucket permission type is nested too deeply",
            DiagnosticKind::InvalidResourceName => "expected a string literal as the resource name",
            DiagnosticKind::InvalidConfig => "invalid bucket configuration",
        };
        text.to_owned()
    }
}

/// The words for each kind of error.
pub open spec fn message_of(kind: DiagnosticKind) -> Seq<char> {
    match kind {
        DiagnosticKind::TypeArgumentCount => "expected exactly one type argument in call to Bucket.ref"@,
        DiagnosticKind::UnsupportedOperation => "unsupported bucket operation"@,
        DiagnosticKind::InvalidUse => "invalid use of bucket resource"@,
        DiagnosticKind::UnsupportedPermissionType => "unsupported bucket permission type"@,
        DiagnosticKind::NoPermissionsFound => "no bucket permissions found in type argument"@,
        DiagnosticKind::DepthExceeded => "bucket permission type is nested too deeply"@,
        DiagnosticKind::InvalidResourceName => "expected a string literal as the resource name"@,
        DiagnosticKind::InvalidConfig => "invalid bucket configuration"@,
    }
}

/// The errors reported so far, oldest first. A pass has failed if it ends
/// with any.
#[derive(Debug, Clone, PartialEq, Eq)]
pub struct Diagnostics {
    pub errors: Vec<Diagnostic>,
}

impl View for Diagnostics {
    type V = Seq<Diagnostic>;

    open spec fn view(&self) -> Seq<Diagnostic> {
        self.errors@
    }
}

impl Diagnostics {
    /// No errors.
    pub fn new() -> (diags: Self)
        ensures
            diags@ == Seq::<Diagnostic>::empty(),
    {
        Diagnostics { errors: Vec::new() }
    }

    /// Reports an error.
    pub fn err(&mut self, span: Span, kind: DiagnosticKind)
        ensures
            final(self)@ == old(self)@.push(Diagnostic { span, kind }),
    {
        self.errors.push(Diagnostic { span, kind });
    }

    /// How many errors were reported.
    pub fn error_count(&self) -> (n: usize)
        ensures
            n == self@.len(),
    {
        self.errors.len()
    }

    /// Whether any error was reported.
    pub fn has_errors(&self) -> (any: bool)
        ensures
            any == (self@.len() > 0),
    {
        self.errors.len() > 0
    }
}

} // verus!
