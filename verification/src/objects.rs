//! Object storage buckets: which operations a piece of code performs on a
//! bucket that it is bound to.
//!
//! A direct method call stands for one operation. A call to `ref` names the
//! operations in its type argument, from which they are inferred: a marker
//! interface stands for one operation, another named type for what its
//! definition stands for, a class for the operations of its methods, and an
//! intersection for the operations of both sides.
use std::rc::Rc;
use vstd::prelude::*;
use crate::diagnostics::Diagnostic;
use crate::diagnostics::DiagnosticKind;
use crate::diagnostics::Diagnostics;
use crate::diagnostics::Range;
use crate::diagnostics::Span;
use crate::objects::operations::listed;
use crate::objects::operations::OperationSet;
use crate::text::str_eq;
use crate::types::Generic;
use crate::types::Type;
use crate::types::TypeChecker;
use crate::usageparser::MethodCall;
use crate::usageparser::ResolveUsageData;
use crate::usageparser::TypeArg;
use crate::usageparser::Usage;
use crate::usageparser::UsageExpr;
use crate::usageparser::UsageExprKind;

pub mod laws;
pub mod operations;

verus! {

/// A declared bucket.
#[derive(Debug, Clone, PartialEq, Eq)]
pub struct Bucket {
    pub name: String,
    pub doc: Option<String>,
    pub versioned: bool,
}

/// A [`Bucket`] as mathematical values.
pub struct BucketView {
    pub name: Seq<char>,
    pub doc: Option<Seq<char>>,
    pub versioned: bool,
}

impl DeepView for Bucket {
    type V = BucketView;

    open spec fn deep_view(&self) -> BucketView {
        BucketView { name: self.name@, doc: self.doc.deep_view(), versioned: self.versioned }
    }
}

/// What can be done with the objects of a bucket.
#[derive(Debug, Clone, Copy, PartialEq, Eq, Hash, Structural)]
pub enum Operation {
    /// Listing objects and accessing their metadata during list operations.
    ListObjects,
    /// Reading the contents of an object.
    ReadObjectContents,
    /// Creating or updating an object, with contents and metadata.
    WriteObject,
    /// Updating the metadata of an object, without reading or writing its contents.
    UpdateObjectMetadata,
    /// Reading the metadata of an object, or checking for its existence.
    GetObjectMetadata,
    /// Deleting an object.
    DeleteObject,
}

/// The operations that a piece of code performs on a bucket: at least one,
/// none twice, in the order in which [`Operation`] declares them.
#[derive(Debug)]
pub struct BucketUsage {
    pub range: Range,
    pub bucket: Rc<Bucket>,
    pub ops: Vec<Operation>,
}

/// How many definitions deep a type argument is followed.
pub const MAX_DEPTH: usize = 10;

/// The operation that a method of a bucket stands for.
pub open spec fn method_operation(name: Seq<char>) -> Option<Operation> {
    if name == "list"@ {
        Some(Operation::ListObjects)
    } else if name == "exists"@ || name == "attrs"@ {
        Some(Operation::GetObjectMetadata)
    } else if name == "upload"@ {
        Some(Operation::WriteObject)
    } else if name == "download"@ {
        Some(Operation::ReadObjectContents)
    } else if name == "remove"@ {
        Some(Operation::DeleteObject)
    } else {
        None
    }
}

/// The operation that the marker interface of a given name stands for.
pub open spec fn marker_name_operation(name: Seq<char>) -> Option<Operation> {
    if name == "Lister"@ {
        Some(Operation::ListObjects)
    } else if name == "Attrser"@ {
        Some(Operation::GetObjectMetadata)
    } else if name == "Uploader"@ {
        Some(Operation::WriteObject)
    } else if name == "Downloader"@ {
        Some(Operation::ReadObjectContents)
    } else if name == "Remover"@ {
        Some(Operation::DeleteObject)
    } else {
        None
    }
}

/// The operation that a named type stands for as a marker interface.
pub open spec fn marker_operation(name: Option<String>) -> Option<Operation> {
    match name {
        Some(name) => marker_name_operation(name@),
        None => None,
    }
}

/// The set of at most one operation.
pub open spec fn optional_operation(op: Option<Operation>) -> Set<Operation> {
    match op {
        Some(op) => set![op],
        None => Set::empty(),
    }
}

/// The operations that the first `k` methods of a class stand for. Methods
/// that stand for none add nothing.
pub open spec fn methods_operations(methods: Seq<String>, k: int) -> Set<Operation>
    decreases k,
{
    if k <= 0 {
        Set::empty()
    } else {
        methods_operations(methods, k - 1).union(optional_operation(method_operation(methods[k - 1]@)))
    }
}

/// What inferring the operations of a type comes to.
pub enum Inferred {
    /// The type stands for these operations, possibly none.
    Found(Set<Operation>),
    /// The type stands for nothing.
    Nothing,
    /// The type refers to other types more deeply than is followed.
    TooDeep,
}

/// The operations of an outcome.
pub open spec fn inferred_operations(outcome: Inferred) -> Set<Operation> {
    match outcome {
        Inferred::Found(ops) => ops,
        _ => Set::empty(),
    }
}

/// The outcome for an intersection whose sides, neither of them too deep,
/// come to `x` and `y`: the operations of both, or nothing if there are none.
pub open spec fn intersect(x: Inferred, y: Inferred) -> Inferred {
    let ops = inferred_operations(x).union(inferred_operations(y));
    if ops == Set::<Operation>::empty() {
        Inferred::Nothing
    } else {
        Inferred::Found(ops)
    }
}

/// Infers the operations that type `t`, met at `depth`, stands for, and the
/// errors that doing so reports, all at `span`.
///
/// - Deeper than [`MAX_DEPTH`] the inference gives up with one error.
/// - A marker interface stands for its operation.
/// - Another named type stands for what its definition stands for, one
///   level deeper; a name without a definition is an unsupported type.
/// - A class stands for the operations of its methods.
/// - An intersection stands for the operations of both sides, each one
///   level deeper. If the first side is too deep the second is not looked at.
/// - Any other type is unsupported: it stands for nothing and is an error.
pub open spec fn infer(checker: TypeChecker, t: Type, depth: nat, span: Span) -> (Inferred, Seq<Diagnostic>)
    decreases MAX_DEPTH + 1 - depth, 1nat,
{
    if depth > MAX_DEPTH {
        (Inferred::TooDeep, seq![Diagnostic { span, kind: DiagnosticKind::DepthExceeded }])
    } else {
        match t {
            Type::Named(named) => match marker_operation(named.obj.name) {
                Some(op) => (Inferred::Found(set![op]), Seq::empty()),
                None => infer_definition(checker, checker.definition(named.obj), depth, span),
            },
            Type::Class(cls) => (
                Inferred::Found(methods_operations(cls.methods@, cls.methods@.len() as int)),
                Seq::empty(),
            ),
            Type::Generic(Generic::Intersection(both)) => {
                let x = infer(checker, *both.x, depth + 1, span);
                if x.0 is TooDeep {
                    x
                } else {
                    let y = infer(checker, *both.y, depth + 1, span);
                    if y.0 is TooDeep {
                        (Inferred::TooDeep, x.1 + y.1)
                    } else {
                        (intersect(x.0, y.0), x.1 + y.1)
                    }
                }
            },
            _ => (Inferred::Nothing, seq![unsupported(span)]),
        }
    }
}

/// What a named type that is no marker interface stands for, given its
/// definition.
pub open spec fn infer_definition(
    checker: TypeChecker,
    definition: Option<Type>,
    depth: nat,
    span: Span,
) -> (Inferred, Seq<Diagnostic>)
    decreases MAX_DEPTH + 1 - depth, 0nat,
{
    if depth > MAX_DEPTH {
        (Inferred::TooDeep, seq![Diagnostic { span, kind: DiagnosticKind::DepthExceeded }])
    } else {
        match definition {
            Some(underlying) => infer(checker, underlying, depth + 1, span),
            None => (Inferred::Nothing, seq![unsupported(span)]),
        }
    }
}

/// The error for a type of an unsupported shape.
pub open spec fn unsupported(span: Span) -> Diagnostic {
    Diagnostic { span, kind: DiagnosticKind::UnsupportedPermissionType }
}

/// What inferring the operations of a type has come to.
#[derive(Debug, Clone, Copy, PartialEq, Eq, Structural)]
pub enum Inference {
    /// The type stands for these operations, possibly none.
    Found(OperationSet),
    /// The type stands for nothing.
    Nothing,
    /// The type refers to other types more deeply than is followed.
    TooDeep,
}

impl View for Inference {
    type V = Inferred;

    open spec fn view(&self) -> Inferred {
        match self {
            Inference::Found(ops) => Inferred::Found(ops@),
            Inference::Nothing => Inferred::Nothing,
            Inference::TooDeep => Inferred::TooDeep,
        }
    }
}

/// The operation that a method of a bucket stands for.
pub fn operation_of_method(name: &str) -> (op: Option<Operation>)
    ensures
        op == method_operation(name@),
{
    if str_eq(name, "list") {
        Some(Operation::ListObjects)
    } else if str_eq(name, "exists") || str_eq(name, "attrs") {
        Some(Operation::GetObjectMetadata)
    } else if str_eq(name, "upload") {
        Some(Operation::WriteObject)
    } else if str_eq(name, "download") {
        Some(Operation::ReadObjectContents)
    } else if str_eq(name, "remove") {
        Some(Operation::DeleteObject)
    } else {
        None
    }
}

/// The operation that a marker interface stands for.
pub fn operation_of_marker(name: &Option<String>) -> (op: Option<Operation>)
    ensures
        op == marker_operation(*name),
{
    match name {
        Some(name) => {
            let name = name.as_str();
            if str_eq(name, "Lister") {
                Some(Operation::ListObjects)
            } else if str_eq(name, "Attrser") {
                Some(Operation::GetObjectMetadata)
            } else if str_eq(name, "Uploader") {
                Some(Operation::WriteObject)
            } else if str_eq(name, "Downloader") {
                Some(Operation::ReadObjectContents)
            } else if str_eq(name, "Remover") {
                Some(Operation::DeleteObject)
            } else {
                None
            }
        },
        None => None,
    }
}

/// The operations that the methods of a class stand for.
pub fn operations_of_methods(methods: &Vec<String>) -> (ops: OperationSet)
    ensures
        ops@ == methods_operations(methods@, methods@.len() as int),
{
    let mut ops = OperationSet::empty();
    let mut i: usize = 0;
    while i < methods.len()
        invariant
            i <= methods.len(),
            ops@ == methods_operations(methods@, i as int),
        decreases methods.len() - i,
    {
        match operation_of_method(methods[i].as_str()) {
            Some(op) => {
                ops.insert(op);
                assert(ops@ =~= methods_operations(methods@, i + 1));
            },
            None => {
                assert(ops@ =~= methods_operations(methods@, i + 1));
            },
        }
        i += 1;
    }
    ops
}

/// Infers the operations that type `t`, met at `depth`, stands for, and
/// reports what is wrong with it at `span`.
pub fn process_type(
    checker: &TypeChecker,
    span: Span,
    t: &Type,
    depth: usize,
    diags: &mut Diagnostics,
) -> (outcome: Inference)
    ensures
        outcome@ == infer(*checker, *t, depth as nat, span).0,
        final(diags)@ == old(diags)@ + infer(*checker, *t, depth as nat, span).1,
    decreases MAX_DEPTH + 1 - depth,
{
    if depth > MAX_DEPTH {
        diags.err(span, DiagnosticKind::DepthExceeded);
        assert(diags@ =~= old(diags)@ + infer(*checker, *t, depth as nat, span).1);
        return Inference::TooDeep;
    }
    match t {
        Type::Named(named) => match operation_of_marker(&named.obj.name) {
            Some(op) => {
                assert(diags@ =~= old(diags)@ + Seq::<Diagnostic>::empty());
                Inference::Found(OperationSet::single(op))
            },
            None => match checker.resolve_obj_type(&named.obj) {
                Some(underlying) => {
                    assert(infer(*checker, *t, depth as nat, span) == infer_definition(
                        *checker,
                        Some(*underlying),
                        depth as nat,
                        span,
                    ));
                    process_type(checker, span, underlying, depth + 1, diags)
                },
                None => {
                    assert(infer(*checker, *t, depth as nat, span) == infer_definition(
                        *checker,
                        None,
                        depth as nat,
                        span,
                    ));
                    diags.err(span, DiagnosticKind::UnsupportedPermissionType);
                    assert(diags@ =~= old(diags)@ + seq![unsupported(span)]);
                    Inference::Nothing
                },
            },
        },
        Type::Class(cls) => {
            assert(diags@ =~= old(diags)@ + Seq::<Diagnostic>::empty());
            Inference::Found(operations_of_methods(&cls.methods))
        },
        Type::Generic(Generic::Intersection(both)) => {
            let x = process_type(checker, span, &both.x, depth + 1, diags);
            if let Inference::TooDeep = x {
                return x;
            }
            let y = process_type(checker, span, &both.y, depth + 1, diags);
            proof {
                let sx = infer(*checker, *both.x, (depth + 1) as nat, span);
                let sy = infer(*checker, *both.y, (depth + 1) as nat, span);
                assert(diags@ =~= old(diags)@ + (sx.1 + sy.1));
            }
            if let Inference::TooDeep = y {
                return Inference::TooDeep;
            }
            let ops = operations_of(x).union(&operations_of(y));
            if ops.is_empty() {
                Inference::Nothing
            } else {
                Inference::Found(ops)
            }
        },
        _ => {
            diags.err(span, DiagnosticKind::UnsupportedPermissionType);
            assert(diags@ =~= old(diags)@ + seq![unsupported(span)]);
            Inference::Nothing
        },
    }
}

/// The operations of an outcome.
pub fn operations_of(outcome: Inference) -> (ops: OperationSet)
    ensures
        ops@ == inferred_operations(outcome@),
{
    match outcome {
        Inference::Found(ops) => ops,
        _ => OperationSet::empty(),
    }
}

/// What resolving a usage comes to: the operations of the usage, if there
/// is one, and the errors reported.
pub struct Resolved {
    pub ops: Option<Seq<Operation>>,
    pub diagnostics: Seq<Diagnostic>,
}

/// What a call to `ref` with the type argument `arg` comes to. The
/// operations of the type are inferred. Where that gives up there is no
/// usage; where it finds no operation there is none either, and one more
/// error says so.
pub open spec fn resolve_type_arg(checker: TypeChecker, arg: TypeArg) -> Resolved {
    let inferred = infer(checker, arg.typ, 0, arg.span);
    match inferred.0 {
        Inferred::TooDeep => Resolved { ops: None, diagnostics: inferred.1 },
        outcome => if inferred_operations(outcome) == Set::<Operation>::empty() {
            Resolved {
                ops: None,
                diagnostics: inferred.1.push(
                    Diagnostic { span: arg.span, kind: DiagnosticKind::NoPermissionsFound },
                ),
            }
        } else {
            Resolved { ops: Some(listed(inferred_operations(outcome))), diagnostics: inferred.1 }
        },
    }
}

/// What a method call on a bucket comes to. A call to `ref` is resolved by
/// its type argument and is an error unless it has exactly one; any other
/// method stands for its one operation and is an error if it stands for
/// none.
pub open spec fn resolve_call(checker: TypeChecker, call: MethodCall) -> Resolved {
    if call.method.name@ == "ref"@ {
        match call.type_args {
            Some(args) => if args@.len() == 1 {
                resolve_type_arg(checker, args@[0])
            } else {
                not_one_type_argument(call)
            },
            None => not_one_type_argument(call),
        }
    } else {
        match method_operation(call.method.name@) {
            Some(op) => Resolved { ops: Some(seq![op]), diagnostics: Seq::empty() },
            None => Resolved {
                ops: None,
                diagnostics: seq![
                    Diagnostic { span: call.method.span, kind: DiagnosticKind::UnsupportedOperation },
                ],
            },
        }
    }
}

/// What a call to `ref` with no type argument, or with more than one,
/// comes to: no usage and one error at the call.
pub open spec fn not_one_type_argument(call: MethodCall) -> Resolved {
    Resolved {
        ops: None,
        diagnostics: seq![Diagnostic { span: call.span, kind: DiagnosticKind::TypeArgumentCount }],
    }
}

/// What an expression that uses a bucket comes to. Anything but a method
/// call is an error.
pub open spec fn resolve_expr(checker: TypeChecker, expr: UsageExpr) -> Resolved {
    match expr.kind {
        UsageExprKind::MethodCall(call) => resolve_call(checker, call),
        _ => Resolved {
            ops: None,
            diagnostics: seq![
                Diagnostic {
                    span: Span { lo: expr.range.start, hi: expr.range.end },
                    kind: DiagnosticKind::InvalidUse,
                },
            ],
        },
    }
}

/// Whether `usage` is what `resolved` asks for: a usage of `bucket` at
/// `range` with the resolved operations, or none.
pub open spec fn usage_matches(
    usage: Option<Usage>,
    resolved: Resolved,
    range: Range,
    bucket: Rc<Bucket>,
) -> bool {
    match resolved.ops {
        Some(ops) => usage matches Some(Usage::Bucket(u)) && u.range == range && u.bucket == bucket
            && u.ops@ == ops,
        None => usage is None,
    }
}

/// Resolves how an expression uses the bucket it is bound to.
pub fn resolve_bucket_usage(data: &ResolveUsageData, bucket: Rc<Bucket>, diags: &mut Diagnostics) -> (usage:
    Option<Usage>)
    ensures
        usage_matches(usage, resolve_expr(*data.type_checker, *data.expr), data.expr.range, bucket),
        final(diags)@ == old(diags)@ + resolve_expr(*data.type_checker, *data.expr).diagnostics,
{
    match &data.expr.kind {
        UsageExprKind::MethodCall(call) => {
            if str_eq(call.method.name.as_str(), "ref") {
                let type_arg = match &call.type_args {
                    Some(args) => if args.len() == 1 {
                        Some(&args[0])
                    } else {
                        None
                    },
                    None => None,
                };
                return match type_arg {
                    Some(type_arg) => parse_bucket_ref(data, bucket, call, type_arg, diags),
                    None => {
                        diags.err(call.span, DiagnosticKind::TypeArgumentCount);
                        assert(diags@ =~= old(diags)@ + not_one_type_argument(*call).diagnostics);
                        None
                    },
                };
            }
            match operation_of_method(call.method.name.as_str()) {
                Some(op) => {
                    let mut ops: Vec<Operation> = Vec::new();
                    ops.push(op);
                    assert(ops@ =~= seq![op]);
                    assert(diags@ =~= old(diags)@ + Seq::<Diagnostic>::empty());
                    Some(Usage::Bucket(BucketUsage { range: data.expr.range, bucket, ops }))
                },
                None => {
                    diags.err(call.method.span, DiagnosticKind::UnsupportedOperation);
                    assert(diags@ =~= old(diags)@ + resolve_call(*data.type_checker, *call).diagnostics);
                    None
                },
            }
        },
        _ => {
            diags.err(data.expr.range.to_span(), DiagnosticKind::InvalidUse);
            assert(diags@ =~= old(diags)@ + resolve_expr(*data.type_checker, *data.expr).diagnostics);
            None
        },
    }
}

/// Resolves a call to `ref` by its type argument.
pub fn parse_bucket_ref(
    data: &ResolveUsageData,
    bucket: Rc<Bucket>,
    _call: &MethodCall,
    type_arg: &TypeArg,
    diags: &mut Diagnostics,
) -> (usage: Option<Usage>)
    ensures
        usage_matches(usage, resolve_type_arg(*data.type_checker, *type_arg), data.expr.range, bucket),
        final(diags)@ == old(diags)@ + resolve_type_arg(*data.type_checker, *type_arg).diagnostics,
{
    let outcome = process_type(data.type_checker, type_arg.span, &type_arg.typ, 0, diags);
    if let Inference::TooDeep = outcome {
        return None;
    }
    let ops = operations_of(outcome);
    if ops.is_empty() {
        diags.err(type_arg.span, DiagnosticKind::NoPermissionsFound);
        assert(diags@ =~= old(diags)@ + resolve_type_arg(*data.type_checker, *type_arg).diagnostics);
        None
    } else {
        Some(Usage::Bucket(BucketUsage { range: data.expr.range, bucket, ops: ops.to_vec() }))
    }
}

} // verus!
