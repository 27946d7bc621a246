//! What holds of the usages that are resolved, whatever the types.
use vstd::prelude::*;
use crate::diagnostics::Diagnostic;
use crate::diagnostics::DiagnosticKind;
use crate::diagnostics::Span;
use crate::objects::infer;
use crate::objects::infer_definition;
use crate::objects::inferred_operations;
use crate::objects::marker_name_operation;
use crate::objects::marker_operation;
use crate::objects::method_operation;
use crate::objects::operations::lemma_listed;
use crate::objects::operations::listed;
use crate::objects::resolve_call;
use crate::objects::resolve_expr;
use crate::objects::resolve_type_arg;
use crate::objects::Inferred;
use crate::objects::Operation;
use crate::objects::MAX_DEPTH;
use crate::types::Generic;
use crate::types::Intersection;
use crate::types::Type;
use crate::types::TypeChecker;
use crate::usageparser::MethodCall;
use crate::usageparser::TypeArg;
use crate::usageparser::UsageExpr;
use crate::usageparser::UsageExprKind;

verus! {

/// The intersection of two types.
pub open spec fn intersection_of(x: Type, y: Type) -> Type {
    Type::Generic(Generic::Intersection(Intersection { x: Box::new(x), y: Box::new(y) }))
}

/// Whether following the definitions from `t` leads through at least
/// `links` named types, none of them a marker interface.
pub open spec fn alias_chain(checker: TypeChecker, t: Type, links: nat) -> bool
    decreases links,
{
    if links == 0 {
        true
    } else {
        match t {
            Type::Named(named) => marker_operation(named.obj.name) is None && match checker.definition(
                named.obj,
            ) {
                Some(underlying) => alias_chain(checker, underlying, (links - 1) as nat),
                None => false,
            },
            _ => false,
        }
    }
}

/// The five marker interfaces stand for listing, reading metadata, writing,
/// reading contents and deleting; no other name is a marker interface.
pub proof fn lemma_marker_names()
    ensures
        marker_name_operation("Lister"@) == Some(Operation::ListObjects),
        marker_name_operation("Attrser"@) == Some(Operation::GetObjectMetadata),
        marker_name_operation("Uploader"@) == Some(Operation::WriteObject),
        marker_name_operation("Downloader"@) == Some(Operation::ReadObjectContents),
        marker_name_operation("Remover"@) == Some(Operation::DeleteObject),
        forall|name: Seq<char>|
            name != "Lister"@ && name != "Attrser"@ && name != "Uploader"@ && name != "Downloader"@ && name
                != "Remover"@ ==> #[trigger] marker_name_operation(name) is None,
{
    reveal_strlit("Lister");
    reveal_strlit("Attrser");
    reveal_strlit("Uploader");
    reveal_strlit("Downloader");
    reveal_strlit("Remover");
    assert("Attrser"@.len() != "Lister"@.len());
    assert("Uploader"@.len() != "Lister"@.len());
    assert("Uploader"@.len() != "Attrser"@.len());
    assert("Downloader"@.len() != "Lister"@.len());
    assert("Downloader"@.len() != "Attrser"@.len());
    assert("Downloader"@.len() != "Uploader"@.len());
    assert("Remover"@[0] != "Attrser"@[0]);
    assert("Remover"@.len() != "Lister"@.len());
    assert("Remover"@.len() != "Uploader"@.len());
    assert("Remover"@.len() != "Downloader"@.len());
}

/// The methods `list`, `exists`, `attrs`, `upload`, `download` and `remove`
/// stand for listing, reading metadata (twice), writing, reading contents
/// and deleting; no other method stands for an operation.
pub proof fn lemma_method_names()
    ensures
        method_operation("list"@) == Some(Operation::ListObjects),
        method_operation("exists"@) == Some(Operation::GetObjectMetadata),
        method_operation("attrs"@) == Some(Operation::GetObjectMetadata),
        method_operation("upload"@) == Some(Operation::WriteObject),
        method_operation("download"@) == Some(Operation::ReadObjectContents),
        method_operation("remove"@) == Some(Operation::DeleteObject),
        forall|name: Seq<char>|
            name != "list"@ && name != "exists"@ && name != "attrs"@ && name != "upload"@ && name
                != "download"@ && name != "remove"@ ==> #[trigger] method_operation(name) is None,
{
    reveal_strlit("list");
    reveal_strlit("exists");
    reveal_strlit("attrs");
    reveal_strlit("upload");
    reveal_strlit("download");
    reveal_strlit("remove");
    assert("exists"@.len() != "list"@.len());
    assert("attrs"@.len() != "list"@.len());
    assert("upload"@.len() != "list"@.len());
    assert("upload"@[0] != "exists"@[0]);
    assert("upload"@.len() != "attrs"@.len());
    assert("download"@.len() != "list"@.len());
    assert("download"@.len() != "exists"@.len());
    assert("download"@.len() != "attrs"@.len());
    assert("download"@.len() != "upload"@.len());
    assert("remove"@.len() != "list"@.len());
    assert("remove"@[0] != "exists"@[0]);
    assert("remove"@.len() != "attrs"@.len());
    assert("remove"@[0] != "upload"@[0]);
    assert("remove"@.len() != "download"@.len());
}

/// A call of a method other than `ref` comes to a usage with the one
/// operation that the method stands for and no error, or, where it stands
/// for none, to no usage and one error at the method's name.
pub proof fn lemma_direct_call(checker: TypeChecker, call: MethodCall)
    requires
        call.method.name@ != "ref"@,
    ensures
        match method_operation(call.method.name@) {
            Some(op) => resolve_call(checker, call).ops == Some(seq![op]) && resolve_call(
                checker,
                call,
            ).diagnostics.len() == 0,
            None => resolve_call(checker, call).ops is None && resolve_call(checker, call).diagnostics
                == seq![Diagnostic { span: call.method.span, kind: DiagnosticKind::UnsupportedOperation }],
        },
{
}

/// A call to `ref` whose type argument is a marker interface comes to a
/// usage with exactly the operation of that interface, and to no error.
pub proof fn lemma_marker_usage(checker: TypeChecker, arg: TypeArg, op: Operation)
    requires
        arg.typ matches Type::Named(named) && marker_operation(named.obj.name) == Some(op),
    ensures
        resolve_type_arg(checker, arg).ops == Some(seq![op]),
        resolve_type_arg(checker, arg).diagnostics.len() == 0,
{
    assert(set![op].contains(op));
    assert(listed(set![op]) =~= seq![op]);
}

/// The operations inferred for an intersection do not depend on the order
/// of its sides.
pub proof fn lemma_intersection_symmetric(checker: TypeChecker, x: Type, y: Type, depth: nat, span: Span)
    ensures
        infer(checker, intersection_of(x, y), depth, span).0 == infer(
            checker,
            intersection_of(y, x),
            depth,
            span,
        ).0,
{
    if depth <= MAX_DEPTH {
        let ix = infer(checker, x, depth + 1, span).0;
        let iy = infer(checker, y, depth + 1, span).0;
        assert(inferred_operations(ix).union(inferred_operations(iy)) =~= inferred_operations(iy).union(
            inferred_operations(ix),
        ));
    }
}

/// A call to `ref` whose type argument is the intersection of two marker
/// interfaces comes to a usage with the operations of both, each once, and
/// to no error; the order of the two sides makes no difference.
pub proof fn lemma_marker_intersection_usage(
    checker: TypeChecker,
    span: Span,
    a: Type,
    b: Type,
    op_a: Operation,
    op_b: Operation,
)
    requires
        a matches Type::Named(named) && marker_operation(named.obj.name) == Some(op_a),
        b matches Type::Named(named) && marker_operation(named.obj.name) == Some(op_b),
    ensures
        resolve_type_arg(checker, TypeArg { span, typ: intersection_of(a, b) }).ops == Some(
            listed(set![op_a, op_b]),
        ),
        resolve_type_arg(checker, TypeArg { span, typ: intersection_of(a, b) }).diagnostics.len() == 0,
        resolve_type_arg(checker, TypeArg { span, typ: intersection_of(a, b) }) == resolve_type_arg(
            checker,
            TypeArg { span, typ: intersection_of(b, a) },
        ),
        listed(set![op_a, op_b]).no_duplicates(),
        forall|op: Operation| listed(set![op_a, op_b]).contains(op) <==> (op == op_a || op == op_b),
{
    let ab = set![op_a].union(set![op_b]);
    let ba = set![op_b].union(set![op_a]);
    assert(ab =~= set![op_a, op_b]);
    assert(ba =~= set![op_a, op_b]);
    assert(ab.contains(op_a));
    assert(infer(checker, a, 1, span) == (Inferred::Found(set![op_a]), Seq::<Diagnostic>::empty()));
    assert(infer(checker, b, 1, span) == (Inferred::Found(set![op_b]), Seq::<Diagnostic>::empty()));
    assert(Seq::<Diagnostic>::empty() + Seq::<Diagnostic>::empty() =~= Seq::<Diagnostic>::empty());
    lemma_listed(set![op_a, op_b]);
}

/// Following a chain of named types past the depth limit gives up with
/// exactly one error.
pub proof fn lemma_alias_chain_too_deep(checker: TypeChecker, t: Type, depth: nat, links: nat, span: Span)
    requires
        alias_chain(checker, t, links),
        depth + links > MAX_DEPTH,
    ensures
        infer(checker, t, depth, span) == (
            Inferred::TooDeep,
            seq![Diagnostic { span, kind: DiagnosticKind::DepthExceeded }],
        ),
    decreases links,
{
    if depth <= MAX_DEPTH {
        match t {
            Type::Named(named) => {
                let underlying = checker.definition(named.obj)->0;
                assert(infer(checker, t, depth, span) == infer_definition(
                    checker,
                    Some(underlying),
                    depth,
                    span,
                ));
                lemma_alias_chain_too_deep(checker, underlying, depth + 1, (links - 1) as nat, span);
            },
            _ => {},
        }
    }
}

/// A call to `ref` whose type argument is a chain of more named types than
/// the depth limit allows comes to no usage and to exactly one error, which
/// says that the limit was exceeded.
pub proof fn lemma_alias_chain_usage(checker: TypeChecker, arg: TypeArg)
    requires
        alias_chain(checker, arg.typ, (MAX_DEPTH + 1) as nat),
    ensures
        resolve_type_arg(checker, arg).ops is None,
        resolve_type_arg(checker, arg).diagnostics == seq![
            Diagnostic { span: arg.span, kind: DiagnosticKind::DepthExceeded },
        ],
{
    lemma_alias_chain_too_deep(checker, arg.typ, 0, (MAX_DEPTH + 1) as nat, arg.span);
}

/// A usage names at least one operation, and none twice.
pub proof fn lemma_usage_operations(checker: TypeChecker, expr: UsageExpr)
    ensures
        resolve_expr(checker, expr).ops matches Some(ops) ==> ops.len() > 0 && ops.no_duplicates(),
{
    if let UsageExprKind::MethodCall(call) = expr.kind {
        if call.method.name@ == "ref"@ {
            if let Some(args) = call.type_args {
                if args@.len() == 1 {
                    let arg = args@[0];
                    let found = inferred_operations(infer(checker, arg.typ, 0, arg.span).0);
                    lemma_listed(found);
                    if found != Set::<Operation>::empty() {
                        assert(!(found =~= Set::<Operation>::empty()));
                        let op = choose|op: Operation| found.contains(op);
                        assert(listed(found).contains(op));
                    }
                }
            }
        }
    }
}

/// A call to `ref` that does not have exactly one type argument comes to
/// no usage and to exactly one error, at the call.
pub proof fn lemma_ref_needs_one_type_argument(checker: TypeChecker, call: MethodCall)
    requires
        call.method.name@ == "ref"@,
        !(call.type_args matches Some(args) && args@.len() == 1),
    ensures
        resolve_call(checker, call).ops is None,
        resolve_call(checker, call).diagnostics == seq![
            Diagnostic { span: call.span, kind: DiagnosticKind::TypeArgumentCount },
        ],
{
}

} // verus!
