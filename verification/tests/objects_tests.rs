use std::rc::Rc;
use tsparser::diagnostics::Diagnostic;
use tsparser::diagnostics::DiagnosticKind;
use tsparser::diagnostics::Diagnostics;
use tsparser::diagnostics::Range;
use tsparser::diagnostics::Span;
use tsparser::objects::parse_bucket_ref;
use tsparser::objects::process_type;
use tsparser::objects::resolve_bucket_usage;
use tsparser::objects::Bucket;
use tsparser::objects::BucketUsage;
use tsparser::objects::Inference;
use tsparser::objects::Operation;
use tsparser::objects::operations::OperationSet;
use tsparser::objects::MAX_DEPTH;
use tsparser::types::Basic;
use tsparser::types::ClassType;
use tsparser::types::Generic;
use tsparser::types::Intersection;
use tsparser::types::Named;
use tsparser::types::Object;
use tsparser::types::Type;
use tsparser::types::TypeChecker;
use tsparser::usageparser::Ident;
use tsparser::usageparser::MethodCall;
use tsparser::usageparser::ResolveUsageData;
use tsparser::usageparser::TypeArg;
use tsparser::usageparser::Usage;
use tsparser::usageparser::UsageExpr;
use tsparser::usageparser::UsageExprKind;

const EXPR: Range = Range { start: 100, end: 130 };
const CALL: Span = Span { lo: 100, hi: 130 };
const METHOD: Span = Span { lo: 107, hi: 110 };
const ARG: Span = Span { lo: 111, hi: 120 };

fn images() -> Rc<Bucket> {
    Rc::new(Bucket { name: "images".to_string(), doc: None, versioned: true })
}

fn no_types() -> TypeChecker {
    TypeChecker { definitions: vec![], bindings: vec![] }
}

fn named(name: &str, id: usize) -> Type {
    Type::Named(Named { obj: Object { name: Some(name.to_string()), id } })
}

fn both(x: Type, y: Type) -> Type {
    Type::Generic(Generic::Intersection(Intersection { x: Box::new(x), y: Box::new(y) }))
}

fn class(methods: &[&str]) -> Type {
    Type::Class(ClassType { methods: methods.iter().map(|m| m.to_string()).collect() })
}

fn call(method: &str, type_args: Option<Vec<TypeArg>>) -> UsageExpr {
    UsageExpr {
        range: EXPR,
        kind: UsageExprKind::MethodCall(MethodCall {
            method: Ident { name: method.to_string(), span: METHOD },
            span: CALL,
            type_args,
        }),
    }
}

fn reference(typ: Type) -> UsageExpr {
    call("ref", Some(vec![TypeArg { span: ARG, typ }]))
}

fn resolve(checker: &TypeChecker, expr: &UsageExpr) -> (Option<BucketUsage>, Vec<Diagnostic>) {
    let mut diags = Diagnostics::new();
    let data = ResolveUsageData { expr, type_checker: checker };
    let usage = resolve_bucket_usage(&data, images(), &mut diags);
    let usage = usage.map(|usage| match usage {
        Usage::Bucket(usage) => usage,
    });
    (usage, diags.errors)
}

fn ops_of(checker: &TypeChecker, expr: &UsageExpr) -> Vec<Operation> {
    let (usage, diags) = resolve(checker, expr);
    assert_eq!(diags, vec![]);
    let usage = usage.expect("a usage");
    assert_eq!(usage.range, EXPR);
    assert_eq!(usage.bucket.name, "images");
    usage.ops
}

fn error(span: Span, kind: DiagnosticKind) -> Diagnostic {
    Diagnostic { span, kind }
}

#[test]
fn direct_calls_stand_for_their_operation() {
    let cases = [
        ("list", Operation::ListObjects),
        ("exists", Operation::GetObjectMetadata),
        ("attrs", Operation::GetObjectMetadata),
        ("upload", Operation::WriteObject),
        ("download", Operation::ReadObjectContents),
        ("remove", Operation::DeleteObject),
    ];
    for (method, op) in cases {
        assert_eq!(ops_of(&no_types(), &call(method, None)), vec![op]);
    }
}

#[test]
fn an_unknown_method_is_an_error_at_its_name() {
    let (usage, diags) = resolve(&no_types(), &call("rename", None));
    assert!(usage.is_none());
    assert_eq!(diags, vec![error(METHOD, DiagnosticKind::UnsupportedOperation)]);
    assert_eq!(diags[0].msg(), "unsupported bucket operation");
}

#[test]
fn anything_but_a_call_is_an_invalid_use() {
    for kind in [
        UsageExprKind::FieldAccess(Ident { name: "name".to_string(), span: METHOD }),
        UsageExprKind::CallArg,
        UsageExprKind::ConstructorArg,
        UsageExprKind::Other,
    ] {
        let (usage, diags) = resolve(&no_types(), &UsageExpr { range: EXPR, kind });
        assert!(usage.is_none());
        assert_eq!(diags, vec![error(Span { lo: 100, hi: 130 }, DiagnosticKind::InvalidUse)]);
    }
}

#[test]
fn ref_without_a_type_argument_is_an_error_at_the_call() {
    for type_args in [None, Some(vec![])] {
        let (usage, diags) = resolve(&no_types(), &call("ref", type_args));
        assert!(usage.is_none());
        assert_eq!(diags, vec![error(CALL, DiagnosticKind::TypeArgumentCount)]);
    }
}

#[test]
fn ref_with_more_than_one_type_argument_is_an_error_at_the_call() {
    // images.ref<Uploader, Lister>()
    let two = vec![
        TypeArg { span: ARG, typ: named("Uploader", 0) },
        TypeArg { span: ARG, typ: named("Lister", 0) },
    ];
    let (usage, diags) = resolve(&no_types(), &call("ref", Some(two)));
    assert!(usage.is_none());
    assert_eq!(diags, vec![error(CALL, DiagnosticKind::TypeArgumentCount)]);
    let three = vec![
        TypeArg { span: ARG, typ: named("Uploader", 0) },
        TypeArg { span: ARG, typ: Type::Basic(Basic::Any) },
        TypeArg { span: ARG, typ: named("Lister", 0) },
    ];
    let (usage, diags) = resolve(&no_types(), &call("ref", Some(three)));
    assert!(usage.is_none());
    assert_eq!(diags, vec![error(CALL, DiagnosticKind::TypeArgumentCount)]);
}

#[test]
fn each_marker_interface_stands_for_one_operation() {
    let cases = [
        ("Lister", Operation::ListObjects),
        ("Attrser", Operation::GetObjectMetadata),
        ("Uploader", Operation::WriteObject),
        ("Downloader", Operation::ReadObjectContents),
        ("Remover", Operation::DeleteObject),
    ];
    for (marker, op) in cases {
        assert_eq!(ops_of(&no_types(), &reference(named(marker, 0))), vec![op]);
    }
}

#[test]
fn images_ref_uploader_writes_to_images() {
    let (usage, diags) = resolve(&no_types(), &reference(named("Uploader", 0)));
    let usage = usage.unwrap();
    assert_eq!(diags, vec![]);
    assert_eq!(usage.bucket.name, "images");
    assert!(usage.bucket.versioned);
    assert_eq!(usage.ops, vec![Operation::WriteObject]);
}

#[test]
fn an_intersection_stands_for_both_sides_in_either_order() {
    let ab = ops_of(&no_types(), &reference(both(named("Uploader", 0), named("Lister", 0))));
    let ba = ops_of(&no_types(), &reference(both(named("Lister", 0), named("Uploader", 0))));
    assert_eq!(ab, vec![Operation::ListObjects, Operation::WriteObject]);
    assert_eq!(ab, ba);
}

#[test]
fn an_intersection_of_the_same_marker_names_it_once() {
    let ops = ops_of(&no_types(), &reference(both(named("Remover", 0), named("Remover", 0))));
    assert_eq!(ops, vec![Operation::DeleteObject]);
}

#[test]
fn nested_intersections_name_every_operation_once() {
    let typ = both(
        both(named("Remover", 0), named("Downloader", 0)),
        both(named("Attrser", 0), both(named("Uploader", 0), both(named("Lister", 0), named("Remover", 0)))),
    );
    assert_eq!(
        ops_of(&no_types(), &reference(typ)),
        vec![
            Operation::ListObjects,
            Operation::ReadObjectContents,
            Operation::WriteObject,
            Operation::GetObjectMetadata,
            Operation::DeleteObject,
        ]
    );
}

#[test]
fn a_named_type_stands_for_its_definition() {
    // type ReadWrite = Downloader & Uploader; type Mine = ReadWrite
    let checker = TypeChecker {
        definitions: vec![both(named("Downloader", 9), named("Uploader", 9)), named("ReadWrite", 0)],
        bindings: vec![],
    };
    assert_eq!(
        ops_of(&checker, &reference(named("Mine", 1))),
        vec![Operation::ReadObjectContents, Operation::WriteObject]
    );
}

#[test]
fn a_class_stands_for_the_operations_of_its_methods() {
    let typ = class(&["exists", "helper", "list", "attrs", "toString"]);
    assert_eq!(
        ops_of(&no_types(), &reference(typ)),
        vec![Operation::ListObjects, Operation::GetObjectMetadata]
    );
}

#[test]
fn a_class_without_bucket_methods_grants_nothing() {
    let (usage, diags) = resolve(&no_types(), &reference(class(&["helper"])));
    assert!(usage.is_none());
    assert_eq!(diags, vec![error(ARG, DiagnosticKind::NoPermissionsFound)]);
}

#[test]
fn an_unsupported_type_is_an_error_and_grants_nothing() {
    for typ in [
        Type::Basic(Basic::String),
        Type::Array(Box::new(named("Lister", 0))),
        Type::Union(vec![named("Lister", 0), named("Remover", 0)]),
    ] {
        let (usage, diags) = resolve(&no_types(), &reference(typ));
        assert!(usage.is_none());
        assert_eq!(
            diags,
            vec![
                error(ARG, DiagnosticKind::UnsupportedPermissionType),
                error(ARG, DiagnosticKind::NoPermissionsFound),
            ]
        );
    }
}

#[test]
fn a_name_without_a_definition_is_unsupported() {
    let (usage, diags) = resolve(&no_types(), &reference(named("Mystery", 5)));
    assert!(usage.is_none());
    assert_eq!(
        diags,
        vec![
            error(ARG, DiagnosticKind::UnsupportedPermissionType),
            error(ARG, DiagnosticKind::NoPermissionsFound),
        ]
    );
}

#[test]
fn one_unsupported_side_leaves_the_other() {
    let typ = both(Type::Basic(Basic::Number), named("Lister", 0));
    let (usage, diags) = resolve(&no_types(), &reference(typ));
    assert_eq!(usage.unwrap().ops, vec![Operation::ListObjects]);
    assert_eq!(diags, vec![error(ARG, DiagnosticKind::UnsupportedPermissionType)]);
}

/// A checker in which `A0` is defined as `A1`, `A1` as `A2` and so on, and
/// the last of `links` names as the marker interface `Lister`.
fn chain(links: usize) -> TypeChecker {
    let mut definitions = Vec::new();
    for i in 0..links {
        if i + 1 < links {
            definitions.push(named(&format!("A{}", i + 1), i + 1));
        } else {
            definitions.push(named("Lister", 0));
        }
    }
    TypeChecker { definitions, bindings: vec![] }
}

#[test]
fn a_chain_up_to_the_depth_limit_is_followed() {
    assert_eq!(MAX_DEPTH, 10);
    for links in 1..=MAX_DEPTH {
        assert_eq!(ops_of(&chain(links), &reference(named("A0", 0))), vec![Operation::ListObjects]);
    }
}

#[test]
fn a_chain_past_the_depth_limit_gives_up_with_one_error() {
    for links in [MAX_DEPTH + 1, MAX_DEPTH + 2, 50] {
        let (usage, diags) = resolve(&chain(links), &reference(named("A0", 0)));
        assert!(usage.is_none());
        assert_eq!(diags, vec![error(ARG, DiagnosticKind::DepthExceeded)]);
    }
}

#[test]
fn types_that_name_each_other_give_up_with_one_error() {
    // type A = B; type B = A
    let checker = TypeChecker { definitions: vec![named("B", 1), named("A", 0)], bindings: vec![] };
    let (usage, diags) = resolve(&checker, &reference(named("A", 0)));
    assert!(usage.is_none());
    assert_eq!(diags, vec![error(ARG, DiagnosticKind::DepthExceeded)]);
    assert_eq!(diags[0].msg(), "bucket permission type is nested too deeply");
}

#[test]
fn giving_up_on_one_side_gives_up_on_all() {
    let checker = TypeChecker { definitions: vec![named("B", 1), named("A", 0)], bindings: vec![] };
    let (usage, diags) = resolve(&checker, &reference(both(named("Lister", 9), named("A", 0))));
    assert!(usage.is_none());
    assert_eq!(diags, vec![error(ARG, DiagnosticKind::DepthExceeded)]);
    let (usage, diags) = resolve(&checker, &reference(both(named("A", 0), Type::Basic(Basic::Any))));
    assert!(usage.is_none());
    assert_eq!(diags, vec![error(ARG, DiagnosticKind::DepthExceeded)]);
}

#[test]
fn resolving_again_gives_the_same_usage() {
    let checker = chain(3);
    let expr = reference(both(named("A0", 0), class(&["remove", "x"])));
    let first = resolve(&checker, &expr);
    let second = resolve(&checker, &expr);
    assert_eq!(first.0.unwrap().ops, second.0.unwrap().ops);
    assert_eq!(first.1, second.1);
}

#[test]
fn inference_reports_where_it_is_told_to() {
    let mut diags = Diagnostics::new();
    let span = Span { lo: 7, hi: 9 };
    let outcome = process_type(&no_types(), span, &Type::Basic(Basic::Void), 0, &mut diags);
    assert_eq!(outcome, Inference::Nothing);
    assert_eq!(diags.errors, vec![error(span, DiagnosticKind::UnsupportedPermissionType)]);
    let outcome = process_type(&no_types(), span, &named("Lister", 0), MAX_DEPTH, &mut diags);
    assert_eq!(outcome, Inference::Found(OperationSet::single(Operation::ListObjects)));
    let outcome = process_type(&no_types(), span, &named("Lister", 0), MAX_DEPTH + 1, &mut diags);
    assert_eq!(outcome, Inference::TooDeep);
    assert_eq!(diags.error_count(), 2);
    assert!(diags.has_errors());
}

#[test]
fn parse_bucket_ref_resolves_the_argument_it_is_given() {
    let expr = call("ref", None);
    let checker = no_types();
    let data = ResolveUsageData { expr: &expr, type_checker: &checker };
    let method_call = match &expr.kind {
        UsageExprKind::MethodCall(call) => call,
        _ => unreachable!(),
    };
    let mut diags = Diagnostics::new();
    let arg = TypeArg { span: ARG, typ: named("Downloader", 0) };
    let usage = parse_bucket_ref(&data, images(), method_call, &arg, &mut diags);
    match usage {
        Some(Usage::Bucket(usage)) => assert_eq!(usage.ops, vec![Operation::ReadObjectContents]),
        None => panic!("expected a usage"),
    }
    assert!(!diags.has_errors());
}

#[test]
fn operation_sets_list_in_the_order_of_declaration() {
    let mut set = OperationSet::empty();
    assert!(set.is_empty());
    assert_eq!(set.to_vec(), vec![]);
    set.insert(Operation::DeleteObject);
    set.insert(Operation::UpdateObjectMetadata);
    set.insert(Operation::DeleteObject);
    assert!(!set.is_empty());
    assert_eq!(set.to_vec(), vec![Operation::UpdateObjectMetadata, Operation::DeleteObject]);
    let other = OperationSet::single(Operation::ListObjects);
    assert_eq!(
        set.union(&other).to_vec(),
        vec![Operation::ListObjects, Operation::UpdateObjectMetadata, Operation::DeleteObject]
    );
    assert_eq!(set.union(&other), other.union(&set));
}

#[test]
fn every_error_has_its_words() {
    let words = [
        (DiagnosticKind::TypeArgumentCount, "expected exactly one type argument in call to Bucket.ref"),
        (DiagnosticKind::UnsupportedOperation, "unsupported bucket operation"),
        (DiagnosticKind::InvalidUse, "invalid use of bucket resource"),
        (DiagnosticKind::UnsupportedPermissionType, "unsupported bucket permission type"),
        (DiagnosticKind::NoPermissionsFound, "no bucket permissions found in type argument"),
        (DiagnosticKind::DepthExceeded, "bucket permission type is nested too deeply"),
        (DiagnosticKind::InvalidResourceName, "expected a string literal as the resource name"),
        (DiagnosticKind::InvalidConfig, "invalid bucket configuration"),
    ];
    for (kind, text) in words {
        assert_eq!(error(ARG, kind).msg(), text);
    }
}
