use tsparser::diagnostics::Diagnostic;
use tsparser::diagnostics::DiagnosticKind;
use tsparser::diagnostics::Diagnostics;
use tsparser::diagnostics::Range;
use tsparser::diagnostics::Span;
use tsparser::module_loader::ModuleLoader;
use tsparser::objects::resolve_bucket_usage;
use tsparser::objects::Operation;
use tsparser::paths::FilePath;
use tsparser::resourceparser::imports_objects;
use tsparser::resourceparser::imports_package;
use tsparser::resourceparser::registry::objects_parser;
use tsparser::resourceparser::registry::scan_with;
use tsparser::resourceparser::registry::ResourceKind;
use tsparser::resourceparser::registry::ResourceParser;
use tsparser::resourceparser::scan_module;
use tsparser::resourceparser::tracks_bucket;
use tsparser::resourceparser::BindKind;
use tsparser::resourceparser::Literal;
use tsparser::resourceparser::ModuleExprs;
use tsparser::resourceparser::NewExpr;
use tsparser::resourceparser::Resource;
use tsparser::resourceparser::ResourceOrPath;
use tsparser::resourceparser::ResourcePass;
use tsparser::resourceparser::ResourcePath;
use tsparser::resourceparser::StaticCall;
use tsparser::syntax::ImportDecl;
use tsparser::syntax::ImportName;
use tsparser::types::Named;
use tsparser::types::Object;
use tsparser::types::Type;
use tsparser::types::TypeChecker;
use tsparser::usageparser::Ident;
use tsparser::usageparser::MethodCall;
use tsparser::usageparser::ResolveUsageData;
use tsparser::usageparser::TypeArg;
use tsparser::usageparser::Usage;
use tsparser::usageparser::UsageExpr;
use tsparser::usageparser::UsageExprKind;

fn import(src: &str, names: &[(&str, Option<&str>)]) -> ImportDecl {
    ImportDecl {
        span: Span { lo: 1, hi: 10 },
        src: src.to_string(),
        type_only: false,
        names: names
            .iter()
            .map(|(local, imported)| ImportName::Named {
                local: local.to_string(),
                imported: imported.map(|name| name.to_string()),
            })
            .collect(),
    }
}

fn objects_import() -> Vec<ImportDecl> {
    vec![import("encore.dev/storage/objects", &[("Bucket", None)])]
}

fn checker() -> TypeChecker {
    TypeChecker { definitions: vec![], bindings: vec![("images".to_string(), 4)] }
}

fn ident(name: &str) -> Ident {
    Ident { name: name.to_string(), span: Span { lo: 56, hi: 62 } }
}

fn construction(class: &str, args: Vec<Literal>) -> NewExpr {
    NewExpr {
        range: Range { start: 65, end: 105 },
        class: class.to_string(),
        args,
        bind_name: Some(ident("images")),
        doc_comment: Some(" Product pictures.".to_string()),
    }
}

fn object(fields: Vec<(&str, Literal)>) -> Literal {
    Literal::Object(fields.into_iter().map(|(name, value)| (name.to_string(), value)).collect())
}

fn text(value: &str) -> Literal {
    Literal::Str(value.to_string())
}

fn only(constructions: Vec<NewExpr>) -> ModuleExprs {
    ModuleExprs { constructions, static_calls: vec![] }
}

fn scan(imports: &Vec<ImportDecl>, exprs: &ModuleExprs) -> ResourcePass {
    let mut pass = ResourcePass::new();
    scan_module(&mut pass, imports, &checker(), exprs);
    pass
}

#[test]
fn a_versioned_bucket_is_declared_once() {
    // export const images = new Bucket("images", {versioned: true});
    let exprs = only(vec![construction("Bucket", vec![text("images"), object(vec![("versioned", Literal::Bool(true))])])]);
    let pass = scan(&objects_import(), &exprs);
    assert_eq!(pass.diags.errors, vec![]);
    assert_eq!(pass.resources.len(), 1);
    let Resource::Bucket(bucket) = &pass.resources[0];
    assert_eq!(bucket.name, "images");
    assert!(bucket.versioned);
    assert_eq!(bucket.doc, Some(" Product pictures.".to_string()));
    assert_eq!(pass.binds.len(), 1);
    let bind = &pass.binds[0];
    assert_eq!(bind.kind, BindKind::Create);
    assert_eq!(bind.range, Range { start: 65, end: 105 });
    assert_eq!(bind.resource, ResourceOrPath::Resource(pass.resources[0].clone()));
    assert_eq!(bind.ident, Some(ident("images")));
    assert_eq!(bind.object, Some(Object { name: Some("images".to_string()), id: 4 }));
}

#[test]
fn a_bucket_is_unversioned_unless_configured() {
    let cases = vec![
        vec![text("a")],
        vec![text("a"), object(vec![])],
        vec![text("a"), object(vec![("versioned", Literal::Bool(false))])],
        vec![text("a"), object(vec![("public", Literal::Bool(true)), ("region", text("eu"))])],
    ];
    for args in cases {
        let pass = scan(&objects_import(), &only(vec![construction("Bucket", args)]));
        assert_eq!(pass.diags.errors, vec![]);
        let Resource::Bucket(bucket) = &pass.resources[0];
        assert!(!bucket.versioned);
    }
}

#[test]
fn the_last_of_repeated_fields_counts() {
    let config = object(vec![("versioned", Literal::Bool(false)), ("versioned", Literal::Bool(true))]);
    let pass = scan(&objects_import(), &only(vec![construction("Bucket", vec![text("a"), config])]));
    let Resource::Bucket(bucket) = &pass.resources[0];
    assert!(bucket.versioned);
}

#[test]
fn a_misshapen_configuration_is_an_error() {
    let at = Span { lo: 65, hi: 105 };
    let cases = vec![
        vec![text("a"), object(vec![("versioned", text("yes"))])],
        vec![text("a"), object(vec![("versioned", Literal::Number)])],
        vec![text("a"), Literal::Bool(true)],
        vec![text("a"), Literal::Other],
    ];
    for args in cases {
        let pass = scan(&objects_import(), &only(vec![construction("Bucket", args)]));
        assert_eq!(pass.diags.errors, vec![Diagnostic { span: at, kind: DiagnosticKind::InvalidConfig }]);
        assert!(pass.resources.is_empty());
        assert!(pass.binds.is_empty());
    }
}

#[test]
fn a_bucket_needs_a_literal_name() {
    let at = Span { lo: 65, hi: 105 };
    for args in [vec![], vec![Literal::Other], vec![Literal::Number, text("a")]] {
        let pass = scan(&objects_import(), &only(vec![construction("Bucket", args)]));
        assert_eq!(pass.diags.errors, vec![Diagnostic { span: at, kind: DiagnosticKind::InvalidResourceName }]);
        assert!(pass.resources.is_empty());
    }
}

#[test]
fn an_uninteresting_module_is_passed_over() {
    let imports = vec![import("encore.dev/pubsub", &[("Bucket", None)]), import("./objects", &[("Bucket", None)])];
    let exprs = ModuleExprs {
        constructions: vec![construction("Bucket", vec![Literal::Other])],
        static_calls: vec![StaticCall {
            range: Range { start: 1, end: 2 },
            class: "Bucket".to_string(),
            method: "named".to_string(),
            args: vec![],
            bind_name: None,
        }],
    };
    assert!(!imports_objects(&imports));
    let pass = scan(&imports, &exprs);
    assert!(pass.resources.is_empty());
    assert!(pass.binds.is_empty());
    assert!(pass.diags.errors.is_empty());
    let pass = scan(&vec![], &exprs);
    assert!(pass.resources.is_empty());
    assert!(pass.binds.is_empty());
    assert!(pass.diags.errors.is_empty());
}

#[test]
fn only_the_imported_class_declares() {
    // import { Bucket as Store, Other } from "encore.dev/storage/objects"
    let imports = vec![
        import("encore.dev/api", &[("api", None)]),
        import("encore.dev/storage/objects", &[("Store", Some("Bucket")), ("Other", None)]),
    ];
    assert!(imports_objects(&imports));
    assert!(tracks_bucket(&imports, "Store"));
    assert!(!tracks_bucket(&imports, "Bucket"));
    assert!(!tracks_bucket(&imports, "Other"));
    assert!(!tracks_bucket(&imports, "api"));
    let exprs = only(vec![
        construction("Bucket", vec![text("a")]),
        construction("Store", vec![text("b")]),
        construction("Other", vec![text("c")]),
    ]);
    let pass = scan(&imports, &exprs);
    assert_eq!(pass.resources.len(), 1);
    let Resource::Bucket(bucket) = &pass.resources[0];
    assert_eq!(bucket.name, "b");
    assert_eq!(pass.binds.len(), 1);
}

#[test]
fn names_that_are_not_named_imports_are_not_the_class() {
    let imports = vec![ImportDecl {
        span: Span { lo: 1, hi: 2 },
        src: "encore.dev/storage/objects".to_string(),
        type_only: false,
        names: vec![
            ImportName::Default { local: "Bucket".to_string() },
            ImportName::Namespace { local: "Bucket".to_string() },
        ],
    }];
    assert!(imports_objects(&imports));
    assert!(!tracks_bucket(&imports, "Bucket"));
}

#[test]
fn a_static_call_refers_to_a_bucket_elsewhere() {
    let call = |method: &str, args: Vec<Literal>| StaticCall {
        range: Range { start: 200, end: 220 },
        class: "Bucket".to_string(),
        method: method.to_string(),
        args,
        bind_name: Some(ident("shared")),
    };
    let exprs = ModuleExprs {
        constructions: vec![construction("Bucket", vec![text("images")])],
        static_calls: vec![call("named", vec![text("uploads")]), call("other", vec![text("x")]), call("named", vec![])],
    };
    let pass = scan(&objects_import(), &exprs);
    assert_eq!(pass.resources.len(), 1);
    assert_eq!(pass.binds.len(), 2);
    assert_eq!(pass.binds[0].kind, BindKind::Create);
    assert_eq!(pass.binds[1].kind, BindKind::Reference);
    assert_eq!(
        pass.binds[1].resource,
        ResourceOrPath::Path(ResourcePath::Bucket { name: "uploads".to_string() })
    );
    assert_eq!(pass.binds[1].range, Range { start: 200, end: 220 });
    assert_eq!(pass.binds[1].object, None);
    assert_eq!(
        pass.diags.errors,
        vec![Diagnostic { span: Span { lo: 200, hi: 220 }, kind: DiagnosticKind::InvalidResourceName }]
    );
}

#[test]
fn every_resource_has_one_creating_binding() {
    let exprs = ModuleExprs {
        constructions: vec![
            construction("Bucket", vec![text("a")]),
            construction("Bucket", vec![Literal::Other]),
            construction("Bucket", vec![text("b"), object(vec![("versioned", Literal::Bool(true))])]),
        ],
        static_calls: vec![StaticCall {
            range: Range { start: 1, end: 2 },
            class: "Bucket".to_string(),
            method: "named".to_string(),
            args: vec![text("a")],
            bind_name: None,
        }],
    };
    let pass = scan(&objects_import(), &exprs);
    let created: Vec<&ResourceOrPath> =
        pass.binds.iter().filter(|bind| bind.kind == BindKind::Create).map(|bind| &bind.resource).collect();
    assert_eq!(created.len(), pass.resources.len());
    for (bound, resource) in created.iter().zip(pass.resources.iter()) {
        assert_eq!(**bound, ResourceOrPath::Resource(resource.clone()));
    }
}

#[test]
fn a_declared_bucket_is_found_in_source_and_used() {
    // The module is parsed for its imports; what it constructs is written
    // out by hand.
    let src = "import { Bucket } from \"encore.dev/storage/objects\";\n\
               export const images = new Bucket(\"images\", {versioned: true});\n\
               images.ref<Uploader>();\n";
    let mut loader = ModuleLoader::new("/app");
    let module = loader.inject_file(FilePath::Real("/app/storage.ts".to_string()), src).unwrap();
    let exprs = only(vec![NewExpr {
        range: Range { start: 76, end: 116 },
        class: "Bucket".to_string(),
        args: vec![text("images"), object(vec![("versioned", Literal::Bool(true))])],
        bind_name: Some(ident("images")),
        doc_comment: None,
    }]);
    let types = checker();
    let mut pass = ResourcePass::new();
    scan_module(&mut pass, module.imports(), &types, &exprs);
    assert_eq!(pass.resources.len(), 1);
    assert_eq!(pass.binds.len(), 1);
    assert_eq!(pass.binds[0].kind, BindKind::Create);
    let Resource::Bucket(bucket) = &pass.resources[0];
    assert_eq!(bucket.name, "images");
    assert!(bucket.versioned);

    let usage_expr = UsageExpr {
        range: Range { start: 118, end: 140 },
        kind: UsageExprKind::MethodCall(MethodCall {
            method: Ident { name: "ref".to_string(), span: Span { lo: 125, hi: 128 } },
            span: Span { lo: 118, hi: 140 },
            type_args: Some(vec![TypeArg {
                span: Span { lo: 129, hi: 137 },
                typ: Type::Named(Named { obj: Object { name: Some("Uploader".to_string()), id: 0 } }),
            }]),
        }),
    };
    let data = ResolveUsageData { expr: &usage_expr, type_checker: &types };
    let mut diags = Diagnostics::new();
    match resolve_bucket_usage(&data, bucket.clone(), &mut diags) {
        Some(Usage::Bucket(usage)) => {
            assert_eq!(usage.bucket.name, "images");
            assert_eq!(usage.ops, vec![Operation::WriteObject]);
        }
        None => panic!("expected a usage"),
    }
    assert!(!diags.has_errors());
}

#[test]
fn identifiers_resolve_to_the_first_object_bound() {
    let types = TypeChecker {
        definitions: vec![],
        bindings: vec![("a".to_string(), 1), ("b".to_string(), 2), ("a".to_string(), 3)],
    };
    assert_eq!(types.resolve_obj("a"), Some(Object { name: Some("a".to_string()), id: 1 }));
    assert_eq!(types.resolve_obj("b"), Some(Object { name: Some("b".to_string()), id: 2 }));
    assert_eq!(types.resolve_obj("c"), None);
}

#[test]
fn the_recognizer_of_buckets_is_registered_by_its_package() {
    let parser = objects_parser();
    assert_eq!(parser.name, "objects");
    assert_eq!(parser.kind, ResourceKind::Objects);
    assert_eq!(parser.interesting_pkgs, vec!["encore.dev/storage/objects".to_string()]);
    assert!(parser.is_interesting(&objects_import()));
    assert!(!parser.is_interesting(&vec![import("encore.dev/pubsub", &[("Topic", None)])]));
    assert!(!parser.is_interesting(&vec![]));
    assert!(imports_package(&objects_import(), "encore.dev/storage/objects"));
    assert!(!imports_package(&objects_import(), "encore.dev/storage"));
}

#[test]
fn recognizers_look_at_the_modules_of_their_packages_only() {
    let exprs = only(vec![construction("Bucket", vec![text("images")])]);
    let parsers = vec![objects_parser()];

    let mut pass = ResourcePass::new();
    scan_with(&parsers, &mut pass, &objects_import(), &checker(), &exprs);
    assert_eq!(pass.resources.len(), 1);
    assert_eq!(pass.binds.len(), 1);

    let mut pass = ResourcePass::new();
    let elsewhere = vec![import("./objects", &[("Bucket", None)])];
    scan_with(&parsers, &mut pass, &elsewhere, &checker(), &exprs);
    assert!(pass.resources.is_empty());
    assert!(pass.binds.is_empty());
    assert!(pass.diags.errors.is_empty());

    // A recognizer that is told of another package looks at modules that
    // import from it, but its class is still that of the bucket package.
    let wide = ResourceParser {
        name: "objects".to_string(),
        interesting_pkgs: vec!["./objects".to_string(), "encore.dev/storage/objects".to_string()],
        kind: ResourceKind::Objects,
    };
    assert!(wide.is_interesting(&elsewhere));
    let mut pass = ResourcePass::new();
    wide.scan(&mut pass, &elsewhere, &checker(), &exprs);
    assert!(pass.resources.is_empty());

    // No recognizer, no resource.
    let mut pass = ResourcePass::new();
    scan_with(&vec![], &mut pass, &objects_import(), &checker(), &exprs);
    assert!(pass.resources.is_empty());
}
