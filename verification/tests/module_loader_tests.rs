use swc_common::EqIgnoreSpan;
use swc_common::Spanned;
use swc_common::SyntaxContext;
use swc_ecma_ast::Decl;
use swc_ecma_ast::ModuleItem;
use swc_ecma_ast::Pat;
use swc_ecma_ast::Program;
use swc_ecma_ast::Stmt;
use tsparser::module_loader::Error;
use tsparser::module_loader::ImportAction;
use tsparser::module_loader::ImportEvent;
use tsparser::module_loader::ModuleId;
use tsparser::module_loader::ModuleLoader;
use tsparser::module_loader::UNIVERSE_TS;
use tsparser::paths::FileName;
use tsparser::paths::FilePath;
use tsparser::syntax::ImportName;

fn from_file() -> FileName {
    FileName::Real("/app/svc/main.ts".to_string())
}

fn expect_module(action: ImportAction) -> std::rc::Rc<tsparser::module_loader::Module> {
    match action {
        ImportAction::Done(Ok(Some(m))) => m,
        ImportAction::Done(Ok(None)) => panic!("no module"),
        ImportAction::Done(Err(e)) => panic!("error: {}", e.msg()),
        ImportAction::Resolve(..) => panic!("asked to resolve"),
        ImportAction::Read(p) => panic!("asked to read {}", p),
    }
}

#[test]
fn clients_alias_gives_the_generated_module() {
    let mut loader = ModuleLoader::new("/app");
    let m = expect_module(loader.resolve_import(&from_file(), "~encore/clients", ImportEvent::Start));
    assert_eq!(m.file_path, FilePath::Real("encore.gen/clients".to_string()));
    assert_eq!(m.imported_as, Some("encore.gen/clients".to_string()));
    assert_eq!(m.id, ModuleId(1));
    let again = expect_module(loader.resolve_import(
        &FileName::Custom("other".to_string()),
        "~encore/clients",
        ImportEvent::Resolved(Err("not found".to_string())),
    ));
    assert!(std::rc::Rc::ptr_eq(&m, &again));
    assert_eq!(loader.modules().len(), 1);
}

#[test]
fn auth_alias_gives_the_generated_module() {
    let mut loader = ModuleLoader::new("/app");
    let clients = loader.encore_app_clients();
    let m = expect_module(loader.resolve_import(&from_file(), "~encore/auth", ImportEvent::Start));
    assert_eq!(m.file_path, FilePath::Real("encore.gen/auth".to_string()));
    assert_eq!(m.id, ModuleId(2));
    assert_eq!(clients.id, ModuleId(1));
    let again = loader.encore_auth();
    assert!(std::rc::Rc::ptr_eq(&m, &again));
}

#[test]
fn an_import_is_resolved_read_and_loaded_once() {
    let mut loader = ModuleLoader::new("/app");
    let from = from_file();
    match loader.resolve_import(&from, "./util", ImportEvent::Start) {
        ImportAction::Resolve(from_file, specifier) => {
            assert_eq!(from_file, from);
            assert_eq!(specifier, "./util");
        }
        _ => panic!("expected to be told to resolve"),
    }
    let resolved = ImportEvent::Resolved(Ok(FileName::Real("/app/svc/util.ts".to_string())));
    let path = match loader.resolve_import(&from, "./util", resolved) {
        ImportAction::Read(path) => path,
        _ => panic!("expected to be told to read"),
    };
    assert_eq!(path, "/app/svc/util.ts");
    let src = "import { Bucket as B } from \"encore.dev/storage/objects\";\nexport const x = 1;\n";
    let read = ImportEvent::Read(path, Ok(src.to_string()));
    let m = expect_module(loader.resolve_import(&from, "./util", read));
    assert_eq!(m.id, ModuleId(1));
    assert_eq!(m.file_path, FilePath::Real("/app/svc/util.ts".to_string()));
    assert_eq!(m.swc_file_path, FileName::Real("/app/svc/util.ts".to_string()));
    assert_eq!(m.imported_as, None);
    assert_eq!(m.imports().len(), 1);
    assert_eq!(m.imports()[0].src, "encore.dev/storage/objects");
    assert_eq!(
        m.imports()[0].names,
        vec![ImportName::Named { local: "B".to_string(), imported: Some("Bucket".to_string()) }]
    );

    // Another specifier that leads to the same file gives the same module.
    let resolved = ImportEvent::Resolved(Ok(FileName::Real("/app/svc/util.ts".to_string())));
    let other_from = FileName::Real("/app/other/main.ts".to_string());
    let again = expect_module(loader.resolve_import(&other_from, "../svc/util", resolved));
    assert!(std::rc::Rc::ptr_eq(&m, &again));
    assert_eq!(again.id, ModuleId(1));
    assert_eq!(loader.modules().len(), 1);
}

#[test]
fn a_package_import_is_imported_as_its_specifier() {
    let mut loader = ModuleLoader::new("/app");
    let read = ImportEvent::Read("/app/node_modules/pkg/index.js".to_string(), Ok("export {};".to_string()));
    let m = expect_module(loader.resolve_import(&from_file(), "pkg", read));
    assert_eq!(m.imported_as, Some("pkg".to_string()));
}

#[test]
fn a_file_that_is_no_module_gives_no_module() {
    let mut loader = ModuleLoader::new("/app");
    let resolved = ImportEvent::Resolved(Ok(FileName::Real("/app/assets/logo.png".to_string())));
    assert!(matches!(
        loader.resolve_import(&from_file(), "./logo.png", resolved),
        ImportAction::Done(Ok(None))
    ));
    assert_eq!(loader.modules().len(), 0);
}

#[test]
fn a_path_in_the_generated_code_gives_the_generated_module() {
    let mut loader = ModuleLoader::new("/app");
    let resolved = ImportEvent::Resolved(Ok(FileName::Real("/app/encore.gen/clients/index.js".to_string())));
    let m = expect_module(loader.resolve_import(&from_file(), "../encore.gen/clients", resolved));
    assert_eq!(m.file_path, FilePath::Real("encore.gen/clients".to_string()));
    let resolved = ImportEvent::Resolved(Ok(FileName::Real("/app/encore.gen/auth/index.ts".to_string())));
    let a = expect_module(loader.resolve_import(&from_file(), "../encore.gen/auth", resolved));
    assert_eq!(a.file_path, FilePath::Real("encore.gen/auth".to_string()));
    let resolved = ImportEvent::Resolved(Ok(FileName::Real("/app/encore.gen/clientsx/index.ts".to_string())));
    assert!(matches!(
        loader.resolve_import(&from_file(), "../encore.gen/clientsx", resolved),
        ImportAction::Read(_)
    ));
}

#[test]
fn an_unresolved_import_fails() {
    let mut loader = ModuleLoader::new("/app");
    let event = ImportEvent::Resolved(Err("no such file".to_string()));
    match loader.resolve_import(&from_file(), "./missing", event) {
        ImportAction::Done(Err(e)) => {
            assert_eq!(e, Error::UnableToResolve("./missing".to_string(), "no such file".to_string()));
            assert_eq!(e.msg(), "unable to resolve module ./missing: no such file");
            assert_eq!(e.span(), None);
        }
        _ => panic!("expected a failure"),
    }
}

#[test]
fn an_invalid_file_name_fails() {
    let mut loader = ModuleLoader::new("/app");
    let event = ImportEvent::Resolved(Ok(FileName::Other("<anon>".to_string())));
    match loader.resolve_import(&from_file(), "./x", event) {
        ImportAction::Done(Err(e)) => {
            assert_eq!(e, Error::InvalidFilename(FileName::Other("<anon>".to_string())));
            assert_eq!(e.msg(), "invalid filename <anon>");
        }
        _ => panic!("expected a failure"),
    }
}

#[test]
fn an_unreadable_file_fails() {
    let mut loader = ModuleLoader::new("/app");
    let event = ImportEvent::Read("/app/x.ts".to_string(), Err("permission denied".to_string()));
    match loader.resolve_import(&from_file(), "./x", event) {
        ImportAction::Done(Err(e)) => {
            assert_eq!(e, Error::LoadFile("permission denied".to_string()));
            assert_eq!(e.msg(), "unable to load file from filesystem");
        }
        _ => panic!("expected a failure"),
    }
}

#[test]
fn a_syntax_error_fails_that_file_only() {
    let mut loader = ModuleLoader::new("/app");
    let bad = loader.load_fs_file("/app/bad.ts", None, Ok("const = ;".to_string()));
    match bad {
        Err(Error::ParseError(e)) => {
            assert!(e.span.lo >= 1);
            assert!(!e.msg.is_empty());
        }
        _ => panic!("expected a syntax error"),
    }
    assert_eq!(loader.modules().len(), 0);
    let good = loader.load_fs_file("/app/good.ts", None, Ok("export const y = 2;".to_string()));
    assert_eq!(good.unwrap().id, ModuleId(1));
}

#[test]
fn a_custom_file_is_loaded_with_an_empty_text() {
    let mut loader = ModuleLoader::new("/app");
    let event = ImportEvent::Resolved(Ok(FileName::Custom("virtual".to_string())));
    let m = expect_module(loader.resolve_import(&from_file(), "virtual", event));
    assert_eq!(m.file_path, FilePath::Custom("virtual".to_string()));
    assert_eq!(m.imported_as, Some("virtual".to_string()));
    assert_eq!(m.imports().len(), 0);
}

#[test]
fn the_universe_parses_and_is_kept() {
    let mut loader = ModuleLoader::new("/app");
    let u = loader.universe().unwrap();
    assert_eq!(u.file_path, FilePath::Real("universe.ts".to_string()));
    assert_eq!(u.imported_as, Some("__universe__".to_string()));
    let again = loader.universe().unwrap();
    assert!(std::rc::Rc::ptr_eq(&u, &again));
    assert!(UNIVERSE_TS.contains("Record"));
    assert_eq!(loader.syntax_errors().len(), 0);
}

#[test]
fn a_position_names_its_module() {
    let mut loader = ModuleLoader::new("/app");
    let a = loader.inject_file(FilePath::Real("/app/a.ts".to_string()), "export const a = 1;").unwrap();
    let b = loader.inject_file(FilePath::Real("/app/b.ts".to_string()), "export const b = 2;").unwrap();
    // The first text covers positions 1 to 20, the second 21 to 40.
    assert_eq!(loader.module_containing_pos(1).unwrap().id, a.id);
    assert_eq!(loader.module_containing_pos(20).unwrap().id, a.id);
    assert_eq!(loader.module_containing_pos(21).unwrap().id, b.id);
    assert!(loader.module_containing_pos(0).is_none());
    assert!(loader.module_containing_pos(1000).is_none());
}

#[test]
fn injecting_a_real_path_twice_keeps_the_first_module() {
    let mut loader = ModuleLoader::new("/app");
    let a = loader.inject_file(FilePath::Real("/app/a.ts".to_string()), "export const a = 1;").unwrap();
    let again = loader.inject_file(FilePath::Real("/app/a.ts".to_string()), "export const a = 2;").unwrap();
    assert!(std::rc::Rc::ptr_eq(&a, &again));
    let c = loader.inject_file(FilePath::Custom("x".to_string()), "export const a = 1;").unwrap();
    let d = loader.inject_file(FilePath::Custom("x".to_string()), "export const a = 2;").unwrap();
    assert!(!std::rc::Rc::ptr_eq(&c, &d));
    assert_eq!((a.id, c.id, d.id), (ModuleId(1), ModuleId(2), ModuleId(3)));
    assert_eq!(loader.modules().len(), 2);
    assert_eq!(loader.lookup(&FilePath::Custom("x".to_string())).unwrap().id, ModuleId(3));
}

#[test]
fn comments_before_a_position_are_found() {
    let mut loader = ModuleLoader::new("/app");
    let src = "// first\n// second\nexport const a = 1;";
    let m = loader.inject_file(FilePath::Real("/app/a.ts".to_string()), src).unwrap();
    // The text is registered at position 1, so `export` stands at 1 + 19.
    assert_eq!(m.preceding_comments(20), Some(" first\n second".to_string()));
    assert_eq!(m.preceding_comments(27), None);
}

#[test]
fn identifiers_are_told_apart_after_parsing() {
    let mut loader = ModuleLoader::new("/app");
    let m = loader.inject_file(FilePath::Real("/app/a.ts".to_string()), "const a = 1;").unwrap();
    let Program::Module(module) = &m.ast else {
        panic!("expected the syntax tree of a module");
    };
    let ModuleItem::Stmt(Stmt::Decl(Decl::Var(var))) = &module.body[0] else {
        panic!("expected a variable declaration");
    };
    let Pat::Ident(name) = &var.decls[0].name else {
        panic!("expected an identifier");
    };
    assert_eq!(name.id.sym.as_str(), "a");
    assert_ne!(name.id.ctxt, SyntaxContext::empty());
}

#[test]
fn a_generated_module_is_what_parsing_nothing_gives() {
    let mut loader = ModuleLoader::new("/app");
    let parsed = loader.inject_file(FilePath::Custom("nothing".to_string()), "").unwrap();
    let generated = loader.encore_auth();
    assert!(generated.ast.eq_ignore_span(&parsed.ast));
    assert!(generated.ast.is_module());
    assert_eq!(generated.imports().len(), 0);
    // The parsed text was registered at position 1, the generated one after it.
    assert_eq!(parsed.ast.span().lo.0, 1);
    assert_eq!(generated.ast.span().lo.0, 2);
    assert_eq!(generated.ast.span().hi.0, 2);
    assert_eq!(loader.module_containing_pos(2).unwrap().id, generated.id);
}

#[test]
fn parsing_the_same_text_gives_the_same() {
    let good = "import type { A as B } from \"./a\";\nimport * as ns from \"pkg\";\nexport const x: B = ns.y;\n";
    let mut first = ModuleLoader::new("/app");
    let mut second = ModuleLoader::new("/other");
    let a = first.load_fs_file("/app/m.ts", None, Ok(good.to_string())).unwrap();
    let b = second.load_fs_file("/app/m.ts", None, Ok(good.to_string())).unwrap();
    assert_eq!(a.imports(), b.imports());
    assert_eq!(a.imports().len(), 2);
    assert!(a.imports()[0].type_only);
    assert_eq!(a.imports()[1].names, vec![ImportName::Namespace { local: "ns".to_string() }]);
    assert_eq!(first.syntax_errors(), second.syntax_errors());

    let bad = "export const = ;";
    let e = first.load_fs_file("/app/bad.ts", None, Ok(bad.to_string())).unwrap_err();
    let mut third = ModuleLoader::new("/app");
    third.load_fs_file("/app/m.ts", None, Ok(good.to_string())).unwrap();
    let f = third.load_fs_file("/app/bad.ts", None, Ok(bad.to_string())).unwrap_err();
    assert_eq!(e, f);
    assert!(matches!(e, Error::ParseError(_)));
}

#[test]
fn every_module_gets_an_id_of_its_own() {
    let mut loader = ModuleLoader::new("/app");
    let a1 = loader.inject_file(FilePath::Custom("a".to_string()), "").unwrap();
    let a2 = loader.inject_file(FilePath::Custom("a".to_string()), "").unwrap();
    let b = loader.inject_file(FilePath::Custom("b".to_string()), "").unwrap();
    assert_eq!((a1.id, a2.id, b.id), (ModuleId(1), ModuleId(2), ModuleId(3)));
    let clients = loader.encore_app_clients();
    let auth = loader.encore_auth();
    assert_eq!((clients.id, auth.id), (ModuleId(4), ModuleId(5)));
    assert!(!std::rc::Rc::ptr_eq(&clients, &auth));
    // A text that does not parse takes no id.
    assert!(loader.inject_file(FilePath::Custom("c".to_string()), "const = ;").is_err());
    let d = loader.inject_file(FilePath::Custom("d".to_string()), "").unwrap();
    assert_eq!(d.id, ModuleId(6));
}

#[test]
fn a_module_spans_its_text() {
    let mut loader = ModuleLoader::new("/app");
    let a = loader.inject_file(FilePath::Real("/app/a.ts".to_string()), "export const a = 1;").unwrap();
    let b = loader.inject_file(FilePath::Real("/app/b.ts".to_string()), "export const b = 22;").unwrap();
    assert_eq!((a.span().lo, a.span().hi), (1, 20));
    assert_eq!((b.span().lo, b.span().hi), (21, 41));
    assert_eq!(loader.module_containing_pos(b.span().lo).unwrap().id, b.id);
}
