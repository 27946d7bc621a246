use tsparser::diagnostics::Range;
use tsparser::diagnostics::Span;
use tsparser::fileset::FileSet;
use tsparser::module_loader::generated_at;
use tsparser::module_loader::imported_as;
use tsparser::module_loader::Archive;
use tsparser::module_loader::ArchiveFile;
use tsparser::module_loader::Error;
use tsparser::module_loader::Generated;
use tsparser::module_loader::ModuleLoader;
use tsparser::paths::extension;
use tsparser::paths::has_module_extension;
use tsparser::paths::is_under;
use tsparser::paths::join;
use tsparser::paths::strip_dir;
use tsparser::paths::trimmed_len;
use tsparser::paths::FileName;
use tsparser::paths::FilePath;
use tsparser::text::find_last;
use tsparser::text::starts_with;
use tsparser::text::str_eq;
use tsparser::text::tail;

fn some(text: &str) -> Option<String> {
    Some(text.to_string())
}

#[test]
fn extensions_follow_the_last_dot_of_the_last_component() {
    assert_eq!(extension("/app/svc/main.ts"), some("ts"));
    assert_eq!(extension("main.test.tsx"), some("tsx"));
    assert_eq!(extension("/app.d/readme"), None);
    assert_eq!(extension("/app/.gitignore"), None);
    assert_eq!(extension("/app/.config.json"), some("json"));
    assert_eq!(extension("/app/.."), None);
    assert_eq!(extension("/app/name."), some(""));
    assert_eq!(extension(""), None);
    // A slash at the end ends no component.
    assert_eq!(extension("dir.ts/"), some("ts"));
    assert_eq!(extension("/app/main.tsx//"), some("tsx"));
    assert_eq!(extension("/"), None);
    assert_eq!(extension("/app/../"), None);
    assert_eq!(extension("/ünï/cödé.mts"), some("mts"));
}

#[test]
fn slashes_at_the_end_are_trimmed() {
    assert_eq!(trimmed_len("/a/b//"), 4);
    assert_eq!(trimmed_len("/a/b"), 4);
    assert_eq!(trimmed_len("///"), 0);
    assert_eq!(trimmed_len(""), 0);
}

#[test]
fn module_extensions_are_the_eight() {
    for ext in ["js", "ts", "mjs", "mts", "cjs", "cts", "jsx", "tsx"] {
        assert!(has_module_extension(ext));
    }
    for ext in ["", "json", "png", "TS", "tss", "d.ts"] {
        assert!(!has_module_extension(ext));
    }
}

#[test]
fn joining_puts_one_slash_between() {
    assert_eq!(join("/app", "encore.gen"), "/app/encore.gen");
    assert_eq!(join("/app/", "encore.gen"), "/app/encore.gen");
    assert_eq!(join("", "encore.gen"), "encore.gen");
    assert_eq!(join("/", "x"), "/x");
    assert_eq!(join("a", ""), "a/");
    // A path from the root stands for itself.
    assert_eq!(join("/app", "/etc/x.ts"), "/etc/x.ts");
    assert_eq!(join("", "/x"), "/x");
}

#[test]
fn a_path_lies_under_a_directory_by_whole_components() {
    assert_eq!(strip_dir("/app/encore.gen/clients/index.js", "/app/encore.gen"), some("clients/index.js"));
    assert_eq!(strip_dir("/app/encore.gen", "/app/encore.gen"), some(""));
    assert_eq!(strip_dir("/app/encore.gen/", "/app/encore.gen"), some(""));
    assert_eq!(strip_dir("/app/encore.generated/x", "/app/encore.gen"), None);
    assert_eq!(strip_dir("/other/encore.gen/x", "/app/encore.gen"), None);
    assert_eq!(strip_dir("/app/x", "/app/"), some("x"));
    assert!(is_under("clients/index.js", "clients"));
    assert!(is_under("clients", "clients"));
    assert!(!is_under("clientsx/index.js", "clients"));
}

#[test]
fn generated_code_is_recognized_by_its_directory() {
    assert_eq!(generated_at("/app/encore.gen/clients/index.js", "/app/encore.gen"), Some(Generated::Clients));
    assert_eq!(generated_at("/app/encore.gen/clients", "/app/encore.gen"), Some(Generated::Clients));
    assert_eq!(generated_at("/app/encore.gen/auth/index.ts", "/app/encore.gen"), Some(Generated::Auth));
    assert_eq!(generated_at("/app/encore.gen/internal/x.ts", "/app/encore.gen"), None);
    assert_eq!(generated_at("/app/encore.gen", "/app/encore.gen"), None);
    assert_eq!(generated_at("/app/clients/index.js", "/app/encore.gen"), None);
}

#[test]
fn relative_and_absolute_specifiers_name_no_package() {
    assert_eq!(imported_as("./util"), None);
    assert_eq!(imported_as("../svc/util"), None);
    assert_eq!(imported_as("/abs/util"), None);
    assert_eq!(imported_as("encore.dev/api"), some("encore.dev/api"));
    assert_eq!(imported_as(".hidden"), some(".hidden"));
    assert_eq!(imported_as(""), some(""));
}

#[test]
fn file_kinds_go_by_their_names() {
    assert!(FilePath::Real("/app/view.tsx".to_string()).is_tsx());
    assert!(!FilePath::Real("/app/view.ts".to_string()).is_tsx());
    assert!(FilePath::Real("/app/types.d.ts".to_string()).is_dts());
    assert!(!FilePath::Real("/app/types.ts".to_string()).is_dts());
    assert!(!FilePath::Custom("d.ts".to_string()).is_dts());
    assert!(FilePath::Real("a".to_string()).same_as(&FilePath::Real("a".to_string())));
    assert!(!FilePath::Real("a".to_string()).same_as(&FilePath::Custom("a".to_string())));
    assert_eq!(FilePath::Custom("x".to_string()).as_str(), "x");
    assert_eq!(
        FileName::from_path(&FilePath::Real("/a.ts".to_string())),
        FileName::Real("/a.ts".to_string())
    );
    assert_eq!(FileName::from_path(&FilePath::Custom("v".to_string())), FileName::Custom("v".to_string()));
}

#[test]
fn text_helpers_count_characters() {
    assert!(str_eq("héllo", "héllo"));
    assert!(!str_eq("héllo", "hello"));
    assert!(!str_eq("a", "ab"));
    assert!(str_eq("", ""));
    assert!(starts_with("./util", "./"));
    assert!(!starts_with(".", "./"));
    assert!(starts_with("abc", ""));
    assert!(!starts_with("ünï", "uni"));
    assert_eq!(find_last("a/b/c", '/'), Some(3));
    assert_eq!(find_last("ü/é/c", '/'), Some(3));
    assert_eq!(find_last("abc", '/'), None);
    assert_eq!(tail("ü/é/c", 2), "é/c");
    assert_eq!(tail("abc", 3), "");
}

#[test]
fn ranges_are_spans() {
    assert_eq!(Range { start: 3, end: 9 }.to_span(), Span { lo: 3, hi: 9 });
}

#[test]
fn source_texts_get_positions_of_their_own() {
    let mut files = FileSet::new();
    let a = files.new_source_file(FilePath::Real("a".to_string()), "héllo".to_string(), 0).unwrap();
    assert_eq!((a.start_pos, a.end_pos), (1, 7));
    let b = files.new_source_file(FilePath::Custom("b".to_string()), String::new(), 0).unwrap();
    assert_eq!((b.start_pos, b.end_pos), (8, 8));
    let c = files.new_source_file(FilePath::Real("c".to_string()), "x".to_string(), 0).unwrap();
    assert_eq!((c.start_pos, c.end_pos), (9, 10));
    assert_eq!(files.lookup_file(0).map(|f| f.name()), None);
    assert_eq!(files.lookup_file(7).map(|f| f.name()), Some(FilePath::Real("a".to_string())));
    assert_eq!(files.lookup_file(8).map(|f| f.name()), Some(FilePath::Custom("b".to_string())));
    assert_eq!(files.lookup_file(10).map(|f| f.name()), Some(FilePath::Real("c".to_string())));
    assert_eq!(files.lookup_file(11).map(|f| f.name()), None);
    // No room is left when too many positions are to be kept free.
    assert!(files.new_source_file(FilePath::Real("d".to_string()), "x".to_string(), u32::MAX).is_none());
    // The next position is 11; the text takes one position and one is left
    // between texts.
    assert!(files.new_source_file(FilePath::Real("d".to_string()), "x".to_string(), u32::MAX - 12).is_none());
    assert!(files.new_source_file(FilePath::Real("d".to_string()), "x".to_string(), u32::MAX - 13).is_some());
}

#[test]
fn an_archive_loads_its_typescript_files() {
    let archive = Archive {
        comment: "two services\n".to_string(),
        files: vec![
            ArchiveFile { name: "svc/a.ts".to_string(), data: "export const a = 1;\n".to_string() },
            ArchiveFile { name: "package.json".to_string(), data: "{}\n".to_string() },
            ArchiveFile { name: "svc/b.ts".to_string(), data: "import { a } from \"./a\";\n".to_string() },
            ArchiveFile { name: "svc/view.tsx".to_string(), data: "<<<".to_string() },
        ],
    };
    let mut loader = ModuleLoader::new("/tmp/app");
    let loaded = loader.load_archive("/tmp/app", &archive).unwrap();
    assert_eq!(loaded.len(), 2);
    assert_eq!(loaded[0].0, FilePath::Real("/tmp/app/svc/a.ts".to_string()));
    assert_eq!(loaded[1].0, FilePath::Real("/tmp/app/svc/b.ts".to_string()));
    assert_eq!(loaded[1].1.imports().len(), 1);
    assert_eq!(loaded[1].1.imported_as, None);
    assert_eq!(loader.modules().len(), 2);
}

#[test]
fn an_archive_with_a_syntax_error_fails() {
    let archive = Archive {
        comment: String::new(),
        files: vec![
            ArchiveFile { name: "a.ts".to_string(), data: "export const a = 1;".to_string() },
            ArchiveFile { name: "b.ts".to_string(), data: "export const = ;".to_string() },
        ],
    };
    let mut loader = ModuleLoader::new("/app");
    match loader.load_archive("/app", &archive) {
        Err(Error::ParseError(e)) => assert!(e.span.lo > 20),
        _ => panic!("expected a syntax error"),
    }
    assert_eq!(loader.modules().len(), 1);
}
