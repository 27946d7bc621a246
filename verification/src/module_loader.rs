//! Loading modules. An import specifier is resolved to the identity of a
//! file, and every file is parsed at most once: the loader keeps what it
//! has parsed by file identity and hands the same module out again. Every
//! module that is made gets an id that no module had before.
//!
//! The loader neither asks a resolver nor reads a file itself. It says what
//! is to be done next, and is told what came of it. What the parser makes
//! of a text goes by the name [`crate::syntax::parsed_source`], so that what
//! loading a text comes to is a function of the loader and the text:
//! [`model::load`].
use std::rc::Rc;
use swc_common::comments::SingleThreadedComments;
use vstd::prelude::*;
use vstd::string::*;
use crate::diagnostics::Span;
use crate::fileset::FileSet;
use crate::fileset::SourceFile;
use crate::module_loader::laws::lemma_find_module;
use crate::module_loader::laws::lemma_find_module_at;
use crate::module_loader::laws::lemma_asked;
use crate::module_loader::laws::lemma_file_at;
use crate::module_loader::laws::lemma_load;
use crate::module_loader::laws::lemma_no_file_at;
use crate::module_loader::laws::lemma_registered;
use crate::module_loader::laws::lemma_stored;
use crate::module_loader::model::find_module;
use crate::module_loader::model::found;
use crate::module_loader::model::generated_below;
use crate::module_loader::model::import_step;
use crate::module_loader::model::imported_as_of;
use crate::module_loader::model::archive_files_loaded;
use crate::module_loader::model::archive_loaded;
use crate::module_loader::model::kept_parsed;
use crate::module_loader::model::load;
use crate::module_loader::model::load_once;
use crate::module_loader::model::parsed_at;
use crate::module_loader::model::universe_loaded;
use crate::module_loader::model::module_views;
use crate::module_loader::model::optional_module_view;
use crate::module_loader::model::resolved_step;
use crate::module_loader::model::universe_path;
use crate::module_loader::model::ActionView;
use crate::module_loader::model::FileView;
use crate::module_loader::model::LoaderView;
use crate::paths::extension;
use crate::paths::file_name_of_path;
use crate::paths::has_module_extension;
use crate::paths::is_under;
use crate::paths::join;
use crate::paths::joined;
use crate::paths::strip_dir;
use crate::paths::FileName;
use crate::paths::FileNameView;
use crate::paths::FilePath;
use crate::paths::FilePathView;
use crate::syntax::body_import;
use crate::syntax::import_name;
use crate::syntax::ImportName;
use crate::syntax::body_len;
use crate::syntax::empty_module;
use crate::syntax::comments_held;
use crate::syntax::leading_comments;
use crate::syntax::lists_comments;
use crate::syntax::program_span;
use crate::syntax::tree_span;
use crate::syntax::module_items;
use crate::syntax::parse_module;
use crate::syntax::resolve_identifiers;
use crate::syntax::ImportDecl;
use crate::syntax::ImportDeclView;
use crate::syntax::CommentGroup;
use crate::syntax::SyntaxError;
use crate::syntax::SyntaxErrorView;
use crate::text::starts_with;
use crate::text::str_eq;
use crate::text::utf8_len;

pub mod laws;
pub mod model;

verus! {

/// A unique id for a module.
#[derive(Debug, Clone, Copy, PartialEq, Eq, Hash, Structural)]
pub struct ModuleId(pub usize);

/// Why a module could not be loaded.
#[derive(Debug, Clone, PartialEq, Eq)]
pub enum Error {
    /// The resolver found no file for the specifier; with its reason.
    UnableToResolve(String, String),
    /// The resolver named something that cannot hold a module.
    InvalidFilename(FileName),
    /// The file could not be read or registered; with the reason.
    LoadFile(String),
    /// The file's text is no module.
    ParseError(SyntaxError),
}

/// An [`Error`] as mathematical values.
pub enum ErrorView {
    UnableToResolve(Seq<char>, Seq<char>),
    InvalidFilename(FileNameView),
    LoadFile(Seq<char>),
    ParseError(Span, Seq<char>),
}

impl View for Error {
    type V = ErrorView;

    open spec fn view(&self) -> ErrorView {
        match self {
            Error::UnableToResolve(specifier, reason) => ErrorView::UnableToResolve(specifier@, reason@),
            Error::InvalidFilename(name) => ErrorView::InvalidFilename(name@),
            Error::LoadFile(reason) => ErrorView::LoadFile(reason@),
            Error::ParseError(e) => ErrorView::ParseError(e.span, e.msg@),
        }
    }
}

/// The text of a source name.
pub open spec fn file_name_text(name: FileNameView) -> Seq<char> {
    match name {
        FileNameView::Real(path) => path,
        FileNameView::Custom(name) => name,
        FileNameView::Other(what) => what,
    }
}

/// An error in words.
pub open spec fn error_message(e: ErrorView) -> Seq<char> {
    match e {
        ErrorView::UnableToResolve(specifier, reason) => "unable to resolve module "@ + specifier + ": "@
            + reason,
        ErrorView::InvalidFilename(name) => "invalid filename "@ + file_name_text(name),
        ErrorView::LoadFile(_) => "unable to load file from filesystem"@,
        ErrorView::ParseError(_, msg) => msg,
    }
}

impl Error {
    /// Where in the source text the error is, if it is a syntax error.
    pub fn span(&self) -> (span: Option<Span>)
        ensures
            span == match self@ {
                ErrorView::ParseError(span, _) => Some(span),
                _ => None,
            },
    {
        match self {
            Error::UnableToResolve(..) | Error::InvalidFilename(_) | Error::LoadFile(_) => None,
            Error::ParseError(e) => Some(e.span),
        }
    }

    /// The error in words.
    pub fn msg(&self) -> (text: String)
        ensures
            text@ == error_message(self@),
    {
        match self {
            Error::UnableToResolve(specifier, reason) => String::from_str("unable to resolve module ").concat(
                specifier.as_str(),
            ).concat(": ").concat(reason.as_str()),
            Error::InvalidFilename(name) => {
                let text = match name {
                    FileName::Real(path) => path.as_str(),
                    FileName::Custom(name) => name.as_str(),
                    FileName::Other(what) => what.as_str(),
                };
                String::from_str("invalid filename ").concat(text)
            },
            Error::LoadFile(_) => String::from_str("unable to load file from filesystem"),
            Error::ParseError(e) => e.msg.clone(),
        }
    }
}

/// A module: a parsed source text with its identity.
#[derive(Debug)]
pub struct Module {
    pub id: ModuleId,
    pub ast: swc_ecma_ast::Program,
    pub file_path: FilePath,
    pub swc_file_path: FileName,
    /// How the module was imported, if it's an external module.
    pub imported_as: Option<String>,
    /// The comments as the parser has collected them.
    pub comments: Option<SingleThreadedComments>,
    /// The comments that stand before a position, position by position.
    pub leading_comments: Vec<CommentGroup>,
    /// The import declarations of the syntax tree.
    pub imports: Vec<ImportDecl>,
}

/// What identifies a [`Module`] and what it imports, as mathematical
/// values.
pub struct ModuleView {
    pub id: ModuleId,
    pub file_path: FilePathView,
    pub imported_as: Option<Seq<char>>,
    pub imports: Seq<ImportDeclView>,
}

impl View for Module {
    type V = ModuleView;

    open spec fn view(&self) -> ModuleView {
        ModuleView {
            id: self.id,
            file_path: self.file_path@,
            imported_as: self.imported_as.deep_view(),
            imports: self.imports.deep_view(),
        }
    }
}

/// The import declarations among the first `k` items of a module's body.
pub open spec fn imports_before(items: Seq<Option<ImportDeclView>>, k: int) -> Seq<ImportDeclView>
    decreases k,
{
    if k <= 0 {
        Seq::empty()
    } else {
        match items[k - 1] {
            Some(import) => imports_before(items, k - 1).push(import),
            None => imports_before(items, k - 1),
        }
    }
}

/// The import declarations of a module's body, in order.
pub open spec fn imports_of(items: Seq<Option<ImportDeclView>>) -> Seq<ImportDeclView> {
    imports_before(items, items.len() as int)
}

/// The import declarations in the given module.
pub fn imports_from_mod(ast: &swc_ecma_ast::Program) -> (imports: Vec<ImportDecl>)
    ensures
        imports.deep_view() == imports_of(module_items(*ast)),
{
    let mut imports: Vec<ImportDecl> = Vec::new();
    let n = body_len(ast);
    let mut i: usize = 0;
    assert(imports.deep_view() =~= imports_before(module_items(*ast), 0));
    while i < n
        invariant
            i <= n,
            n == module_items(*ast).len(),
            imports.deep_view() == imports_before(module_items(*ast), i as int),
        decreases n - i,
    {
        let ghost before = imports.deep_view();
        match body_import(ast, i) {
            Some(head) => {
                let ghost decl = module_items(*ast)[i as int]->0;
                let mut names: Vec<ImportName> = Vec::new();
                let mut j: usize = 0;
                while j < head.names
                    invariant
                        j <= head.names,
                        i < module_items(*ast).len(),
                        module_items(*ast)[i as int] == Some(decl),
                        head.names == decl.names.len(),
                        names.len() == j,
                        forall|k: int| 0 <= k < j ==> (#[trigger] names@[k]).deep_view() == decl.names[k],
                    decreases head.names - j,
                {
                    names.push(import_name(ast, i, j));
                    j += 1;
                }
                assert(names.deep_view() =~= decl.names);
                let import = ImportDecl { span: head.span, src: head.src, type_only: head.type_only, names };
                assert(import.deep_view() == decl);
                imports.push(import);
                assert(imports.deep_view() =~= before.push(decl));
            },
            None => {},
        }
        i += 1;
    }
    imports
}

/// The texts of several comments as one text, one comment to a line.
pub open spec fn joined_lines(texts: Seq<Seq<char>>) -> Seq<char>
    decreases texts.len(),
{
    if texts.len() == 0 {
        Seq::empty()
    } else if texts.len() == 1 {
        texts[0]
    } else {
        joined_lines(texts.drop_last()) + seq!['\n'] + texts.last()
    }
}

impl Module {
    /// Whether the module's fields agree: the source name is that of the
    /// file identity, and the imports are those of the syntax tree.
    pub open spec fn wf(&self) -> bool {
        &&& self.swc_file_path@ == file_name_of_path(self.file_path@)
        &&& self.imports.deep_view() == imports_of(module_items(self.ast))
        &&& match self.comments {
            Some(comments) => lists_comments(self.leading_comments.deep_view(), comments_held(comments)),
            None => self.leading_comments@.len() == 0,
        }
    }

    /// The comments that the module holds before a position, if any.
    pub open spec fn comments_before(&self, pos: u32) -> Option<Seq<Seq<char>>> {
        match self.comments {
            Some(comments) => if comments_held(comments).dom().contains(pos) {
                Some(comments_held(comments)[pos])
            } else {
                None
            },
            None => None,
        }
    }

    /// The span of the module's syntax tree.
    pub fn span(&self) -> (span: Span)
        ensures
            span == tree_span(self.ast),
    {
        program_span(&self.ast)
    }

    /// Makes a module of a syntax tree, with the imports read off the tree.
    fn new(
        id: ModuleId,
        file_path: FilePath,
        imported_as: Option<String>,
        ast: swc_ecma_ast::Program,
        comments: Option<SingleThreadedComments>,
    ) -> (module: Rc<Self>)
        ensures
            module.wf(),
            module.id == id,
            module.file_path == file_path,
            module.imported_as == imported_as,
            module.ast == ast,
            module.comments == comments,
    {
        let swc_file_path = FileName::from_path(&file_path);
        let imports = imports_from_mod(&ast);
        let leading_comments = match &comments {
            Some(comments) => leading_comments(comments),
            None => Vec::new(),
        };
        Rc::new(
            Module { id, ast, file_path, swc_file_path, imported_as, comments, leading_comments, imports },
        )
    }

    /// The import declarations of the module.
    pub fn imports(&self) -> (imports: &Vec<ImportDecl>)
        ensures
            imports.deep_view() == self@.imports,
    {
        &self.imports
    }

    /// The comments that stand before a position, one to a line: those of
    /// the first group of the module's leading comments that stands at the
    /// position, which in a module in working order are the comments that
    /// the parser has collected for the position.
    pub fn preceding_comments(&self, pos: u32) -> (text: Option<String>)
        ensures
            text.deep_view() == match comments_at(self.leading_comments@, pos, self.leading_comments@.len() as int) {
                Some(texts) => Some(joined_lines(texts.deep_view())),
                None => None,
            },
            self.wf() ==> text.deep_view() == match self.comments_before(pos) {
                Some(texts) => Some(joined_lines(texts)),
                None => None,
            },
    {
        let mut k: usize = 0;
        while k < self.leading_comments.len()
            invariant
                k <= self.leading_comments.len(),
                comments_at(self.leading_comments@, pos, k as int) is None,
            decreases self.leading_comments.len() - k,
        {
            if self.leading_comments[k].pos == pos {
                proof {
                    lemma_comments_at_stays(
                        self.leading_comments@,
                        pos,
                        k + 1,
                        self.leading_comments@.len() as int,
                    );
                }
                proof {
                    if self.wf() {
                        self.lemma_comments_agree(pos);
                    }
                }
                return Some(join_lines(&self.leading_comments[k].texts));
            }
            k += 1;
        }
        proof {
            if self.wf() {
                self.lemma_comments_agree(pos);
            }
        }
        None
    }

    /// In a module in working order, the comments found at a position
    /// among the leading comments are the comments that the module holds
    /// before it.
    pub proof fn lemma_comments_agree(&self, pos: u32)
        requires
            self.wf(),
        ensures
            match comments_at(self.leading_comments@, pos, self.leading_comments@.len() as int) {
                Some(texts) => self.comments_before(pos) == Some(texts.deep_view()),
                None => self.comments_before(pos) is None,
            },
    {
        lemma_comments_at(self.leading_comments@, pos, self.leading_comments@.len() as int);
        let groups = self.leading_comments.deep_view();
        assert forall|i: int| 0 <= i < groups.len() implies (#[trigger] groups[i])
            == self.leading_comments@[i].deep_view() by {}
        match comments_at(self.leading_comments@, pos, self.leading_comments@.len() as int) {
            Some(texts) => {
                let i = choose|i: int|
                    0 <= i < self.leading_comments@.len() && (#[trigger] self.leading_comments@[i]).pos == pos
                        && self.leading_comments@[i].texts == texts;
                assert(groups[i].0 == pos);
                if self.comments is Some {
                    assert(comments_held(self.comments->0).contains_pair(groups[i].0, groups[i].1));
                }
            },
            None => {
                if self.comments is Some && comments_held(self.comments->0).dom().contains(pos) {
                    let i = choose|i: int| 0 <= i < groups.len() && (#[trigger] groups[i]).0 == pos;
                    assert(self.leading_comments@[i].pos == pos);
                }
            },
        }
    }
}

/// The texts of the first of the first `k` groups of comments that stands
/// before `pos`.
pub open spec fn comments_at(groups: Seq<CommentGroup>, pos: u32, k: int) -> Option<Vec<String>>
    decreases k,
{
    if k <= 0 {
        None
    } else {
        match comments_at(groups, pos, k - 1) {
            Some(texts) => Some(texts),
            None => if groups[k - 1].pos == pos {
                Some(groups[k - 1].texts)
            } else {
                None
            },
        }
    }
}

/// The comments found at a position are those of a group that stands at
/// it, and where none are found no group stands at it.
pub proof fn lemma_comments_at(groups: Seq<CommentGroup>, pos: u32, k: int)
    requires
        k <= groups.len(),
    ensures
        match comments_at(groups, pos, k) {
            Some(texts) => exists|i: int| 0 <= i < k && (#[trigger] groups[i]).pos == pos && groups[i].texts == texts,
            None => forall|i: int| 0 <= i < k ==> (#[trigger] groups[i]).pos != pos,
        },
    decreases k,
{
    if k > 0 {
        lemma_comments_at(groups, pos, k - 1);
        if comments_at(groups, pos, k - 1) is None && groups[k - 1].pos == pos {
            assert(groups[k - 1].pos == pos && groups[k - 1].texts == groups[k - 1].texts);
        }
    }
}

/// Comments that were found among the first groups are found among more.
pub proof fn lemma_comments_at_stays(groups: Seq<CommentGroup>, pos: u32, k: int, n: int)
    requires
        0 <= k <= n,
        comments_at(groups, pos, k) is Some,
    ensures
        comments_at(groups, pos, n) == comments_at(groups, pos, k),
    decreases n - k,
{
    if k < n {
        lemma_comments_at_stays(groups, pos, k, n - 1);
    }
}

/// Several texts as one text, one to a line.
pub fn join_lines(texts: &Vec<String>) -> (text: String)
    ensures
        text@ == joined_lines(texts.deep_view()),
{
    let mut text = String::new();
    let mut i: usize = 0;
    assert(texts.deep_view().take(0) =~= Seq::<Seq<char>>::empty());
    while i < texts.len()
        invariant
            i <= texts.len(),
            text@ == joined_lines(texts.deep_view().take(i as int)),
        decreases texts.len() - i,
    {
        proof {
            reveal_strlit("\n");
            let next = texts.deep_view().take(i + 1);
            assert(next.drop_last() =~= texts.deep_view().take(i as int));
            assert(next.last() == texts@[i as int]@);
            assert("\n"@ =~= seq!['\n']);
        }
        if i > 0 {
            text.append("\n");
        }
        text.append(texts[i].as_str());
        assert(i == 0 ==> Seq::<char>::empty() + texts@[i as int]@ =~= texts@[i as int]@);
        i += 1;
    }
    assert(texts.deep_view().take(i as int) =~= texts.deep_view());
    text
}

/// The ambient declarations that every module can use without importing
/// them.
pub const UNIVERSE_TS: &'static str =
    "declare type Partial<T> = { [P in keyof T]?: T[P] };\n\
declare type Required<T> = { [P in keyof T]-?: T[P] };\n\
declare type Readonly<T> = { readonly [P in keyof T]: T[P] };\n\
declare type Pick<T, K extends keyof T> = { [P in K]: T[P] };\n\
declare type Record<K extends keyof any, T> = { [P in K]: T };\n\
declare type Exclude<T, U> = T extends U ? never : T;\n\
declare type Extract<T, U> = T extends U ? T : never;\n\
declare type Omit<T, K extends keyof any> = Pick<T, Exclude<keyof T, K>>;\n\
declare type NonNullable<T> = T & {};\n";

/// The two modules that stand for generated code. They exist whether or
/// not the code was generated yet.
#[derive(Debug, Clone, Copy, PartialEq, Eq, Structural)]
pub enum Generated {
    /// The clients of the application's services.
    Clients,
    /// The application's authentication handler.
    Auth,
}

/// What the loader does next about an import.
#[derive(Debug)]
pub enum ImportAction {
    /// The import is settled: it leads to a module, to none, or fails.
    Done(Result<Option<Rc<Module>>, Error>),
    /// The resolver is to be asked where, from this importing file, this
    /// specifier leads.
    Resolve(FileName, String),
    /// The file at this path is to be read.
    Read(String),
}

/// What has happened about an import.
#[derive(Debug)]
pub enum ImportEvent {
    /// It was met.
    Start,
    /// The resolver has answered: with a source name, or with its reason
    /// for finding none.
    Resolved(Result<FileName, String>),
    /// The file at the path was read, or could not be; with the reason.
    Read(String, Result<String, String>),
}

impl View for ImportAction {
    type V = ActionView;

    open spec fn view(&self) -> ActionView {
        match self {
            ImportAction::Done(Ok(Some(m))) => ActionView::Done(Ok(Some(m@))),
            ImportAction::Done(Ok(None)) => ActionView::Done(Ok(None)),
            ImportAction::Done(Err(e)) => ActionView::Done(Err(e@)),
            ImportAction::Resolve(from_file, specifier) => ActionView::Resolve(from_file@, specifier@),
            ImportAction::Read(path) => ActionView::Read(path@),
        }
    }
}

/// A text archive: a comment and a list of named texts.
#[derive(Debug, Clone, PartialEq, Eq)]
pub struct Archive {
    pub comment: String,
    pub files: Vec<ArchiveFile>,
}

/// A named text of an [`Archive`].
#[derive(Debug, Clone, PartialEq, Eq)]
pub struct ArchiveFile {
    pub name: String,
    pub data: String,
}

/// Loads modules and keeps them by file identity.
#[derive(Debug)]
pub struct ModuleLoader {
    errs: Vec<SyntaxError>,
    file_set: FileSet,
    encore_gen_root: String,
    by_path: Vec<Rc<Module>>,
    // How many module ids were issued.
    issued: usize,
    // The universe module, if it's been loaded.
    universe: Option<Rc<Module>>,
    // The generated encore.gen/clients module.
    encore_app_clients: Option<Rc<Module>>,
    // The generated encore.gen/auth module.
    encore_auth: Option<Rc<Module>>,
}

impl View for ModuleLoader {
    type V = LoaderView;

    closed spec fn view(&self) -> LoaderView {
        LoaderView {
            gen_root: self.encore_gen_root@,
            modules: module_views(self.by_path@),
            universe: optional_module_view(self.universe),
            clients: optional_module_view(self.encore_app_clients),
            auth: optional_module_view(self.encore_auth),
            files: file_views(self.file_set@),
            next_pos: self.file_set.next_pos(),
            issued: self.issued as nat,
            errors: error_views(self.errs@),
        }
    }
}

impl ModuleLoader {
    /// The source texts registered.
    pub closed spec fn files(&self) -> Seq<Rc<SourceFile>> {
        self.file_set@
    }

    /// The modules kept, in the order in which their files were first kept.
    pub closed spec fn kept(&self) -> Seq<Rc<Module>> {
        self.by_path@
    }

    /// The syntax errors that did not stop the parser, oldest first.
    pub closed spec fn errors(&self) -> Seq<SyntaxError> {
        self.errs@
    }

    /// Whether the loader is in working order.
    pub closed spec fn wf(&self) -> bool {
        &&& self@.valid()
        &&& self.file_set.wf()
        &&& forall|i: int| 0 <= i < self.by_path@.len() ==> (#[trigger] self.by_path@[i]).wf()
        &&& self.universe matches Some(m) ==> m.wf()
        &&& self.encore_app_clients matches Some(m) ==> m.wf() && module_items(m.ast).len() == 0
        &&& self.encore_auth matches Some(m) ==> m.wf() && module_items(m.ast).len() == 0
    }

    /// The recorded errors of the view are the recorded errors.
    pub proof fn lemma_errors(&self)
        ensures
            self@.errors == error_views(self.errors()),
    {
    }

    /// A loader in working order keeps valid modules, each in working
    /// order itself, and its registered source texts lie one after
    /// another: no position is covered by two of them.
    pub proof fn lemma_wf(&self)
        requires
            self.wf(),
        ensures
            self@.valid(),
            self@.modules == module_views(self.kept()),
            self@.errors == error_views(self.errors()),
            self@.files == file_views(self.files()),
            forall|i: int| 0 <= i < self.kept().len() ==> (#[trigger] self.kept()[i]).wf(),
            forall|i: int|
                0 <= i < self.files().len() ==> (#[trigger] self.files()[i]).wf() && self.files()[i].end_pos
                    < self@.next_pos,
            forall|i: int, j: int|
                0 <= i < j < self.files().len() ==> (#[trigger] self.files()[i]).end_pos < (
                #[trigger] self.files()[j]).start_pos,
    {
    }

    /// A loader for the application in the directory `app_root`. The
    /// generated code lies in `encore.gen` below it.
    pub fn new(app_root: &str) -> (loader: Self)
        ensures
            loader.wf(),
            loader@ == (LoaderView {
                gen_root: joined(app_root@, "encore.gen"@),
                modules: Seq::empty(),
                universe: None,
                clients: None,
                auth: None,
                files: Seq::empty(),
                next_pos: 1,
                issued: 0,
                errors: Seq::empty(),
            }),
            loader.errors().len() == 0,
            loader.files().len() == 0,
    {
        let loader = ModuleLoader {
            errs: Vec::new(),
            file_set: FileSet::new(),
            encore_gen_root: join(app_root, "encore.gen"),
            by_path: Vec::new(),
            issued: 0,
            universe: None,
            encore_app_clients: None,
            encore_auth: None,
        };
        assert(loader@.modules =~= Seq::<ModuleView>::empty());
        assert(loader@.errors =~= Seq::<SyntaxErrorView>::empty());
        assert(loader@.files =~= Seq::<FileView>::empty());
        loader
    }

    /// The modules kept.
    pub fn modules(&self) -> (modules: Vec<Rc<Module>>)
        ensures
            modules@ == self.kept(),
    {
        let mut modules: Vec<Rc<Module>> = Vec::new();
        let mut i: usize = 0;
        while i < self.by_path.len()
            invariant
                i <= self.by_path.len(),
                modules@ == self.by_path@.take(i as int),
            decreases self.by_path.len() - i,
        {
            modules.push(self.by_path[i].clone());
            assert(modules@ =~= self.by_path@.take(i + 1));
            i += 1;
        }
        assert(self.by_path@.take(i as int) =~= self.by_path@);
        modules
    }

    /// The syntax errors that did not stop the parser.
    pub fn syntax_errors(&self) -> (errors: &Vec<SyntaxError>)
        ensures
            errors@ == self.errors(),
    {
        &self.errs
    }

    /// The module kept for a file identity.
    pub fn lookup(&self, path: &FilePath) -> (module: Option<Rc<Module>>)
        requires
            self.wf(),
        ensures
            optional_module_view(module) == self@.cached(path@),
            module matches Some(m) ==> m.wf() && self.kept().contains(m),
    {
        let mut i: usize = 0;
        while i < self.by_path.len()
            invariant
                i <= self.by_path.len(),
                self.wf(),
                forall|j: int| 0 <= j < i ==> (#[trigger] self@.modules[j]).file_path != path@,
            decreases self.by_path.len() - i,
        {
            if self.by_path[i].file_path.same_as(path) {
                proof {
                    assert(self@.modules[i as int] == self.by_path@[i as int]@);
                    lemma_find_module_at(self@.modules, i as int);
                }
                return Some(self.by_path[i].clone());
            }
            assert(self@.modules[i as int] == self.by_path@[i as int]@);
            i += 1;
        }
        proof {
            lemma_find_module(self@.modules, path@);
        }
        None
    }

    /// The module whose source text covers a position: the module kept for
    /// the file that covers it. No two registered texts cover one position.
    pub fn module_containing_pos(&self, pos: u32) -> (module: Option<Rc<Module>>)
        requires
            self.wf(),
        ensures
            optional_module_view(module) == self@.module_at(pos as int),
            module matches Some(m) ==> m.wf() && self.kept().contains(m),
    {
        let ghost files = self@.files;
        proof {
            assert forall|i: int| 0 <= i < files.len() implies (#[trigger] files[i]).start == self.file_set@[i].start_pos
                && files[i].end == self.file_set@[i].end_pos && files[i].name == self.file_set@[i].name@ by {}
        }
        match self.file_set.lookup_file(pos) {
            Some(file) => {
                proof {
                    let at = choose|i: int| 0 <= i < self.file_set@.len() && self.file_set@[i] == file;
                    assert(files[at].start <= pos <= files[at].end);
                    lemma_file_at(files, pos as int, at, files.len() as int);
                }
                self.lookup(&file.name)
            },
            None => {
                proof {
                    lemma_no_file_at(files, pos as int, files.len() as int);
                }
                None
            },
        }
    }

    /// The place of the module kept for a file identity.
    fn slot_of(&self, path: &FilePath) -> (at: Option<usize>)
        requires
            self.wf(),
        ensures
            match at {
                Some(i) => i == find_module(self@.modules, path@) && i < self.by_path@.len(),
                None => find_module(self@.modules, path@) == -1,
            },
    {
        let mut i: usize = 0;
        while i < self.by_path.len()
            invariant
                i <= self.by_path.len(),
                self.wf(),
                forall|j: int| 0 <= j < i ==> (#[trigger] self@.modules[j]).file_path != path@,
            decreases self.by_path.len() - i,
        {
            if self.by_path[i].file_path.same_as(path) {
                proof {
                    assert(self@.modules[i as int] == self.by_path@[i as int]@);
                    lemma_find_module_at(self@.modules, i as int);
                }
                return Some(i);
            }
            assert(self@.modules[i as int] == self.by_path@[i as int]@);
            i += 1;
        }
        proof {
            lemma_find_module(self@.modules, path@);
        }
        None
    }

    /// Puts a module at a place among those kept, or after them.
    fn put(&mut self, at: Option<usize>, module: Rc<Module>)
        requires
            at matches Some(i) ==> i < old(self).by_path@.len(),
        ensures
            final(self).by_path@ == match at {
                Some(i) => old(self).by_path@.update(i as int, module),
                None => old(self).by_path@.push(module),
            },
            final(self).errs == old(self).errs,
            final(self).issued == old(self).issued,
            final(self).file_set == old(self).file_set,
            final(self).encore_gen_root == old(self).encore_gen_root,
            final(self).universe == old(self).universe,
            final(self).encore_app_clients == old(self).encore_app_clients,
            final(self).encore_auth == old(self).encore_auth,
    {
        match at {
            Some(i) => {
                self.by_path.set(i, module);
            },
            None => {
                self.by_path.push(module);
            },
        }
    }

    /// Keeps the module of a parsed source text under its file identity,
    /// in the place of the module that was kept for it, if one was. The
    /// module gets the next id; that fails if the ids have run out.
    pub fn store(
        &mut self,
        file_path: FilePath,
        imported_as: Option<String>,
        ast: swc_ecma_ast::Program,
        comments: Option<SingleThreadedComments>,
    ) -> (stored: Result<Rc<Module>, Error>)
        requires
            old(self).wf(),
        ensures
            final(self).wf(),
            final(self).errors() == old(self).errors(),
            final(self).files() == old(self).files(),
            stored is Ok <==> old(self)@.can_keep(),
            match stored {
                Ok(m) => {
                    &&& m.wf()
                    &&& m@ == (ModuleView {
                        id: old(self)@.fresh_id(),
                        file_path: file_path@,
                        imported_as: imported_as.deep_view(),
                        imports: imports_of(module_items(ast)),
                    })
                    &&& m.ast == ast
                    &&& m.comments == comments
                    &&& final(self)@ == old(self)@.stored(m@)
                },
                Err(e) => e@ == ErrorView::LoadFile("too many modules"@) && final(self)@ == old(self)@,
            },
    {
        if self.issued >= usize::MAX - 3 {
            return Err(Error::LoadFile(String::from_str("too many modules")));
        }
        let at = self.slot_of(&file_path);
        let module = Module::new(ModuleId(self.issued + 1), file_path, imported_as, ast, comments);
        self.put(at, module.clone());
        self.issued = self.issued + 1;
        proof {
            lemma_stored(old(self)@, module@);
            assert(self@.modules =~= old(self)@.stored(module@).modules);
            assert(self@ == old(self)@.stored(module@));
        }
        Ok(module)
    }

    /// Registers a source text under a file identity.
    pub fn register(&mut self, name: FilePath, src: String) -> (file: Result<Rc<SourceFile>, Error>)
        requires
            old(self).wf(),
        ensures
            final(self).wf(),
            final(self).errors() == old(self).errors(),
            final(self).kept() == old(self).kept(),
            file is Ok <==> old(self)@.has_room(utf8_len(src@)),
            match file {
                Ok(file) => {
                    &&& file.wf()
                    &&& file.name == name
                    &&& file.src == src
                    &&& file.start_pos == old(self)@.next_pos
                    &&& final(self).files() == old(self).files().push(file)
                    &&& final(self)@ == old(self)@.registered(name@, utf8_len(src@))
                },
                Err(e) => {
                    &&& e@ == ErrorView::LoadFile("source text too large"@)
                    &&& final(self).files() == old(self).files()
                    &&& final(self)@ == old(self)@
                },
            },
    {
        match self.file_set.new_source_file(name, src, 2) {
            Some(file) => {
                proof {
                    assert(self@.files =~= old(self)@.registered(name@, utf8_len(src@)).files);
                    lemma_registered(old(self)@, name@, utf8_len(src@));
                }
                Ok(file)
            },
            None => Err(Error::LoadFile(String::from_str("source text too large"))),
        }
    }

    /// Parses a file. The text is parsed as TSX if the file's extension is
    /// `tsx`, and as declarations if its name ends in `.d.ts`. The errors
    /// that did not stop the parser are recorded after those recorded
    /// before. What comes back is the syntax tree, with its identifiers told
    /// apart, and the comments, or the error that stopped the parser.
    fn parse_file(&mut self, file: &SourceFile) -> (parsed: Result<
        (swc_ecma_ast::Program, SingleThreadedComments),
        Error,
    >)
        requires
            old(self).wf(),
            file.wf(),
        ensures
            final(self).wf(),
            final(self)@ == old(self)@.reported(
                parsed_at(file.name@, file.src@, file.start_pos as int).early_errors,
            ),
            final(self).files() == old(self).files(),
            final(self).kept() == old(self).kept(),
            match parsed {
                Ok((ast, _)) => parsed_at(file.name@, file.src@, file.start_pos as int).outcome == Ok::<
                    Seq<Option<ImportDeclView>>,
                    SyntaxErrorView,
                >(module_items(ast)),
                Err(e) => parsed_at(file.name@, file.src@, file.start_pos as int).outcome matches Err(
                    stopped,
                ) && e@ == ErrorView::ParseError(stopped.span, stopped.msg),
            },
    {
        let parsed = parse_module(file.src.as_str(), file.start_pos, file.name.is_tsx(), file.name.is_dts());
        // Report the errors that did not stop the parser.
        let mut early = parsed.early_errors;
        let ghost reported = early@;
        self.errs.append(&mut early);
        proof {
            assert(self.errs@ == old(self).errs@ + reported);
            assert(error_views(self.errs@) =~= error_views(old(self).errs@) + reported.map_values(
                |e: SyntaxError| e.deep_view(),
            ));
            assert(reported.map_values(|e: SyntaxError| e.deep_view()) =~= parsed_at(
                file.name@,
                file.src@,
                file.start_pos as int,
            ).early_errors);
            assert(self@.pending() == old(self)@.pending());
        }
        match parsed.ast {
            Ok(ast) => {
                // Resolve identifiers.
                Ok((resolve_identifiers(ast), parsed.comments))
            },
            Err(e) => Err(Error::ParseError(e)),
        }
    }

    /// Parse and store a file that is registered.
    fn parse_and_store(&mut self, file: Rc<SourceFile>, imported_as: Option<String>) -> (stored: Result<
        Rc<Module>,
        Error,
    >)
        requires
            old(self).wf(),
            file.wf(),
        ensures
            final(self).wf(),
            final(self).files() == old(self).files(),
            stored matches Ok(m) ==> m.wf(),
            final(self)@ == kept_parsed(
                old(self)@,
                parsed_at(file.name@, file.src@, file.start_pos as int),
                file.name@,
                imported_as.deep_view(),
            ).after,
            found(stored) == kept_parsed(
                old(self)@,
                parsed_at(file.name@, file.src@, file.start_pos as int),
                file.name@,
                imported_as.deep_view(),
            ).outcome,
    {
        match self.parse_file(&file) {
            Ok((ast, comments)) => self.store(file.name(), imported_as, ast, Some(comments)),
            Err(e) => Err(e),
        }
    }

    /// Registers, parses and stores a source text.
    fn load(&mut self, path: FilePath, src: String, imported_as: Option<String>) -> (loaded: Result<
        Rc<Module>,
        Error,
    >)
        requires
            old(self).wf(),
        ensures
            final(self).wf(),
            loaded matches Ok(m) ==> m.wf(),
            final(self)@ == load(old(self)@, path@, src@, imported_as.deep_view()).after,
            found(loaded) == load(old(self)@, path@, src@, imported_as.deep_view()).outcome,
    {
        let file = match self.register(path, src) {
            Ok(file) => file,
            Err(e) => {
                return Err(e);
            },
        };
        self.parse_and_store(file, imported_as)
    }

    /// The generated module `which`, made when it is first asked for.
    fn generated(&mut self, which: Generated) -> (module: Rc<Module>)
        requires
            old(self).wf(),
        ensures
            final(self).wf(),
            final(self).errors() == old(self).errors(),
            module.wf(),
            module_items(module.ast).len() == 0,
            module@ == old(self)@.answer(which),
            final(self)@ == old(self)@.asked(which),
    {
        let kept = match which {
            Generated::Clients => &self.encore_app_clients,
            Generated::Auth => &self.encore_auth,
        };
        if let Some(module) = kept {
            return module.clone();
        }
        let path = match which {
            Generated::Clients => "encore.gen/clients",
            Generated::Auth => "encore.gen/auth",
        };
        let file_path = FilePath::Real(path.to_owned());
        proof {
            reveal_strlit("");
            assert(""@ =~= Seq::<char>::empty());
            assert(vstd::utf8::encode_utf8(Seq::<char>::empty()) =~= Seq::<u8>::empty());
        }
        let at = self.slot_of(&file_path);
        // Room for the texts of the generated modules is always kept free,
        // and so are their ids.
        let file = self.file_set.new_source_file(file_path.clone(), String::from_str(""), 0).unwrap();
        let ast = empty_module(file.start_pos);
        let module = Module::new(ModuleId(self.issued + 1), file_path, Some(path.to_owned()), ast, None);
        proof {
            assert(module@.imports =~= Seq::<ImportDeclView>::empty());
            assert(module@ == old(self)@.new_generated(which));
        }
        let ghost registered = self@;
        proof {
            assert(registered.files =~= old(self)@.registered(file_path@, 0).files);
            assert(registered == old(self)@.registered(file_path@, 0));
        }
        self.put(at, module.clone());
        self.issued = self.issued + 1;
        match which {
            Generated::Clients => {
                self.encore_app_clients = Some(module.clone());
            },
            Generated::Auth => {
                self.encore_auth = Some(module.clone());
            },
        }
        proof {
            lemma_stored(registered, module@);
            lemma_asked(old(self)@, which);
            assert(self@.modules =~= registered.stored(module@).modules);
            assert(self@ == old(self)@.asked(which));
        }
        module
    }

    /// The generated `encore.gen/clients` module. Its syntax tree has no
    /// items.
    pub fn encore_app_clients(&mut self) -> (module: Rc<Module>)
        requires
            old(self).wf(),
        ensures
            final(self).wf(),
            final(self).errors() == old(self).errors(),
            module.wf(),
            module_items(module.ast).len() == 0,
            module@ == old(self)@.answer(Generated::Clients),
            final(self)@ == old(self)@.asked(Generated::Clients),
    {
        self.generated(Generated::Clients)
    }

    /// The generated `encore.gen/auth` module. Its syntax tree has no
    /// items.
    pub fn encore_auth(&mut self) -> (module: Rc<Module>)
        requires
            old(self).wf(),
        ensures
            final(self).wf(),
            final(self).errors() == old(self).errors(),
            module.wf(),
            module_items(module.ast).len() == 0,
            module@ == old(self)@.answer(Generated::Auth),
            final(self)@ == old(self)@.asked(Generated::Auth),
    {
        self.generated(Generated::Auth)
    }

    /// Load a source text that was made up for a file identity into the
    /// module loader, unless a module is kept for that identity.
    fn load_custom_file(&mut self, file_name: FilePath, src: String, imported_as: Option<String>) -> (loaded:
        Result<Rc<Module>, Error>)
        requires
            old(self).wf(),
        ensures
            final(self).wf(),
            loaded matches Ok(m) ==> m.wf(),
            final(self)@ == load_once(old(self)@, file_name@, src@, imported_as.deep_view()).after,
            found(loaded) == load_once(old(self)@, file_name@, src@, imported_as.deep_view()).outcome,
    {
        // Is it already stored?
        if let Some(module) = self.lookup(&file_name) {
            return Ok(module);
        }
        self.load(file_name, src, imported_as)
    }

    /// Load a file from the filesystem into the module loader, unless a
    /// module is kept for its path. `contents` is what reading the file
    /// gave: its text, or the reason why it could not be read. A text that
    /// was read is loaded: that succeeds exactly if the text has room,
    /// parses and an id is left for its module.
    pub fn load_fs_file(
        &mut self,
        path: &str,
        imported_as: Option<String>,
        contents: Result<String, String>,
    ) -> (loaded: Result<Rc<Module>, Error>)
        requires
            old(self).wf(),
        ensures
            final(self).wf(),
            loaded matches Ok(m) ==> m.wf(),
            match contents {
                Ok(src) => final(self)@ == load_once(
                    old(self)@,
                    FilePathView::Real(path@),
                    src@,
                    imported_as.deep_view(),
                ).after && found(loaded) == load_once(
                    old(self)@,
                    FilePathView::Real(path@),
                    src@,
                    imported_as.deep_view(),
                ).outcome,
                Err(reason) => final(self)@ == old(self)@ && found(loaded) == match old(self)@.cached(
                    FilePathView::Real(path@),
                ) {
                    Some(kept) => Ok::<Option<ModuleView>, ErrorView>(Some(kept)),
                    None => Err::<Option<ModuleView>, ErrorView>(ErrorView::LoadFile(reason@)),
                },
            },
    {
        // Is it already stored?
        let file_name = FilePath::Real(path.to_owned());
        if let Some(module) = self.lookup(&file_name) {
            return Ok(module);
        }
        let src = match contents {
            Ok(src) => src,
            Err(reason) => {
                return Err(Error::LoadFile(reason));
            },
        };
        self.load(file_name, src, imported_as)
    }

    /// The module of ambient declarations, parsed when it is first asked
    /// for and kept from then on.
    pub fn universe(&mut self) -> (loaded: Result<Rc<Module>, Error>)
        requires
            old(self).wf(),
        ensures
            final(self).wf(),
            loaded matches Ok(m) ==> m.wf(),
            final(self)@ == universe_loaded(old(self)@, UNIVERSE_TS@).after,
            found(loaded) == universe_loaded(old(self)@, UNIVERSE_TS@).outcome,
    {
        if let Some(module) = &self.universe {
            return Ok(module.clone());
        }
        let path = FilePath::Real(String::from_str("universe.ts"));
        proof {
            lemma_load(old(self)@, universe_path(), UNIVERSE_TS@, Some("__universe__"@));
        }
        match self.load(path, UNIVERSE_TS.to_owned(), Some(String::from_str("__universe__"))) {
            Ok(module) => {
                self.universe = Some(module.clone());
                Ok(module)
            },
            Err(e) => Err(e),
        }
    }

    /// The next thing to do about the import of `import_path` by the
    /// module `module`.
    pub fn resolve_import_from_module(&mut self, module: &Module, import_path: &str, event: ImportEvent) -> (action:
        ImportAction)
        requires
            old(self).wf(),
        ensures
            final(self).wf(),
            import_step(old(self)@, final(self)@, module.swc_file_path@, import_path@, event, action@),
            action matches ImportAction::Done(Ok(Some(m))) ==> m.wf(),
    {
        self.resolve_import(&module.swc_file_path, import_path, event)
    }

    /// The next thing to do about the import of `import_path` by the file
    /// `from_file`, after `event`.
    ///
    /// The caller begins with [`ImportEvent::Start`]. Told to resolve, it
    /// asks its resolver and comes back with the answer; told to read, it
    /// reads the file and comes back with the text.
    pub fn resolve_import(&mut self, from_file: &FileName, import_path: &str, event: ImportEvent) -> (action:
        ImportAction)
        requires
            old(self).wf(),
        ensures
            final(self).wf(),
            import_step(old(self)@, final(self)@, from_file@, import_path@, event, action@),
            action matches ImportAction::Done(Ok(Some(m))) ==> m.wf(),
    {
        // The generated modules exist whether or not their files do.
        if str_eq(import_path, "~encore/clients") {
            return ImportAction::Done(Ok(Some(self.encore_app_clients())));
        } else if str_eq(import_path, "~encore/auth") {
            return ImportAction::Done(Ok(Some(self.encore_auth())));
        }
        match event {
            ImportEvent::Start => ImportAction::Resolve(from_file.clone(), import_path.to_owned()),
            ImportEvent::Resolved(Err(reason)) => ImportAction::Done(
                Err(Error::UnableToResolve(import_path.to_owned(), reason)),
            ),
            ImportEvent::Resolved(Ok(name)) => self.import_resolved(import_path, name),
            ImportEvent::Read(path, contents) => {
                let imported_as = imported_as(import_path);
                match self.load_fs_file(path.as_str(), imported_as, contents) {
                    Ok(module) => ImportAction::Done(Ok(Some(module))),
                    Err(e) => ImportAction::Done(Err(e)),
                }
            },
        }
    }

    /// The next thing to do once the resolver has named a source.
    fn import_resolved(&mut self, import_path: &str, name: FileName) -> (action: ImportAction)
        requires
            old(self).wf(),
        ensures
            final(self).wf(),
            resolved_step(old(self)@, final(self)@, import_path@, name@, action@),
            action matches ImportAction::Done(Ok(Some(m))) ==> m.wf(),
    {
        let target = match name {
            FileName::Real(path) => {
                if let Some(ext) = extension(path.as_str()) {
                    if !has_module_extension(ext.as_str()) {
                        return ImportAction::Done(Ok(None));
                    }
                }
                // The resolved path may lie in the generated code even
                // where the specifier did not say so.
                match generated_at(path.as_str(), self.encore_gen_root.as_str()) {
                    Some(Generated::Clients) => {
                        return ImportAction::Done(Ok(Some(self.encore_app_clients())));
                    },
                    Some(Generated::Auth) => {
                        return ImportAction::Done(Ok(Some(self.encore_auth())));
                    },
                    None => {},
                }
                FilePath::Real(path)
            },
            FileName::Custom(name) => FilePath::Custom(name),
            FileName::Other(what) => {
                return ImportAction::Done(Err(Error::InvalidFilename(FileName::Other(what))));
            },
        };
        if let Some(module) = self.lookup(&target) {
            return ImportAction::Done(Ok(Some(module)));
        }
        match target {
            FilePath::Real(path) => ImportAction::Read(path),
            FilePath::Custom(name) => {
                proof {
                    reveal_strlit("");
                    assert(""@ =~= Seq::<char>::empty());
                }
                let imported_as = imported_as(import_path);
                match self.load(FilePath::Custom(name), String::from_str(""), imported_as) {
                    Ok(module) => ImportAction::Done(Ok(Some(module))),
                    Err(e) => ImportAction::Done(Err(e)),
                }
            },
        }
    }

    /// Injects a new file into the module loader. If a module is kept for
    /// a real path, that module is handed out and nothing is parsed. A
    /// made-up file is parsed every time, so that several can be injected
    /// under one name; each takes the place of the one before, with an id
    /// of its own.
    pub fn inject_file(&mut self, path: FilePath, src: &str) -> (loaded: Result<Rc<Module>, Error>)
        requires
            old(self).wf(),
        ensures
            final(self).wf(),
            loaded matches Ok(m) ==> m.wf(),
            match path {
                FilePath::Real(_) => final(self)@ == load_once(old(self)@, path@, src@, None).after && found(
                    loaded,
                ) == load_once(old(self)@, path@, src@, None).outcome,
                FilePath::Custom(_) => final(self)@ == load(old(self)@, path@, src@, None).after && found(
                    loaded,
                ) == load(old(self)@, path@, src@, None).outcome,
            },
    {
        // Check if the file has already been added if the file has a unique identity.
        match &path {
            FilePath::Real(_) => {
                if let Some(module) = self.lookup(&path) {
                    return Ok(module);
                }
            },
            FilePath::Custom(_) => {},
        }
        self.load(path, src.to_owned(), None)
    }

    /// Loads the TypeScript files of an archive, each under its name in
    /// the directory `base`, and hands out their modules in the archive's
    /// order. It fails with the first file that does not load, and, once
    /// all are loaded, with the oldest syntax error that the loader has
    /// recorded, if it has recorded any.
    pub fn load_archive(&mut self, base: &str, ar: &Archive) -> (loaded: Result<
        Vec<(FilePath, Rc<Module>)>,
        Error,
    >)
        requires
            old(self).wf(),
        ensures
            final(self).wf(),
            final(self)@ == archive_loaded(old(self)@, base@, ar.files@).after,
            match loaded {
                Ok(list) => {
                    &&& archive_loaded(old(self)@, base@, ar.files@).outcome == Ok::<
                        Seq<ModuleView>,
                        ErrorView,
                    >(listed_views(list@))
                    &&& forall|i: int|
                        0 <= i < list@.len() ==> (#[trigger] list@[i]).1.wf() && list@[i].0@
                            == list@[i].1@.file_path
                },
                Err(e) => archive_loaded(old(self)@, base@, ar.files@).outcome == Err::<
                    Seq<ModuleView>,
                    ErrorView,
                >(e@),
            },
    {
        let mut result: Vec<(FilePath, Rc<Module>)> = Vec::new();
        let mut k: usize = 0;
        assert(listed_views(result@) =~= Seq::<ModuleView>::empty());
        while k < ar.files.len()
            invariant
                k <= ar.files.len(),
                self.wf(),
                self@ == archive_files_loaded(old(self)@, base@, ar.files@, k as int).after,
                archive_files_loaded(old(self)@, base@, ar.files@, k as int).outcome == Ok::<
                    Seq<ModuleView>,
                    ErrorView,
                >(listed_views(result@)),
                forall|i: int|
                    0 <= i < result@.len() ==> (#[trigger] result@[i]).1.wf() && result@[i].0@
                        == result@[i].1@.file_path,
            decreases ar.files.len() - k,
        {
            let file = &ar.files[k];
            let is_ts = match extension(file.name.as_str()) {
                Some(ext) => str_eq(ext.as_str(), "ts"),
                None => false,
            };
            if is_ts {
                let file_name = FilePath::Real(join(base, file.name.as_str()));
                let module = match self.load(file_name, file.data.clone(), None) {
                    Ok(module) => module,
                    Err(e) => {
                        proof {
                            lemma_archive_failed(old(self)@, base@, ar.files@, k + 1, ar.files@.len() as int);
                        }
                        return Err(e);
                    },
                };
                let ghost before = listed_views(result@);
                result.push((module.file_path.clone(), module));
                assert(listed_views(result@) =~= before.push(module@));
            }
            k += 1;
        }
        if self.errs.len() > 0 {
            Err(Error::ParseError(self.errs[0].clone()))
        } else {
            Ok(result)
        }
    }
}

/// The views of the modules of a list of files with their modules.
pub open spec fn listed_views(list: Seq<(FilePath, Rc<Module>)>) -> Seq<ModuleView> {
    Seq::new(list.len(), |i: int| list[i].1@)
}

/// Once a file of an archive has failed to load, the files after it are
/// not looked at.
pub proof fn lemma_archive_failed(before: LoaderView, base: Seq<char>, files: Seq<ArchiveFile>, k: int, n: int)
    requires
        0 <= k <= n,
        archive_files_loaded(before, base, files, k).outcome is Err,
    ensures
        archive_files_loaded(before, base, files, n) == archive_files_loaded(before, base, files, k),
    decreases n - k,
{
    if k < n {
        lemma_archive_failed(before, base, files, k, n - 1);
    }
}

/// The registered source texts as mathematical values.
pub open spec fn file_views(files: Seq<Rc<SourceFile>>) -> Seq<FileView> {
    Seq::new(files.len(), |i: int| FileView { name: files[i].name@, start: files[i].start_pos as int, end: files[i].end_pos as int })
}

/// The recorded syntax errors as mathematical values.
pub open spec fn error_views(errors: Seq<SyntaxError>) -> Seq<SyntaxErrorView> {
    Seq::new(errors.len(), |i: int| errors[i].deep_view())
}

/// The name that a module is imported as.
pub fn imported_as(import_path: &str) -> (name: Option<String>)
    ensures
        name.deep_view() == imported_as_of(import_path@),
{
    if starts_with(import_path, "./") || starts_with(import_path, "../") || starts_with(import_path, "/") {
        None
    } else {
        Some(import_path.to_owned())
    }
}

/// The generated module whose directory in the generated code a path lies
/// under, if any.
pub fn generated_at(path: &str, gen_root: &str) -> (which: Option<Generated>)
    ensures
        which == generated_below(path@, gen_root@),
{
    match strip_dir(path, gen_root) {
        Some(rest) => {
            if is_under(rest.as_str(), "clients") {
                Some(Generated::Clients)
            } else if is_under(rest.as_str(), "auth") {
                Some(Generated::Auth)
            } else {
                None
            }
        },
        None => None,
    }
}

} // verus!
