//! The module loader as mathematical values: what it keeps, and what each
//! step of an import does to it.
use std::rc::Rc;
use vstd::prelude::*;
use crate::module_loader::ArchiveFile;
use crate::module_loader::Error;
use crate::module_loader::ErrorView;
use crate::module_loader::Generated;
use crate::module_loader::ImportEvent;
use crate::module_loader::Module;
use crate::module_loader::ModuleId;
use crate::module_loader::imports_of;
use crate::module_loader::ModuleView;
use crate::paths::below;
use crate::paths::ends_with_dts;
use crate::paths::extension_of;
use crate::paths::is_module_extension;
use crate::paths::joined;
use crate::paths::lies_under;
use crate::paths::path_text;
use crate::paths::FileNameView;
use crate::paths::FilePathView;
use crate::syntax::parsed_source;
use crate::syntax::ParsedView;
use crate::syntax::SyntaxErrorView;
use crate::text::utf8_len;

verus! {

/// The specifier under which the generated clients are imported.
pub open spec fn clients_alias() -> Seq<char> {
    "~encore/clients"@
}

/// The specifier under which the generated authentication is imported.
pub open spec fn auth_alias() -> Seq<char> {
    "~encore/auth"@
}

/// The path of a generated module, which is also the name it is imported
/// as.
pub open spec fn generated_path(which: Generated) -> Seq<char> {
    match which {
        Generated::Clients => "encore.gen/clients"@,
        Generated::Auth => "encore.gen/auth"@,
    }
}

/// The generated module whose directory in the generated code a path lies
/// under, if any.
pub open spec fn generated_below(path: Seq<char>, gen_root: Seq<char>) -> Option<Generated> {
    if lies_under(path, gen_root) {
        if lies_under(below(path, gen_root), "clients"@) {
            Some(Generated::Clients)
        } else if lies_under(below(path, gen_root), "auth"@) {
            Some(Generated::Auth)
        } else {
            None
        }
    } else {
        None
    }
}

/// What a resolved source name leads to.
pub enum Target {
    /// A file that holds no module, such as an asset.
    NoModule,
    /// One of the generated modules.
    Generated(Generated),
    /// The file of this identity.
    File(FilePathView),
    /// Nothing that can hold a module.
    Invalid,
}

/// What a resolved source name leads to. A real path with an extension
/// that is not a module's holds no module; one under the generated code's
/// clients or authentication directory stands for that generated module.
pub open spec fn target_of(name: FileNameView, gen_root: Seq<char>) -> Target {
    match name {
        FileNameView::Real(path) => match extension_of(path) {
            Some(ext) => if !is_module_extension(ext) {
                Target::NoModule
            } else {
                real_target_of(path, gen_root)
            },
            None => real_target_of(path, gen_root),
        },
        FileNameView::Custom(name) => Target::File(FilePathView::Custom(name)),
        FileNameView::Other(_) => Target::Invalid,
    }
}

/// What a real path that may hold a module leads to.
pub open spec fn real_target_of(path: Seq<char>, gen_root: Seq<char>) -> Target {
    match generated_below(path, gen_root) {
        Some(which) => Target::Generated(which),
        None => Target::File(FilePathView::Real(path)),
    }
}

/// The name that a module is imported as: the specifier itself, unless it
/// is relative to the importing file or absolute.
pub open spec fn imported_as_of(specifier: Seq<char>) -> Option<Seq<char>> {
    if "./"@.is_prefix_of(specifier) || "../"@.is_prefix_of(specifier) || "/"@.is_prefix_of(specifier) {
        None
    } else {
        Some(specifier)
    }
}

/// The place of the module with the given identity among `modules`, or
/// `-1` if there is none.
pub open spec fn find_module(modules: Seq<ModuleView>, path: FilePathView) -> int
    decreases modules.len(),
{
    if modules.len() == 0 {
        -1
    } else if modules.last().file_path == path {
        modules.len() - 1
    } else {
        find_module(modules.drop_last(), path)
    }
}

/// A registered source text as mathematical values: the identity of its
/// file, and the positions that it covers, from `start` up to `end`.
pub struct FileView {
    pub name: FilePathView,
    pub start: int,
    pub end: int,
}

/// The first of the first `k` files that covers a position.
pub open spec fn file_at(files: Seq<FileView>, pos: int, k: int) -> Option<FileView>
    decreases k,
{
    if k <= 0 {
        None
    } else {
        match file_at(files, pos, k - 1) {
            Some(file) => Some(file),
            None => if files[k - 1].start <= pos <= files[k - 1].end {
                Some(files[k - 1])
            } else {
                None
            },
        }
    }
}

/// What a [`ModuleLoader`] holds, as mathematical values.
pub struct LoaderView {
    /// The directory of the generated code.
    pub gen_root: Seq<char>,
    /// The modules kept by file identity, in the order in which their
    /// files were first kept.
    pub modules: Seq<ModuleView>,
    /// The module of ambient declarations, once it was asked for.
    pub universe: Option<ModuleView>,
    /// The generated clients module, once it was asked for.
    pub clients: Option<ModuleView>,
    /// The generated authentication module, once it was asked for.
    pub auth: Option<ModuleView>,
    /// The source texts registered, in the order of their positions.
    pub files: Seq<FileView>,
    /// The first position that no source text covers yet.
    pub next_pos: int,
    /// How many module ids were issued: every module made gets the next
    /// number as its id, so that no two modules ever have the same.
    pub issued: nat,
    /// The syntax errors that did not stop the parser, oldest first.
    pub errors: Seq<SyntaxErrorView>,
}

impl LoaderView {
    /// The generated module kept, if it was asked for.
    pub open spec fn generated(self, which: Generated) -> Option<ModuleView> {
        match which {
            Generated::Clients => self.clients,
            Generated::Auth => self.auth,
        }
    }

    /// How many generated modules were not asked for yet.
    pub open spec fn pending(self) -> int {
        (if self.clients is None {
            1int
        } else {
            0int
        }) + (if self.auth is None {
            1int
        } else {
            0int
        })
    }

    /// Whether a module id is one of those issued.
    pub open spec fn was_issued(self, id: ModuleId) -> bool {
        1 <= id.0 <= self.issued
    }

    /// Whether the modules kept have ids that were issued, no two have the
    /// same id, and no two the same file identity.
    pub open spec fn ordered(self) -> bool {
        &&& forall|i: int| 0 <= i < self.modules.len() ==> self.was_issued((#[trigger] self.modules[i]).id)
        &&& forall|i: int, j: int|
            0 <= i < j < self.modules.len() ==> (#[trigger] self.modules[i]).id != (
            #[trigger] self.modules[j]).id
        &&& forall|i: int, j: int|
            0 <= i < j < self.modules.len() ==> (#[trigger] self.modules[i]).file_path != (
            #[trigger] self.modules[j]).file_path
    }

    /// Whether the modules are in order, the generated modules are filed
    /// under their paths with ids of their own, and room is left for those
    /// not asked for yet.
    pub open spec fn valid(self) -> bool {
        &&& self.ordered()
        &&& self.issued + self.pending() <= usize::MAX - 1
        &&& 1 <= self.next_pos
        &&& self.next_pos + self.pending() <= u32::MAX
        &&& forall|i: int|
            0 <= i < self.files.len() ==> (#[trigger] self.files[i]).start <= self.files[i].end
                < self.next_pos
        &&& forall|i: int, j: int|
            0 <= i < j < self.files.len() ==> (#[trigger] self.files[i]).end < (#[trigger] self.files[j]).start
        &&& self.clients matches Some(m) ==> is_generated(m, Generated::Clients) && self.was_issued(m.id)
        &&& self.auth matches Some(m) ==> is_generated(m, Generated::Auth) && self.was_issued(m.id)
        &&& self.universe matches Some(m) ==> self.was_issued(m.id)
        &&& self.clients is Some && self.auth is Some ==> self.clients->0.id != self.auth->0.id
    }

    /// The module kept for a file identity, if any.
    pub open spec fn cached(self, path: FilePathView) -> Option<ModuleView> {
        if find_module(self.modules, path) >= 0 {
            Some(self.modules[find_module(self.modules, path)])
        } else {
            None
        }
    }

    /// The id that the next module gets.
    pub open spec fn fresh_id(self) -> ModuleId {
        ModuleId((self.issued + 1) as usize)
    }

    /// Whether one more module can be kept: an id is left for it.
    pub open spec fn can_keep(self) -> bool {
        self.issued < usize::MAX - 3
    }

    /// After keeping module `m`, for which an id was issued: it takes the
    /// place of the module of the same file identity, or is added.
    pub open spec fn stored(self, m: ModuleView) -> LoaderView {
        LoaderView {
            modules: if find_module(self.modules, m.file_path) >= 0 {
                self.modules.update(find_module(self.modules, m.file_path), m)
            } else {
                self.modules.push(m)
            },
            issued: self.issued + 1,
            ..self
        }
    }

    /// Whether a source text of `len` bytes can be registered.
    pub open spec fn has_room(self, len: nat) -> bool {
        self.next_pos + len + 1 + 2 <= u32::MAX
    }

    /// After registering a source text of `len` bytes for the file `path`:
    /// the text covers the positions from the next one on, one for each
    /// byte, and one position is left free after it.
    pub open spec fn registered(self, path: FilePathView, len: nat) -> LoaderView {
        LoaderView {
            files: self.files.push(FileView { name: path, start: self.next_pos, end: self.next_pos + len }),
            next_pos: self.next_pos + len + 1,
            ..self
        }
    }

    /// The module whose source text covers a position: the module kept for
    /// the file that covers it.
    pub open spec fn module_at(self, pos: int) -> Option<ModuleView> {
        match file_at(self.files, pos, self.files.len() as int) {
            Some(file) => self.cached(file.name),
            None => None,
        }
    }

    /// After recording syntax errors.
    pub open spec fn reported(self, errors: Seq<SyntaxErrorView>) -> LoaderView {
        LoaderView { errors: self.errors + errors, ..self }
    }

    /// The generated module `which` as it is when first asked for: without
    /// imports, with the next id.
    pub open spec fn new_generated(self, which: Generated) -> ModuleView {
        ModuleView {
            id: self.fresh_id(),
            file_path: FilePathView::Real(generated_path(which)),
            imported_as: Some(generated_path(which)),
            imports: Seq::empty(),
        }
    }

    /// With `m` as the generated module `which`.
    pub open spec fn with_generated(self, which: Generated, m: ModuleView) -> LoaderView {
        match which {
            Generated::Clients => LoaderView { clients: Some(m), ..self },
            Generated::Auth => LoaderView { auth: Some(m), ..self },
        }
    }

    /// After the generated module `which` was asked for. The first time
    /// its empty source text is registered and the module is made and
    /// kept; from then on nothing changes.
    pub open spec fn asked(self, which: Generated) -> LoaderView {
        match self.generated(which) {
            Some(_) => self,
            None => self.registered(FilePathView::Real(generated_path(which)), 0).stored(
                self.new_generated(which),
            ).with_generated(
                which,
                self.new_generated(which),
            ),
        }
    }

    /// The generated module `which` that asking for it gives.
    pub open spec fn answer(self, which: Generated) -> ModuleView {
        match self.generated(which) {
            Some(m) => m,
            None => self.new_generated(which),
        }
    }
}

/// Whether a module is the generated module `which`: it is filed under the
/// generated path, and imported as that.
pub open spec fn is_generated(m: ModuleView, which: Generated) -> bool {
    &&& m.file_path == FilePathView::Real(generated_path(which))
    &&& m.imported_as == Some(generated_path(which))
    &&& m.imports.len() == 0
}

/// What loading a module comes to, as mathematical values.
pub open spec fn found(loaded: Result<Rc<Module>, Error>) -> Result<Option<ModuleView>, ErrorView> {
    match loaded {
        Ok(m) => Ok(Some(m@)),
        Err(e) => Err(e@),
    }
}

/// What the parser makes of the text `src` of the file `path` when the
/// text is registered at position `start`: the text is parsed as TSX if the
/// file's extension is `tsx`, and as declarations if its name ends in
/// `.d.ts`.
pub open spec fn parsed_at(path: FilePathView, src: Seq<char>, start: int) -> ParsedView {
    parsed_source(
        src,
        start as u32,
        extension_of(path_text(path)) == Some("tsx"@),
        ends_with_dts(path_text(path)),
    )
}

/// What loading comes to: the loader afterwards, and the module or the
/// error.
pub struct Loaded {
    pub after: LoaderView,
    pub outcome: Result<Option<ModuleView>, ErrorView>,
}

/// What keeping the parsed text of the file `path` comes to, once the
/// text is registered. The errors that did not stop the parser are
/// recorded. If the parser was stopped, that error is the outcome and no
/// module is kept. Else the module is made with the next id and with the
/// imports of the text, and is kept under `path`, unless the ids have run
/// out.
pub open spec fn kept_parsed(
    registered: LoaderView,
    parsed: ParsedView,
    path: FilePathView,
    imported_as: Option<Seq<char>>,
) -> Loaded {
    let reported = registered.reported(parsed.early_errors);
    match parsed.outcome {
        Err(stopped) => Loaded {
            after: reported,
            outcome: Err(ErrorView::ParseError(stopped.span, stopped.msg)),
        },
        Ok(items) => if reported.can_keep() {
            let m = ModuleView {
                id: reported.fresh_id(),
                file_path: path,
                imported_as,
                imports: imports_of(items),
            };
            Loaded { after: reported.stored(m), outcome: Ok(Some(m)) }
        } else {
            Loaded { after: reported, outcome: Err(ErrorView::LoadFile("too many modules"@)) }
        },
    }
}

/// What loading the source text `src` of the file `path` comes to.
/// Without room for the text nothing changes and loading fails. Otherwise
/// the text is registered at the next position and parsed, and what the
/// parser makes of it is kept as [`kept_parsed`] says: loading succeeds
/// exactly if the text parses and an id is left for its module.
pub open spec fn load(
    before: LoaderView,
    path: FilePathView,
    src: Seq<char>,
    imported_as: Option<Seq<char>>,
) -> Loaded {
    if !before.has_room(utf8_len(src)) {
        Loaded { after: before, outcome: Err(ErrorView::LoadFile("source text too large"@)) }
    } else {
        kept_parsed(
            before.registered(path, utf8_len(src)),
            parsed_at(path, src, before.next_pos),
            path,
            imported_as,
        )
    }
}

/// What loading a file unless its module is kept comes to: the module
/// kept, with the loader as it was, or what loading the text comes to.
pub open spec fn load_once(
    before: LoaderView,
    path: FilePathView,
    src: Seq<char>,
    imported_as: Option<Seq<char>>,
) -> Loaded {
    match before.cached(path) {
        Some(kept) => Loaded { after: before, outcome: Ok(Some(kept)) },
        None => load(before, path, src, imported_as),
    }
}

/// An [`ImportAction`] as mathematical values.
pub enum ActionView {
    Done(Result<Option<ModuleView>, ErrorView>),
    Resolve(FileNameView, Seq<char>),
    Read(Seq<char>),
}

/// The path under which the ambient declarations are filed.
pub open spec fn universe_path() -> FilePathView {
    FilePathView::Real("universe.ts"@)
}

/// What asking for the module of ambient declarations comes to: the
/// module kept, or what loading the declarations comes to, with the
/// module kept as the universe if they load.
pub open spec fn universe_loaded(before: LoaderView, text: Seq<char>) -> Loaded {
    match before.universe {
        Some(kept) => Loaded { after: before, outcome: Ok(Some(kept)) },
        None => {
            let loaded = load(before, universe_path(), text, Some("__universe__"@));
            Loaded {
                after: LoaderView {
                    universe: match loaded.outcome {
                        Ok(found) => found,
                        Err(_) => None,
                    },
                    ..loaded.after
                },
                outcome: loaded.outcome,
            }
        },
    }
}

/// Whether asking for the generated module `which` leads from `before` to
/// `after` with this `action`: the import is settled with that module.
pub open spec fn asks(before: LoaderView, after: LoaderView, which: Generated, action: ActionView) -> bool {
    after == before.asked(which) && action == ActionView::Done(Ok(Some(before.answer(which))))
}

/// Whether the resolver's answer `name` to the import of `specifier` leads
/// from `before` to `after` with this `action`.
///
/// - What cannot hold a module fails the import.
/// - A file that holds no module settles the import with no module.
/// - A path in the generated code settles it with the generated module.
/// - A file whose module is kept settles it with that module, and nothing
///   changes.
/// - Any other real file is to be read.
/// - Any other made-up file is loaded with an empty text.
pub open spec fn resolved_step(
    before: LoaderView,
    after: LoaderView,
    specifier: Seq<char>,
    name: FileNameView,
    action: ActionView,
) -> bool {
    match target_of(name, before.gen_root) {
        Target::Invalid => after == before && action == ActionView::Done(
            Err(ErrorView::InvalidFilename(name)),
        ),
        Target::NoModule => after == before && action == ActionView::Done(Ok(None)),
        Target::Generated(which) => asks(before, after, which, action),
        Target::File(path) => match before.cached(path) {
            Some(kept) => after == before && action == ActionView::Done(Ok(Some(kept))),
            None => match path {
                FilePathView::Real(path) => after == before && action == ActionView::Read(path),
                FilePathView::Custom(_) => after == load(
                    before,
                    path,
                    Seq::empty(),
                    imported_as_of(specifier),
                ).after && action == ActionView::Done(
                    load(before, path, Seq::empty(), imported_as_of(specifier)).outcome,
                ),
            },
        },
    }
}

/// Whether having read the file at `path` for the import of `specifier`
/// leads from `before` to `after` with this `action`. A module kept for
/// the path settles the import and nothing changes; else a file that could
/// not be read fails it, and a text that was read is loaded.
pub open spec fn read_step(
    before: LoaderView,
    after: LoaderView,
    specifier: Seq<char>,
    path: Seq<char>,
    contents: Result<String, String>,
    action: ActionView,
) -> bool {
    match contents {
        Ok(src) => after == load_once(
            before,
            FilePathView::Real(path),
            src@,
            imported_as_of(specifier),
        ).after && action == ActionView::Done(
            load_once(before, FilePathView::Real(path), src@, imported_as_of(specifier)).outcome,
        ),
        Err(reason) => after == before && action == ActionView::Done(
            match before.cached(FilePathView::Real(path)) {
                Some(kept) => Ok(Some(kept)),
                None => Err(ErrorView::LoadFile(reason@)),
            },
        ),
    }
}

/// Whether `event` about the import of `specifier` by the file
/// `from_file` leads from `before` to `after` with this `action`.
///
/// The two specifiers of generated code always settle the import with
/// their generated module. For any other specifier the resolver is asked
/// first; if it finds nothing the import fails, and what it finds decides
/// what follows.
pub open spec fn import_step(
    before: LoaderView,
    after: LoaderView,
    from_file: FileNameView,
    specifier: Seq<char>,
    event: ImportEvent,
    action: ActionView,
) -> bool {
    if specifier == clients_alias() {
        asks(before, after, Generated::Clients, action)
    } else if specifier == auth_alias() {
        asks(before, after, Generated::Auth, action)
    } else {
        match event {
            ImportEvent::Start => after == before && action == ActionView::Resolve(from_file, specifier),
            ImportEvent::Resolved(Err(reason)) => after == before && action == ActionView::Done(
                Err(ErrorView::UnableToResolve(specifier, reason@)),
            ),
            ImportEvent::Resolved(Ok(name)) => resolved_step(before, after, specifier, name@, action),
            ImportEvent::Read(path, contents) => read_step(before, after, specifier, path@, contents, action),
        }
    }
}

/// What loading an archive comes to: the loader afterwards, and the
/// modules of the files that were loaded, in order, or the error.
pub struct ArchiveLoaded {
    pub after: LoaderView,
    pub outcome: Result<Seq<ModuleView>, ErrorView>,
}

/// What loading the first `k` files of an archive comes to. A file whose
/// extension is not `ts` is passed over. Every other one is loaded under
/// its name in the directory `base`, imported as nothing, whether or not a
/// module is kept for it. The first file that does not load ends the
/// loading with its error.
pub open spec fn archive_files_loaded(
    before: LoaderView,
    base: Seq<char>,
    files: Seq<ArchiveFile>,
    k: int,
) -> ArchiveLoaded
    decreases k,
{
    if k <= 0 {
        ArchiveLoaded { after: before, outcome: Ok(Seq::empty()) }
    } else {
        let earlier = archive_files_loaded(before, base, files, k - 1);
        match earlier.outcome {
            Err(_) => earlier,
            Ok(modules) => if extension_of(files[k - 1].name@) == Some("ts"@) {
                let loaded = load(
                    earlier.after,
                    FilePathView::Real(joined(base, files[k - 1].name@)),
                    files[k - 1].data@,
                    None,
                );
                ArchiveLoaded {
                    after: loaded.after,
                    outcome: match loaded.outcome {
                        Ok(Some(m)) => Ok(modules.push(m)),
                        Ok(None) => Ok(modules),
                        Err(e) => Err(e),
                    },
                }
            } else {
                earlier
            },
        }
    }
}

/// What loading an archive comes to: its files are loaded one after
/// another, and if all load, the loading still fails with the oldest
/// syntax error that the loader has recorded, if it has recorded any.
pub open spec fn archive_loaded(before: LoaderView, base: Seq<char>, files: Seq<ArchiveFile>) -> ArchiveLoaded {
    let all = archive_files_loaded(before, base, files, files.len() as int);
    match all.outcome {
        Err(_) => all,
        Ok(_) => if all.after.errors.len() > 0 {
            ArchiveLoaded {
                after: all.after,
                outcome: Err(ErrorView::ParseError(all.after.errors[0].span, all.after.errors[0].msg)),
            }
        } else {
            all
        },
    }
}

/// The views of the modules kept.
pub open spec fn module_views(modules: Seq<Rc<Module>>) -> Seq<ModuleView> {
    Seq::new(modules.len(), |i: int| modules[i]@)
}

/// The view of a module, if there is one.
pub open spec fn optional_module_view(module: Option<Rc<Module>>) -> Option<ModuleView> {
    match module {
        Some(m) => Some(m@),
        None => None,
    }
}

} // verus!
