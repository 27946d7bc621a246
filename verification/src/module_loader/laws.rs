//! What holds of the module loader whatever is imported: a file is loaded
//! once, every module has an id of its own, and the specifiers of generated
//! code lead to their modules.
use vstd::prelude::*;
use crate::module_loader::model::archive_files_loaded;
use crate::module_loader::model::auth_alias;
use crate::module_loader::model::clients_alias;
use crate::module_loader::model::file_at;
use crate::module_loader::model::find_module;
use crate::module_loader::model::import_step;
use crate::module_loader::model::imported_as_of;
use crate::module_loader::model::is_generated;
use crate::module_loader::model::kept_parsed;
use crate::module_loader::model::load;
use crate::module_loader::model::load_once;
use crate::module_loader::model::parsed_at;
use crate::module_loader::model::target_of;
use crate::module_loader::model::ActionView;
use crate::module_loader::model::FileView;
use crate::module_loader::model::LoaderView;
use crate::module_loader::model::Target;
use crate::module_loader::ArchiveFile;
use crate::module_loader::ErrorView;
use crate::module_loader::Generated;
use crate::module_loader::ImportEvent;
use crate::module_loader::ModuleView;
use crate::paths::extension_of;
use crate::paths::joined;
use crate::paths::FileNameView;
use crate::paths::FilePathView;
use crate::syntax::ParsedView;
use crate::text::utf8_len;

verus! {

/// Where a module is found is where it stands, and only there.
pub proof fn lemma_find_module(modules: Seq<ModuleView>, path: FilePathView)
    ensures
        -1 <= find_module(modules, path) < modules.len(),
        find_module(modules, path) >= 0 ==> modules[find_module(modules, path)].file_path == path,
        find_module(modules, path) == -1 ==> forall|i: int|
            0 <= i < modules.len() ==> (#[trigger] modules[i]).file_path != path,
    decreases modules.len(),
{
    if modules.len() > 0 && modules.last().file_path != path {
        let init = modules.drop_last();
        lemma_find_module(init, path);
        if find_module(modules, path) == -1 {
            assert forall|i: int| 0 <= i < modules.len() implies (#[trigger] modules[i]).file_path
                != path by {
                if i < init.len() {
                    assert(init[i] == modules[i]);
                }
            }
        }
    }
}

/// Among modules of distinct file identities, a module is found at its
/// own place.
pub proof fn lemma_find_module_at(modules: Seq<ModuleView>, i: int)
    requires
        0 <= i < modules.len(),
        forall|a: int, b: int|
            0 <= a < b < modules.len() ==> (#[trigger] modules[a]).file_path != (#[trigger] modules[b]).file_path,
    ensures
        find_module(modules, modules[i].file_path) == i,
    decreases modules.len(),
{
    if i < modules.len() - 1 {
        let init = modules.drop_last();
        assert(modules[i].file_path != modules[modules.len() - 1].file_path);
        assert(init[i] == modules[i]);
        assert forall|a: int, b: int| 0 <= a < b < init.len() implies (#[trigger] init[a]).file_path != (
        #[trigger] init[b]).file_path by {
            assert(init[a] == modules[a]);
            assert(init[b] == modules[b]);
        }
        lemma_find_module_at(init, i);
    }
}

/// Keeping a module that has the next id leaves the modules in order, and
/// the module is then the one kept for its file identity. Its id is one
/// that no module kept before has, and every module that stays kept keeps
/// its id.
pub proof fn lemma_stored(s: LoaderView, m: ModuleView)
    requires
        s.ordered(),
        s.issued < usize::MAX,
        m.id == s.fresh_id(),
    ensures
        s.stored(m).ordered(),
        s.stored(m).cached(m.file_path) == Some(m),
        forall|path: FilePathView|
            path != m.file_path ==> #[trigger] s.stored(m).cached(path) == s.cached(path),
        forall|i: int| 0 <= i < s.modules.len() ==> (#[trigger] s.modules[i]).id != m.id,
        s.can_keep() && s.valid() ==> s.stored(m).valid(),
{
    let at = find_module(s.modules, m.file_path);
    let after = s.stored(m).modules;
    lemma_find_module(s.modules, m.file_path);
    assert forall|i: int| 0 <= i < s.modules.len() implies (#[trigger] s.modules[i]).id != m.id by {
        assert(s.was_issued(s.modules[i].id));
    }
    assert forall|i: int| 0 <= i < after.len() implies s.stored(m).was_issued((#[trigger] after[i]).id) by {
        if at >= 0 && i != at {
            assert(after[i] == s.modules[i]);
            assert(s.was_issued(s.modules[i].id));
        } else if at < 0 && i < s.modules.len() {
            assert(after[i] == s.modules[i]);
            assert(s.was_issued(s.modules[i].id));
        }
    }
    assert forall|i: int, j: int| 0 <= i < j < after.len() implies (#[trigger] after[i]).id != (
    #[trigger] after[j]).id && after[i].file_path != after[j].file_path by {
        if at >= 0 {
            assert(s.modules[i].file_path != s.modules[j].file_path);
            assert(s.modules[i].id != s.modules[j].id);
            assert(s.modules[i].id != m.id);
            assert(s.modules[j].id != m.id);
        } else if j < s.modules.len() {
            assert(s.modules[i].file_path != s.modules[j].file_path);
            assert(s.modules[i].id != s.modules[j].id);
        } else {
            assert(s.modules[i].file_path != m.file_path);
            assert(s.modules[i].id != m.id);
        }
    }
    if at >= 0 {
        lemma_find_module_at(after, at);
    } else {
        lemma_find_module_at(after, after.len() - 1);
    }
    assert(s.stored(m).pending() == s.pending());
    assert forall|path: FilePathView| path != m.file_path implies #[trigger] s.stored(m).cached(path)
        == s.cached(path) by {
        lemma_find_module(s.modules, path);
        lemma_find_module(after, path);
        let before_at = find_module(s.modules, path);
        let after_at = find_module(after, path);
        if before_at >= 0 {
            assert(after[before_at] == s.modules[before_at]);
            lemma_find_module_at(after, before_at);
        } else if after_at >= 0 {
            assert(after_at < s.modules.len() ==> after[after_at] == s.modules[after_at]);
        }
    }
}

/// Registering a text leaves the files one after another, and the text
/// covers positions that no file covered.
pub proof fn lemma_registered(s: LoaderView, path: FilePathView, len: nat)
    requires
        s.valid(),
    ensures
        s.registered(path, len).ordered(),
        s.registered(path, len).pending() == s.pending(),
        forall|i: int|
            0 <= i < s.registered(path, len).files.len() ==> (#[trigger] s.registered(path, len).files[i]).start
                <= s.registered(path, len).files[i].end < s.registered(path, len).next_pos,
        forall|i: int, j: int|
            0 <= i < j < s.registered(path, len).files.len() ==> (#[trigger] s.registered(
                path,
                len,
            ).files[i]).end < (#[trigger] s.registered(path, len).files[j]).start,
        s.has_room(len) ==> s.registered(path, len).valid(),
        forall|pos: int| pos < s.next_pos ==> #[trigger] s.registered(path, len).module_at(pos) == s.module_at(pos),
{
    let after = s.registered(path, len);
    assert forall|i: int| 0 <= i < after.files.len() implies (#[trigger] after.files[i]).start
        <= after.files[i].end < after.next_pos by {
        if i < s.files.len() {
            assert(after.files[i] == s.files[i]);
        }
    }
    assert forall|i: int, j: int| 0 <= i < j < after.files.len() implies (#[trigger] after.files[i]).end < (
    #[trigger] after.files[j]).start by {
        assert(after.files[i] == s.files[i]);
        if j < s.files.len() {
            assert(after.files[j] == s.files[j]);
        }
    }
    assert forall|pos: int| pos < s.next_pos implies #[trigger] after.module_at(pos) == s.module_at(pos) by {
        lemma_file_at_prefix(s.files, after.files, pos, s.files.len() as int);
    }
}

/// The file that covers a position among the first files does not depend
/// on the files after them.
pub proof fn lemma_file_at_prefix(files: Seq<FileView>, more: Seq<FileView>, pos: int, k: int)
    requires
        0 <= k <= files.len(),
        files.is_prefix_of(more),
    ensures
        file_at(more, pos, k) == file_at(files, pos, k),
    decreases k,
{
    if k > 0 {
        lemma_file_at_prefix(files, more, pos, k - 1);
        assert(more[k - 1] == files[k - 1]);
    }
}

/// Among files that lie one after another, the file that covers a
/// position is the only one that does.
pub proof fn lemma_file_at(files: Seq<FileView>, pos: int, i: int, k: int)
    requires
        0 <= i < k <= files.len(),
        files[i].start <= pos <= files[i].end,
        forall|a: int| 0 <= a < files.len() ==> (#[trigger] files[a]).start <= files[a].end,
        forall|a: int, b: int| 0 <= a < b < files.len() ==> (#[trigger] files[a]).end < (#[trigger] files[b]).start,
    ensures
        file_at(files, pos, k) == Some(files[i]),
    decreases k,
{
    if i < k - 1 {
        lemma_file_at(files, pos, i, k - 1);
    } else {
        lemma_no_file_before(files, pos, i, i);
    }
}

/// Among files that lie one after another, no file before one that covers
/// a position covers it.
pub proof fn lemma_no_file_before(files: Seq<FileView>, pos: int, i: int, k: int)
    requires
        0 <= k <= i < files.len(),
        files[i].start <= pos,
        forall|a: int| 0 <= a < files.len() ==> (#[trigger] files[a]).start <= files[a].end,
        forall|a: int, b: int| 0 <= a < b < files.len() ==> (#[trigger] files[a]).end < (#[trigger] files[b]).start,
    ensures
        file_at(files, pos, k) is None,
    decreases k,
{
    if k > 0 {
        lemma_no_file_before(files, pos, i, k - 1);
        assert(files[k - 1].end < files[i].start);
    }
}

/// Where no file covers a position, none is found.
pub proof fn lemma_no_file_at(files: Seq<FileView>, pos: int, k: int)
    requires
        0 <= k <= files.len(),
        forall|a: int| 0 <= a < files.len() ==> !((#[trigger] files[a]).start <= pos <= files[a].end),
    ensures
        file_at(files, pos, k) is None,
    decreases k,
{
    if k > 0 {
        lemma_no_file_at(files, pos, k - 1);
    }
}

/// Keeping what the parser makes of a registered text leaves a valid
/// loader valid. It succeeds exactly if the parser was not stopped and an
/// id is left; the module then has the next id, which no module kept
/// before has, and the imports of the text, and is the module kept for the
/// file. If it fails no module is kept or lost.
pub proof fn lemma_kept_parsed(
    registered: LoaderView,
    parsed: ParsedView,
    path: FilePathView,
    imported_as: Option<Seq<char>>,
)
    requires
        registered.valid(),
    ensures
        kept_parsed(registered, parsed, path, imported_as).after.valid(),
        kept_parsed(registered, parsed, path, imported_as).outcome is Ok <==> parsed.outcome is Ok
            && registered.can_keep(),
        kept_parsed(registered, parsed, path, imported_as).outcome matches Ok(found) ==> found matches Some(
            m,
        ) && m.id == registered.fresh_id() && m.file_path == path && kept_parsed(
            registered,
            parsed,
            path,
            imported_as,
        ).after.cached(path) == Some(m) && (forall|i: int|
            0 <= i < registered.modules.len() ==> (#[trigger] registered.modules[i]).id != m.id),
        kept_parsed(registered, parsed, path, imported_as).outcome is Err ==> kept_parsed(
            registered,
            parsed,
            path,
            imported_as,
        ).after.modules == registered.modules,
        registered.errors.is_prefix_of(kept_parsed(registered, parsed, path, imported_as).after.errors),
{
    let reported = registered.reported(parsed.early_errors);
    assert(reported.pending() == registered.pending());
    assert(reported.valid());
    if let Ok(found) = kept_parsed(registered, parsed, path, imported_as).outcome {
        lemma_stored(reported, found->0);
    }
}

/// Loading a text leaves a valid loader valid. It succeeds exactly if the
/// text has room, parses and an id is left; the module then has an id that
/// no module kept before has and is the module kept for the file.
pub proof fn lemma_load(before: LoaderView, path: FilePathView, src: Seq<char>, imported_as: Option<Seq<char>>)
    requires
        before.valid(),
    ensures
        load(before, path, src, imported_as).after.valid(),
        load(before, path, src, imported_as).outcome is Ok <==> before.has_room(utf8_len(src))
            && parsed_at(path, src, before.next_pos).outcome is Ok && before.can_keep(),
        load(before, path, src, imported_as).outcome matches Ok(found) ==> found matches Some(m) && m.id
            == before.fresh_id() && m.file_path == path && load(before, path, src, imported_as).after.cached(
            path,
        ) == Some(m) && (forall|i: int| 0 <= i < before.modules.len() ==> (#[trigger] before.modules[i]).id != m.id),
        load(before, path, src, imported_as).outcome is Err ==> load(
            before,
            path,
            src,
            imported_as,
        ).after.modules == before.modules,
        before.errors.is_prefix_of(load(before, path, src, imported_as).after.errors),
{
    if before.has_room(utf8_len(src)) {
        let registered = before.registered(path, utf8_len(src));
        lemma_registered(before, path, utf8_len(src));
        lemma_kept_parsed(registered, parsed_at(path, src, before.next_pos), path, imported_as);
    }
}

/// Every module gets an id of its own: a module that is made later has a
/// greater id than any that was made before, whether or not that one is
/// still kept. Loading issues one id if it succeeds and none if it fails,
/// and the module loaded has the id issued.
pub proof fn lemma_later_module_later_id(
    before: LoaderView,
    path: FilePathView,
    src: Seq<char>,
    imported_as: Option<Seq<char>>,
)
    requires
        before.valid(),
    ensures
        load(before, path, src, imported_as).outcome matches Ok(found) ==> found matches Some(m) && m.id.0
            == before.issued + 1 && load(before, path, src, imported_as).after.issued == before.issued + 1,
        load(before, path, src, imported_as).outcome is Err ==> load(
            before,
            path,
            src,
            imported_as,
        ).after.issued == before.issued,
        forall|i: int|
            0 <= i < before.modules.len() ==> (#[trigger] before.modules[i]).id.0 <= before.issued,
        before.universe matches Some(m) ==> m.id.0 <= before.issued,
        before.clients matches Some(m) ==> m.id.0 <= before.issued,
        before.auth matches Some(m) ==> m.id.0 <= before.issued,
{
    lemma_load(before, path, src, imported_as);
    assert forall|i: int| 0 <= i < before.modules.len() implies (#[trigger] before.modules[i]).id.0
        <= before.issued by {
        assert(before.was_issued(before.modules[i].id));
    }
}

/// The module that covers a position of a text that was loaded is the
/// module loaded from it.
pub proof fn lemma_loaded_module_covers_its_text(
    before: LoaderView,
    path: FilePathView,
    src: Seq<char>,
    imported_as: Option<Seq<char>>,
    pos: int,
)
    requires
        before.valid(),
        load(before, path, src, imported_as).outcome is Ok,
        before.next_pos <= pos <= before.next_pos + utf8_len(src),
    ensures
        load(before, path, src, imported_as).after.module_at(pos) == load(
            before,
            path,
            src,
            imported_as,
        ).outcome->Ok_0,
{
    lemma_load(before, path, src, imported_as);
    lemma_registered(before, path, utf8_len(src));
    let registered = before.registered(path, utf8_len(src));
    let after = load(before, path, src, imported_as).after;
    assert(after.files == registered.files);
    lemma_file_at(after.files, pos, before.files.len() as int, after.files.len() as int);
}

/// A text that does not parse fails with the parser's error and leaves the
/// modules as they were, and a text that parses loads afterwards all the
/// same.
pub proof fn lemma_syntax_error_fails_one_file(
    before: LoaderView,
    bad: FilePathView,
    bad_src: Seq<char>,
    good: FilePathView,
    good_src: Seq<char>,
)
    requires
        before.valid(),
        before.has_room(utf8_len(bad_src)),
        parsed_at(bad, bad_src, before.next_pos).outcome is Err,
        load(before, bad, bad_src, None).after.has_room(utf8_len(good_src)),
        load(before, bad, bad_src, None).after.can_keep(),
        parsed_at(good, good_src, load(before, bad, bad_src, None).after.next_pos).outcome is Ok,
    ensures
        load(before, bad, bad_src, None).outcome == Err::<Option<ModuleView>, ErrorView>(
            ErrorView::ParseError(
                parsed_at(bad, bad_src, before.next_pos).outcome->Err_0.span,
                parsed_at(bad, bad_src, before.next_pos).outcome->Err_0.msg,
            ),
        ),
        load(before, bad, bad_src, None).after.modules == before.modules,
        load(load(before, bad, bad_src, None).after, good, good_src, None).outcome is Ok,
{
    lemma_load(before, bad, bad_src, None);
    lemma_load(load(before, bad, bad_src, None).after, good, good_src, None);
}

/// Loading the files of an archive leaves a valid loader valid.
pub proof fn lemma_archive_files_loaded(before: LoaderView, base: Seq<char>, files: Seq<ArchiveFile>, k: int)
    requires
        before.valid(),
        k <= files.len(),
    ensures
        archive_files_loaded(before, base, files, k).after.valid(),
        before.errors.is_prefix_of(archive_files_loaded(before, base, files, k).after.errors),
    decreases k,
{
    if k > 0 {
        lemma_archive_files_loaded(before, base, files, k - 1);
        let earlier = archive_files_loaded(before, base, files, k - 1);
        if earlier.outcome is Ok && extension_of(files[k - 1].name@) == Some("ts"@) {
            lemma_load(
                earlier.after,
                FilePathView::Real(joined(base, files[k - 1].name@)),
                files[k - 1].data@,
                None,
            );
        }
    }
}

/// Asking for a generated module leaves a valid loader valid, and gives
/// the module that is filed under the generated path: the same one every
/// time, and never the other generated module nor one with its id.
pub proof fn lemma_asked(s: LoaderView, which: Generated)
    requires
        s.valid(),
    ensures
        s.asked(which).valid(),
        is_generated(s.answer(which), which),
        s.asked(which).generated(which) == Some(s.answer(which)),
        s.asked(which).asked(which) == s.asked(which),
        s.asked(which).answer(which) == s.answer(which),
        forall|other: Generated|
            other != which ==> (#[trigger] s.asked(which).answer(other)).id != s.answer(which).id,
        s.errors == s.asked(which).errors,
{
    if s.generated(which) is None {
        let m = s.new_generated(which);
        let registered = s.registered(m.file_path, 0);
        let kept = registered.stored(m);
        let after = s.asked(which);
        lemma_registered(s, m.file_path, 0);
        lemma_stored(registered, m);
        lemma_find_module(s.modules, m.file_path);
        assert(after.modules == kept.modules);
        assert(after.ordered());
        assert(after.pending() == s.pending() - 1);
        assert(is_generated(m, which));
        match which {
            Generated::Clients => {
                assert(after.auth == s.auth);
            },
            Generated::Auth => {
                assert(after.clients == s.clients);
            },
        }
    }
}

/// Importing either specifier of generated code settles the import with
/// the generated module of that specifier, whatever the importing module,
/// whatever the resolver has said, and however often it is asked.
pub proof fn lemma_alias_gives_generated(
    before: LoaderView,
    after: LoaderView,
    which: Generated,
    from_file: FileNameView,
    event: ImportEvent,
    action: ActionView,
)
    requires
        before.valid(),
        import_step(
            before,
            after,
            from_file,
            match which {
                Generated::Clients => clients_alias(),
                Generated::Auth => auth_alias(),
            },
            event,
            action,
        ),
    ensures
        after.valid(),
        action == ActionView::Done(Ok(Some(before.answer(which)))),
        is_generated(before.answer(which), which),
        after.generated(which) == Some(before.answer(which)),
        before.generated(which) matches Some(kept) ==> after == before && kept == before.answer(which),
{
    reveal_strlit("~encore/clients");
    reveal_strlit("~encore/auth");
    assert(clients_alias().len() != auth_alias().len());
    lemma_asked(before, which);
}

/// The file that an event about an import is about: the file that was
/// read, or the file that the resolver has named.
pub open spec fn event_file(event: ImportEvent, gen_root: Seq<char>) -> Option<FilePathView> {
    match event {
        ImportEvent::Read(path, _) => Some(FilePathView::Real(path@)),
        ImportEvent::Resolved(Ok(name)) => match target_of(name@, gen_root) {
            Target::File(file) => Some(file),
            _ => None,
        },
        _ => None,
    }
}

/// A file is loaded once. When an import has been settled with the module
/// of a file, any import that comes to the same file afterwards, by
/// whatever specifier and from whatever module, is settled with the same
/// module, and the loader stays as it was.
pub proof fn lemma_same_file_same_module(
    s0: LoaderView,
    s1: LoaderView,
    s2: LoaderView,
    file: FilePathView,
    from_first: FileNameView,
    first: Seq<char>,
    first_event: ImportEvent,
    m: ModuleView,
    from_second: FileNameView,
    second: Seq<char>,
    second_event: ImportEvent,
    action: ActionView,
)
    requires
        s0.valid(),
        first != clients_alias() && first != auth_alias(),
        second != clients_alias() && second != auth_alias(),
        event_file(first_event, s0.gen_root) == Some(file),
        import_step(s0, s1, from_first, first, first_event, ActionView::Done(Ok(Some(m)))),
        event_file(second_event, s1.gen_root) == Some(file),
        import_step(s1, s2, from_second, second, second_event, action),
    ensures
        action == ActionView::Done(Ok(Some(m))),
        s2 == s1,
        s1.valid(),
        s1.cached(file) == Some(m),
{
    if s0.cached(file) is None {
        match first_event {
            ImportEvent::Read(path, Ok(src)) => {
                lemma_load(s0, file, src@, imported_as_of(first));
            },
            ImportEvent::Resolved(Ok(name)) => {
                lemma_load(s0, file, Seq::empty(), imported_as_of(first));
            },
            _ => {},
        }
    }
    assert(load_once(s1, file, Seq::empty(), None).after == s1);
}

} // verus!
