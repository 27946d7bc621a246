//! File identities and the text of paths. A path is a string whose
//! components are separated by `/`.
use vstd::prelude::*;
use vstd::string::*;
use crate::text::find_last;
use crate::text::last_index_of;
use crate::text::lemma_last_index_of;
use crate::text::starts_with;
use crate::text::str_eq;
use crate::text::tail;

verus! {

/// The identity of a file that can hold a module: a path in the file
/// system, or a name made up for a file that exists nowhere.
#[derive(Debug, PartialEq, Eq, Hash)]
pub enum FilePath {
    Real(String),
    Custom(String),
}

/// A [`FilePath`] as mathematical values.
pub enum FilePathView {
    Real(Seq<char>),
    Custom(Seq<char>),
}

impl View for FilePath {
    type V = FilePathView;

    open spec fn view(&self) -> FilePathView {
        match self {
            FilePath::Real(path) => FilePathView::Real(path@),
            FilePath::Custom(name) => FilePathView::Custom(name@),
        }
    }
}

impl Clone for FilePath {
    fn clone(&self) -> (copy: Self)
        ensures
            copy@ == self@,
    {
        match self {
            FilePath::Real(path) => FilePath::Real(path.clone()),
            FilePath::Custom(name) => FilePath::Custom(name.clone()),
        }
    }
}

/// The text of the path or name of a file identity.
pub open spec fn path_text(path: FilePathView) -> Seq<char> {
    match path {
        FilePathView::Real(path) => path,
        FilePathView::Custom(name) => name,
    }
}

impl FilePath {
    /// The text of the path or name.
    pub open spec fn text(&self) -> Seq<char> {
        path_text(self@)
    }

    /// The text of the path or name.
    pub fn as_str(&self) -> (text: &str)
        ensures
            text@ == self.text(),
    {
        match self {
            FilePath::Real(path) => path.as_str(),
            FilePath::Custom(name) => name.as_str(),
        }
    }

    /// Whether two identities are the same.
    pub fn same_as(&self, other: &FilePath) -> (same: bool)
        ensures
            same == (self@ == other@),
    {
        match (self, other) {
            (FilePath::Real(a), FilePath::Real(b)) => str_eq(a.as_str(), b.as_str()),
            (FilePath::Custom(a), FilePath::Custom(b)) => str_eq(a.as_str(), b.as_str()),
            _ => false,
        }
    }

    /// Whether the file holds TSX: its extension is `tsx`.
    pub fn is_tsx(&self) -> (yes: bool)
        ensures
            yes == (extension_of(self.text()) == Some("tsx"@)),
    {
        match extension(self.as_str()) {
            Some(ext) => str_eq(ext.as_str(), "tsx"),
            None => false,
        }
    }

    /// Whether the file holds declarations only: its name ends in `.d.ts`.
    pub fn is_dts(&self) -> (yes: bool)
        ensures
            yes == ends_with_dts(self.text()),
    {
        let text = self.as_str();
        let n = text.unicode_len();
        proof {
            reveal_strlit(".d.ts");
        }
        if n < 5 {
            false
        } else {
            let end = tail(text, n - 5);
            str_eq(end.as_str(), ".d.ts")
        }
    }
}

/// Whether a path ends in `.d.ts`.
pub open spec fn ends_with_dts(path: Seq<char>) -> bool {
    path.len() >= 5 && path.skip(path.len() - 5) == ".d.ts"@
}

/// The name of a source of text as a resolver gives it: a real path, a
/// made-up name, or something that cannot hold a module, described in words.
#[derive(Debug, PartialEq, Eq, Hash)]
pub enum FileName {
    Real(String),
    Custom(String),
    Other(String),
}

/// A [`FileName`] as mathematical values.
pub enum FileNameView {
    Real(Seq<char>),
    Custom(Seq<char>),
    Other(Seq<char>),
}

impl View for FileName {
    type V = FileNameView;

    open spec fn view(&self) -> FileNameView {
        match self {
            FileName::Real(path) => FileNameView::Real(path@),
            FileName::Custom(name) => FileNameView::Custom(name@),
            FileName::Other(what) => FileNameView::Other(what@),
        }
    }
}

impl Clone for FileName {
    fn clone(&self) -> (copy: Self)
        ensures
            copy@ == self@,
    {
        match self {
            FileName::Real(path) => FileName::Real(path.clone()),
            FileName::Custom(name) => FileName::Custom(name.clone()),
            FileName::Other(what) => FileName::Other(what.clone()),
        }
    }
}

/// The source name of a file identity.
pub open spec fn file_name_of_path(path: FilePathView) -> FileNameView {
    match path {
        FilePathView::Real(path) => FileNameView::Real(path),
        FilePathView::Custom(name) => FileNameView::Custom(name),
    }
}

impl FileName {
    /// The source name of a file identity.
    pub fn from_path(path: &FilePath) -> (name: FileName)
        ensures
            name@ == file_name_of_path(path@),
    {
        match path {
            FilePath::Real(path) => FileName::Real(path.clone()),
            FilePath::Custom(name) => FileName::Custom(name.clone()),
        }
    }
}

/// The last component of a path: what follows its last `/`.
pub open spec fn last_component(path: Seq<char>) -> Seq<char> {
    path.skip(last_index_of(path, '/') + 1)
}

/// A path without the `/` that it ends in, however many.
pub open spec fn trimmed(path: Seq<char>) -> Seq<char>
    decreases path.len(),
{
    if path.len() > 0 && path.last() == '/' {
        trimmed(path.drop_last())
    } else {
        path
    }
}

/// The extension of a path: what follows the last `.` of its last
/// component, where a `/` at the end of the path ends no component. There
/// is none where that component has no `.`, begins with its only `.`, or
/// is `..`.
pub open spec fn extension_of(path: Seq<char>) -> Option<Seq<char>> {
    let name = last_component(trimmed(path));
    let dot = last_index_of(name, '.');
    if dot <= 0 || name == ".."@ {
        None
    } else {
        Some(name.skip(dot + 1))
    }
}

/// Whether files with this extension hold modules.
pub open spec fn is_module_extension(ext: Seq<char>) -> bool {
    ext == "js"@ || ext == "ts"@ || ext == "mjs"@ || ext == "mts"@ || ext == "cjs"@ || ext == "cts"@ || ext
        == "jsx"@ || ext == "tsx"@
}

/// The path of `name` in the directory `base`. A name that begins with
/// `/` is a path from the root and stands for itself.
pub open spec fn joined(base: Seq<char>, name: Seq<char>) -> Seq<char> {
    if base.len() == 0 || (name.len() > 0 && name[0] == '/') {
        name
    } else if base.last() == '/' {
        base + name
    } else {
        base + seq!['/'] + name
    }
}

/// Whether `path` is `dir` itself or lies below it.
pub open spec fn lies_under(path: Seq<char>, dir: Seq<char>) -> bool {
    path == dir || joined(dir, Seq::empty()).is_prefix_of(path)
}

/// What is left of `path` when the directory `dir` that it lies under is
/// taken off its front.
pub open spec fn below(path: Seq<char>, dir: Seq<char>) -> Seq<char>
    recommends
        lies_under(path, dir),
{
    if path == dir {
        Seq::empty()
    } else {
        path.skip(joined(dir, Seq::empty()).len() as int)
    }
}

/// The length of a path without the `/` that it ends in.
pub fn trimmed_len(path: &str) -> (n: usize)
    ensures
        n <= path@.len(),
        path@.take(n as int) == trimmed(path@),
{
    let mut n: usize = path.unicode_len();
    assert(path@.take(n as int) =~= path@);
    while n > 0 && path.get_char(n - 1) == '/'
        invariant
            n <= path@.len(),
            trimmed(path@.take(n as int)) == trimmed(path@),
        decreases n,
    {
        assert(path@.take(n as int).drop_last() =~= path@.take(n - 1));
        n -= 1;
    }
    n
}

/// The extension of a path.
pub fn extension(whole: &str) -> (ext: Option<String>)
    ensures
        ext.deep_view() == extension_of(whole@),
{
    let kept = trimmed_len(whole);
    let path = whole.substring_char(0, kept);
    assert(path@ =~= trimmed(whole@));
    let path_len = path.unicode_len();
    let name = match find_last(path, '/') {
        Some(slash) => {
            proof {
                lemma_last_index_of(path@, '/');
            }
            tail(path, slash + 1)
        },
        None => tail(path, 0),
    };
    assert(name@ == last_component(path@));
    if str_eq(name.as_str(), "..") {
        return None;
    }
    let name_len = name.as_str().unicode_len();
    match find_last(name.as_str(), '.') {
        Some(dot) => {
            if dot == 0 {
                None
            } else {
                proof {
                    lemma_last_index_of(name@, '.');
                }
                Some(tail(name.as_str(), dot + 1))
            }
        },
        None => None,
    }
}

/// Whether files with this extension hold modules.
pub fn has_module_extension(ext: &str) -> (yes: bool)
    ensures
        yes == is_module_extension(ext@),
{
    str_eq(ext, "js") || str_eq(ext, "ts") || str_eq(ext, "mjs") || str_eq(ext, "mts") || str_eq(ext, "cjs")
        || str_eq(ext, "cts") || str_eq(ext, "jsx") || str_eq(ext, "tsx")
}

/// The path of `name` in the directory `base`.
pub fn join(base: &str, name: &str) -> (path: String)
    ensures
        path@ == joined(base@, name@),
{
    let n = base.unicode_len();
    proof {
        reveal_strlit("/");
    }
    if n == 0 || starts_with(name, "/") {
        assert("/"@ =~= seq!['/']);
        assert("/"@.is_prefix_of(name@) <==> name@.len() > 0 && name@[0] == '/') by {
            if name@.len() > 0 && name@[0] == '/' {
                assert(name@.subrange(0, 1) =~= seq!['/']);
            }
            if "/"@.is_prefix_of(name@) {
                assert(name@[0] == "/"@[0]);
            }
        }
        name.to_owned()
    } else if base.get_char(n - 1) == '/' {
        base.to_owned().concat(name)
    } else {
        let path = base.to_owned().concat("/").concat(name);
        assert("/"@ =~= seq!['/']);
        path
    }
}

/// What is left of `path` below the directory `dir`, if it lies under it.
pub fn strip_dir(path: &str, dir: &str) -> (rest: Option<String>)
    ensures
        match rest {
            Some(rest) => lies_under(path@, dir@) && rest@ == below(path@, dir@),
            None => !lies_under(path@, dir@),
        },
{
    if str_eq(path, dir) {
        return Some(String::new());
    }
    let front = join(dir, "");
    proof {
        reveal_strlit("");
        assert(""@ =~= Seq::<char>::empty());
    }
    if starts_with(path, front.as_str()) {
        Some(tail(path, front.as_str().unicode_len()))
    } else {
        None
    }
}

/// Whether `path` is `dir` itself or lies below it.
pub fn is_under(path: &str, dir: &str) -> (yes: bool)
    ensures
        yes == lies_under(path@, dir@),
{
    strip_dir(path, dir).is_some()
}

} // verus!
