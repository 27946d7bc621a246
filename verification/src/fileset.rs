//! The registry of source texts. Every text that is registered gets a
//! stretch of positions of its own, so that a position names a file.
use std::rc::Rc;
use vstd::prelude::*;
use vstd::string::*;
use vstd::utf8::encode_utf8;
use crate::paths::FilePath;

verus! {

/// A source text with its place among the positions: it covers the
/// positions from `start_pos` up to `end_pos`, one for each byte.
#[derive(Debug)]
pub struct SourceFile {
    pub name: FilePath,
    pub src: String,
    pub start_pos: u32,
    pub end_pos: u32,
}

impl SourceFile {
    /// Whether the positions fit the text.
    pub open spec fn wf(&self) -> bool {
        self.end_pos == self.start_pos + encode_utf8(self.src@).len()
    }

    /// The identity of the file.
    pub fn name(&self) -> (name: FilePath)
        ensures
            name@ == self.name@,
    {
        self.name.clone()
    }
}

/// The source texts registered so far. Texts are only ever added.
#[derive(Debug)]
pub struct FileSet {
    files: Vec<Rc<SourceFile>>,
    next_pos: u32,
}

impl View for FileSet {
    type V = Seq<Rc<SourceFile>>;

    closed spec fn view(&self) -> Seq<Rc<SourceFile>> {
        self.files@
    }
}

impl FileSet {
    /// The first position that no file covers yet.
    pub closed spec fn next_pos(&self) -> int {
        self.next_pos as int
    }

    /// Whether the files lie one after another, with a position between
    /// each two, all before [`FileSet::next_pos`].
    pub open spec fn wf(&self) -> bool {
        &&& self.next_pos() >= 1
        &&& forall|i: int|
            0 <= i < self@.len() ==> (#[trigger] self@[i]).wf() && self@[i].end_pos < self.next_pos()
        &&& forall|i: int, j: int|
            0 <= i < j < self@.len() ==> (#[trigger] self@[i]).end_pos < (#[trigger] self@[j]).start_pos
    }

    /// Whether a text of `len` bytes can still be registered while keeping
    /// `spare` positions free.
    pub open spec fn has_room(&self, len: nat, spare: nat) -> bool {
        self.next_pos() + len + 1 + spare <= u32::MAX
    }

    /// An empty registry.
    pub fn new() -> (set: Self)
        ensures
            set.wf(),
            set@.len() == 0,
            set.next_pos() == 1,
    {
        FileSet { files: Vec::new(), next_pos: 1 }
    }

    /// Registers a text, unless that would leave fewer than `spare`
    /// positions free.
    pub fn new_source_file(&mut self, name: FilePath, src: String, spare: u32) -> (file: Option<
        Rc<SourceFile>,
    >)
        requires
            old(self).wf(),
        ensures
            final(self).wf(),
            match file {
                Some(file) => {
                    &&& old(self).has_room(encode_utf8(src@).len(), spare as nat)
                    &&& final(self)@ == old(self)@.push(file)
                    &&& file.wf()
                    &&& file.name == name
                    &&& file.src == src
                    &&& file.start_pos == old(self).next_pos()
                    &&& final(self).next_pos() == file.end_pos + 1
                },
                None => {
                    &&& !old(self).has_room(encode_utf8(src@).len(), spare as nat)
                    &&& final(self)@ == old(self)@
                    &&& final(self).next_pos() == old(self).next_pos()
                },
            },
    {
        let len = src.as_str().as_bytes().len();
        let free = u32::MAX - self.next_pos;
        if spare >= free || len >= (free - spare) as usize {
            return None;
        }
        let start_pos = self.next_pos;
        let end_pos = start_pos + len as u32;
        let file = Rc::new(SourceFile { name, src, start_pos, end_pos });
        assert(file.wf());
        assert(old(self).has_room(encode_utf8(src@).len(), spare as nat));
        self.files.push(file.clone());
        self.next_pos = end_pos + 1;
        assert(self@ == old(self)@.push(file));
        assert forall|i: int, j: int| 0 <= i < j < self@.len() implies (#[trigger] self@[i]).end_pos < (
        #[trigger] self@[j]).start_pos by {
            if j == self@.len() - 1 {
                assert(old(self)@[i].end_pos < old(self).next_pos());
            } else {
                assert(self@[i] == old(self)@[i]);
                assert(self@[j] == old(self)@[j]);
            }
        }
        assert forall|i: int| 0 <= i < self@.len() implies (#[trigger] self@[i]).wf() && self@[i].end_pos
            < self.next_pos() by {
            if i < self@.len() - 1 {
                assert(self@[i] == old(self)@[i]);
            }
        }
        Some(file)
    }

    /// The file that covers a position.
    pub fn lookup_file(&self, pos: u32) -> (file: Option<Rc<SourceFile>>)
        requires
            self.wf(),
        ensures
            match file {
                Some(file) => self@.contains(file) && file.start_pos <= pos <= file.end_pos,
                None => forall|i: int|
                    0 <= i < self@.len() ==> !((#[trigger] self@[i]).start_pos <= pos <= self@[i].end_pos),
            },
    {
        let mut i: usize = 0;
        while i < self.files.len()
            invariant
                i <= self.files.len(),
                forall|j: int|
                    0 <= j < i ==> !((#[trigger] self@[j]).start_pos <= pos <= self@[j].end_pos),
            decreases self.files.len() - i,
        {
            let file = &self.files[i];
            if file.start_pos <= pos && pos <= file.end_pos {
                assert(self@[i as int] == *file);
                return Some(file.clone());
            }
            i += 1;
        }
        None
    }
}

} // verus!
