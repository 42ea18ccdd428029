//! Directory entries.

use vstd::prelude::*;
use crate::path::AbsPath;

verus! {

/// One child of a directory, as it was found when the directory was read.
#[derive(Debug, PartialEq, Eq)]
pub struct Entry {
    /// Where the entry lives.
    pub path: AbsPath,
    /// The name it is shown and ordered by: the last component of `path`.
    pub name: String,
    /// Whether the entry is, or resolves to, a directory.
    pub is_dir: bool,
}

/// What an [`Entry`] stands for.
pub struct EntryView {
    pub path: Seq<Seq<char>>,
    pub name: Seq<char>,
    pub is_dir: bool,
}

impl View for Entry {
    type V = EntryView;

    open spec fn view(&self) -> EntryView {
        EntryView { path: self.path@, name: self.name@, is_dir: self.is_dir }
    }
}

impl Clone for Entry {
    fn clone(&self) -> (copy: Self)
        ensures
            copy@ == self@,
    {
        Entry { path: self.path.clone(), name: self.name.clone(), is_dir: self.is_dir }
    }
}

impl Entry {
    /// The entry called `name` inside the directory `dir`.
    pub fn new(dir: &AbsPath, name: &str, is_dir: bool) -> (entry: Entry)
        ensures
            entry@ == (EntryView { path: dir@.push(name@), name: name@, is_dir }),
    {
        Entry { path: dir.join(name), name: name.to_owned(), is_dir }
    }
}

/// The entries of a sequence, each taken by its view.
pub open spec fn views(entries: Seq<Entry>) -> Seq<EntryView> {
    entries.map_values(|entry: Entry| entry@)
}

/// A name is hidden when it begins with a dot.
pub open spec fn is_hidden(name: Seq<char>) -> bool {
    name.len() > 0 && name[0] == '.'
}

/// Whether an entry is shown while hidden entries are filtered out.
pub fn entry_not_hidden(entry: &Entry) -> (shown: bool)
    ensures
        shown == !is_hidden(entry@.name),
{
    let name = entry.name.as_str();
    if name.is_empty() {
        true
    } else {
        name.get_char(0) != '.'
    }
}

} // verus!
