use vstd::prelude::*;

use crate::config::SortOption;

verus! {

/// What kind of filesystem object an entry is.
#[derive(Clone, Copy, Debug, PartialEq, Eq, Structural)]
pub enum EntryKind {
    File,
    Directory,
    Symlink,
    Other,
}

/// One child of a directory.
#[derive(Debug)]
pub struct DirEntry {
    pub name: String,
    pub path: String,
    pub kind: EntryKind,
    pub selected: bool,
}

/// The sorted contents of one directory, with the user's selection and cursor.
#[derive(Debug)]
pub struct DirListing {
    pub path: String,
    pub contents: Vec<DirEntry>,
    pub sort_option: SortOption,
    pub index: Option<usize>,
}

/// The names of the selected entries, in display order.
pub open spec fn selected_names(s: Seq<DirEntry>) -> Seq<Seq<char>>
    decreases s.len(),
{
    if s.len() == 0 {
        Seq::empty()
    } else {
        let rest = selected_names(s.drop_last());
        if s.last().selected {
            rest.push(s.last().name@)
        } else {
            rest
        }
    }
}

/// `l` is what listing the entries `es` of directory `path` under `sort` gives:
/// the same entries in the same order, none selected, the cursor on the first.
pub open spec fn is_fresh_listing(
    l: DirListing,
    path: Seq<char>,
    sort: SortOption,
    es: Seq<DirEntry>,
) -> bool {
    &&& l.path@ == path
    &&& l.sort_option == sort
    &&& l.contents@.len() == es.len()
    &&& forall|i: int|
        0 <= i < es.len() ==> {
            &&& (#[trigger] l.contents@[i]).name == es[i].name
            &&& l.contents@[i].path == es[i].path
            &&& l.contents@[i].kind == es[i].kind
            &&& !l.contents@[i].selected
        }
    &&& l.index == (if es.len() > 0 {
        Some(0usize)
    } else {
        None
    })
}

/// No entry of `s` is selected.
pub open spec fn none_selected(s: Seq<DirEntry>) -> bool {
    forall|i: int| 0 <= i < s.len() ==> !(#[trigger] s[i]).selected
}

/// A listing with no entry marked has no selected names, so a placeholder run
/// against it falls back to the cursor entry.
pub proof fn lemma_none_selected_names(s: Seq<DirEntry>)
    requires
        none_selected(s),
    ensures
        selected_names(s) == Seq::<Seq<char>>::empty(),
    decreases s.len(),
{
    if s.len() > 0 {
        assert(none_selected(s.drop_last()));
        lemma_none_selected_names(s.drop_last());
    }
}

impl DirEntry {
    /// An unselected entry.
    pub fn new(name: String, path: String, kind: EntryKind) -> (r: DirEntry)
        ensures
            r.name == name,
            r.path == path,
            r.kind == kind,
            !r.selected,
    {
        DirEntry { name, path, kind, selected: false }
    }

    pub fn file_name(&self) -> (r: &String)
        ensures
            r == &self.name,
    {
        &self.name
    }

    pub fn is_dir(&self) -> (r: bool)
        ensures
            r == (self.kind == EntryKind::Directory),
    {
        self.kind == EntryKind::Directory
    }
}

impl DirListing {
    /// The cursor, if any, points at an entry.
    pub open spec fn wf(&self) -> bool {
        match self.index {
            Some(i) => i < self.contents@.len(),
            None => true,
        }
    }

    /// The entry under the cursor.
    pub open spec fn curr_entry(&self) -> Option<DirEntry> {
        match self.index {
            Some(i) => Some(self.contents@[i as int]),
            None => None,
        }
    }

    /// Builds the listing of `path` from entries already in display order for `sort`;
    /// the listing starts with nothing selected and the cursor on the first entry.
    pub fn new(path: String, entries: Vec<DirEntry>, sort: SortOption) -> (r: DirListing)
        ensures
            is_fresh_listing(r, path@, sort, entries@),
            r.wf(),
            none_selected(r.contents@),
    {
        let mut contents = entries;
        let n = contents.len();
        let mut i: usize = 0;
        while i < n
            invariant
                n == contents@.len(),
                n == entries@.len(),
                i <= n,
                forall|j: int|
                    0 <= j < n ==> {
                        &&& (#[trigger] contents@[j]).name == entries@[j].name
                        &&& contents@[j].path == entries@[j].path
                        &&& contents@[j].kind == entries@[j].kind
                    },
                forall|j: int| 0 <= j < i ==> !(#[trigger] contents@[j]).selected,
            decreases n - i,
        {
            contents[i].selected = false;
            i += 1;
        }
        let index = if n > 0 {
            Some(0)
        } else {
            None
        };
        DirListing { path, contents, sort_option: sort, index }
    }

    pub fn len(&self) -> (r: usize)
        ensures
            r == self.contents@.len(),
    {
        self.contents.len()
    }

    /// The entry under the cursor.
    pub fn curr_entry_ref(&self) -> (r: Option<&DirEntry>)
        requires
            self.wf(),
        ensures
            match r {
                Some(e) => self.curr_entry() == Some(*e),
                None => self.curr_entry() is None,
            },
    {
        match self.index {
            Some(i) => Some(&self.contents[i]),
            None => None,
        }
    }

    /// Marks or unmarks the entry at `i`.
    pub fn set_selected(&mut self, i: usize, selected: bool)
        requires
            i < old(self).contents@.len(),
        ensures
            final(self).path == old(self).path,
            final(self).sort_option == old(self).sort_option,
            final(self).index == old(self).index,
            final(self).contents@.len() == old(self).contents@.len(),
            forall|j: int|
                0 <= j < old(self).contents@.len() && j != i ==> final(self).contents@[j]
                    == old(self).contents@[j],
            final(self).contents@[i as int].name == old(self).contents@[i as int].name,
            final(self).contents@[i as int].path == old(self).contents@[i as int].path,
            final(self).contents@[i as int].kind == old(self).contents@[i as int].kind,
            final(self).contents@[i as int].selected == selected,
    {
        self.contents[i].selected = selected;
    }

    /// Names of the selected entries, in display order.
    pub fn selected_names(&self) -> (r: Vec<String>)
        ensures
            r@.map_values(|s: String| s@) == selected_names(self.contents@),
    {
        let mut r: Vec<String> = Vec::new();
        let mut i: usize = 0;
        while i < self.contents.len()
            invariant
                i <= self.contents@.len(),
                r@.map_values(|s: String| s@) == selected_names(self.contents@.subrange(0, i as int)),
            decreases self.contents@.len() - i,
        {
            proof {
                let s = self.contents@.subrange(0, i as int + 1);
                assert(s.drop_last() =~= self.contents@.subrange(0, i as int));
            }
            if self.contents[i].selected {
                r.push(self.contents[i].name.clone());
                proof {
                    assert(r@.map_values(|s: String| s@) =~= selected_names(self.contents@.subrange(0, i as int)).push(self.contents@[i as int].name@));
                }
            }
            i += 1;
        }
        assert(self.contents@.subrange(0, self.contents@.len() as int) =~= self.contents@);
        r
    }
}

} // verus!
