use vstd::prelude::*;

use crate::cache::{is_cache_hit, ListingError};
use crate::config::{JoshutoConfig, SortOption};
use crate::context::{curr_list_of, JoshutoTab};
use crate::listing::{is_fresh_listing, none_selected, DirEntry, EntryKind};

verus! {

/// What the preview pane shows. Each render replaces it whole.
#[derive(Debug)]
pub enum PaneContent {
    Blank,
    /// The listing in this slot of the tab's cache.
    Listing(usize),
    ListingFailed(ListingError),
    Text(String),
    PreviewFailed(String),
}

/// The pane beside the current directory that previews the entry under the cursor.
#[derive(Debug)]
pub struct PreviewPane {
    pub content: PaneContent,
}

impl PreviewPane {
    pub fn new() -> (r: PreviewPane)
        ensures
            r.content is Blank,
    {
        PreviewPane { content: PaneContent::Blank }
    }
}

/// The entry under the cursor of the tab's current listing.
pub open spec fn previewed_entry(tab: JoshutoTab) -> Option<DirEntry> {
    match curr_list_of(tab) {
        Some(l) => l.curr_entry(),
        None => None,
    }
}

/// `new` and `content` are what rendering the entry under the cursor of `old`
/// gives: nothing when there is none; for a directory cached under the
/// configured sort, that listing, untouched; for any other directory, the
/// listing built from what `read` gave, or why it failed, with nothing kept for
/// it; for any other file, what `text` gave for its path and the size limit.
pub open spec fn is_previewed<F, P>(
    old: JoshutoTab,
    new: JoshutoTab,
    content: PaneContent,
    config: JoshutoConfig,
    read: F,
    text: P,
) -> bool
    where
        F: FnOnce(&String, SortOption) -> Result<Vec<DirEntry>, ListingError>,
        P: FnOnce(&String, u64) -> Result<String, String>,
{
    let s = config.sort_option;
    &&& new.history.wf()
    &&& new.curr_path == old.curr_path
    &&& match previewed_entry(old) {
        None => {
            &&& content is Blank
            &&& new == old
        },
        Some(e) => {
            let p = e.path@;
            if e.kind == EntryKind::Directory {
                if is_cache_hit(old.history@, p, s) {
                    &&& new == old
                    &&& content matches PaneContent::Listing(i) && i < new.history.num_slots()
                        && new.history.slot(i as int) == old.history@[p]
                } else {
                    exists|q: &String, res: Result<Vec<DirEntry>, ListingError>|
                        {
                            &&& q@ == p
                            &&& #[trigger] read.ensures((q, s), res)
                            &&& match res {
                                Ok(es) => {
                                    &&& content matches PaneContent::Listing(i) && i
                                        < new.history.num_slots() && new.history.slot(i as int)
                                        == new.history@[p]
                                    &&& new.history@.contains_key(p)
                                    &&& new.history@ == old.history@.insert(p, new.history@[p])
                                    &&& is_fresh_listing(new.history@[p], p, s, es@)
                                    &&& none_selected(new.history@[p].contents@)
                                },
                                Err(err) => {
                                    &&& content == PaneContent::ListingFailed(err)
                                    &&& new.history@ == old.history@.remove(p)
                                },
                            }
                        }
                }
            } else {
                &&& new == old
                &&& exists|q: &String, res: Result<String, String>|
                    {
                        &&& q@ == p
                        &&& #[trigger] text.ensures((q, config.max_preview_size), res)
                        &&& content == match res {
                            Ok(t) => PaneContent::Text(t),
                            Err(m) => PaneContent::PreviewFailed(m),
                        }
                    }
            }
        },
    }
}

/// Renders the entry under the cursor into `pane`, replacing whatever it showed:
/// nothing when there is none; a directory's listing, taken from the cache when
/// it was built under the configured sort and otherwise listed through `read`,
/// or why it could not be listed; any other file through the content previewer
/// `text`, given the path and the largest size to preview.
pub fn preview_file<F, P>(
    tab: &mut JoshutoTab,
    config: &JoshutoConfig,
    pane: &mut PreviewPane,
    read: F,
    text: P,
)
    where
        F: FnOnce(&String, SortOption) -> Result<Vec<DirEntry>, ListingError>,
        P: FnOnce(&String, u64) -> Result<String, String>,
    requires
        old(tab).history.wf(),
        forall|p: &String, s: SortOption| read.requires((p, s)),
        forall|p: &String, n: u64| text.requires((p, n)),
    ensures
        is_previewed(*old(tab), *final(tab), final(pane).content, *config, read, text),
{
    let target = match tab.curr_list_ref() {
        Some(l) => match l.curr_entry_ref() {
            Some(e) => Some((e.path.clone(), e.is_dir())),
            None => None,
        },
        None => None,
    };
    match target {
        None => {
            pane.content = PaneContent::Blank;
        },
        Some((path, is_dir)) => {
            if is_dir {
                match tab.history.get_or_create(&path, config.sort_option, read) {
                    Ok(i) => {
                        pane.content = PaneContent::Listing(i);
                        proof {
                            if !is_cache_hit(old(tab).history@, path@, config.sort_option) {
                                let res = choose|res: Result<Vec<DirEntry>, ListingError>|
                                    {
                                        &&& #[trigger] read.ensures((&path, config.sort_option), res)
                                        &&& match res {
                                            Ok(es) => is_fresh_listing(tab.history@[path@], path@, config.sort_option, es@)
                                                && none_selected(tab.history@[path@].contents@),
                                            Err(e) => false,
                                        }
                                    };
                                assert(read.ensures((&path, config.sort_option), res));
                            }
                        }
                    },
                    Err(err) => {
                        proof {
                            let res = choose|res: Result<Vec<DirEntry>, ListingError>|
                                #[trigger] read.ensures((&path, config.sort_option), res) && match res {
                                    Ok(_) => false,
                                    Err(e) => e == err,
                                };
                            assert(res == Err::<Vec<DirEntry>, ListingError>(err));
                            assert(read.ensures((&path, config.sort_option), res));
                        }
                        pane.content = PaneContent::ListingFailed(err);
                    },
                }
            } else {
                let res = text(&path, config.max_preview_size);
                pane.content = match res {
                    Ok(t) => PaneContent::Text(t),
                    Err(m) => PaneContent::PreviewFailed(m),
                };
                assert(text.ensures((&path, config.max_preview_size), res));
            }
        },
    }
}

} // verus!
