use vstd::prelude::*;

use crate::cache::{is_cache_hit, ListingCache, ListingError};
use crate::config::{JoshutoConfig, SortOption};
use crate::listing::{is_fresh_listing, none_selected, DirEntry, DirListing};
use crate::terminal::TerminalSession;

verus! {

/// A navigation context: the directory it shows, and the listings it has visited.
pub struct JoshutoTab {
    pub curr_path: String,
    pub history: ListingCache,
}

/// The listing of the tab's current directory, if it is cached.
pub open spec fn curr_list_of(tab: JoshutoTab) -> Option<DirListing> {
    if tab.history@.contains_key(tab.curr_path@) {
        Some(tab.history@[tab.curr_path@])
    } else {
        None
    }
}

/// `new` is `old` after its current directory was listed anew through `read`
/// under `sort`: the old listing (selection and cursor included) is gone, and
/// the fresh one stands in its place, or none if listing failed.
pub open spec fn is_reloaded<F>(old: JoshutoTab, new: JoshutoTab, sort: SortOption, read: F) -> bool
    where
        F: FnOnce(&String, SortOption) -> Result<Vec<DirEntry>, ListingError>,
{
    let p = old.curr_path@;
    &&& new.curr_path == old.curr_path
    &&& new.history.wf()
    &&& exists|res: Result<Vec<DirEntry>, ListingError>|
        {
            &&& #[trigger] read.ensures((&old.curr_path, sort), res)
            &&& match res {
                Ok(es) => {
                    &&& new.history@.contains_key(p)
                    &&& new.history@ == old.history@.remove(p).insert(p, new.history@[p])
                    &&& is_fresh_listing(new.history@[p], p, sort, es@)
                    &&& none_selected(new.history@[p].contents@)
                },
                Err(_) => new.history@ == old.history@.remove(p),
            }
        }
}

impl JoshutoTab {
    pub fn new(curr_path: String) -> (r: JoshutoTab)
        ensures
            r.curr_path == curr_path,
            r.history.wf(),
            r.history@ == Map::<Seq<char>, DirListing>::empty(),
    {
        JoshutoTab { curr_path, history: ListingCache::new() }
    }

    /// The listing of the current directory, if it is cached.
    pub fn curr_list_ref(&self) -> (r: Option<&DirListing>)
        requires
            self.history.wf(),
        ensures
            match r {
                Some(l) => curr_list_of(*self) == Some(*l) && l.wf(),
                None => curr_list_of(*self) is None,
            },
    {
        match self.history.find(&self.curr_path) {
            Some(i) => Some(self.history.listing(i)),
            None => None,
        }
    }

    /// Lists the current directory anew through `read`, so that changes made
    /// behind the application's back show.
    pub fn soft_reload<F>(&mut self, sort: SortOption, read: F) -> (r: Result<usize, ListingError>)
        where
            F: FnOnce(&String, SortOption) -> Result<Vec<DirEntry>, ListingError>,
        requires
            old(self).history.wf(),
            forall|p: &String, s: SortOption| read.requires((p, s)),
        ensures
            is_reloaded(*old(self), *final(self), sort, read),
            r is Ok <==> final(self).history@.contains_key(final(self).curr_path@),
            match r {
                Ok(i) => i < final(self).history.num_slots() && final(self).history.slot(i as int)
                    == final(self).history@[final(self).curr_path@],
                Err(e) => exists|res: Result<Vec<DirEntry>, ListingError>|
                    #[trigger] read.ensures((&old(self).curr_path, sort), res) && res == Err::<
                        Vec<DirEntry>,
                        ListingError,
                    >(e),
            },
    {
        self.history.invalidate(&self.curr_path);
        let ghost mid = self.history@;
        assert(!is_cache_hit(mid, self.curr_path@, sort));
        let r = self.history.get_or_create(&self.curr_path, sort, read);
        proof {
            let p = self.curr_path@;
            let res = choose|res: Result<Vec<DirEntry>, ListingError>|
                {
                    &&& #[trigger] read.ensures((&self.curr_path, sort), res)
                    &&& match res {
                        Ok(es) => r is Ok && is_fresh_listing(self.history@[p], p, sort, es@)
                            && none_selected(self.history@[p].contents@),
                        Err(e) => r == Err::<usize, ListingError>(e),
                    }
                };
            match res {
                Ok(es) => {
                    assert(self.history@ == mid.insert(p, self.history@[p]));
                },
                Err(e) => {},
            }
            match res {
                Ok(es) => {
                    assert(self.history@.contains_key(p));
                    assert(self.history@ == old(self).history@.remove(p).insert(p, self.history@[p]));
                    assert(is_fresh_listing(self.history@[p], p, sort, es@));
                },
                Err(e) => {
                    assert(self.history@ == old(self).history@.remove(p));
                },
            }
        }
        r
    }
}

/// What the commands work on: the options, the terminal, the active tab, and the
/// messages shown to the user.
pub struct AppContext {
    pub config: JoshutoConfig,
    pub terminal: TerminalSession,
    pub tab: JoshutoTab,
    pub messages: Vec<String>,
}

impl AppContext {
    pub fn new(config: JoshutoConfig, curr_path: String) -> (r: AppContext)
        ensures
            r.config == config,
            r.terminal.mode == crate::terminal::TerminalMode::Interactive,
            r.tab.curr_path == curr_path,
            r.tab.history.wf(),
            r.tab.history@ == Map::<Seq<char>, DirListing>::empty(),
            r.messages@.len() == 0,
    {
        AppContext {
            config,
            terminal: TerminalSession::new(),
            tab: JoshutoTab::new(curr_path),
            messages: Vec::new(),
        }
    }
}

} // verus!
