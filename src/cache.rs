use vstd::prelude::*;

use crate::config::SortOption;
use crate::listing::{is_fresh_listing, none_selected, DirEntry, DirListing};

verus! {

/// Why a directory could not be listed.
#[derive(Clone, Debug, PartialEq, Eq)]
pub enum ListingError {
    PermissionDenied,
    NotFound,
    Other(String),
}

/// The listings of one tab, at most one per directory path.
pub struct ListingCache {
    listings: Vec<DirListing>,
}

/// The map from path to listing that a sequence of listings with distinct paths stands for.
pub open spec fn listings_map(s: Seq<DirListing>) -> Map<Seq<char>, DirListing>
    decreases s.len(),
{
    if s.len() == 0 {
        Map::empty()
    } else {
        listings_map(s.drop_last()).insert(s.last().path@, s.last())
    }
}

pub open spec fn distinct_paths(s: Seq<DirListing>) -> bool {
    forall|i: int, j: int|
        0 <= i < s.len() && 0 <= j < s.len() && i != j ==> (#[trigger] s[i]).path@
            != (#[trigger] s[j]).path@
}

/// The text shown for a listing failure.
pub open spec fn listing_error_text(e: ListingError) -> Seq<char> {
    match e {
        ListingError::PermissionDenied => "Permission denied"@,
        ListingError::NotFound => "No such directory"@,
        ListingError::Other(s) => s@,
    }
}

impl ListingError {
    pub fn message(&self) -> (r: String)
        ensures
            r@ == listing_error_text(*self),
    {
        match self {
            ListingError::PermissionDenied => "Permission denied".to_owned(),
            ListingError::NotFound => "No such directory".to_owned(),
            ListingError::Other(s) => s.clone(),
        }
    }
}

/// A lookup of `path` under `sort` is answered from the cache.
pub open spec fn is_cache_hit(m: Map<Seq<char>, DirListing>, path: Seq<char>, sort: SortOption) -> bool {
    m.contains_key(path) && m[path].sort_option == sort
}

/// The cache after a `get_or_create` of `path` under `sort`, where `built` is what
/// building the listing gave if the cache could not answer.
pub open spec fn after_get_or_create(
    m: Map<Seq<char>, DirListing>,
    path: Seq<char>,
    sort: SortOption,
    built: Result<DirListing, ListingError>,
) -> Map<Seq<char>, DirListing> {
    if is_cache_hit(m, path, sort) {
        m
    } else {
        match built {
            Ok(l) => m.insert(path, l),
            Err(_) => m.remove(path),
        }
    }
}

/// Once `get_or_create` has answered for `path` under `sort`, asking again with no
/// invalidation in between is answered from the cache: the cache stays as the first
/// call left it, and the listing handed back is that one.
pub proof fn lemma_get_or_create_twice(
    m: Map<Seq<char>, DirListing>,
    path: Seq<char>,
    sort: SortOption,
    first: Result<DirListing, ListingError>,
    second: Result<DirListing, ListingError>,
)
    requires
        first matches Ok(l) ==> l.sort_option == sort,
        first is Ok || is_cache_hit(m, path, sort),
    ensures
        is_cache_hit(after_get_or_create(m, path, sort, first), path, sort),
        after_get_or_create(after_get_or_create(m, path, sort, first), path, sort, second)
            == after_get_or_create(m, path, sort, first),
{
}

/// After `path` is invalidated, the next `get_or_create` of it is never answered
/// from the cache: it holds exactly what was built, or nothing for `path`.
pub proof fn lemma_invalidate_then_get_or_create(
    m: Map<Seq<char>, DirListing>,
    path: Seq<char>,
    sort: SortOption,
    built: Result<DirListing, ListingError>,
)
    ensures
        !is_cache_hit(m.remove(path), path, sort),
        after_get_or_create(m.remove(path), path, sort, built) == match built {
            Ok(l) => m.remove(path).insert(path, l),
            Err(_) => m.remove(path),
        },
        built matches Ok(l) ==> after_get_or_create(m.remove(path), path, sort, built)[path] == l,
{
}

proof fn lemma_map_contains(s: Seq<DirListing>, p: Seq<char>)
    ensures
        listings_map(s).contains_key(p) <==> exists|i: int| 0 <= i < s.len() && (#[trigger] s[i]).path@ == p,
    decreases s.len(),
{
    if s.len() > 0 {
        lemma_map_contains(s.drop_last(), p);
        if listings_map(s).contains_key(p) && s.last().path@ != p {
            let i = choose|i: int| 0 <= i < s.drop_last().len() && (#[trigger] s.drop_last()[i]).path@ == p;
            assert(s[i].path@ == p);
        }
        if exists|i: int| 0 <= i < s.len() && (#[trigger] s[i]).path@ == p {
            let i = choose|i: int| 0 <= i < s.len() && (#[trigger] s[i]).path@ == p;
            if i < s.len() - 1 {
                assert(s.drop_last()[i].path@ == p);
            }
        }
    }
}

proof fn lemma_map_at(s: Seq<DirListing>, i: int)
    requires
        distinct_paths(s),
        0 <= i < s.len(),
    ensures
        listings_map(s).contains_key(s[i].path@),
        listings_map(s)[s[i].path@] == s[i],
    decreases s.len(),
{
    if i < s.len() - 1 {
        assert(s.drop_last()[i] == s[i]);
        assert(s[i].path@ != s[s.len() - 1].path@);
        lemma_map_at(s.drop_last(), i);
    }
}

proof fn lemma_map_remove(s: Seq<DirListing>, i: int)
    requires
        distinct_paths(s),
        0 <= i < s.len(),
    ensures
        listings_map(s.remove(i)) =~= listings_map(s).remove(s[i].path@),
        distinct_paths(s.remove(i)),
    decreases s.len(),
{
    let p = s[i].path@;
    if i == s.len() - 1 {
        assert(s.remove(i) =~= s.drop_last());
        assert forall|j: int| 0 <= j < s.drop_last().len() implies (#[trigger] s.drop_last()[j]).path@ != p by {
            assert(s.drop_last()[j] == s[j]);
        }
        lemma_map_contains(s.drop_last(), p);
    } else {
        let d = s.drop_last();
        assert(d[i] == s[i]);
        lemma_map_remove(d, i);
        assert(s.remove(i) =~= d.remove(i).push(s.last()));
        assert(s.remove(i).drop_last() =~= d.remove(i));
        assert(s.last().path@ != p);
    }
}

proof fn lemma_map_push(s: Seq<DirListing>, l: DirListing)
    ensures
        listings_map(s.push(l)) == listings_map(s).insert(l.path@, l),
{
    assert(s.push(l).drop_last() =~= s);
}

impl ListingCache {
    pub closed spec fn view(&self) -> Map<Seq<char>, DirListing> {
        listings_map(self.listings@)
    }

    /// Paths are distinct and every listing's cursor is in range.
    pub closed spec fn wf(&self) -> bool {
        &&& distinct_paths(self.listings@)
        &&& forall|i: int| 0 <= i < self.listings@.len() ==> (#[trigger] self.listings@[i]).wf()
    }

    /// The listing held in slot `i`.
    pub closed spec fn slot(&self, i: int) -> DirListing {
        self.listings@[i]
    }

    pub closed spec fn num_slots(&self) -> nat {
        self.listings@.len()
    }

    pub fn new() -> (r: ListingCache)
        ensures
            r.wf(),
            r@ == Map::<Seq<char>, DirListing>::empty(),
    {
        ListingCache { listings: Vec::new() }
    }

    /// The slot of the listing of `path`, if one is cached.
    pub fn find(&self, path: &String) -> (r: Option<usize>)
        requires
            self.wf(),
        ensures
            match r {
                Some(i) => {
                    &&& i < self.num_slots()
                    &&& self@.contains_key(path@)
                    &&& self@[path@] == self.slot(i as int)
                    &&& self.slot(i as int).path@ == path@
                },
                None => !self@.contains_key(path@),
            },
    {
        let mut i: usize = 0;
        while i < self.listings.len()
            invariant
                self.wf(),
                i <= self.listings@.len(),
                forall|j: int| 0 <= j < i ==> (#[trigger] self.listings@[j]).path@ != path@,
            decreases self.listings@.len() - i,
        {
            if self.listings[i].path == *path {
                proof {
                    lemma_map_at(self.listings@, i as int);
                }
                return Some(i);
            }
            i += 1;
        }
        proof {
            lemma_map_contains(self.listings@, path@);
        }
        None
    }

    /// The listing in slot `i`.
    pub fn listing(&self, i: usize) -> (r: &DirListing)
        requires
            i < self.num_slots(),
        ensures
            *r == self.slot(i as int),
            self.wf() ==> r.wf(),
    {
        &self.listings[i]
    }

    /// Marks or unmarks entry `e` of the listing in slot `i`.
    pub fn set_selected(&mut self, i: usize, e: usize, selected: bool)
        requires
            old(self).wf(),
            i < old(self).num_slots(),
            e < old(self).slot(i as int).contents@.len(),
        ensures
            final(self).wf(),
            final(self).num_slots() == old(self).num_slots(),
            forall|j: int|
                0 <= j < old(self).num_slots() && j != i ==> final(self).slot(j) == old(self).slot(j),
            final(self).slot(i as int).path == old(self).slot(i as int).path,
            final(self).slot(i as int).sort_option == old(self).slot(i as int).sort_option,
            final(self).slot(i as int).index == old(self).slot(i as int).index,
            final(self).slot(i as int).contents@.len() == old(self).slot(i as int).contents@.len(),
            forall|k: int|
                0 <= k < old(self).slot(i as int).contents@.len() && k != e ==> final(self).slot(i as int).contents@[k]
                    == old(self).slot(i as int).contents@[k],
            final(self).slot(i as int).contents@[e as int].name == old(self).slot(i as int).contents@[e as int].name,
            final(self).slot(i as int).contents@[e as int].selected == selected,
            final(self)@ == old(self)@.insert(old(self).slot(i as int).path@, final(self).slot(i as int)),
    {
        self.listings[i].set_selected(e, selected);
        proof {
            let o = old(self).listings@;
            let s = self.listings@;
            assert(s =~= o.update(i as int, s[i as int]));
            assert(distinct_paths(s)) by {
                assert forall|a: int, b: int|
                    0 <= a < s.len() && 0 <= b < s.len() && a != b implies (#[trigger] s[a]).path@
                    != (#[trigger] s[b]).path@ by {
                    assert(o[a].path@ != o[b].path@);
                }
            }
            lemma_map_update(o, i as int, s[i as int]);
        }
    }

    /// Drops the listing of `path`, so that the next lookup builds it anew.
    pub fn invalidate(&mut self, path: &String)
        requires
            old(self).wf(),
        ensures
            final(self).wf(),
            final(self)@ == old(self)@.remove(path@),
    {
        match self.find(path) {
            Some(i) => {
                proof {
                    lemma_map_remove(self.listings@, i as int);
                }
                self.listings.remove(i);
            },
            None => {
                assert(self@ =~= self@.remove(path@));
            },
        }
    }

    /// The cached listing of `path` if it was built under `sort`; otherwise lists the
    /// directory through `read`, which hands back its entries in display order for
    /// `sort`, and caches the result. When `read` fails nothing is cached for `path`.
    pub fn get_or_create<F>(&mut self, path: &String, sort: SortOption, read: F) -> (r: Result<usize, ListingError>)
        where
            F: FnOnce(&String, SortOption) -> Result<Vec<DirEntry>, ListingError>,
        requires
            old(self).wf(),
            read.requires((path, sort)),
        ensures
            final(self).wf(),
            final(self)@ == after_get_or_create(old(self)@, path@, sort, match r {
                Ok(i) => Ok(final(self).slot(i as int)),
                Err(e) => Err(e),
            }),
            is_cache_hit(old(self)@, path@, sort) ==> {
                &&& *final(self) == *old(self)
                &&& r is Ok
            },
            !is_cache_hit(old(self)@, path@, sort) ==> exists|res: Result<Vec<DirEntry>, ListingError>|
                {
                    &&& #[trigger] read.ensures((path, sort), res)
                    &&& match res {
                        Ok(es) => r is Ok && is_fresh_listing(final(self)@[path@], path@, sort, es@)
                            && none_selected(final(self)@[path@].contents@),
                        Err(e) => r == Err::<usize, ListingError>(e),
                    }
                },
            r matches Ok(i) ==> {
                &&& i < final(self).num_slots()
                &&& final(self)@.contains_key(path@)
                &&& final(self)@[path@] == final(self).slot(i as int)
                &&& final(self).slot(i as int).sort_option == sort
            },
    {
        match self.find(path) {
            Some(i) => {
                if self.listings[i].sort_option == sort {
                    return Ok(i);
                }
                proof {
                    lemma_map_remove(self.listings@, i as int);
                }
                self.listings.remove(i);
            },
            None => {},
        }
        assert(!self@.contains_key(path@));
        let res = read(path, sort);
        match res {
            Ok(es) => {
                let ghost es_view = es@;
                let l = DirListing::new(path.clone(), es, sort);
                proof {
                    lemma_map_contains(self.listings@, path@);
                    lemma_map_push(self.listings@, l);
                }
                self.listings.push(l);
                let i = self.listings.len() - 1;
                proof {
                    lemma_map_at(self.listings@, i as int);
                    assert(is_fresh_listing(self@[path@], path@, sort, es_view));
                }
                Ok(i)
            },
            Err(e) => {
                assert(self@ =~= old(self)@.remove(path@));
                Err(e)
            },
        }
    }
}

proof fn lemma_map_update(s: Seq<DirListing>, i: int, l: DirListing)
    requires
        distinct_paths(s),
        0 <= i < s.len(),
        l.path@ == s[i].path@,
    ensures
        listings_map(s.update(i, l)) =~= listings_map(s).insert(l.path@, l),
    decreases s.len(),
{
    if i == s.len() - 1 {
        assert(s.update(i, l).drop_last() =~= s.drop_last());
    } else {
        let d = s.drop_last();
        assert(d[i] == s[i]);
        lemma_map_update(d, i, l);
        assert(s.update(i, l).drop_last() =~= d.update(i, l));
        assert(s.last().path@ != l.path@);
    }
}

} // verus!
