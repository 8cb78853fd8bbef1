use vstd::prelude::*;

use crate::listing::{selected_names, DirListing};

verus! {

/// The template token that stands for the selected file names.
pub const SELECTION_PLACEHOLDER: &'static str = "%s";

/// The text of each string.
pub open spec fn strings_view(v: Seq<String>) -> Seq<Seq<char>> {
    v.map_values(|s: String| s@)
}

/// What the placeholder expands to: the selected names in display order; failing
/// those, the name of the entry under the cursor; failing that, nothing.
pub open spec fn placeholder_args(listing: Option<DirListing>) -> Seq<Seq<char>> {
    match listing {
        None => Seq::empty(),
        Some(l) => {
            let sel = selected_names(l.contents@);
            if sel.len() > 0 {
                sel
            } else {
                match l.curr_entry() {
                    Some(e) => seq![e.name@],
                    None => Seq::empty(),
                }
            }
        },
    }
}

/// The arguments one template token gives.
pub open spec fn token_args(tok: Seq<char>, listing: Option<DirListing>) -> Seq<Seq<char>> {
    if tok == SELECTION_PLACEHOLDER@ {
        placeholder_args(listing)
    } else {
        seq![tok]
    }
}

/// The arguments a sequence of tokens gives, each token's in turn.
pub open spec fn expand_tokens(toks: Seq<Seq<char>>, listing: Option<DirListing>) -> Seq<Seq<char>>
    decreases toks.len(),
{
    if toks.len() == 0 {
        Seq::empty()
    } else {
        expand_tokens(toks.drop_last(), listing) + token_args(toks.last(), listing)
    }
}

/// The arguments of a template: its tokens after the program name, expanded.
pub open spec fn template_args(words: Seq<Seq<char>>, listing: Option<DirListing>) -> Seq<Seq<char>> {
    if words.len() == 0 {
        Seq::empty()
    } else {
        expand_tokens(words.drop_first(), listing)
    }
}

pub open spec fn listing_wf(listing: Option<&DirListing>) -> bool {
    match listing {
        Some(l) => l.wf(),
        None => true,
    }
}

pub open spec fn listing_value(listing: Option<&DirListing>) -> Option<DirListing> {
    match listing {
        Some(l) => Some(*l),
        None => None,
    }
}

/// Expanding two runs of tokens one after the other is expanding them joined.
pub proof fn lemma_expand_concat(a: Seq<Seq<char>>, b: Seq<Seq<char>>, listing: Option<DirListing>)
    ensures
        expand_tokens(a + b, listing) == expand_tokens(a, listing) + expand_tokens(b, listing),
    decreases b.len(),
{
    if b.len() == 0 {
        assert(a + b =~= a);
        assert(expand_tokens(b, listing) =~= Seq::<Seq<char>>::empty());
        assert(expand_tokens(a, listing) + expand_tokens(b, listing) =~= expand_tokens(a, listing));
    } else {
        assert((a + b).drop_last() =~= a + b.drop_last());
        assert((a + b).last() == b.last());
        lemma_expand_concat(a, b.drop_last(), listing);
        assert(expand_tokens(a + b, listing) =~= expand_tokens(a, listing) + expand_tokens(b, listing));
    }
}

proof fn lemma_expand_around(pre: Seq<Seq<char>>, post: Seq<Seq<char>>, listing: Option<DirListing>)
    ensures
        expand_tokens(pre + seq![SELECTION_PLACEHOLDER@] + post, listing) == expand_tokens(pre, listing)
            + placeholder_args(listing) + expand_tokens(post, listing),
{
    let ph = seq![SELECTION_PLACEHOLDER@];
    lemma_expand_concat(pre + ph, post, listing);
    lemma_expand_concat(pre, ph, listing);
    assert(ph.drop_last() =~= Seq::<Seq<char>>::empty());
    assert(expand_tokens(ph.drop_last(), listing) =~= Seq::<Seq<char>>::empty());
    assert(ph.last() == SELECTION_PLACEHOLDER@);
    assert(token_args(ph.last(), listing) == placeholder_args(listing));
    assert(Seq::<Seq<char>>::empty() + placeholder_args(listing) =~= placeholder_args(listing));
    assert(expand_tokens(ph, listing) =~= placeholder_args(listing));
}

/// A placeholder among other tokens expands, at its own position, to exactly the
/// selected entries' names in display order, when at least one entry is selected.
pub proof fn lemma_placeholder_gives_selection(pre: Seq<Seq<char>>, post: Seq<Seq<char>>, l: DirListing)
    requires
        selected_names(l.contents@).len() > 0,
    ensures
        expand_tokens(pre + seq![SELECTION_PLACEHOLDER@] + post, Some(l)) == expand_tokens(pre, Some(l))
            + selected_names(l.contents@) + expand_tokens(post, Some(l)),
{
    lemma_expand_around(pre, post, Some(l));
}

/// With nothing selected, a placeholder expands to the one name under the cursor.
pub proof fn lemma_placeholder_gives_cursor(pre: Seq<Seq<char>>, post: Seq<Seq<char>>, l: DirListing)
    requires
        selected_names(l.contents@).len() == 0,
        l.curr_entry() is Some,
    ensures
        expand_tokens(pre + seq![SELECTION_PLACEHOLDER@] + post, Some(l)) == expand_tokens(pre, Some(l))
            + seq![l.curr_entry()->0.name@] + expand_tokens(post, Some(l)),
{
    lemma_expand_around(pre, post, Some(l));
}

/// With nothing selected and no entry under the cursor (or no listing at all), a
/// placeholder gives no argument.
pub proof fn lemma_placeholder_gives_nothing(pre: Seq<Seq<char>>, post: Seq<Seq<char>>, listing: Option<DirListing>)
    requires
        listing matches Some(l) ==> selected_names(l.contents@).len() == 0 && l.curr_entry() is None,
    ensures
        expand_tokens(pre + seq![SELECTION_PLACEHOLDER@] + post, listing) == expand_tokens(pre, listing)
            + expand_tokens(post, listing),
{
    lemma_expand_around(pre, post, listing);
    assert(placeholder_args(listing) =~= Seq::<Seq<char>>::empty());
    assert(expand_tokens(pre, listing) + Seq::<Seq<char>>::empty() =~= expand_tokens(pre, listing));
}

/// Appends a copy of each string of `src` to `dst`.
fn push_all(dst: &mut Vec<String>, src: &Vec<String>)
    ensures
        strings_view(final(dst)@) == strings_view(old(dst)@) + strings_view(src@),
{
    let mut i: usize = 0;
    while i < src.len()
        invariant
            i <= src@.len(),
            strings_view(dst@) == strings_view(old(dst)@) + strings_view(src@.subrange(0, i as int)),
        decreases src@.len() - i,
    {
        let ghost before = dst@;
        dst.push(src[i].clone());
        proof {
            assert(strings_view(dst@) =~= strings_view(before).push(src@[i as int]@));
            assert(strings_view(src@.subrange(0, i as int + 1)) =~= strings_view(src@.subrange(0, i as int)).push(src@[i as int]@));
            assert(strings_view(dst@) =~= strings_view(old(dst)@) + strings_view(src@.subrange(0, i as int + 1)));
        }
        i += 1;
    }
    assert(src@.subrange(0, src@.len() as int) =~= src@);
}

/// The arguments the placeholder expands to for `listing`.
pub fn placeholder_expansion(listing: Option<&DirListing>) -> (r: Vec<String>)
    requires
        listing_wf(listing),
    ensures
        strings_view(r@) == placeholder_args(listing_value(listing)),
{
    let mut r: Vec<String> = Vec::new();
    match listing {
        None => {
            assert(strings_view(r@) =~= Seq::<Seq<char>>::empty());
        },
        Some(l) => {
            let sel = l.selected_names();
            if sel.len() > 0 {
                push_all(&mut r, &sel);
                assert(strings_view(r@) =~= strings_view(sel@));
            } else {
                match l.curr_entry_ref() {
                    Some(e) => {
                        r.push(e.name.clone());
                        assert(strings_view(r@) =~= seq![e.name@]);
                    },
                    None => {
                        assert(strings_view(r@) =~= Seq::<Seq<char>>::empty());
                    },
                }
            }
        },
    }
    r
}

/// The arguments of the template `words` (program name first) against `listing`.
pub fn expand_args(words: &Vec<String>, listing: Option<&DirListing>) -> (r: Vec<String>)
    requires
        listing_wf(listing),
    ensures
        strings_view(r@) == template_args(strings_view(words@), listing_value(listing)),
{
    let ghost lv = listing_value(listing);
    let ghost ws = strings_view(words@);
    let mut r: Vec<String> = Vec::new();
    if words.len() == 0 {
        assert(strings_view(r@) =~= Seq::<Seq<char>>::empty());
        return r;
    }
    let placeholder: String = SELECTION_PLACEHOLDER.to_owned();
    let mut i: usize = 1;
    while i < words.len()
        invariant
            1 <= i <= words@.len(),
            ws == strings_view(words@),
            lv == listing_value(listing),
            listing_wf(listing),
            placeholder@ == SELECTION_PLACEHOLDER@,
            strings_view(r@) == expand_tokens(ws.subrange(1, i as int), lv),
        decreases words@.len() - i,
    {
        let ghost before = r@;
        if words[i] == placeholder {
            let more = placeholder_expansion(listing);
            push_all(&mut r, &more);
        } else {
            r.push(words[i].clone());
            assert(strings_view(r@) =~= strings_view(before) + seq![words@[i as int]@]);
        }
        proof {
            let t = ws.subrange(1, i as int + 1);
            assert(t.drop_last() =~= ws.subrange(1, i as int));
            assert(t.last() == words@[i as int]@);
        }
        i += 1;
    }
    assert(ws.subrange(1, words@.len() as int) =~= ws.drop_first());
    r
}

} // verus!
