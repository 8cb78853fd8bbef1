use vstd::prelude::*;

use crate::cache::{listing_error_text, ListingError};
use crate::config::{JoshutoConfig, SortOption};
use crate::context::{is_reloaded, AppContext, JoshutoTab};
use crate::invoker::strings_view;
use crate::listing::DirEntry;
use crate::preview::{is_previewed, preview_file, PaneContent, PreviewPane};

verus! {

/// `new` and `new_msgs` are `old` and `old_msgs` after a soft reload: the current
/// directory was listed anew through `read`, the preview was rendered again from
/// the refreshed cache, and a failed listing was reported by one message.
pub open spec fn is_soft_reloaded<F, P>(
    old: JoshutoTab,
    old_msgs: Seq<String>,
    new: JoshutoTab,
    new_msgs: Seq<String>,
    content: PaneContent,
    config: JoshutoConfig,
    read: F,
    text: P,
) -> bool
    where
        F: FnOnce(&String, SortOption) -> Result<Vec<DirEntry>, ListingError>,
        P: FnOnce(&String, u64) -> Result<String, String>,
{
    exists|mid: JoshutoTab|
        {
            &&& #[trigger] is_reloaded(old, mid, config.sort_option, read)
            &&& is_previewed(mid, new, content, config, read, text)
            &&& if mid.history@.contains_key(mid.curr_path@) {
                new_msgs == old_msgs
            } else {
                exists|e: ListingError|
                    {
                        &&& #[trigger] read.ensures(
                            (&old.curr_path, config.sort_option),
                            Err::<Vec<DirEntry>, ListingError>(e),
                        )
                        &&& strings_view(new_msgs) == strings_view(old_msgs).push(
                            listing_error_text(e),
                        )
                    }
            }
        }
}

/// Lists the active tab's directory anew through `read` so that changes made
/// behind the application's back show, then renders the preview again. A failed
/// listing is reported as a message and stops nothing.
pub fn soft_reload_curr_tab<F, P>(context: &mut AppContext, pane: &mut PreviewPane, read: F, text: P)
    where
        F: Fn(&String, SortOption) -> Result<Vec<DirEntry>, ListingError>,
        P: FnOnce(&String, u64) -> Result<String, String>,
    requires
        old(context).tab.history.wf(),
        forall|p: &String, s: SortOption| read.requires((p, s)),
        forall|p: &String, n: u64| text.requires((p, n)),
    ensures
        final(context).config == old(context).config,
        final(context).terminal == old(context).terminal,
        is_soft_reloaded(
            old(context).tab,
            old(context).messages@,
            final(context).tab,
            final(context).messages@,
            final(pane).content,
            old(context).config,
            read,
            text,
        ),
{
    let config = context.config;
    let reloaded = context.tab.soft_reload(config.sort_option, &read);
    let ghost mid = context.tab;
    let ghost msgs = context.messages@;
    match reloaded {
        Ok(_) => {},
        Err(e) => {
            context.messages.push(e.message());
            assert(strings_view(context.messages@) =~= strings_view(msgs).push(listing_error_text(e)));
        },
    }
    preview_file(&mut context.tab, &config, pane, &read, text);
    assert(is_reloaded(old(context).tab, mid, config.sort_option, read));
}

} // verus!
