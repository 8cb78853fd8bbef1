use vstd::prelude::*;
use vstd::string::StringExecFns;

use crate::cache::ListingError;
use crate::config::SortOption;
use crate::context::{curr_list_of, AppContext};
use crate::invoker::{expand_args, strings_view, template_args};
use crate::listing::{DirEntry, DirListing};
use crate::preview::PreviewPane;
use crate::reload::{is_soft_reloaded, soft_reload_curr_tab};
use crate::terminal::{TerminalMode, TerminalRestoreError};

verus! {

/// The program could not be started.
#[derive(Clone, Debug)]
pub struct SpawnError {
    pub message: String,
}

/// How a started program ended, as far as the application waits for it.
#[derive(Clone, Copy, Debug, PartialEq, Eq, Structural)]
pub enum ExecutionOutcome {
    /// Run in the foreground: its exit code, or none if a signal ended it.
    Exited(Option<i32>),
    /// Started detached; nothing waits for it.
    Spawned,
}

/// The notice shown when a foreground program did not exit with code 0.
pub open spec fn exit_notes(launched: Result<ExecutionOutcome, SpawnError>) -> Seq<Seq<char>> {
    match launched {
        Ok(ExecutionOutcome::Exited(code)) => if code == Some(0i32) {
            Seq::empty()
        } else {
            seq!["Exited with a non-zero status"@]
        },
        _ => Seq::empty(),
    }
}

/// Why running a command failed.
#[derive(Clone, Debug)]
pub enum JoshutoError {
    /// The template has no program name; the terminal was not touched.
    EmptyTemplate,
    Spawn(SpawnError),
    /// Fatal: the application's display is gone.
    TerminalRestore(TerminalRestoreError),
}

/// The words of a template joined by single spaces.
pub open spec fn join_words(ws: Seq<Seq<char>>) -> Seq<char>
    decreases ws.len(),
{
    if ws.len() == 0 {
        Seq::empty()
    } else if ws.len() == 1 {
        ws[0]
    } else {
        join_words(ws.drop_last()) + " "@ + ws.last()
    }
}

/// The status line shown once a command has run.
pub open spec fn status_text(spawn: bool, ws: Seq<Seq<char>>) -> Seq<char> {
    (if spawn {
        "Spawned"@
    } else {
        "Finished"@
    }) + ": "@ + join_words(ws)
}

/// The program name followed by the expanded arguments.
pub open spec fn command_line_of(ws: Seq<Seq<char>>, listing: Option<DirListing>) -> Seq<Seq<char>> {
    seq![ws[0]] + template_args(ws, listing)
}

/// The words of `words` joined by single spaces.
pub fn joined(words: &Vec<String>) -> (r: String)
    ensures
        r@ == join_words(strings_view(words@)),
{
    let mut r: String = String::new();
    let mut i: usize = 0;
    while i < words.len()
        invariant
            i <= words@.len(),
            r@ == join_words(strings_view(words@.subrange(0, i as int))),
        decreases words@.len() - i,
    {
        proof {
            let ws = strings_view(words@.subrange(0, i as int + 1));
            assert(ws.drop_last() =~= strings_view(words@.subrange(0, i as int)));
            assert(ws.last() == words@[i as int]@);
        }
        if i > 0 {
            r.append(" ");
        } else {
            assert(r@ =~= Seq::<char>::empty());
        }
        r.append(words[i].as_str());
        i += 1;
    }
    assert(words@.subrange(0, words@.len() as int) =~= words@);
    r
}

/// The status line for running `words`, detached when `spawn`.
pub fn status_message(words: &Vec<String>, spawn: bool) -> (r: String)
    ensures
        r@ == status_text(spawn, strings_view(words@)),
{
    let mut r: String = if spawn {
        "Spawned".to_owned()
    } else {
        "Finished".to_owned()
    };
    r.append(": ");
    let w = joined(words);
    r.append(w.as_str());
    r
}

/// The argument vector for the template `words` against `listing`: the program
/// name, then each later token, with the placeholder expanded.
pub fn command_line(words: &Vec<String>, listing: Option<&DirListing>) -> (r: Result<Vec<String>, JoshutoError>)
    requires
        listing matches Some(l) ==> l.wf(),
    ensures
        words@.len() == 0 <==> r matches Err(JoshutoError::EmptyTemplate),
        r matches Ok(v) ==> strings_view(v@) == command_line_of(
            strings_view(words@),
            match listing {
                Some(l) => Some(*l),
                None => None,
            },
        ),
        r is Ok || r matches Err(JoshutoError::EmptyTemplate),
{
    if words.len() == 0 {
        return Err(JoshutoError::EmptyTemplate);
    }
    let args = expand_args(words, listing);
    let mut argv: Vec<String> = Vec::new();
    argv.push(words[0].clone());
    let mut i: usize = 0;
    while i < args.len()
        invariant
            i <= args@.len(),
            strings_view(argv@) == seq![words@[0]@] + strings_view(args@.subrange(0, i as int)),
        decreases args@.len() - i,
    {
        let ghost before = argv@;
        argv.push(args[i].clone());
        proof {
            assert(strings_view(argv@) =~= strings_view(before).push(args@[i as int]@));
            assert(strings_view(args@.subrange(0, i as int + 1)) =~= strings_view(args@.subrange(0, i as int)).push(args@[i as int]@));
            assert(strings_view(argv@) =~= seq![words@[0]@] + strings_view(args@.subrange(0, i as int + 1)));
        }
        i += 1;
    }
    assert(args@.subrange(0, args@.len() as int) =~= args@);
    assert(strings_view(words@)[0] == words@[0]@);
    Ok(argv)
}

/// Runs the template `words` on the active tab: checks the template, hands the
/// terminal over through `teardown`, starts the program through `launch` (detached
/// when `spawn`), takes the terminal back through `reinit`, reloads the current
/// directory through `read` and renders the preview again into `pane` (files
/// through `text`), and reports what ran. The terminal is taken back whether or not
/// the program started; if that fails, nothing else is done.
pub fn sub_process<D, L, R, F, P>(
    context: &mut AppContext,
    pane: &mut PreviewPane,
    words: &Vec<String>,
    spawn: bool,
    teardown: D,
    launch: L,
    reinit: R,
    read: F,
    text: P,
) -> (r: Result<ExecutionOutcome, JoshutoError>)
    where
        D: FnOnce(),
        L: FnOnce(&Vec<String>, bool) -> Result<ExecutionOutcome, SpawnError>,
        R: FnOnce() -> Result<(), TerminalRestoreError>,
        F: Fn(&String, SortOption) -> Result<Vec<DirEntry>, ListingError>,
        P: FnOnce(&String, u64) -> Result<String, String>,
    requires
        old(context).tab.history.wf(),
        old(context).terminal.mode == TerminalMode::Interactive,
        teardown.requires(()),
        forall|a: &Vec<String>, b: bool| launch.requires((a, b)),
        reinit.requires(()),
        forall|p: &String, s: SortOption| read.requires((p, s)),
        forall|p: &String, n: u64| text.requires((p, n)),
    ensures
        final(context).config == old(context).config,
        words@.len() == 0 ==> {
            &&& r matches Err(JoshutoError::EmptyTemplate)
            &&& *final(context) == *old(context)
            &&& *final(pane) == *old(pane)
        },
        words@.len() > 0 ==> exists|
            argv: Vec<String>,
            launched: Result<ExecutionOutcome, SpawnError>,
            restored: Result<(), TerminalRestoreError>,
        |
            #![trigger launch.ensures((&argv, spawn), launched), reinit.ensures((), restored)]
            {
                &&& launch.ensures((&argv, spawn), launched)
                &&& reinit.ensures((), restored)
                &&& strings_view(argv@) == command_line_of(
                    strings_view(words@),
                    curr_list_of(old(context).tab),
                )
                &&& match restored {
                    Err(e) => {
                        &&& r matches Err(JoshutoError::TerminalRestore(f)) && f == e
                        &&& final(context).terminal.mode == TerminalMode::Released
                        &&& final(context).tab == old(context).tab
                        &&& final(context).messages == old(context).messages
                        &&& *final(pane) == *old(pane)
                    },
                    Ok(_) => {
                        &&& final(context).terminal.mode == TerminalMode::Interactive
                        &&& exists|msgs: Seq<String>|
                            {
                                &&& #[trigger] is_soft_reloaded(
                                    old(context).tab,
                                    old(context).messages@,
                                    final(context).tab,
                                    msgs,
                                    final(pane).content,
                                    old(context).config,
                                    read,
                                    text,
                                )
                                &&& strings_view(final(context).messages@) == strings_view(msgs)
                                    + seq![status_text(spawn, strings_view(words@))] + exit_notes(
                                    launched,
                                )
                            }
                        &&& match launched {
                            Ok(o) => r == Ok::<ExecutionOutcome, JoshutoError>(o),
                            Err(e) => r matches Err(JoshutoError::Spawn(f)) && f == e,
                        }
                    },
                }
            },
{
    let argv = match command_line(words, context.tab.curr_list_ref()) {
        Ok(v) => v,
        Err(e) => {
            return Err(e);
        },
    };
    context.terminal.release(teardown);
    let launched = launch(&argv, spawn);
    let restored = context.terminal.restore(reinit);
    match restored {
        Err(e) => {
            assert(launch.ensures((&argv, spawn), launched) && reinit.ensures((), restored));
            Err(JoshutoError::TerminalRestore(e))
        },
        Ok(_) => {
            assert(context.tab == old(context).tab && context.messages == old(context).messages);
            soft_reload_curr_tab(context, pane, read, text);
            let ghost msgs = context.messages@;
            let ghost tab_after = context.tab;
            let ghost content_after = pane.content;
            assert(is_soft_reloaded(
                old(context).tab,
                old(context).messages@,
                context.tab,
                msgs,
                pane.content,
                old(context).config,
                read,
                text,
            ));
            context.messages.push(status_message(words, spawn));
            let r = match launched {
                Ok(o) => {
                    match o {
                        ExecutionOutcome::Exited(code) => {
                            let clean = match code {
                                Some(c) => c == 0,
                                None => false,
                            };
                            if !clean {
                                context.messages.push("Exited with a non-zero status".to_owned());
                            }
                        },
                        ExecutionOutcome::Spawned => {},
                    }
                    Ok(o)
                },
                Err(e) => Err(JoshutoError::Spawn(e)),
            };
            assert(strings_view(context.messages@) =~= strings_view(msgs) + seq![
                status_text(spawn, strings_view(words@)),
            ] + exit_notes(launched));
            assert(launch.ensures((&argv, spawn), launched) && reinit.ensures((), restored));
            assert(context.tab == tab_after);
            assert(pane.content == content_after);
            assert(is_soft_reloaded(
                old(context).tab,
                old(context).messages@,
                context.tab,
                msgs,
                pane.content,
                old(context).config,
                read,
                text,
            ));
            r
        },
    }
}

} // verus!
