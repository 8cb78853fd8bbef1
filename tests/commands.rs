use joshuto::cache::{ListingCache, ListingError};
use joshuto::config::{JoshutoConfig, SortOption, SortType};
use joshuto::context::AppContext;
use joshuto::invoker::{expand_args, placeholder_expansion};
use joshuto::listing::{DirEntry, DirListing, EntryKind};
use joshuto::preview::{PaneContent, PreviewPane};
use joshuto::reload::soft_reload_curr_tab;
use joshuto::sub_process::{
    command_line, joined, status_message, sub_process, ExecutionOutcome, JoshutoError, SpawnError,
};
use joshuto::terminal::{TerminalMode, TerminalRestoreError};

fn words(ws: &[&str]) -> Vec<String> {
    ws.iter().map(|w| w.to_string()).collect()
}

fn entry(dir: &str, name: &str, kind: EntryKind) -> DirEntry {
    DirEntry::new(name.to_string(), format!("{}/{}", dir, name), kind)
}

fn files(dir: &str, names: &[&str]) -> Vec<DirEntry> {
    names.iter().map(|n| entry(dir, n, EntryKind::File)).collect()
}

fn natural() -> SortOption {
    JoshutoConfig::default().sort_option
}

fn listing(names: &[&str]) -> DirListing {
    DirListing::new("/a".to_string(), files("/a", names), natural())
}

#[test]
fn placeholder_expands_to_selection_in_display_order() {
    let mut l = listing(&["x", "y", "z"]);
    l.set_selected(2, true);
    l.set_selected(0, true);
    let args = expand_args(&words(&["mv", "%s", "/tmp"]), Some(&l));
    assert_eq!(args, words(&["x", "z", "/tmp"]));
}

#[test]
fn placeholder_falls_back_to_cursor_entry() {
    let l = listing(&["x", "y"]);
    let args = expand_args(&words(&["vim", "%s"]), Some(&l));
    assert_eq!(args, words(&["x"]));
}

#[test]
fn placeholder_on_empty_directory_gives_nothing() {
    let l = listing(&[]);
    let argv = command_line(&words(&["echo", "%s"]), Some(&l)).unwrap();
    assert_eq!(argv, words(&["echo"]));
    assert!(expand_args(&words(&["echo", "%s"]), Some(&l)).is_empty());
}

#[test]
fn placeholder_without_listing_gives_nothing() {
    assert!(placeholder_expansion(None).is_empty());
    assert_eq!(expand_args(&words(&["ls", "-l", "%s"]), None), words(&["-l"]));
}

#[test]
fn placeholder_inside_a_token_is_literal() {
    let l = listing(&["x"]);
    let args = expand_args(&words(&["echo", "a%s", "%s%s", "%S"]), Some(&l));
    assert_eq!(args, words(&["a%s", "%s%s", "%S"]));
}

#[test]
fn program_name_is_never_expanded() {
    let l = listing(&["x"]);
    let argv = command_line(&words(&["%s", "%s"]), Some(&l)).unwrap();
    assert_eq!(argv, words(&["%s", "x"]));
}

#[test]
fn each_placeholder_expands() {
    let mut l = listing(&["x", "y"]);
    l.set_selected(0, true);
    l.set_selected(1, true);
    let argv = command_line(&words(&["cp", "%s", "--", "%s"]), Some(&l)).unwrap();
    assert_eq!(argv, words(&["cp", "x", "y", "--", "x", "y"]));
}

#[test]
fn empty_template_is_rejected() {
    let l = listing(&["x"]);
    assert!(matches!(command_line(&Vec::new(), Some(&l)), Err(JoshutoError::EmptyTemplate)));
}

#[test]
fn status_message_joins_words() {
    assert_eq!(status_message(&words(&["rm", "%s"]), false), "Finished: rm %s");
    assert_eq!(status_message(&words(&["mpv", "a b"]), true), "Spawned: mpv a b");
    assert_eq!(joined(&Vec::new()), "");
    assert_eq!(joined(&words(&["one"])), "one");
}

fn context_at_a(names: &[&str]) -> AppContext {
    let mut ctx = AppContext::new(JoshutoConfig::default(), "/a".to_string());
    let es = files("/a", names);
    let i = ctx.tab.history.get_or_create(&"/a".to_string(), natural(), move |_, _| Ok(es)).unwrap();
    assert_eq!(ctx.tab.history.listing(i).len(), names.len());
    ctx
}

fn ok_exit(_: &Vec<String>, _: bool) -> Result<ExecutionOutcome, SpawnError> {
    Ok(ExecutionOutcome::Exited(Some(0)))
}

fn no_text(_: &String, _: u64) -> Result<String, String> {
    Err("no preview".to_string())
}

#[test]
fn run_rm_on_selection_then_reload() {
    let mut ctx = context_at_a(&["x", "y", "z"]);
    let i = ctx.tab.history.find(&"/a".to_string()).unwrap();
    ctx.tab.history.set_selected(i, 0, true);
    ctx.tab.history.set_selected(i, 1, true);
    let mut pane = PreviewPane { content: PaneContent::Text("stale".to_string()) };
    let mut seen: Vec<String> = Vec::new();
    let mut torn_down = false;
    let r = sub_process(
        &mut ctx,
        &mut pane,
        &words(&["rm", "%s"]),
        false,
        || torn_down = true,
        |argv: &Vec<String>, spawn| {
            assert!(!spawn);
            seen = argv.clone();
            Ok(ExecutionOutcome::Exited(Some(0)))
        },
        || Ok(()),
        |p: &String, _| {
            assert_eq!(p, "/a");
            Ok(files("/a", &["z"]))
        },
        |p: &String, _| Ok(format!("contents of {}", p)),
    );
    assert_eq!(r.unwrap(), ExecutionOutcome::Exited(Some(0)));
    assert!(torn_down);
    assert_eq!(seen, words(&["rm", "x", "y"]));
    assert_eq!(ctx.terminal.mode, TerminalMode::Interactive);
    let i = ctx.tab.history.find(&"/a".to_string()).unwrap();
    let l = ctx.tab.history.listing(i);
    let names: Vec<&str> = l.contents.iter().map(|e| e.name.as_str()).collect();
    assert_eq!(names, vec!["z"]);
    assert!(l.contents.iter().all(|e| !e.selected));
    assert_eq!(ctx.messages, words(&["Finished: rm %s"]));
    assert!(matches!(pane.content, PaneContent::Text(ref t) if t == "contents of /a/z"));
}

#[test]
fn non_zero_exit_is_reported() {
    let mut ctx = context_at_a(&["x"]);
    let mut pane = PreviewPane::new();
    let r = sub_process(
        &mut ctx,
        &mut pane,
        &words(&["false"]),
        false,
        || {},
        |_: &Vec<String>, _| Ok(ExecutionOutcome::Exited(Some(1))),
        || Ok(()),
        |_: &String, _| Ok(files("/a", &["x"])),
        no_text,
    );
    assert_eq!(r.unwrap(), ExecutionOutcome::Exited(Some(1)));
    assert_eq!(ctx.messages, words(&["Finished: false", "Exited with a non-zero status"]));
    assert_eq!(ctx.terminal.mode, TerminalMode::Interactive);
}

#[test]
fn spawn_failure_still_restores_terminal() {
    let mut ctx = context_at_a(&["x"]);
    let mut pane = PreviewPane::new();
    let mut restored = false;
    let r = sub_process(
        &mut ctx,
        &mut pane,
        &words(&["no-such-program", "%s"]),
        true,
        || {},
        |_: &Vec<String>, _| Err(SpawnError { message: "not found".to_string() }),
        || {
            restored = true;
            Ok(())
        },
        |_: &String, _| Ok(files("/a", &["x"])),
        no_text,
    );
    assert!(restored);
    assert!(matches!(r, Err(JoshutoError::Spawn(ref e)) if e.message == "not found"));
    assert_eq!(ctx.terminal.mode, TerminalMode::Interactive);
    assert_eq!(ctx.messages, words(&["Spawned: no-such-program %s"]));
    assert!(matches!(pane.content, PaneContent::PreviewFailed(ref m) if m == "no preview"));
}

#[test]
fn detached_run_reports_spawned() {
    let mut ctx = context_at_a(&["x"]);
    let mut pane = PreviewPane::new();
    let r = sub_process(
        &mut ctx,
        &mut pane,
        &words(&["mpv", "%s"]),
        true,
        || {},
        |argv: &Vec<String>, spawn| {
            assert!(spawn);
            assert_eq!(argv, &words(&["mpv", "x"]));
            Ok(ExecutionOutcome::Spawned)
        },
        || Ok(()),
        |_: &String, _| Ok(files("/a", &["x"])),
        no_text,
    );
    assert_eq!(r.unwrap(), ExecutionOutcome::Spawned);
    assert_eq!(ctx.messages, words(&["Spawned: mpv %s"]));
}

#[test]
fn restore_failure_is_fatal() {
    let mut ctx = context_at_a(&["x"]);
    let mut pane = PreviewPane { content: PaneContent::Text("kept".to_string()) };
    let read_called = std::cell::Cell::new(false);
    let r = sub_process(
        &mut ctx,
        &mut pane,
        &words(&["ls"]),
        false,
        || {},
        ok_exit,
        || Err(TerminalRestoreError { message: "no tty".to_string() }),
        |_: &String, _| {
            read_called.set(true);
            Ok(Vec::new())
        },
        no_text,
    );
    assert!(matches!(r, Err(JoshutoError::TerminalRestore(_))));
    assert_eq!(ctx.terminal.mode, TerminalMode::Released);
    assert!(!read_called.get());
    assert!(ctx.messages.is_empty());
    assert!(matches!(pane.content, PaneContent::Text(ref t) if t == "kept"));
}

#[test]
fn empty_template_leaves_terminal_alone() {
    let mut ctx = context_at_a(&["x"]);
    let mut pane = PreviewPane::new();
    let mut touched = false;
    let r = sub_process(
        &mut ctx,
        &mut pane,
        &Vec::new(),
        false,
        || touched = true,
        ok_exit,
        || Ok(()),
        |_: &String, _| Ok(Vec::new()),
        no_text,
    );
    assert!(matches!(r, Err(JoshutoError::EmptyTemplate)));
    assert!(!touched);
    assert_eq!(ctx.terminal.mode, TerminalMode::Interactive);
}

#[test]
fn reload_failure_is_reported_not_fatal() {
    let mut ctx = context_at_a(&["x"]);
    let mut pane = PreviewPane { content: PaneContent::Text("stale".to_string()) };
    let r = sub_process(
        &mut ctx,
        &mut pane,
        &words(&["true"]),
        false,
        || {},
        ok_exit,
        || Ok(()),
        |_: &String, _| Err(ListingError::NotFound),
        no_text,
    );
    assert!(r.is_ok());
    assert!(ctx.tab.history.find(&"/a".to_string()).is_none());
    assert_eq!(ctx.messages, words(&["No such directory", "Finished: true"]));
    assert!(matches!(pane.content, PaneContent::Blank));
}

#[test]
fn soft_reload_rerenders_preview() {
    let mut ctx = context_at_a(&["x"]);
    let mut pane = PreviewPane::new();
    let sub = DirEntry::new("sub".to_string(), "/a/sub".to_string(), EntryKind::Directory);
    let fresh = std::cell::RefCell::new(Some(vec![sub]));
    soft_reload_curr_tab(
        &mut ctx,
        &mut pane,
        |p: &String, _| {
            if p == "/a" {
                Ok(fresh.borrow_mut().take().unwrap())
            } else {
                Ok(files("/a/sub", &["inner"]))
            }
        },
        no_text,
    );
    match pane.content {
        PaneContent::Listing(i) => assert_eq!(ctx.tab.history.listing(i).path, "/a/sub"),
        other => panic!("unexpected pane content {:?}", other),
    }
    assert!(ctx.messages.is_empty());
}

#[test]
fn fresh_cache_is_empty() {
    let c = ListingCache::new();
    assert!(c.find(&"/a".to_string()).is_none());
}

#[test]
fn sort_type_names() {
    assert_eq!(SortType::from_name(&"mtime".to_string()), SortType::SortMtime);
    assert_eq!(SortType::from_name(&"natural".to_string()), SortType::SortNatural);
    assert_eq!(SortType::from_name(&"MTIME".to_string()), SortType::SortNatural);
}
