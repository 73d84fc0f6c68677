use sync_github::ChildEntry;
use sync_github::Chunk;
use sync_github::Config;
use sync_github::SyncError;
use sync_github::error_line;
use sync_github::render_update;
use sync_github::select_working_copies;
use sync_github::update_commands;

fn child(path: &str, has_git: bool) -> ChildEntry {
    ChildEntry { path: path.to_string(), has_git }
}

fn selected_paths(children: Vec<ChildEntry>) -> Vec<String> {
    select_working_copies(&children)
}

#[test]
fn empty_root_plans_no_tasks() {
    let config = Config { path: "/tmp/a".to_string() };
    let tasks = config.plan(&Some(vec![])).unwrap();
    assert!(tasks.is_empty());
}

#[test]
fn missing_root_is_the_invalid_path_error() {
    let config = Config { path: "/tmp/does-not-exist".to_string() };
    let err = config.plan(&None).unwrap_err();
    let SyncError::InvalidPath { path } = &err;
    assert_eq!(path, "/tmp/does-not-exist");
    assert_eq!(err.message(), "invalid path /tmp/does-not-exist");
    assert_eq!(error_line(&err), "Error: invalid path /tmp/does-not-exist");
}

#[test]
fn single_working_copy_gets_three_commands_in_order() {
    let config = Config { path: "/tmp/root".to_string() };
    let children = Some(vec![child("/tmp/root/repo1", true)]);
    let tasks = config.plan(&children).unwrap();
    assert_eq!(tasks, vec!["/tmp/root/repo1".to_string()]);

    let cmds = update_commands(&tasks[0]);
    assert_eq!(cmds.len(), 3);
    for c in &cmds {
        assert_eq!(c.cwd, "/tmp/root/repo1");
        assert_eq!(c.program, "git");
    }
    assert_eq!(cmds[0].args, vec!["reset".to_string(), "--hard".to_string()]);
    assert_eq!(cmds[1].args, vec!["clean".to_string(), "-df".to_string()]);
    assert_eq!(cmds[2].args, vec!["pull".to_string()]);
}

#[test]
fn mixed_children_skip_the_one_without_git() {
    let children = vec![
        child("/tmp/root/repo1", true),
        child("/tmp/root/notes", false),
        child("/tmp/root/repo2", true),
    ];
    let tasks = selected_paths(children);
    assert_eq!(
        tasks,
        vec!["/tmp/root/repo1".to_string(), "/tmp/root/repo2".to_string()]
    );

    let mut invocations = 0;
    for t in &tasks {
        for c in update_commands(t) {
            assert_ne!(c.cwd, "/tmp/root/notes");
            invocations += 1;
        }
    }
    assert_eq!(invocations, 6);
}

#[test]
fn file_named_git_counts_as_working_copy() {
    // The predicate asks only that a metadata lookup on the entry named
    // `.git` succeeded; a plain file (a worktree pointer, say) satisfies
    // it just as a directory does.
    let tasks = selected_paths(vec![child("/tmp/root/repoX", true)]);
    assert_eq!(tasks, vec!["/tmp/root/repoX".to_string()]);
    assert_eq!(update_commands(&tasks[0]).len(), 3);
}

#[test]
fn one_task_per_git_child() {
    let children = vec![
        child("a", true),
        child("b", false),
        child("c", true),
        child("d", true),
        child("e", false),
    ];
    let git_children = children.iter().filter(|c| c.has_git).count();
    let tasks = selected_paths(children);
    assert_eq!(tasks.len(), git_children);
    assert_eq!(tasks.len(), 3);
}

#[test]
fn tasks_only_name_enumerated_children() {
    let children = vec![child("a", true), child("b", false), child("c", true)];
    let names: Vec<String> = children.iter().map(|c| c.path.clone()).collect();
    for t in selected_paths(children) {
        assert!(names.contains(&t));
    }
}

#[test]
fn same_children_in_any_order_give_same_tasks() {
    let one = vec![child("a", true), child("b", false), child("c", true)];
    let other = vec![child("c", true), child("a", true), child("b", false)];
    let mut tasks_one = selected_paths(one);
    let mut tasks_other = selected_paths(other);
    tasks_one.sort();
    tasks_other.sort();
    assert_eq!(tasks_one, tasks_other);
}

fn chunk_text(c: &Chunk) -> Option<&str> {
    match c {
        Chunk::Text(s) => Some(s.as_str()),
        Chunk::Raw(_) => None,
    }
}

fn chunk_raw(c: &Chunk) -> Option<&[u8]> {
    match c {
        Chunk::Raw(b) => Some(b.as_slice()),
        Chunk::Text(_) => None,
    }
}

#[test]
fn rendered_output_is_header_then_blocks_in_issue_order() {
    let path = "/tmp/root/repo1".to_string();
    let outs = vec![
        Some(b"reset out".to_vec()),
        Some(b"".to_vec()),
        Some(b"pull out".to_vec()),
    ];
    let chunks = render_update(&path, &outs);
    assert_eq!(chunks.len(), 7);
    assert_eq!(chunk_text(&chunks[0]), Some("\nupdate path: /tmp/root/repo1\n"));
    assert_eq!(chunk_text(&chunks[1]), Some("\n"));
    assert_eq!(chunk_raw(&chunks[2]), Some(b"reset out".as_slice()));
    assert_eq!(chunk_text(&chunks[3]), Some("\n"));
    assert_eq!(chunk_raw(&chunks[4]), Some(b"".as_slice()));
    assert_eq!(chunk_text(&chunks[5]), Some("\n"));
    assert_eq!(chunk_raw(&chunks[6]), Some(b"pull out".as_slice()));
}

#[test]
fn spawn_failure_contributes_nothing() {
    let path = "repo".to_string();
    let outs = vec![Some(b"first".to_vec()), None, Some(b"third".to_vec())];
    let chunks = render_update(&path, &outs);
    assert_eq!(chunks.len(), 5);
    assert_eq!(chunk_text(&chunks[0]), Some("\nupdate path: repo\n"));
    assert_eq!(chunk_raw(&chunks[2]), Some(b"first".as_slice()));
    assert_eq!(chunk_raw(&chunks[4]), Some(b"third".as_slice()));
}

#[test]
fn header_always_comes_first() {
    let path = "p".to_string();
    for outs in [
        vec![],
        vec![None, None, None],
        vec![Some(b"x".to_vec())],
    ] {
        let chunks = render_update(&path, &outs);
        assert!(!chunks.is_empty());
        assert_eq!(chunk_text(&chunks[0]), Some("\nupdate path: p\n"));
        for c in &chunks[1..] {
            assert_ne!(chunk_text(c), Some("\nupdate path: p\n"));
        }
    }
}

#[test]
fn no_subprocess_output_renders_header_alone() {
    let path = "repo".to_string();
    let chunks = render_update(&path, &vec![None, None, None]);
    assert_eq!(chunks.len(), 1);
    assert_eq!(chunk_text(&chunks[0]), Some("\nupdate path: repo\n"));
}
