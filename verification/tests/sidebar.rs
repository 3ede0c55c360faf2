use gitcomet_view::sidebar::{
    compute_file_browser_visible_rows, file_browser_search_rows, file_browser_visible_mask,
    sorted_badges, sorted_workdirs, AppState, FileBrowserRowsCache, FileBrowserState, FileBrowserVisibleRow, FileEntry,
    Loadable, RepoState, SidebarNotifyFingerprint, Worktree,
};

fn repo_state(id: u64, path: &str) -> RepoState {
    RepoState::new_opening(id, path.to_string())
}

fn state(repos: Vec<RepoState>, active: u64) -> AppState {
    AppState { repos, active_repo: Some(active) }
}

fn worktree(path: &str, branch: &str) -> Worktree {
    Worktree { path: path.to_string(), head: None, branch: Some(branch.to_string()), detached: false }
}

fn entry(path: &str, depth: usize, is_directory: bool) -> FileEntry {
    FileEntry { path: path.split('/').map(|c| c.to_string()).collect(), depth, is_directory }
}

fn dir(path: &str) -> Vec<String> {
    path.split('/').map(|c| c.to_string()).collect()
}

#[test]
fn sidebar_notify_fingerprint_tracks_open_repo_workdirs() {
    let mut state = state(vec![repo_state(1, "/tmp/repo")], 1);

    let initial = SidebarNotifyFingerprint::from_state(&state);

    state.repos.push(repo_state(2, "/tmp/repo-wt"));

    assert_ne!(SidebarNotifyFingerprint::from_state(&state), initial);
}

#[test]
fn sidebar_notify_fingerprint_tracks_live_workspace_badge_branch_changes() {
    let mut active = repo_state(1, "/tmp/repo");
    active.worktrees = Loadable::Ready(vec![worktree("/tmp/repo-feature", "feature/old")]);

    let mut worktree_repo = repo_state(2, "/tmp/repo-feature");
    worktree_repo.head_branch = Loadable::Ready("feature/old".to_string());
    let mut state = state(vec![active, worktree_repo], 1);

    let initial = SidebarNotifyFingerprint::from_state(&state);

    state.repos[1].head_branch = Loadable::Ready("feature/new".to_string());
    state.repos[1].head_branch_rev = 1;

    assert_ne!(SidebarNotifyFingerprint::from_state(&state), initial);
}

#[test]
fn sidebar_notify_fingerprint_tracks_workspace_badge_removal_when_tab_closes() {
    let mut active = repo_state(1, "/tmp/repo");
    active.worktrees = Loadable::Ready(vec![worktree("/tmp/repo-feature", "feature")]);

    let mut worktree_repo = repo_state(2, "/tmp/repo-feature");
    worktree_repo.head_branch = Loadable::Ready("feature".to_string());
    let mut state = state(vec![active, worktree_repo], 1);

    let initial = SidebarNotifyFingerprint::from_state(&state);

    state.repos.pop();

    assert_ne!(SidebarNotifyFingerprint::from_state(&state), initial);
}

#[test]
fn sidebar_notify_fingerprint_tracks_workspace_badge_removal_when_worktree_detaches() {
    let mut active = repo_state(1, "/tmp/repo");
    active.worktrees = Loadable::Ready(vec![worktree("/tmp/repo-feature", "feature")]);

    let mut worktree_repo = repo_state(2, "/tmp/repo-feature");
    worktree_repo.head_branch = Loadable::Ready("feature".to_string());
    let mut state = state(vec![active, worktree_repo], 1);

    let initial = SidebarNotifyFingerprint::from_state(&state);

    state.repos[1].head_branch = Loadable::Ready("HEAD".to_string());
    state.repos[1].head_branch_rev = 1;
    state.repos[1].detached_head_commit = Some("deadbeef".to_string());

    assert_ne!(SidebarNotifyFingerprint::from_state(&state), initial);
}

#[test]
fn sidebar_notify_fingerprint_ignores_repo_tab_order() {
    let state_a = state(vec![repo_state(1, "/tmp/repo"), repo_state(2, "/tmp/repo-wt")], 1);
    let state_b = state(vec![repo_state(2, "/tmp/repo-wt"), repo_state(1, "/tmp/repo")], 1);

    assert_eq!(SidebarNotifyFingerprint::from_state(&state_a), SidebarNotifyFingerprint::from_state(&state_b));
}

#[test]
fn sidebar_notify_fingerprint_ignores_inactive_repo_changes() {
    let active = repo_state(1, "/tmp/active");
    let inactive = repo_state(2, "/tmp/inactive");
    let mut state = state(vec![active, inactive], 1);

    let initial = SidebarNotifyFingerprint::from_state(&state);

    state.repos[1].head_branch_rev = 1;
    state.repos[1].branches_rev = 1;
    state.repos[1].remote_branches_rev = 1;
    state.repos[1].worktrees_rev = 1;
    state.repos[1].submodules_rev = 1;
    state.repos[1].stashes_rev = 1;
    state.repos[1].branch_sidebar_rev = 1;

    assert_eq!(SidebarNotifyFingerprint::from_state(&state), initial);
}

#[test]
fn sidebar_notify_fingerprint_ignores_unrelated_open_repo_branch_changes() {
    let mut active = repo_state(1, "/tmp/active");
    active.worktrees = Loadable::Ready(vec![worktree("/tmp/active-feature", "feature")]);
    let related = repo_state(2, "/tmp/active-feature");
    let unrelated = repo_state(3, "/tmp/unrelated");
    let mut state = state(vec![active, related, unrelated], 1);

    let initial = SidebarNotifyFingerprint::from_state(&state);

    state.repos[2].head_branch = Loadable::Ready("other".to_string());
    state.repos[2].head_branch_rev = 1;

    assert_eq!(SidebarNotifyFingerprint::from_state(&state), initial);
}

#[test]
fn sidebar_notify_fingerprint_tracks_active_repo_branch_sidebar_changes() {
    let mut state = state(vec![repo_state(1, "/tmp/repo")], 1);

    let initial = SidebarNotifyFingerprint::from_state(&state);

    state.repos[0].head_branch_rev = 1;
    let after_head = SidebarNotifyFingerprint::from_state(&state);
    assert_ne!(after_head, initial);

    state.repos[0].branches_rev = 1;
    let after_branches = SidebarNotifyFingerprint::from_state(&state);
    assert_ne!(after_branches, after_head);

    state.repos[0].branch_sidebar_rev = 42;
    assert_ne!(SidebarNotifyFingerprint::from_state(&state), after_branches);
}

#[test]
fn sidebar_notify_fingerprint_tracks_file_browser_rev() {
    let mut state = state(vec![repo_state(1, "/tmp/repo")], 1);

    let initial = SidebarNotifyFingerprint::from_state(&state);

    state.repos[0].file_browser_rev = 1;
    let after_bump = SidebarNotifyFingerprint::from_state(&state);
    assert_ne!(after_bump, initial);

    state.repos[0].file_browser_rev = 99;
    assert_ne!(SidebarNotifyFingerprint::from_state(&state), after_bump);
}

#[test]
fn sidebar_notify_fingerprint_ignores_inactive_file_browser_rev() {
    let mut state = state(vec![repo_state(1, "/tmp/active"), repo_state(2, "/tmp/inactive")], 1);

    let initial = SidebarNotifyFingerprint::from_state(&state);

    // Only change the INACTIVE repo's file_browser_rev
    state.repos[1].file_browser_rev = 42;
    assert_eq!(SidebarNotifyFingerprint::from_state(&state), initial);
}

#[test]
fn fingerprint_inputs_sort_workdirs_and_badges() {
    let mut active = repo_state(1, "/tmp/b");
    active.worktrees = Loadable::Ready(vec![worktree("/tmp/z", "zeta"), worktree("/tmp/a", "alpha"), worktree("/tmp/none", "x")]);
    let mut z = repo_state(2, "/tmp/z");
    z.head_branch = Loadable::Ready("zeta".to_string());
    let mut a = repo_state(3, "/tmp/a");
    a.head_branch = Loadable::Ready("alpha".to_string());
    let st = state(vec![active, z, a], 1);
    assert_eq!(sorted_workdirs(&st.repos), vec!["/tmp/a", "/tmp/b", "/tmp/z"]);
    assert_eq!(
        sorted_badges(&st),
        vec![("alpha".to_string(), "/tmp/a".to_string()), ("zeta".to_string(), "/tmp/z".to_string())]
    );
    let fp = SidebarNotifyFingerprint::from_state(&st);
    assert_eq!(fp.open_repo_workdirs_count, 3);
    assert_eq!(fp.active_workspace_badges_count, 2);
    assert_eq!(fp.active_repo_id, Some(1));

    let none = AppState { repos: vec![repo_state(1, "/tmp/b")], active_repo: None };
    let fp = SidebarNotifyFingerprint::from_state(&none);
    assert_eq!(fp.repo_fingerprint, None);
    assert_eq!((fp.active_workspace_badges_count, fp.active_workspace_badges_hash, fp.file_browser_rev), (0, 0, 0));
}

#[test]
fn collapsed_directories_hide_their_subtree() {
    let entries = vec![
        entry("src", 0, true),
        entry("src/a.rs", 1, false),
        entry("src/view", 1, true),
        entry("src/view/b.rs", 2, false),
        entry("tests", 0, true),
        entry("tests/t.rs", 1, false),
        entry("README.md", 0, false),
    ];
    // Nothing expanded: only the top level shows.
    assert_eq!(file_browser_visible_mask(&entries, &Vec::new()), vec![0, 4, 6]);
    // `src` expanded, `src/view` collapsed.
    assert_eq!(file_browser_visible_mask(&entries, &vec![dir("src")]), vec![0, 1, 2, 4, 6]);
    // A collapsed parent hides an expanded child.
    assert_eq!(file_browser_visible_mask(&entries, &vec![dir("src/view")]), vec![0, 4, 6]);
    // Everything expanded.
    assert_eq!(
        file_browser_visible_mask(&entries, &vec![dir("src"), dir("src/view"), dir("tests")]),
        vec![0, 1, 2, 3, 4, 5, 6]
    );
    assert!(file_browser_visible_mask(&Vec::new(), &Vec::new()).is_empty());
}

#[test]
fn browsing_rows_mark_expanded_directories() {
    let fb = FileBrowserState {
        entries: Loadable::Ready(vec![entry("src", 0, true), entry("src/a.rs", 1, false), entry("docs", 0, true)]),
        search_query: String::new(),
        expanded_dirs: vec![dir("src")],
    };
    assert_eq!(
        compute_file_browser_visible_rows(&fb),
        vec![
            FileBrowserVisibleRow { entry_index: 0, depth: 0, is_directory: true, is_expanded: true },
            FileBrowserVisibleRow { entry_index: 1, depth: 1, is_directory: false, is_expanded: false },
            FileBrowserVisibleRow { entry_index: 2, depth: 0, is_directory: true, is_expanded: false },
        ]
    );
    let loading = FileBrowserState { entries: Loadable::Loading, search_query: String::new(), expanded_dirs: Vec::new() };
    assert!(compute_file_browser_visible_rows(&loading).is_empty());
}

#[test]
fn searching_shows_matches_and_their_directories() {
    let fb = FileBrowserState {
        entries: Loadable::Ready(vec![
            entry("src", 0, true),
            entry("src/view", 1, true),
            entry("src/view/Sidebar.rs", 2, false),
            entry("src/lib.rs", 1, false),
            entry("docs", 0, true),
        ]),
        search_query: "SIDEBAR".to_string(),
        expanded_dirs: Vec::new(),
    };
    assert_eq!(
        compute_file_browser_visible_rows(&fb),
        vec![
            FileBrowserVisibleRow { entry_index: 0, depth: 0, is_directory: true, is_expanded: true },
            FileBrowserVisibleRow { entry_index: 1, depth: 1, is_directory: true, is_expanded: true },
            FileBrowserVisibleRow { entry_index: 2, depth: 2, is_directory: false, is_expanded: false },
        ]
    );
    let entries = vec![entry("a", 0, true), entry("a/b.txt", 1, false)];
    let lowered = vec!["a".to_string(), "a/b.txt".to_string()];
    assert_eq!(file_browser_search_rows(&entries, &lowered, "zzz"), Vec::new());
    assert_eq!(file_browser_search_rows(&entries, &lowered, "a").len(), 2);
    assert_eq!(file_browser_search_rows(&entries, &lowered, "b.t").len(), 2);
}

#[test]
fn top_level_entries_always_show() {
    let entries = vec![
        entry("a", 0, true),
        entry("a/b", 1, true),
        entry("a/b/c.txt", 2, false),
        entry("d.txt", 0, false),
    ];
    let mask = file_browser_visible_mask(&entries, &vec![dir("a/b")]);
    assert!(mask.contains(&0) && mask.contains(&3));
    assert!(!mask.contains(&1));
    let all = file_browser_visible_mask(&entries, &vec![dir("a"), dir("a/b")]);
    assert_eq!(all, vec![0, 1, 2, 3]);
}

#[test]
fn file_browser_rows_are_cached_per_repository_and_revision() {
    let fb = FileBrowserState {
        entries: Loadable::Ready(vec![entry("a", 0, true), entry("a/b.txt", 1, false)]),
        search_query: String::new(),
        expanded_dirs: vec![dir("a")],
    };
    let mut cache = FileBrowserRowsCache::new();
    let first = cache.file_browser_visible_rows(1, 7, &fb);
    assert_eq!(first.len(), 2);
    // The same key answers from the cache, even for other entries.
    let other = FileBrowserState { expanded_dirs: Vec::new(), ..fb.clone() };
    assert_eq!(cache.file_browser_visible_rows(1, 7, &other), first);
    // Another repository at the same revision computes afresh.
    assert_eq!(cache.file_browser_visible_rows(2, 7, &other).len(), 1);
    assert_eq!(cache.entry.as_ref().map(|(key, _)| *key), Some((2, 7)));
}

#[test]
fn searching_matches_the_native_path_text() {
    let fb = FileBrowserState {
        entries: Loadable::Ready(vec![
            entry("src", 0, true),
            entry("src/view", 1, true),
            entry("src/view/a.rs", 2, false),
            entry("docs", 0, true),
        ]),
        search_query: format!("SRC{}VIEW{}", std::path::MAIN_SEPARATOR, std::path::MAIN_SEPARATOR),
        expanded_dirs: Vec::new(),
    };
    let rows = compute_file_browser_visible_rows(&fb);
    assert_eq!(rows.iter().map(|r| r.entry_index).collect::<Vec<_>>(), vec![0, 1, 2]);
}
