use gitcomet_view::diff_view::{
    conflict_save_stage_action, diff_body_plan, diff_key_of, full_submodule_hash_opt, inline_submodule_entries, short_submodule_hash,
    short_submodule_hash_opt, submodule_change_icon, submodule_icon_color,
    submodule_line_count_label, submodule_range_emphasized, submodule_range_hashes,
    submodule_range_label, submodule_status_badge, submodule_summary_actions, AfterStage, ConflictSaveStage, DiffBody, DiffPanelInputs, DiffArea,
    DiffKey, DiffSearchEffect, DiffSearchOptions, DiffSearchSurface, DiffShortcutAction,
    DiffShortcutContext, DiffTarget, DiffViewMode, FileChangeKind, InlineSubmoduleDiffSection,
    MainPaneView, Modifiers, ShortcutHandled, SubmoduleDiffRange, SubmoduleDiffRangeKind,
    SubmoduleDiffSummary, SubmoduleDiffSummaryMode, SubmoduleInnerChange, SubmoduleStatus,
    SubmoduleSummaryActions,
};
use gitcomet_view::theme::{ColorRole, ColorSpec};

fn change(path: &str, kind: FileChangeKind) -> SubmoduleInnerChange {
    SubmoduleInnerChange { path: path.to_string(), kind }
}

fn no_mods() -> Modifiers {
    Modifiers { control: false, alt: false, shift: false, platform: false, function: false }
}

fn ctrl() -> Modifiers {
    Modifiers { control: true, ..no_mods() }
}

fn alt() -> Modifiers {
    Modifiers { alt: true, ..no_mods() }
}

fn context() -> DiffShortcutContext {
    DiffShortcutContext {
        platform_key_is_secondary: false,
        inline_submodule_diff_active: false,
        active_repo_id: Some(9),
        diff_target: Some(DiffTarget::WorkingTree { path: "src/lib.rs".to_string(), area: DiffArea::Unstaged }),
        status_ready: true,
        next_path_in_section: Some("src/main.rs".to_string()),
        raw_input_focused: false,
        search_input_focused: false,
        conflict_input_focused: false,
        external_editor_configured: true,
        file_preview_active: false,
        conflict_resolver_active: false,
        markdown_preview_active: false,
        conflict_preview_active: false,
        has_active_conflict_target: false,
        annotate_enabled: false,
        diff_text_has_selection: false,
        conflict_count: 0,
        quick_pick_choice: None,
    }
}

#[test]
fn submodule_hashes_are_shortened_to_twelve_characters() {
    assert_eq!(short_submodule_hash("0123456789abcdef0123"), "0123456789ab");
    assert_eq!(short_submodule_hash("abc"), "abc");
    assert_eq!(short_submodule_hash_opt(None), "missing");
    assert_eq!(short_submodule_hash_opt(Some("0123456789abcdef")), "0123456789ab");
    assert_eq!(full_submodule_hash_opt(Some("0123456789abcdef")), "0123456789abcdef");
    assert_eq!(full_submodule_hash_opt(None), "missing");
    assert_eq!(submodule_range_hashes(Some("0123456789abcdef"), None, true), "0123456789ab -> missing");
    assert_eq!(submodule_range_hashes(Some("0123456789abcdef"), Some("ff"), false), "0123456789abcdef -> ff");
}

#[test]
fn submodule_range_labels() {
    assert_eq!(submodule_range_label(SubmoduleDiffRangeKind::StagedPointer), "Committed -> Index");
    assert_eq!(submodule_range_label(SubmoduleDiffRangeKind::UnstagedPointer), "Index -> Checked out");
    assert_eq!(submodule_range_label(SubmoduleDiffRangeKind::CommitHistory), "Parent -> Commit");
    assert!(submodule_range_emphasized(SubmoduleDiffRangeKind::StagedPointer, Some(DiffArea::Staged)));
    assert!(!submodule_range_emphasized(SubmoduleDiffRangeKind::StagedPointer, Some(DiffArea::Unstaged)));
    assert!(submodule_range_emphasized(SubmoduleDiffRangeKind::CommitHistory, None));
}

#[test]
fn inline_submodule_entries_list_ranges_then_live_changes() {
    let summary = SubmoduleDiffSummary {
        ranges: vec![
            SubmoduleDiffRange {
                kind: SubmoduleDiffRangeKind::StagedPointer,
                from: Some("aaa".to_string()),
                to: Some("bbb".to_string()),
                changes: vec![change("a.txt", FileChangeKind::Modified), change("b.txt", FileChangeKind::Added)],
            },
            SubmoduleDiffRange {
                kind: SubmoduleDiffRangeKind::UnstagedPointer,
                from: None,
                to: Some("ccc".to_string()),
                changes: vec![change("skipped.txt", FileChangeKind::Deleted)],
            },
        ],
        live_staged: vec![change("c.txt", FileChangeKind::Renamed)],
        live_unstaged: vec![change("d.txt", FileChangeKind::Untracked)],
    };
    let entries = inline_submodule_entries(&summary);
    let paths: Vec<&str> = entries.iter().map(|e| e.path.as_str()).collect();
    assert_eq!(paths, vec!["a.txt", "b.txt", "c.txt", "d.txt"]);
    match &entries[1].target {
        DiffTarget::CommitRange { from_commit_id, to_commit_id, path } => {
            assert_eq!((from_commit_id.as_str(), to_commit_id.as_str()), ("aaa", "bbb"));
            assert_eq!(path.as_deref(), Some("b.txt"));
        },
        other => panic!("unexpected {other:?}"),
    }
    assert_eq!(entries[1].section, InlineSubmoduleDiffSection::Range(SubmoduleDiffRangeKind::StagedPointer));
    assert!(matches!(&entries[2].target, DiffTarget::WorkingTree { area: DiffArea::Staged, .. }));
    assert_eq!(entries[2].section, InlineSubmoduleDiffSection::LiveStaged);
    assert_eq!(entries[3].section, InlineSubmoduleDiffSection::LiveUnstaged);
    assert_eq!(entries[3].kind, FileChangeKind::Untracked);
}

#[test]
fn changing_search_options_searches_again() {
    let mut view = MainPaneView::new();
    view.diff_search_query = "needle".to_string();
    let same = view.set_diff_search_options(DiffSearchOptions::default());
    assert_eq!(same.len(), 2);
    assert!(matches!(same[0], DiffSearchEffect::FocusSearchInput));
    let next = DiffSearchOptions { match_case: true, ..Default::default() };
    let effects = view.set_diff_search_options(next);
    assert_eq!(view.diff_search_options, next);
    match &effects[0] {
        DiffSearchEffect::InvalidateQueryOverlayCache { query, options } => {
            assert_eq!(query, "needle");
            assert_eq!(*options, next);
        },
        other => panic!("unexpected {other:?}"),
    }
    assert!(matches!(effects[4], DiffSearchEffect::RecomputeMatchesAndScrollToFirst));
    assert_eq!(effects.len(), 7);
    assert_eq!(view.refresh_diff_search_after_option_change().len(), 5);
}

#[test]
fn opening_and_closing_the_search() {
    let mut view = MainPaneView::new();
    let surface = DiffSearchSurface { markdown_preview_active: true, wants_file_diff: true, conflict_rendered_preview_active: false };
    let effects = view.activate_diff_search(surface);
    assert!(view.diff_search_active);
    assert!(matches!(effects[0], DiffSearchEffect::ShowMarkdownSource));
    assert!(matches!(effects[1], DiffSearchEffect::EnsureFileDiffCache));
    assert!(matches!(effects[6], DiffSearchEffect::RecomputeMatchesAndScrollToFirst));
    let again = view.activate_diff_search(DiffSearchSurface {
        markdown_preview_active: false,
        wants_file_diff: false,
        conflict_rendered_preview_active: true,
    });
    assert!(matches!(again[0], DiffSearchEffect::ShowConflictText));
    assert!(matches!(again[5], DiffSearchEffect::RecomputeMatches));

    view.diff_search_query = "x".to_string();
    view.diff_search_matches = vec![1, 2];
    view.diff_search_match_ix = Some(1);
    let closed = view.deactivate_diff_search();
    assert!(!view.diff_search_active);
    assert!(view.diff_search_query.is_empty());
    assert!(view.diff_search_matches.is_empty());
    assert_eq!(view.diff_search_match_ix, None);
    assert!(matches!(closed.last(), Some(DiffSearchEffect::FocusDiffPanel)));
}

#[test]
fn the_search_shortcut_needs_a_diff_target() {
    let mut view = MainPaneView::new();
    let surface = DiffSearchSurface { markdown_preview_active: false, wants_file_diff: false, conflict_rendered_preview_active: false };
    assert!(view.open_search_for_active_view(false, surface).is_none());
    assert!(!view.diff_search_active);
    let effects = view.open_search_for_active_view(true, surface).unwrap();
    assert!(view.diff_search_active);
    assert_eq!(effects.len(), 7);
    assert!(matches!(effects[4], DiffSearchEffect::RecomputeMatchesAndScrollToFirst));
    assert!(matches!(effects[6], DiffSearchEffect::SelectAllSearchText));
}

#[test]
fn search_match_labels() {
    let mut view = MainPaneView::new();
    assert_eq!(view.diff_search_match_label(), ("Type to search".to_string(), ColorRole::TextMuted));
    view.diff_search_query = "a(".to_string();
    view.diff_search_regex_error = Some("unclosed group".to_string());
    assert_eq!(view.diff_search_match_label(), ("Invalid regex".to_string(), ColorRole::Danger));
    view.diff_search_regex_error = None;
    assert_eq!(view.diff_search_match_label().0, "No matches");
    view.diff_search_matches = vec![3, 8, 13];
    assert_eq!(view.diff_search_match_label().0, "1/3");
    view.diff_search_match_ix = Some(1);
    assert_eq!(view.diff_search_match_label().0, "2/3");
    view.diff_search_match_ix = Some(7);
    assert_eq!(view.diff_search_match_label().0, "3/3");
}

#[test]
fn key_names_map_to_keys() {
    assert_eq!(diff_key_of("escape"), DiffKey::Escape);
    assert_eq!(diff_key_of("f7"), DiffKey::F7);
    assert_eq!(diff_key_of("s"), DiffKey::S);
    assert_eq!(diff_key_of("enter"), DiffKey::Other);
    assert_eq!(diff_key_of(""), DiffKey::Other);
}

#[test]
fn escape_closes_the_search_first() {
    let mut view = MainPaneView::new();
    view.diff_search_active = true;
    let d = view.handle_diff_shortcut("escape", no_mods(), &context());
    assert!(matches!(d.action, DiffShortcutAction::DeactivateSearch));
    assert_eq!(d.handled, ShortcutHandled::Yes);

    let view = MainPaneView::new();
    let mut ctx = context();
    ctx.inline_submodule_diff_active = true;
    let d = view.handle_diff_shortcut("escape", no_mods(), &ctx);
    assert!(matches!(d.action, DiffShortcutAction::CloseInlineSubmoduleDiff { repo_id: 9 }));
    let d = view.handle_diff_shortcut("escape", no_mods(), &context());
    assert!(matches!(d.action, DiffShortcutAction::ClearSelection { repo_id: 9 }));
    let mut none = context();
    none.active_repo_id = None;
    let d = view.handle_diff_shortcut("escape", no_mods(), &none);
    assert!(matches!(d.action, DiffShortcutAction::Nothing));
    assert_eq!(d.handled, ShortcutHandled::No);
}

#[test]
fn space_stages_and_selects_the_next_file() {
    let view = MainPaneView::new();
    let d = view.handle_diff_shortcut("space", no_mods(), &context());
    match d.action {
        DiffShortcutAction::ToggleStaged { repo_id, path, area, then } => {
            assert_eq!((repo_id, path.as_str(), area), (9, "src/lib.rs", DiffArea::Unstaged));
            assert!(matches!(then, AfterStage::SelectNext(ref p) if p == "src/main.rs"));
        },
        other => panic!("unexpected {other:?}"),
    }
    let mut not_ready = context();
    not_ready.status_ready = false;
    let d = view.handle_diff_shortcut("space", no_mods(), &not_ready);
    assert!(matches!(d.action, DiffShortcutAction::ToggleStaged { then: AfterStage::Nothing, .. }));
    let mut focused = context();
    focused.search_input_focused = true;
    assert!(matches!(view.handle_diff_shortcut("space", no_mods(), &focused).action, DiffShortcutAction::Nothing));
}

#[test]
fn control_keys_act_on_the_shown_file() {
    let view = MainPaneView::new();
    assert!(matches!(view.handle_diff_shortcut("s", ctrl(), &context()).action, DiffShortcutAction::ToggleStaged { .. }));
    // Unstaging needs a staged file.
    assert!(matches!(view.handle_diff_shortcut("u", ctrl(), &context()).action, DiffShortcutAction::Nothing));
    assert!(matches!(
        view.handle_diff_shortcut("d", ctrl(), &context()).action,
        DiffShortcutAction::ConfirmDiscard { repo_id: 9, area: DiffArea::Unstaged, .. }
    ));
    assert!(matches!(view.handle_diff_shortcut("h", ctrl(), &context()).action, DiffShortcutAction::ShowFileHistory { .. }));
    assert!(matches!(view.handle_diff_shortcut("e", ctrl(), &context()).action, DiffShortcutAction::OpenInEditor { .. }));
    let shift_c = Modifiers { shift: true, ..ctrl() };
    assert!(matches!(view.handle_diff_shortcut("c", shift_c, &context()).action, DiffShortcutAction::CopyPath { .. }));
    let mut commit = context();
    commit.diff_target = Some(DiffTarget::Commit { commit_id: "abc".to_string(), path: Some("x.rs".to_string()) });
    match view.handle_diff_shortcut("e", ctrl(), &commit).action {
        DiffShortcutAction::OpenInEditor { path } => assert_eq!(path, "x.rs"),
        other => panic!("unexpected {other:?}"),
    }
    let d = view.handle_diff_shortcut("f", ctrl(), &context());
    assert!(matches!(d.action, DiffShortcutAction::OpenSearch));
    assert_eq!(d.handled, ShortcutHandled::IfActionHandled);
    let mut mac = context();
    mac.platform_key_is_secondary = true;
    assert!(matches!(view.handle_diff_shortcut("f", ctrl(), &mac).action, DiffShortcutAction::Nothing));
}

#[test]
fn function_keys_navigate() {
    let mut view = MainPaneView::new();
    let d = view.handle_diff_shortcut("f1", no_mods(), &context());
    assert!(matches!(d.action, DiffShortcutAction::SelectAdjacentFile { repo_id: 9, direction: -1, else_pick_conflict: None }));
    assert!(matches!(view.handle_diff_shortcut("f3", no_mods(), &context()).action, DiffShortcutAction::NavigateMatchOrChange { forward: true }));
    let shift = Modifiers { shift: true, ..no_mods() };
    assert!(matches!(view.handle_diff_shortcut("f7", shift, &context()).action, DiffShortcutAction::NavigateChange { forward: false }));
    view.diff_search_active = true;
    assert!(matches!(view.handle_diff_shortcut("f2", no_mods(), &context()).action, DiffShortcutAction::SearchPrevMatch));
}

#[test]
fn alt_keys_switch_views() {
    let view = MainPaneView::new();
    assert!(matches!(
        view.handle_diff_shortcut("i", alt(), &context()).action,
        DiffShortcutAction::SetDiffViewMode { mode: DiffViewMode::Inline }
    ));
    let mut conflict = context();
    conflict.has_active_conflict_target = true;
    assert!(matches!(
        view.handle_diff_shortcut("i", alt(), &conflict).action,
        DiffShortcutAction::SetDiffViewMode { mode: DiffViewMode::Split }
    ));
    assert!(matches!(view.handle_diff_shortcut("b", alt(), &context()).action, DiffShortcutAction::SetAnnotate { enabled: true }));
    let d = view.handle_diff_shortcut("up", alt(), &context());
    assert!(matches!(d.action, DiffShortcutAction::NavigateChange { forward: false }));
    assert_eq!(d.handled, ShortcutHandled::IfActionHandled);
    assert!(matches!(view.handle_diff_shortcut("left", alt(), &context()).action, DiffShortcutAction::GlobalNavBack { repo_id: 9 }));
    let mut md = context();
    md.markdown_preview_active = true;
    assert!(matches!(view.handle_diff_shortcut("w", alt(), &md).action, DiffShortcutAction::Nothing));
}

#[test]
fn file_previews_only_copy_and_select() {
    let view = MainPaneView::new();
    let mut preview = context();
    preview.file_preview_active = true;
    preview.diff_text_has_selection = true;
    preview.diff_target = None;
    assert!(matches!(view.handle_diff_shortcut("c", ctrl(), &preview).action, DiffShortcutAction::CopySelection));
    assert!(matches!(view.handle_diff_shortcut("a", ctrl(), &preview).action, DiffShortcutAction::SelectAll));
    assert!(matches!(view.handle_diff_shortcut("w", alt(), &preview).action, DiffShortcutAction::Nothing));
}

#[test]
fn conflict_resolver_picks_by_key() {
    let view = MainPaneView::new();
    let mut ctx = context();
    ctx.conflict_resolver_active = true;
    ctx.conflict_count = 2;
    ctx.quick_pick_choice = Some(1);
    assert!(matches!(view.handle_diff_shortcut("x", no_mods(), &ctx).action, DiffShortcutAction::PickConflict { choice: 1 }));
    ctx.conflict_count = 0;
    assert!(matches!(view.handle_diff_shortcut("x", no_mods(), &ctx).action, DiffShortcutAction::Nothing));
}

#[test]
fn submodule_summary_actions_follow_status() {
    let worktree = SubmoduleDiffSummaryMode::Worktree;
    assert_eq!(
        submodule_summary_actions(worktree, Some(SubmoduleStatus::NotInitialized), None, true),
        SubmoduleSummaryActions { can_open: false, can_change_pointer: false, show_load: true }
    );
    assert_eq!(
        submodule_summary_actions(worktree, None, Some(SubmoduleStatus::UpToDate), false),
        SubmoduleSummaryActions { can_open: true, can_change_pointer: true, show_load: false }
    );
    assert_eq!(
        submodule_summary_actions(worktree, None, None, false),
        SubmoduleSummaryActions { can_open: false, can_change_pointer: false, show_load: true }
    );
    assert_eq!(
        submodule_summary_actions(SubmoduleDiffSummaryMode::Commit, Some(SubmoduleStatus::HeadMismatch), None, false),
        SubmoduleSummaryActions { can_open: true, can_change_pointer: false, show_load: false }
    );
    assert_eq!(
        submodule_summary_actions(worktree, Some(SubmoduleStatus::MergeConflict), None, true),
        SubmoduleSummaryActions { can_open: false, can_change_pointer: false, show_load: false }
    );
}

#[test]
fn submodule_badges_icons_and_counts() {
    assert_eq!(submodule_status_badge(SubmoduleStatus::UpToDate, true), ("Loaded", ColorSpec { role: ColorRole::Success, alpha_percent: None }));
    assert_eq!(
        submodule_status_badge(SubmoduleStatus::NotInitialized, false),
        ("Not loaded", ColorSpec { role: ColorRole::TextMuted, alpha_percent: Some(94) })
    );
    assert_eq!(submodule_status_badge(SubmoduleStatus::Unknown('?'), true).0, "Unknown");
    assert_eq!(submodule_icon_color(None, true), ColorSpec { role: ColorRole::Accent, alpha_percent: None });
    assert_eq!(
        submodule_icon_color(Some(SubmoduleStatus::NotInitialized), true),
        ColorSpec { role: ColorRole::TextMuted, alpha_percent: Some(82) }
    );
    assert_eq!(submodule_change_icon(FileChangeKind::Renamed), ("icons/swap.svg", ColorRole::Accent));
    assert_eq!(submodule_change_icon(FileChangeKind::Untracked), ("icons/plus.svg", ColorRole::Success));
    assert_eq!(submodule_line_count_label(Some(12), true), "+12");
    assert_eq!(submodule_line_count_label(Some(0), false), "-0");
    assert_eq!(submodule_line_count_label(None, true), "\u{2014}");
}

#[test]
fn save_and_stage_asks_first_only_when_the_check_says_so() {
    match conflict_save_stage_action(3, "a.txt".to_string(), true, true, 2) {
        ConflictSaveStage::Confirm { repo_id, path, has_conflict_markers, unresolved_blocks } => {
            assert_eq!((repo_id, path.as_str(), has_conflict_markers, unresolved_blocks), (3, "a.txt", true, 2));
        },
        other => panic!("unexpected {other:?}"),
    }
    match conflict_save_stage_action(3, "a.txt".to_string(), false, false, 0) {
        ConflictSaveStage::SaveAndStage { repo_id, path } => assert_eq!((repo_id, path.as_str()), (3, "a.txt")),
        other => panic!("unexpected {other:?}"),
    }
}

#[test]
fn the_diff_panel_picks_its_body_in_order() {
    let none = DiffPanelInputs {
        has_submodule_summary: false,
        inline_submodule_diff_active: false,
        untracked_directory_notice: false,
        file_preview_active: false,
        worktree_preview_loading: false,
        conflict_target: false,
        conflict_strategy: false,
        wants_file_or_collapsed_diff: false,
    };
    assert_eq!(diff_body_plan(none).body, DiffBody::Diff);
    assert_eq!(diff_body_plan(DiffPanelInputs { wants_file_or_collapsed_diff: true, ..none }).body, DiffBody::FileDiff);
    let conflict = DiffPanelInputs { conflict_target: true, ..none };
    assert_eq!(diff_body_plan(conflict).body, DiffBody::ConflictCompare);
    assert_eq!(diff_body_plan(DiffPanelInputs { conflict_strategy: true, ..conflict }).body, DiffBody::ConflictResolver);
    let preview = diff_body_plan(DiffPanelInputs { file_preview_active: true, worktree_preview_loading: true, ..conflict });
    assert_eq!(preview.body, DiffBody::FilePreview);
    assert!(preview.load_file_preview && !preview.reset_worktree_preview);
    let notice = diff_body_plan(DiffPanelInputs {
        untracked_directory_notice: true,
        file_preview_active: true,
        worktree_preview_loading: true,
        ..none
    });
    assert_eq!(notice.body, DiffBody::UntrackedDirectoryNotice);
    assert!(!notice.load_file_preview && notice.reset_worktree_preview);
    let summary = diff_body_plan(DiffPanelInputs { has_submodule_summary: true, untracked_directory_notice: true, ..none });
    assert_eq!(summary.body, DiffBody::SubmoduleSummary);
    let inline = diff_body_plan(DiffPanelInputs {
        has_submodule_summary: true,
        inline_submodule_diff_active: true,
        conflict_target: true,
        ..none
    });
    assert_eq!(inline.body, DiffBody::Diff);
}
