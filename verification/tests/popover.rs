use gitcomet_view::datetime::{DateTimeFormat, Timezone};
use gitcomet_view::popover::{
    choose_popover_anchor_corner, clone_repo_name_from_url, context_menu_max_panel_height,
    context_menu_vertical_corner, popover_anchor_corner, popover_anchor_point,
    popover_is_confirm_dialog, popover_is_context_menu, popover_offset_y,
    popover_preferred_anchor_width, popover_width_spec, Anchor, BranchPickerPurpose,
    BranchPickerEscape, BranchPickerSelection, DateTimeSettings, LoadState, PopoverAnchor, PopoverEffect, PopoverHost, PopoverKind,
    PopoverWidthSpec, PromptDismissal, PromptInput, PromptMsg, RemotePopoverKind, RepoLoadStatus,
    RepoPopoverKind, WorktreePopoverKind,
};

fn settings() -> DateTimeSettings {
    DateTimeSettings { format: DateTimeFormat::YmdHm, timezone: Timezone::Utc, show_timezone: true }
}

fn repo(id: u64, tags: LoadState, remote_tags: LoadState, messages: LoadState, head: Option<&str>) -> RepoLoadStatus {
    RepoLoadStatus {
        id,
        tags,
        remote_tags,
        recent_commit_messages: messages,
        head_branch: head.map(|h| h.to_string()),
    }
}

#[test]
fn context_menus_are_never_confirm_dialogs() {
    let kinds = vec![
        PopoverKind::PullPicker,
        PopoverKind::CommitMenu { repo_id: 1 },
        PopoverKind::StashMenu { repo_id: 1 },
        PopoverKind::ForcePushConfirm { repo_id: 1 },
        PopoverKind::DiscardChangesConfirm { repo_id: 1 },
        PopoverKind::Repo { repo_id: 1, kind: RepoPopoverKind::Remote(RemotePopoverKind::Menu) },
        PopoverKind::Repo { repo_id: 1, kind: RepoPopoverKind::Remote(RemotePopoverKind::RemoveConfirm) },
        PopoverKind::CloneRepo,
    ];
    for kind in &kinds {
        assert!(!(popover_is_context_menu(kind) && popover_is_confirm_dialog(kind)));
    }
    assert!(popover_is_context_menu(&PopoverKind::PullPicker));
    assert!(popover_is_context_menu(&PopoverKind::Repo {
        repo_id: 1,
        kind: RepoPopoverKind::Worktree(WorktreePopoverKind::SectionMenu)
    }));
    assert!(!popover_is_context_menu(&PopoverKind::CloneRepo));
    assert!(popover_is_confirm_dialog(&PopoverKind::ForcePushConfirm { repo_id: 1 }));
    assert!(popover_is_confirm_dialog(&PopoverKind::Repo {
        repo_id: 1,
        kind: RepoPopoverKind::Remote(RemotePopoverKind::RemoveConfirm)
    }));
    assert!(!popover_is_confirm_dialog(&PopoverKind::AppMenu));
}

#[test]
fn popovers_anchor_by_kind() {
    assert_eq!(popover_anchor_corner(&PopoverKind::PushPicker), Anchor::TopRight);
    assert_eq!(popover_anchor_corner(&PopoverKind::CloneRepo), Anchor::TopRight);
    assert_eq!(popover_anchor_corner(&PopoverKind::RepoPicker), Anchor::TopLeft);
    assert_eq!(popover_anchor_corner(&PopoverKind::CommitMenu { repo_id: 2 }), Anchor::TopLeft);
}

#[test]
fn popover_widths_follow_their_kind() {
    assert_eq!(popover_width_spec(&PopoverKind::RepoPicker), Some(PopoverWidthSpec::range(420, 420, 820)));
    assert_eq!(popover_width_spec(&PopoverKind::AppMenu), Some(PopoverWidthSpec::fixed(250)));
    assert_eq!(popover_width_spec(&PopoverKind::CommitMenu { repo_id: 1 }), Some(PopoverWidthSpec::range(260, 180, 380)));
    assert_eq!(popover_preferred_anchor_width(&PopoverKind::DiffActionMenu), 240);
    let spec = PopoverWidthSpec::range(300, 200, 400);
    assert_eq!((spec.preferred_px(), spec.min_px(), spec.max_px()), (300, 200, 400));
    let fixed = PopoverWidthSpec::fixed(320);
    assert_eq!((fixed.preferred_px(), fixed.min_px(), fixed.max_px()), (320, 320, 320));
}

#[test]
fn anchor_corner_flips_only_towards_more_room() {
    // Fits on the right: stays.
    assert_eq!(choose_popover_anchor_corner(Anchor::TopLeft, 100, 500, 300), Anchor::TopLeft);
    // Does not fit on the right, more room on the left: flips.
    assert_eq!(choose_popover_anchor_corner(Anchor::TopLeft, 500, 100, 300), Anchor::TopRight);
    // Does not fit on the right, but the left has no more room: stays.
    assert_eq!(choose_popover_anchor_corner(Anchor::BottomLeft, 100, 100, 300), Anchor::BottomLeft);
    assert_eq!(choose_popover_anchor_corner(Anchor::BottomRight, 50, 400, 300), Anchor::BottomLeft);
    // Choosing again changes nothing.
    let once = choose_popover_anchor_corner(Anchor::TopLeft, 500, 100, 300);
    assert_eq!(choose_popover_anchor_corner(once, 500, 100, 300), once);
}

#[test]
fn context_menus_flip_upwards_when_below_is_too_small() {
    assert_eq!(context_menu_vertical_corner(Anchor::TopLeft, 80, 400, 120), Anchor::BottomLeft);
    assert_eq!(context_menu_vertical_corner(Anchor::TopRight, 80, 400, 120), Anchor::BottomRight);
    assert_eq!(context_menu_vertical_corner(Anchor::TopLeft, 200, 400, 120), Anchor::TopLeft);
    assert_eq!(context_menu_vertical_corner(Anchor::TopLeft, 80, 60, 120), Anchor::TopLeft);
    assert_eq!(popover_offset_y(Anchor::BottomLeft, 6), -6);
    assert_eq!(popover_offset_y(Anchor::TopRight, 6), 6);
}

#[test]
fn context_menu_panel_height_is_room_less_chrome() {
    // Opening downwards from y=100 with a gap of 4 in a window 800 high with margin 8.
    assert_eq!(context_menu_max_panel_height(Anchor::TopLeft, 100, 4, 800, 8, 20), 800 - 8 - 104 - 20);
    // Opening upwards from y=100.
    assert_eq!(context_menu_max_panel_height(Anchor::BottomLeft, 100, 4, 800, 8, 20), 96 - 8 - 20);
    // Never negative.
    assert_eq!(context_menu_max_panel_height(Anchor::BottomLeft, 10, 4, 800, 8, 20), 0);
}

#[test]
fn bounds_anchors_offer_the_outward_corner() {
    let bounds = PopoverAnchor::Bounds { x: 10, y: 20, w: 100, h: 30 };
    assert_eq!(popover_anchor_point(bounds, Anchor::TopLeft), (10, 50));
    assert_eq!(popover_anchor_point(bounds, Anchor::TopRight), (110, 50));
    assert_eq!(popover_anchor_point(bounds, Anchor::BottomLeft), (10, 20));
    assert_eq!(popover_anchor_point(bounds, Anchor::BottomRight), (110, 20));
    assert_eq!(popover_anchor_point(PopoverAnchor::Point { x: -3, y: 7 }, Anchor::TopRight), (-3, 7));
    assert_eq!(popover_anchor_point(PopoverAnchor::Centered, Anchor::TopLeft), (0, 0));
}

#[test]
fn clone_repo_name_takes_the_last_segment_without_git() {
    assert_eq!(clone_repo_name_from_url("https://github.com/user/repo.git"), "repo");
    assert_eq!(clone_repo_name_from_url("git@github.com:user/project.git/"), "project");
    assert_eq!(clone_repo_name_from_url("  https://example.com/a/b  "), "b");
    assert_eq!(clone_repo_name_from_url("C:\\work\\proj\\"), "proj");
    assert_eq!(clone_repo_name_from_url(""), "repo");
    assert_eq!(clone_repo_name_from_url("https://example.com/.git"), "repo");
    assert_eq!(clone_repo_name_from_url("plain"), "plain");
}

#[test]
fn clone_names_ignore_surrounding_whitespace_and_trailing_separators() {
    for url in ["  https://host/team/app.git  ", "git@host:app.git", " ", "x/ name .git "] {
        let name = clone_repo_name_from_url(url);
        let t = url.trim();
        assert_eq!(clone_repo_name_from_url(t), name);
        assert_eq!(clone_repo_name_from_url(&format!("{t}/")), name);
        assert_eq!(clone_repo_name_from_url(&format!("{t}\\")), name);
        assert_eq!(name.trim(), name);
    }
}

#[test]
fn a_refused_submit_changes_nothing() {
    let mut host = PopoverHost::new(false, false, false, false, settings());
    host.open_popover(PopoverKind::CloneRepo, PopoverAnchor::Centered, &Vec::new(), false, None, 7);
    assert!(host.submit_clone_repo("https://host/app.git", "   ").is_none());
    assert!(host.is_open());
    assert_eq!(host.popover_anchor, Some(PopoverAnchor::Centered));
    assert_eq!(host.notify_fingerprint, 7);
    assert!(host.submit_clone_repo("https://host/app.git", "/tmp").is_some());
    assert_eq!(host.popover_anchor, None);
    assert_eq!(host.notify_fingerprint, 0);
}

#[test]
fn opening_a_tag_menu_loads_missing_tags() {
    let repos = vec![repo(7, LoadState::NotLoaded, LoadState::Ready, LoadState::Ready, None)];
    let mut host = PopoverHost::new(false, false, true, true, settings());
    let effects = host.open_popover(
        PopoverKind::TagMenu { repo_id: 7 },
        PopoverAnchor::Point { x: 1, y: 2 },
        &repos,
        false,
        Some(1),
        42,
    );
    assert!(matches!(effects[0], PopoverEffect::ClearTruncatedTooltip));
    assert!(matches!(effects[1], PopoverEffect::LoadTags { repo_id: 7 }));
    assert!(matches!(effects[2], PopoverEffect::FocusContextMenu));
    assert!(matches!(effects[3], PopoverEffect::SyncTitlebarAppMenu { open: false }));
    assert_eq!(effects.len(), 4);
    assert!(host.is_open());
    assert_eq!(host.context_menu_selected_ix, Some(1));
    assert_eq!(host.notify_fingerprint, 42);
}

#[test]
fn opening_a_prompt_resets_and_focuses_its_input() {
    let repos = vec![repo(3, LoadState::Ready, LoadState::Ready, LoadState::Ready, Some("main"))];
    let mut host = PopoverHost::new(false, false, false, false, settings());
    let effects = host.open_popover(
        PopoverKind::PushSetUpstreamPrompt { repo_id: 3 },
        PopoverAnchor::Centered,
        &repos,
        false,
        None,
        0,
    );
    assert!(matches!(effects[0], PopoverEffect::ClearTruncatedTooltip));
    assert!(matches!(effects[1], PopoverEffect::ClearActiveContextMenuInvoker));
    match &effects[2] {
        PopoverEffect::ResetInput { input, text, clear_key_presses } => {
            assert_eq!(*input, PromptInput::PushUpstreamBranch);
            assert_eq!(text, "main");
            assert!(!clear_key_presses);
        },
        other => panic!("unexpected {other:?}"),
    }
    assert_eq!(host.context_menu_selected_ix, None);
    assert!(host.prompt_tab_navigation_enabled());
}

#[test]
fn opening_the_app_menu_tells_the_title_bar() {
    let mut host = PopoverHost::new(false, false, false, false, settings());
    let effects = host.open_popover(PopoverKind::AppMenu, PopoverAnchor::Centered, &Vec::new(), false, None, 0);
    assert!(matches!(effects.last(), Some(PopoverEffect::SyncTitlebarAppMenu { open: true })));
}

#[test]
fn dismissing_prompts_by_kind() {
    let mut host = PopoverHost::new(false, false, false, false, settings());
    host.open_popover(PopoverKind::ForcePushConfirm { repo_id: 1 }, PopoverAnchor::Centered, &Vec::new(), false, None, 0);
    assert_eq!(host.dismiss_prompt_popover(), PromptDismissal::Closed);
    assert!(!host.is_open());

    host.open_popover(PopoverKind::StashPrompt, PopoverAnchor::Centered, &Vec::new(), false, None, 0);
    assert_eq!(host.dismiss_prompt_popover(), PromptDismissal::DismissedInline);
    assert!(!host.is_open());

    host.open_popover(PopoverKind::AppMenu, PopoverAnchor::Centered, &Vec::new(), false, None, 0);
    assert_eq!(host.dismiss_prompt_popover(), PromptDismissal::Ignored);
    assert!(host.is_open());
}

#[test]
fn the_dismiss_key_reaches_only_tab_navigable_prompts() {
    let mut host = PopoverHost::new(false, false, false, false, settings());
    host.open_popover(PopoverKind::StashPickerPrompt { repo_id: 1 }, PopoverAnchor::Centered, &Vec::new(), false, None, 0);
    assert_eq!(host.dismiss_prompt(), None);
    assert!(host.is_open());

    host.open_popover(PopoverKind::CommitPrompt { repo_id: 1 }, PopoverAnchor::Centered, &Vec::new(), false, None, 0);
    assert_eq!(host.dismiss_prompt(), Some(PromptDismissal::DismissedInline));
    assert!(!host.is_open());

    host.open_popover(PopoverKind::CloneRepo, PopoverAnchor::Centered, &Vec::new(), false, None, 0);
    assert_eq!(host.dismiss_prompt(), Some(PromptDismissal::Closed));
    assert!(!host.is_open());
    assert_eq!(host.dismiss_prompt(), None);
}

#[test]
fn prompts_submit_only_with_text() {
    let mut host = PopoverHost::new(false, false, false, false, settings());
    assert!(!host.can_submit_create_tag("v1.0"));
    host.open_popover(
        PopoverKind::CreateTagPrompt { repo_id: 1, target: "abc".to_string() },
        PopoverAnchor::Centered,
        &Vec::new(),
        false,
        None,
        0,
    );
    assert!(!host.can_submit_create_tag("   "));
    assert!(host.can_submit_create_tag(" v1.0 "));
    host.open_popover(PopoverKind::CloneRepo, PopoverAnchor::Centered, &Vec::new(), false, None, 0);
    assert!(!host.can_submit_clone_repo("https://x/y", "  "));
    assert!(host.can_submit_clone_repo("https://x/y", "/tmp"));
    assert!(!PopoverHost::can_submit_stash(None, "msg"));
    assert!(!PopoverHost::can_submit_stash(Some(1), "\t\n"));
    assert!(PopoverHost::can_submit_stash(Some(1), "msg"));
    assert!(!PopoverHost::can_submit_commit_prompt(None, "msg"));
    assert!(!PopoverHost::can_submit_commit_prompt(Some(1), "  "));
    assert!(PopoverHost::can_submit_commit_prompt(Some(1), "fix"));
}

#[test]
fn branch_picker_selection_checks_out_or_deletes() {
    let mut host = PopoverHost::new(false, false, false, false, settings());
    host.open_popover(
        PopoverKind::BranchPicker { purpose: BranchPickerPurpose::Checkout },
        PopoverAnchor::Point { x: 0, y: 0 },
        &Vec::new(),
        false,
        None,
        0,
    );
    match host.handle_inline_branch_picker_select("feature".to_string(), 5) {
        BranchPickerSelection::CheckoutBranch { repo_id, name } => {
            assert_eq!(repo_id, 5);
            assert_eq!(name, "feature");
        },
        other => panic!("unexpected {other:?}"),
    }
    assert!(!host.is_open());

    host.open_popover(
        PopoverKind::BranchPicker { purpose: BranchPickerPurpose::Delete },
        PopoverAnchor::Centered,
        &Vec::new(),
        false,
        None,
        0,
    );
    match host.handle_inline_branch_picker_select("old".to_string(), 5) {
        BranchPickerSelection::DeleteBranch { repo_id, name, centered } => {
            assert_eq!((repo_id, name.as_str(), centered), (5, "old", true));
        },
        other => panic!("unexpected {other:?}"),
    }
}

#[test]
fn settings_toggles_notify_only_on_change() {
    let mut host = PopoverHost::new(true, false, false, true, settings());
    // With no menu open the value is recorded without a redraw.
    assert!(!host.sync_commit_push_after_enabled(false));
    assert!(!host.commit_push_after_enabled);
    host.open_popover(PopoverKind::CommitOptionsMenu { repo_id: 1 }, PopoverAnchor::Centered, &Vec::new(), false, None, 0);
    assert!(!host.sync_commit_push_after_enabled(false));
    assert!(host.sync_commit_push_after_enabled(true));
    assert!(host.sync_commit_amend_enabled(true));
    assert!(!host.sync_diff_word_wrap(true));
    assert!(host.diff_word_wrap);
    host.open_popover(PopoverKind::DiffActionMenu, PopoverAnchor::Centered, &Vec::new(), false, None, 0);
    assert!(host.sync_diff_word_wrap(false));
    assert!(!host.sync_diff_word_wrap(false));
    assert!(host.sync_diff_show_line_numbers(false));
    assert!(host.sync_diff_reveal_whitespace_chars(true));
}

#[test]
fn submitting_prompts_trims_their_texts() {
    let mut host = PopoverHost::new(false, false, false, false, settings());
    assert!(host.submit_create_tag("v1", "").is_none());
    host.open_popover(
        PopoverKind::CreateTagPrompt { repo_id: 4, target: "abc".to_string() },
        PopoverAnchor::Centered,
        &Vec::new(),
        false,
        None,
        0,
    );
    assert!(host.submit_create_tag("  ", "msg").is_none());
    assert!(host.is_open());
    match host.submit_create_tag(" v1.0 ", " note ") {
        Some(PromptMsg::CreateTag { repo_id, name, target, message, annotated }) => {
            assert_eq!((repo_id, name.as_str(), target.as_str()), (4, "v1.0", "abc"));
            assert_eq!(message, None);
            assert!(!annotated);
        },
        other => panic!("unexpected {other:?}"),
    }
    assert!(!host.is_open());

    host.open_popover(PopoverKind::CloneRepo, PopoverAnchor::Centered, &Vec::new(), false, None, 0);
    match host.submit_clone_repo(" https://example.com/team/app.git ", " /tmp/src ") {
        Some(PromptMsg::CloneRepo { url, dest }) => {
            assert_eq!(url, "https://example.com/team/app.git");
            assert_eq!(std::path::PathBuf::from(dest), std::path::Path::new("/tmp/src").join("app"));
        },
        other => panic!("unexpected {other:?}"),
    }

    host.open_popover(PopoverKind::CommitPrompt { repo_id: 2 }, PopoverAnchor::Centered, &Vec::new(), false, None, 0);
    match host.submit_commit_prompt("  fix bug \n") {
        Some(PromptMsg::Commit { repo_id, message, push_after_commit }) => {
            assert_eq!((repo_id, message.as_str(), push_after_commit), (2, "fix bug", false));
        },
        other => panic!("unexpected {other:?}"),
    }
    assert!(host.submit_stash(None, "wip").is_none());
    match host.submit_stash(Some(8), " wip ") {
        Some(PromptMsg::Stash { repo_id, message, include_untracked }) => {
            assert_eq!((repo_id, message.as_str(), include_untracked), (8, "wip", true));
        },
        other => panic!("unexpected {other:?}"),
    }

    host.open_popover(
        PopoverKind::CreateBranchFromRefPrompt { repo_id: 6, target: "main".to_string(), source_selectable: false },
        PopoverAnchor::Centered,
        &Vec::new(),
        false,
        None,
        0,
    );
    match host.submit_create_branch(" topic ") {
        Some(PromptMsg::CreateBranch { repo_id, name, target, checkout }) => {
            assert_eq!((repo_id, name.as_str(), target.as_str(), checkout), (6, "topic", "main", true));
        },
        other => panic!("unexpected {other:?}"),
    }
}

#[test]
fn closing_diff_menus_returns_focus_to_the_diff() {
    let mut host = PopoverHost::new(false, false, false, false, settings());
    host.open_popover(PopoverKind::DiffActionMenu, PopoverAnchor::Centered, &Vec::new(), false, None, 0);
    assert!(host.close_popover_and_restore_focus());
    assert!(!host.is_open());
    host.open_popover(PopoverKind::AppMenu, PopoverAnchor::Centered, &Vec::new(), false, None, 0);
    assert!(!host.close_popover_and_restore_focus());
}

#[test]
fn popover_widths_are_ordered_for_every_sampled_kind() {
    let kinds = vec![
        PopoverKind::RepoPicker,
        PopoverKind::RecentRepositoryPicker,
        PopoverKind::CloneRepo,
        PopoverKind::AppMenu,
        PopoverKind::DiffActionMenu,
        PopoverKind::ChangeTrackingSettings,
        PopoverKind::DiffEditorMenu { repo_id: 1 },
        PopoverKind::FileHistory { repo_id: 1 },
        PopoverKind::Repo { repo_id: 1, kind: RepoPopoverKind::Worktree(WorktreePopoverKind::OpenPicker) },
    ];
    for kind in &kinds {
        let spec = popover_width_spec(kind).unwrap();
        assert!(spec.min_px() <= spec.preferred_px() && spec.preferred_px() <= spec.max_px(), "{kind:?}");
        assert_eq!(popover_preferred_anchor_width(kind), spec.preferred_px());
    }
}

#[test]
fn inline_branch_pickers_and_their_escape() {
    let mut host = PopoverHost::new(false, false, false, false, settings());
    host.open_popover(
        PopoverKind::CreateBranchFromRefPrompt { repo_id: 6, target: "main".to_string(), source_selectable: true },
        PopoverAnchor::Centered,
        &Vec::new(),
        false,
        None,
        0,
    );
    assert!(host.inline_branch_picker_active());
    // Opening starts from the prompt's target.
    assert_eq!(host.create_branch_source_target, "main");
    assert!(host.can_submit_create_branch("topic"));
    match host.handle_inline_branch_picker_select("develop".to_string(), 6) {
        BranchPickerSelection::SourceChosen { name } => assert_eq!(name, "develop"),
        other => panic!("unexpected {other:?}"),
    }
    assert!(host.can_submit_create_branch("topic"));
    assert!(!host.can_submit_create_branch("  "));
    match host.handle_inline_branch_picker_escape() {
        BranchPickerEscape::ResetSearchText { text } => assert_eq!(text, "develop"),
        other => panic!("unexpected {other:?}"),
    }
    assert!(host.is_open());
    host.open_popover(PopoverKind::BranchPicker { purpose: BranchPickerPurpose::Checkout }, PopoverAnchor::Centered, &Vec::new(), false, None, 0);
    assert!(matches!(host.handle_inline_branch_picker_escape(), BranchPickerEscape::Closed));
    assert!(!host.is_open());
    assert!(!host.inline_branch_picker_active());
    assert!(!host.can_submit_submodule_change_pointer("abc"));
}

#[test]
fn timestamp_settings_report_changes() {
    let mut host = PopoverHost::new(false, false, false, false, settings());
    assert!(!host.set_date_time_format(DateTimeFormat::YmdHm));
    assert!(host.set_date_time_format(DateTimeFormat::YmdHms));
    assert!(host.set_timezone(Timezone::Fixed(3600)));
    assert!(!host.set_timezone(Timezone::Fixed(3600)));
    assert!(host.set_show_timezone(false));
    assert_eq!(
        host.date_time_settings(),
        DateTimeSettings { format: DateTimeFormat::YmdHms, timezone: Timezone::Fixed(3600), show_timezone: false }
    );
}
