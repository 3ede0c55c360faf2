use gitcomet_view::splash::{
    renders_full_chrome, should_show_splash_screen, should_show_startup_repository_loading_screen,
    titlebar_workspace_actions_enabled, Backdrop, CenterContent, DetailContent, GitCometView,
    GitCometViewMode, GitRuntimeState, StatusIconSpec,
};
use gitcomet_view::theme::ColorRole;

fn view(open_repo_count: usize, available: bool, detail: Option<&str>, pending: bool) -> GitCometView {
    GitCometView {
        open_repo_count,
        git_runtime: GitRuntimeState { available, unavailable_detail: detail.map(|d| d.to_string()) },
        view_mode: GitCometViewMode::Normal,
        startup_repo_bootstrap_pending: pending,
        open_repo_panel: false,
    }
}

#[test]
fn entry_screens_show_only_without_repository_tabs() {
    assert!(should_show_splash_screen(GitCometViewMode::Normal, false, false));
    assert!(!should_show_splash_screen(GitCometViewMode::Normal, true, false));
    assert!(!should_show_splash_screen(GitCometViewMode::Normal, false, true));
    assert!(should_show_startup_repository_loading_screen(GitCometViewMode::Normal, false, true));
    assert!(!should_show_startup_repository_loading_screen(GitCometViewMode::FocusedMergetool, false, true));
    assert!(!renders_full_chrome(GitCometViewMode::FocusedMergetool));
    assert!(titlebar_workspace_actions_enabled(GitCometViewMode::Normal, true));
    assert!(!titlebar_workspace_actions_enabled(GitCometViewMode::Normal, false));
}

#[test]
fn center_content_prefers_loading_then_splash_then_workspace() {
    assert_eq!(view(0, true, None, true).center_content(), CenterContent::StartupLoading);
    assert_eq!(view(0, true, None, false).center_content(), CenterContent::WelcomeSplash { open_repo_fallback: false });
    assert_eq!(view(0, false, None, false).center_content(), CenterContent::GitUnavailableSplash);
    assert_eq!(view(2, false, None, false).center_content(), CenterContent::Workspace { git_unavailable_overlay: true });
    assert_eq!(view(2, true, None, false).center_content(), CenterContent::Workspace { git_unavailable_overlay: false });
    let mut focused = view(0, true, None, false);
    focused.view_mode = GitCometViewMode::FocusedMergetool;
    assert_eq!(focused.center_content(), CenterContent::MainPaneOnly);
}

#[test]
fn git_unavailable_overlay_and_blocking() {
    let v = view(1, false, None, false);
    assert!(v.should_show_git_unavailable_overlay());
    assert!(v.blocks_non_repository_actions());
    assert!(!view(1, true, None, false).blocks_non_repository_actions());
    assert!(view(0, true, None, false).blocks_non_repository_actions());
    assert!(v.has_repo_tabs());
    assert!(v.git_runtime_unavailable());
    assert!(!v.is_splash_screen_active());
    assert!(view(0, true, None, false).is_splash_screen_active());
    assert!(view(0, true, None, true).is_startup_repository_loading_screen_active());
    assert!(v.sync_title_bar_workspace_actions());
}

#[test]
fn unavailable_detail_splits_after_the_first_sentence() {
    let v = view(0, false, Some("Git was not found. Install Git and restart. Then retry."), false);
    match v.git_runtime_unavailable_detail_content() {
        DetailContent::Split { summary, recovery } => {
            assert_eq!(summary, "Git was not found.");
            assert_eq!(recovery, "Install Git and restart. Then retry.");
        },
        other => panic!("unexpected {other:?}"),
    }
    let whole = view(0, false, None, false);
    assert_eq!(whole.git_runtime_unavailable_detail(), "GitComet could not find a usable Git executable.");
    match whole.git_runtime_unavailable_detail_content() {
        DetailContent::Whole { detail } => assert_eq!(detail, "GitComet could not find a usable Git executable."),
        other => panic!("unexpected {other:?}"),
    }
}

#[test]
fn interstitial_constants() {
    assert_eq!(
        GitCometView::git_unavailable_status_icon(),
        StatusIconSpec { frame_px: 56, icon_px: 36, color: ColorRole::Warning }
    );
    assert_eq!(
        GitCometView::interstitial_backdrop(),
        Backdrop { top_rgba: 0x060a13ff, bottom_rgba: 0x02050fff, image_fills_window: true }
    );
    let screen = GitCometView::startup_repository_loading_screen();
    assert_eq!(screen.title, "Loading repository session");
    assert!(screen.spinner);
    let mut with_panel = view(0, true, None, false);
    with_panel.open_repo_panel = true;
    assert_eq!(with_panel.splash_screen(), CenterContent::WelcomeSplash { open_repo_fallback: true });
}
