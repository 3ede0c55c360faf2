use vstd::prelude::*;

use crate::text::{chars_of, string_of};

verus! {

/// How the main window is used: the full client, or a window focused on a
/// single merge-tool session.
#[derive(Clone, Copy, Debug, PartialEq, Eq, Structural)]
pub enum GitCometViewMode {
    Normal,
    FocusedMergetool,
}

/// Whether a usable Git executable was found, and if not, why.
#[derive(Clone, Debug)]
pub struct GitRuntimeState {
    pub available: bool,
    pub unavailable_detail: Option<String>,
}

/// What the root view reads to choose between its screens.
#[derive(Clone, Debug)]
pub struct GitCometView {
    pub open_repo_count: usize,
    pub git_runtime: GitRuntimeState,
    pub view_mode: GitCometViewMode,
    pub startup_repo_bootstrap_pending: bool,
    pub open_repo_panel: bool,
}

/// The window shows the sidebar, the panes and the bars.
pub open spec fn full_chrome(mode: GitCometViewMode) -> bool {
    mode == GitCometViewMode::Normal
}

pub fn renders_full_chrome(mode: GitCometViewMode) -> (r: bool)
    ensures
        r == full_chrome(mode),
{
    match mode {
        GitCometViewMode::Normal => true,
        GitCometViewMode::FocusedMergetool => false,
    }
}

/// A repository-entry screen (splash or startup loading) stands in for the
/// workspace: the full client with no repository tab open.
pub open spec fn interstitial_active(mode: GitCometViewMode, has_repo_tabs: bool) -> bool {
    full_chrome(mode) && !has_repo_tabs
}

pub fn repository_entry_interstitial_active(mode: GitCometViewMode, has_repo_tabs: bool) -> (r: bool)
    ensures
        r == interstitial_active(mode, has_repo_tabs),
{
    renders_full_chrome(mode) && !has_repo_tabs
}

/// The splash screen shows while no repository is open and none is being
/// restored at startup.
pub fn should_show_splash_screen(mode: GitCometViewMode, has_repo_tabs: bool, bootstrap_pending: bool) -> (r: bool)
    ensures
        r == (interstitial_active(mode, has_repo_tabs) && !bootstrap_pending),
{
    repository_entry_interstitial_active(mode, has_repo_tabs) && !bootstrap_pending
}

/// The loading screen shows while no repository is open yet and the
/// startup session restore is still running.
pub fn should_show_startup_repository_loading_screen(
    mode: GitCometViewMode,
    has_repo_tabs: bool,
    bootstrap_pending: bool,
) -> (r: bool)
    ensures
        r == (interstitial_active(mode, has_repo_tabs) && bootstrap_pending),
{
    repository_entry_interstitial_active(mode, has_repo_tabs) && bootstrap_pending
}

/// The title bar's workspace actions work once the workspace, not an
/// entry screen, is shown.
pub fn titlebar_workspace_actions_enabled(mode: GitCometViewMode, has_repo_tabs: bool) -> (r: bool)
    ensures
        r == !interstitial_active(mode, has_repo_tabs),
{
    !repository_entry_interstitial_active(mode, has_repo_tabs)
}

/// The detail shown when Git is missing and the runtime gave no reason.
pub open spec fn default_unavailable_detail() -> Seq<char> {
    "GitComet could not find a usable Git executable."@
}

/// Where the first sentence of a detail ends: the first `". "`.
pub open spec fn is_sentence_break(s: Seq<char>, i: int) -> bool {
    0 <= i && i + 1 < s.len() && s[i] == '.' && s[i + 1] == ' '
}

/// How the detail is laid out: split after its first sentence into a
/// summary (keeping its full stop) and the recovery advice after it, or
/// shown whole when it has a single sentence.
#[derive(Clone, Debug)]
pub enum DetailContent {
    Split { summary: String, recovery: String },
    Whole { detail: String },
}

/// The figure at the top of the Git-unavailable panel, in design pixels.
#[derive(Clone, Copy, Debug, PartialEq, Eq, Structural)]
pub struct StatusIconSpec {
    pub frame_px: u32,
    pub icon_px: u32,
    pub color: crate::theme::ColorRole,
}

/// One of the full-window entry screens.
#[derive(Clone, Debug)]
pub struct InterstitialScreen {
    pub id: &'static str,
    pub logo_px: u32,
    pub title: &'static str,
    pub subtitle: &'static str,
    pub status: &'static str,
    pub spinner: bool,
}

/// The painted backdrop of the entry screens: a vertical gradient from
/// `top_rgba` to `bottom_rgba` under the splash image, which fills the
/// window.
#[derive(Clone, Copy, Debug, PartialEq, Eq, Structural)]
pub struct Backdrop {
    pub top_rgba: u32,
    pub bottom_rgba: u32,
    pub image_fills_window: bool,
}

/// What the center of the window shows.
#[derive(Clone, Copy, Debug, PartialEq, Eq, Structural)]
pub enum CenterContent {
    /// The startup session restore is running.
    StartupLoading,
    /// The Git-unavailable splash.
    GitUnavailableSplash,
    /// The welcome splash; `open_repo_fallback` adds the manual path entry.
    WelcomeSplash { open_repo_fallback: bool },
    /// Sidebar, panes and bars; `git_unavailable_overlay` covers them with
    /// the Git-unavailable panel.
    Workspace { git_unavailable_overlay: bool },
    /// The main pane alone.
    MainPaneOnly,
}

impl GitCometView {
    pub open spec fn has_tabs(&self) -> bool {
        self.open_repo_count > 0
    }

    pub open spec fn runtime_unavailable(&self) -> bool {
        !self.git_runtime.available
    }

    pub open spec fn unavailable_detail_text(&self) -> Seq<char> {
        match self.git_runtime.unavailable_detail {
            Some(d) => d@,
            None => default_unavailable_detail(),
        }
    }

    pub open spec fn splash_active(&self) -> bool {
        interstitial_active(self.view_mode, self.has_tabs()) && !self.startup_repo_bootstrap_pending
    }

    pub open spec fn loading_screen_active(&self) -> bool {
        interstitial_active(self.view_mode, self.has_tabs()) && self.startup_repo_bootstrap_pending
    }

    pub fn has_repo_tabs(&self) -> (r: bool)
        ensures
            r == self.has_tabs(),
    {
        self.open_repo_count != 0
    }

    pub fn git_runtime_unavailable(&self) -> (r: bool)
        ensures
            r == self.runtime_unavailable(),
    {
        !self.git_runtime.available
    }

    /// Why Git is unavailable: the runtime's own words, or a default.
    pub fn git_runtime_unavailable_detail(&self) -> (r: String)
        ensures
            r@ == self.unavailable_detail_text(),
    {
        match &self.git_runtime.unavailable_detail {
            Some(d) => d.clone(),
            None => String::from_str("GitComet could not find a usable Git executable."),
        }
    }

    /// The detail split after its first sentence.
    pub fn git_runtime_unavailable_detail_content(&self) -> (r: DetailContent)
        ensures
            match r {
                DetailContent::Split { summary, recovery } => exists|i: int|
                    is_sentence_break(self.unavailable_detail_text(), i) && (forall|j: int|
                        0 <= j < i ==> !is_sentence_break(self.unavailable_detail_text(), j))
                        && summary@ == self.unavailable_detail_text().subrange(0, i + 1)
                        && recovery@ == self.unavailable_detail_text().subrange(
                        i + 2,
                        self.unavailable_detail_text().len() as int,
                    ),
                DetailContent::Whole { detail } => detail@ == self.unavailable_detail_text()
                    && forall|j: int| !is_sentence_break(self.unavailable_detail_text(), j),
            },
    {
        let detail = self.git_runtime_unavailable_detail();
        let v = chars_of(detail.as_str());
        let n = v.len();
        let mut i: usize = 0;
        while i < n
            invariant
                v@ == self.unavailable_detail_text(),
                n == v@.len(),
                i <= n,
                forall|j: int| 0 <= j < i ==> !is_sentence_break(v@, j),
            decreases n - i,
        {
            if i + 1 < n && v[i] == '.' && v[i + 1] == ' ' {
                let mut summary: Vec<char> = Vec::new();
                let mut k: usize = 0;
                while k <= i
                    invariant
                        k <= i + 1,
                        i + 1 < n,
                        n == v@.len(),
                        summary@ == v@.subrange(0, k as int),
                    decreases i + 1 - k,
                {
                    summary.push(v[k]);
                    k = k + 1;
                    assert(summary@ =~= v@.subrange(0, k as int));
                }
                let mut recovery: Vec<char> = Vec::new();
                let mut k: usize = i + 2;
                while k < n
                    invariant
                        i + 2 <= k <= n,
                        n == v@.len(),
                        recovery@ == v@.subrange(i + 2, k as int),
                    decreases n - k,
                {
                    recovery.push(v[k]);
                    k = k + 1;
                    assert(recovery@ =~= v@.subrange(i + 2, k as int));
                }
                assert(is_sentence_break(v@, i as int));
                return DetailContent::Split { summary: string_of(summary), recovery: string_of(recovery) };
            }
            i = i + 1;
        }
        assert forall|j: int| !is_sentence_break(v@, j) by {
            if 0 <= j < i {
            }
        }
        DetailContent::Whole { detail }
    }

    /// The warning figure of the Git-unavailable panel.
    pub fn git_unavailable_status_icon() -> (r: StatusIconSpec)
        ensures
            r == (StatusIconSpec { frame_px: 56, icon_px: 36, color: crate::theme::ColorRole::Warning }),
    {
        StatusIconSpec { frame_px: 56, icon_px: 36, color: crate::theme::ColorRole::Warning }
    }

    /// The Git-unavailable panel covers the workspace when repositories are
    /// open in the full client and Git cannot run.
    pub fn should_show_git_unavailable_overlay(&self) -> (r: bool)
        ensures
            r == (full_chrome(self.view_mode) && self.has_tabs() && self.runtime_unavailable()),
    {
        renders_full_chrome(self.view_mode) && self.has_repo_tabs() && self.git_runtime_unavailable()
    }

    /// Actions that do not need a repository are blocked while an entry
    /// screen stands in for the workspace, or while Git cannot run in the
    /// full client.
    pub fn blocks_non_repository_actions(&self) -> (r: bool)
        ensures
            r == (interstitial_active(self.view_mode, self.has_tabs()) || (self.view_mode
                == GitCometViewMode::Normal && self.runtime_unavailable())),
    {
        repository_entry_interstitial_active(self.view_mode, self.has_repo_tabs()) || (match self.view_mode {
            GitCometViewMode::Normal => true,
            _ => false,
        } && self.git_runtime_unavailable())
    }

    pub fn is_splash_screen_active(&self) -> (r: bool)
        ensures
            r == self.splash_active(),
    {
        should_show_splash_screen(self.view_mode, self.has_repo_tabs(), self.startup_repo_bootstrap_pending)
    }

    pub fn is_startup_repository_loading_screen_active(&self) -> (r: bool)
        ensures
            r == self.loading_screen_active(),
    {
        should_show_startup_repository_loading_screen(
            self.view_mode,
            self.has_repo_tabs(),
            self.startup_repo_bootstrap_pending,
        )
    }

    /// Whether the title bar's workspace actions are enabled.
    pub fn sync_title_bar_workspace_actions(&self) -> (r: bool)
        ensures
            r == !interstitial_active(self.view_mode, self.has_tabs()),
    {
        titlebar_workspace_actions_enabled(self.view_mode, self.has_repo_tabs())
    }

    /// The backdrop behind the entry screens.
    pub fn interstitial_backdrop() -> (r: Backdrop)
        ensures
            r == (Backdrop { top_rgba: 0x060a13ff, bottom_rgba: 0x02050fff, image_fills_window: true }),
    {
        Backdrop { top_rgba: 0x060a13ff, bottom_rgba: 0x02050fff, image_fills_window: true }
    }

    /// The screen shown while the startup session restore runs.
    pub fn startup_repository_loading_screen() -> (r: InterstitialScreen)
        ensures
            r.id@ == "repository_loading_screen"@,
            r.logo_px == 84,
            r.title@ == "Loading repository session"@,
            r.subtitle@ == "GitComet is opening your workspace."@,
            r.status@ == "Please wait…"@,
            r.spinner,
    {
        InterstitialScreen {
            id: "repository_loading_screen",
            logo_px: 84,
            title: "Loading repository session",
            subtitle: "GitComet is opening your workspace.",
            status: "Please wait…",
            spinner: true,
        }
    }

    /// The splash: the Git-unavailable one when Git cannot run, else the
    /// welcome splash, with the manual path entry when the native folder
    /// picker is unavailable.
    pub fn splash_screen(&self) -> (r: CenterContent)
        ensures
            r == (if self.runtime_unavailable() {
                CenterContent::GitUnavailableSplash
            } else {
                CenterContent::WelcomeSplash { open_repo_fallback: self.open_repo_panel }
            }),
    {
        if self.git_runtime_unavailable() {
            CenterContent::GitUnavailableSplash
        } else {
            CenterContent::WelcomeSplash { open_repo_fallback: self.open_repo_panel }
        }
    }

    /// What the center of the window shows: the loading screen first, then
    /// the splash, then the workspace of the full client (covered when Git
    /// cannot run), else the main pane alone.
    pub fn center_content(&self) -> (r: CenterContent)
        ensures
            r == (if self.loading_screen_active() {
                CenterContent::StartupLoading
            } else if self.splash_active() {
                if self.runtime_unavailable() {
                    CenterContent::GitUnavailableSplash
                } else {
                    CenterContent::WelcomeSplash { open_repo_fallback: self.open_repo_panel }
                }
            } else if full_chrome(self.view_mode) {
                CenterContent::Workspace {
                    git_unavailable_overlay: self.has_tabs() && self.runtime_unavailable(),
                }
            } else {
                CenterContent::MainPaneOnly
            }),
    {
        if self.is_startup_repository_loading_screen_active() {
            return CenterContent::StartupLoading;
        }
        if self.is_splash_screen_active() {
            return self.splash_screen();
        }
        if renders_full_chrome(self.view_mode) {
            return CenterContent::Workspace { git_unavailable_overlay: self.should_show_git_unavailable_overlay() };
        }
        CenterContent::MainPaneOnly
    }
}

/// Exactly one kind of screen fills the center: the loading screen and the
/// splash never show together, and while either shows, no workspace (nor
/// its Git-unavailable overlay) does.
pub proof fn entry_screens_are_exclusive(view: GitCometView)
    ensures
        !(view.loading_screen_active() && view.splash_active()),
        (view.loading_screen_active() || view.splash_active()) ==> !(full_chrome(view.view_mode) && view.has_tabs()),
        (view.loading_screen_active() || view.splash_active()) ==> !(full_chrome(view.view_mode) && view.has_tabs()
            && view.runtime_unavailable()),
{
}

} // verus!
