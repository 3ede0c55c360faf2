use vstd::prelude::*;

use crate::datetime::{DateTimeFormat, Timezone};
use crate::text::{
    chars_of, is_trimmed, lemma_trim_is_infix, lemma_trim_is_trimmed, lemma_trimmed_is_fixed, string_of, trim, trim_bounds,
    trimmed,
};

verus! {

/// Which corner of a popover sits at its anchor point.
#[derive(Clone, Copy, Debug, PartialEq, Eq, Structural)]
pub enum Anchor {
    TopLeft,
    TopRight,
    BottomLeft,
    BottomRight,
}

/// What a branch picker is opened for.
#[derive(Clone, Copy, Debug, PartialEq, Eq, Structural)]
pub enum BranchPickerPurpose {
    Checkout,
    Delete,
}

/// Remote popovers of a repository.
#[derive(Clone, Copy, Debug, PartialEq, Eq, Structural)]
pub enum RemotePopoverKind {
    AddPrompt,
    EditUrlPrompt,
    RemoveConfirm,
    DeleteBranchConfirm,
    Menu,
}

/// Worktree popovers of a repository.
#[derive(Clone, Copy, Debug, PartialEq, Eq, Structural)]
pub enum WorktreePopoverKind {
    SectionMenu,
    Menu,
    AddPrompt,
    OpenPicker,
    RemovePicker,
    RemoveConfirm,
}

/// Submodule popovers of a repository.
#[derive(Clone, Copy, Debug, PartialEq, Eq, Structural)]
pub enum SubmodulePopoverKind {
    SectionMenu,
    Menu,
    AddPrompt,
    ChangePointerPrompt,
    TrustConfirm,
    OpenPicker,
    RemovePicker,
    RemoveConfirm,
}

/// The three families of repository-scoped popovers.
#[derive(Clone, Copy, Debug, PartialEq, Eq, Structural)]
pub enum RepoPopoverKind {
    Remote(RemotePopoverKind),
    Worktree(WorktreePopoverKind),
    Submodule(SubmodulePopoverKind),
}

/// Every popover the host can show, with the payload that the host's own
/// decisions read (repository ids, prompt targets); the rest of a payload
/// only matters to the panel that renders it.
#[derive(Clone, Debug)]
pub enum PopoverKind {
    RepoPicker,
    RecentRepositoryPicker,
    BranchPicker { purpose: BranchPickerPurpose },
    CreateBranchFromRefPrompt { repo_id: u64, target: String, source_selectable: bool },
    CheckoutRemoteBranchPrompt { repo_id: u64, branch: String },
    StashPrompt,
    CommitPrompt { repo_id: u64 },
    StashPickerPrompt { repo_id: u64 },
    StashDropConfirm { repo_id: u64 },
    CloneRepo,
    ResetPrompt { repo_id: u64 },
    CreateTagPrompt { repo_id: u64, target: String },
    Repo { repo_id: u64, kind: RepoPopoverKind },
    FileHistory { repo_id: u64 },
    PushSetUpstreamPrompt { repo_id: u64 },
    ForcePushConfirm { repo_id: u64 },
    MergeAbortConfirm { repo_id: u64 },
    ConflictSaveStageConfirm { repo_id: u64 },
    ForceDeleteBranchConfirm { repo_id: u64 },
    ForceRemoveWorktreeConfirm { repo_id: u64 },
    DiscardChangesConfirm { repo_id: u64 },
    PullReconcilePrompt { repo_id: u64 },
    AppMenu,
    TerminalShutdownConfirm,
    TerminalMenu { repo_id: u64 },
    DiffActionMenu,
    PullPicker,
    PushPicker,
    CommitOptionsMenu { repo_id: u64 },
    PreviousCommitMessagesMenu { repo_id: u64 },
    RepoTabMenu { repo_id: u64 },
    CommitMenu { repo_id: u64 },
    TagMenu { repo_id: u64 },
    TagRefMenu { repo_id: u64 },
    StatusFileMenu { repo_id: u64 },
    BranchMenu { repo_id: u64 },
    BranchSectionMenu { repo_id: u64 },
    SubmoduleInnerDiffMenu { repo_id: u64 },
    CommitFileMenu { repo_id: u64 },
    FileBrowserFileMenu { repo_id: u64 },
    BrowseHistoryMenu { repo_id: u64 },
    HistoryBranchFilter { repo_id: u64 },
    DiffContentModeSettings,
    UiScalePicker,
    DiffHunkMenu { repo_id: u64 },
    ChangeTrackingSettings,
    DiffEditorMenu { repo_id: u64 },
    ConflictResolverInputRowMenu,
    ConflictResolverChunkMenu,
    ConflictResolverOutputMenu,
    StashMenu { repo_id: u64 },
}

/// Popovers that behave as context menus: keyboard-navigable item lists
/// that keep the invoking row highlighted.
pub open spec fn is_context_menu_kind(kind: PopoverKind) -> bool {
    match kind {
        PopoverKind::PullPicker
        | PopoverKind::PushPicker
        | PopoverKind::CommitOptionsMenu { .. }
        | PopoverKind::PreviousCommitMessagesMenu { .. }
        | PopoverKind::RepoTabMenu { .. }
        | PopoverKind::DiffActionMenu
        | PopoverKind::HistoryBranchFilter { .. }
        | PopoverKind::DiffContentModeSettings
        | PopoverKind::ChangeTrackingSettings
        | PopoverKind::UiScalePicker
        | PopoverKind::TerminalMenu { .. }
        | PopoverKind::DiffHunkMenu { .. }
        | PopoverKind::DiffEditorMenu { .. }
        | PopoverKind::ConflictResolverInputRowMenu
        | PopoverKind::ConflictResolverChunkMenu
        | PopoverKind::ConflictResolverOutputMenu
        | PopoverKind::CommitMenu { .. }
        | PopoverKind::TagMenu { .. }
        | PopoverKind::TagRefMenu { .. }
        | PopoverKind::StatusFileMenu { .. }
        | PopoverKind::BranchMenu { .. }
        | PopoverKind::BranchSectionMenu { .. }
        | PopoverKind::SubmoduleInnerDiffMenu { .. }
        | PopoverKind::StashMenu { .. }
        | PopoverKind::CommitFileMenu { .. }
        | PopoverKind::FileBrowserFileMenu { .. }
        | PopoverKind::BrowseHistoryMenu { .. } => true,
        PopoverKind::Repo { kind, .. } => match kind {
            RepoPopoverKind::Remote(RemotePopoverKind::Menu)
            | RepoPopoverKind::Worktree(WorktreePopoverKind::SectionMenu)
            | RepoPopoverKind::Worktree(WorktreePopoverKind::Menu)
            | RepoPopoverKind::Submodule(SubmodulePopoverKind::SectionMenu)
            | RepoPopoverKind::Submodule(SubmodulePopoverKind::Menu) => true,
            _ => false,
        },
        _ => false,
    }
}

/// Popovers that ask the user to confirm a destructive action.
pub open spec fn is_confirm_dialog_kind(kind: PopoverKind) -> bool {
    match kind {
        PopoverKind::StashDropConfirm { .. }
        | PopoverKind::ForcePushConfirm { .. }
        | PopoverKind::MergeAbortConfirm { .. }
        | PopoverKind::ConflictSaveStageConfirm { .. }
        | PopoverKind::ForceDeleteBranchConfirm { .. }
        | PopoverKind::ForceRemoveWorktreeConfirm { .. }
        | PopoverKind::DiscardChangesConfirm { .. } => true,
        PopoverKind::Repo { kind, .. } => match kind {
            RepoPopoverKind::Remote(RemotePopoverKind::RemoveConfirm)
            | RepoPopoverKind::Remote(RemotePopoverKind::DeleteBranchConfirm)
            | RepoPopoverKind::Worktree(WorktreePopoverKind::RemoveConfirm)
            | RepoPopoverKind::Submodule(SubmodulePopoverKind::RemoveConfirm) => true,
            _ => false,
        },
        _ => false,
    }
}

/// Popovers that open from their anchor's right edge rather than its left.
pub open spec fn anchors_top_right(kind: PopoverKind) -> bool {
    match kind {
        PopoverKind::PullPicker
        | PopoverKind::PushPicker
        | PopoverKind::CreateBranchFromRefPrompt { .. }
        | PopoverKind::StashPrompt
        | PopoverKind::StashDropConfirm { .. }
        | PopoverKind::CloneRepo
        | PopoverKind::ResetPrompt { .. }
        | PopoverKind::CreateTagPrompt { .. }
        | PopoverKind::PushSetUpstreamPrompt { .. }
        | PopoverKind::ForcePushConfirm { .. }
        | PopoverKind::MergeAbortConfirm { .. }
        | PopoverKind::ConflictSaveStageConfirm { .. }
        | PopoverKind::ForceDeleteBranchConfirm { .. }
        | PopoverKind::ForceRemoveWorktreeConfirm { .. }
        | PopoverKind::PullReconcilePrompt { .. }
        | PopoverKind::CommitOptionsMenu { .. }
        | PopoverKind::PreviousCommitMessagesMenu { .. }
        | PopoverKind::RepoTabMenu { .. }
        | PopoverKind::DiffActionMenu
        | PopoverKind::HistoryBranchFilter { .. }
        | PopoverKind::DiffContentModeSettings
        | PopoverKind::ChangeTrackingSettings
        | PopoverKind::TerminalMenu { .. }
        | PopoverKind::UiScalePicker => true,
        PopoverKind::Repo { kind, .. } => match kind {
            RepoPopoverKind::Remote(RemotePopoverKind::AddPrompt)
            | RepoPopoverKind::Remote(RemotePopoverKind::EditUrlPrompt)
            | RepoPopoverKind::Remote(RemotePopoverKind::RemoveConfirm)
            | RepoPopoverKind::Worktree(WorktreePopoverKind::AddPrompt)
            | RepoPopoverKind::Worktree(WorktreePopoverKind::OpenPicker)
            | RepoPopoverKind::Worktree(WorktreePopoverKind::RemovePicker)
            | RepoPopoverKind::Worktree(WorktreePopoverKind::RemoveConfirm)
            | RepoPopoverKind::Submodule(SubmodulePopoverKind::AddPrompt)
            | RepoPopoverKind::Submodule(SubmodulePopoverKind::ChangePointerPrompt)
            | RepoPopoverKind::Submodule(SubmodulePopoverKind::TrustConfirm)
            | RepoPopoverKind::Submodule(SubmodulePopoverKind::OpenPicker)
            | RepoPopoverKind::Submodule(SubmodulePopoverKind::RemovePicker)
            | RepoPopoverKind::Submodule(SubmodulePopoverKind::RemoveConfirm) => true,
            _ => false,
        },
        _ => false,
    }
}

/// Whether the popover is a context menu.
pub fn popover_is_context_menu(kind: &PopoverKind) -> (r: bool)
    ensures
        r == is_context_menu_kind(*kind),
{
    match kind {
        PopoverKind::PullPicker
        | PopoverKind::PushPicker
        | PopoverKind::CommitOptionsMenu { .. }
        | PopoverKind::PreviousCommitMessagesMenu { .. }
        | PopoverKind::RepoTabMenu { .. }
        | PopoverKind::DiffActionMenu
        | PopoverKind::HistoryBranchFilter { .. }
        | PopoverKind::DiffContentModeSettings
        | PopoverKind::ChangeTrackingSettings
        | PopoverKind::UiScalePicker
        | PopoverKind::TerminalMenu { .. }
        | PopoverKind::DiffHunkMenu { .. }
        | PopoverKind::DiffEditorMenu { .. }
        | PopoverKind::ConflictResolverInputRowMenu
        | PopoverKind::ConflictResolverChunkMenu
        | PopoverKind::ConflictResolverOutputMenu
        | PopoverKind::CommitMenu { .. }
        | PopoverKind::TagMenu { .. }
        | PopoverKind::TagRefMenu { .. }
        | PopoverKind::StatusFileMenu { .. }
        | PopoverKind::BranchMenu { .. }
        | PopoverKind::BranchSectionMenu { .. }
        | PopoverKind::SubmoduleInnerDiffMenu { .. }
        | PopoverKind::StashMenu { .. }
        | PopoverKind::CommitFileMenu { .. }
        | PopoverKind::FileBrowserFileMenu { .. }
        | PopoverKind::BrowseHistoryMenu { .. } => true,
        PopoverKind::Repo { kind, .. } => match kind {
            RepoPopoverKind::Remote(RemotePopoverKind::Menu)
            | RepoPopoverKind::Worktree(WorktreePopoverKind::SectionMenu)
            | RepoPopoverKind::Worktree(WorktreePopoverKind::Menu)
            | RepoPopoverKind::Submodule(SubmodulePopoverKind::SectionMenu)
            | RepoPopoverKind::Submodule(SubmodulePopoverKind::Menu) => true,
            _ => false,
        },
        _ => false,
    }
}

/// Whether the popover is a confirmation dialog.
pub fn popover_is_confirm_dialog(kind: &PopoverKind) -> (r: bool)
    ensures
        r == is_confirm_dialog_kind(*kind),
{
    match kind {
        PopoverKind::StashDropConfirm { .. }
        | PopoverKind::ForcePushConfirm { .. }
        | PopoverKind::MergeAbortConfirm { .. }
        | PopoverKind::ConflictSaveStageConfirm { .. }
        | PopoverKind::ForceDeleteBranchConfirm { .. }
        | PopoverKind::ForceRemoveWorktreeConfirm { .. }
        | PopoverKind::DiscardChangesConfirm { .. } => true,
        PopoverKind::Repo { kind, .. } => match kind {
            RepoPopoverKind::Remote(RemotePopoverKind::RemoveConfirm)
            | RepoPopoverKind::Remote(RemotePopoverKind::DeleteBranchConfirm)
            | RepoPopoverKind::Worktree(WorktreePopoverKind::RemoveConfirm)
            | RepoPopoverKind::Submodule(SubmodulePopoverKind::RemoveConfirm) => true,
            _ => false,
        },
        _ => false,
    }
}

/// The corner by which the popover hangs from its anchor before any
/// adjustment for the space around it.
pub fn popover_anchor_corner(kind: &PopoverKind) -> (r: Anchor)
    ensures
        r == (if anchors_top_right(*kind) { Anchor::TopRight } else { Anchor::TopLeft }),
{
    match kind {
        PopoverKind::PullPicker
        | PopoverKind::PushPicker
        | PopoverKind::CreateBranchFromRefPrompt { .. }
        | PopoverKind::StashPrompt
        | PopoverKind::StashDropConfirm { .. }
        | PopoverKind::CloneRepo
        | PopoverKind::ResetPrompt { .. }
        | PopoverKind::CreateTagPrompt { .. }
        | PopoverKind::PushSetUpstreamPrompt { .. }
        | PopoverKind::ForcePushConfirm { .. }
        | PopoverKind::MergeAbortConfirm { .. }
        | PopoverKind::ConflictSaveStageConfirm { .. }
        | PopoverKind::ForceDeleteBranchConfirm { .. }
        | PopoverKind::ForceRemoveWorktreeConfirm { .. }
        | PopoverKind::PullReconcilePrompt { .. }
        | PopoverKind::CommitOptionsMenu { .. }
        | PopoverKind::PreviousCommitMessagesMenu { .. }
        | PopoverKind::RepoTabMenu { .. }
        | PopoverKind::DiffActionMenu
        | PopoverKind::HistoryBranchFilter { .. }
        | PopoverKind::DiffContentModeSettings
        | PopoverKind::ChangeTrackingSettings
        | PopoverKind::TerminalMenu { .. }
        | PopoverKind::UiScalePicker => Anchor::TopRight,
        PopoverKind::Repo { kind, .. } => match kind {
            RepoPopoverKind::Remote(RemotePopoverKind::AddPrompt)
            | RepoPopoverKind::Remote(RemotePopoverKind::EditUrlPrompt)
            | RepoPopoverKind::Remote(RemotePopoverKind::RemoveConfirm)
            | RepoPopoverKind::Worktree(WorktreePopoverKind::AddPrompt)
            | RepoPopoverKind::Worktree(WorktreePopoverKind::OpenPicker)
            | RepoPopoverKind::Worktree(WorktreePopoverKind::RemovePicker)
            | RepoPopoverKind::Worktree(WorktreePopoverKind::RemoveConfirm)
            | RepoPopoverKind::Submodule(SubmodulePopoverKind::AddPrompt)
            | RepoPopoverKind::Submodule(SubmodulePopoverKind::ChangePointerPrompt)
            | RepoPopoverKind::Submodule(SubmodulePopoverKind::TrustConfirm)
            | RepoPopoverKind::Submodule(SubmodulePopoverKind::OpenPicker)
            | RepoPopoverKind::Submodule(SubmodulePopoverKind::RemovePicker)
            | RepoPopoverKind::Submodule(SubmodulePopoverKind::RemoveConfirm) => Anchor::TopRight,
            _ => Anchor::TopLeft,
        },
        _ => Anchor::TopLeft,
    }
}

/// No popover is both a context menu and a confirmation dialog.
pub proof fn context_menus_are_not_confirm_dialogs(kind: PopoverKind)
    ensures
        !(is_context_menu_kind(kind) && is_confirm_dialog_kind(kind)),
{
}


/// Width limits of a popover in design pixels, before the UI scale applies.
#[derive(Clone, Copy, Debug, PartialEq, Eq, Structural)]
pub struct PopoverWidthSpec {
    pub preferred: u32,
    pub min: u32,
    pub max: u32,
}

pub open spec fn width(preferred: u32, min: u32, max: u32) -> PopoverWidthSpec {
    PopoverWidthSpec { preferred, min, max }
}

impl PopoverWidthSpec {
    /// A popover that is exactly `width` wide.
    pub fn fixed(width: u32) -> (r: Self)
        ensures
            r == (PopoverWidthSpec { preferred: width, min: width, max: width }),
    {
        PopoverWidthSpec { preferred: width, min: width, max: width }
    }

    /// A popover that prefers `preferred` and may shrink to `min` or grow to `max`.
    pub fn range(preferred: u32, min: u32, max: u32) -> (r: Self)
        ensures
            r == (PopoverWidthSpec { preferred, min, max }),
    {
        PopoverWidthSpec { preferred, min, max }
    }

    pub fn preferred_px(self) -> (r: u32)
        ensures
            r == self.preferred,
    {
        self.preferred
    }

    pub fn min_px(self) -> (r: u32)
        ensures
            r == self.min,
    {
        self.min
    }

    pub fn max_px(self) -> (r: u32)
        ensures
            r == self.max,
    {
        self.max
    }
}

/// The width limits of each popover.
pub open spec fn width_spec_of(kind: PopoverKind) -> PopoverWidthSpec {
    match kind {
        PopoverKind::RepoPicker | PopoverKind::BranchPicker { .. } => width(420, 420, 820),
        PopoverKind::RecentRepositoryPicker => width(480, 480, 860),
        PopoverKind::StashPrompt
        | PopoverKind::CommitPrompt { .. }
        | PopoverKind::StashPickerPrompt { .. }
        | PopoverKind::CloneRepo
        | PopoverKind::CreateTagPrompt { .. } => width(420, 420, 420),
        PopoverKind::CreateBranchFromRefPrompt { .. }
        | PopoverKind::CheckoutRemoteBranchPrompt { .. } => width(540, 540, 540),
        PopoverKind::StashDropConfirm { .. }
        | PopoverKind::ForcePushConfirm { .. }
        | PopoverKind::ForceDeleteBranchConfirm { .. }
        | PopoverKind::DiscardChangesConfirm { .. } => width(420, 420, 420),
        PopoverKind::PushSetUpstreamPrompt { .. } => width(320, 320, 320),
        PopoverKind::ResetPrompt { .. } => width(380, 380, 380),
        PopoverKind::MergeAbortConfirm { .. } | PopoverKind::ConflictSaveStageConfirm { .. } => width(
            360,
            360,
            360,
        ),
        PopoverKind::ForceRemoveWorktreeConfirm { .. } => width(460, 460, 460),
        PopoverKind::PullReconcilePrompt { .. } => width(440, 440, 440),
        PopoverKind::Repo { kind, .. } => match kind {
            RepoPopoverKind::Remote(RemotePopoverKind::RemoveConfirm)
            | RepoPopoverKind::Remote(RemotePopoverKind::DeleteBranchConfirm)
            | RepoPopoverKind::Worktree(WorktreePopoverKind::RemoveConfirm)
            | RepoPopoverKind::Submodule(SubmodulePopoverKind::RemoveConfirm) => width(420, 420, 420),
            RepoPopoverKind::Remote(RemotePopoverKind::AddPrompt)
            | RepoPopoverKind::Remote(RemotePopoverKind::EditUrlPrompt)
            | RepoPopoverKind::Worktree(WorktreePopoverKind::AddPrompt)
            | RepoPopoverKind::Submodule(SubmodulePopoverKind::AddPrompt)
            | RepoPopoverKind::Submodule(SubmodulePopoverKind::TrustConfirm) => width(640, 640, 640),
            RepoPopoverKind::Submodule(SubmodulePopoverKind::ChangePointerPrompt) => width(
                420,
                420,
                420,
            ),
            RepoPopoverKind::Worktree(WorktreePopoverKind::OpenPicker)
            | RepoPopoverKind::Worktree(WorktreePopoverKind::RemovePicker)
            | RepoPopoverKind::Submodule(SubmodulePopoverKind::OpenPicker)
            | RepoPopoverKind::Submodule(SubmodulePopoverKind::RemovePicker) => width(520, 520, 820),
            RepoPopoverKind::Remote(RemotePopoverKind::Menu)
            | RepoPopoverKind::Worktree(WorktreePopoverKind::SectionMenu)
            | RepoPopoverKind::Worktree(WorktreePopoverKind::Menu)
            | RepoPopoverKind::Submodule(SubmodulePopoverKind::SectionMenu)
            | RepoPopoverKind::Submodule(SubmodulePopoverKind::Menu) => width(260, 180, 380),
        },
        PopoverKind::FileHistory { .. } => width(520, 520, 820),
        PopoverKind::AppMenu => width(250, 250, 250),
        PopoverKind::TerminalShutdownConfirm => width(440, 440, 440),
        PopoverKind::TerminalMenu { .. } => width(260, 180, 380),
        PopoverKind::DiffActionMenu => width(240, 200, 320),
        PopoverKind::PullPicker
        | PopoverKind::PushPicker
        | PopoverKind::CommitOptionsMenu { .. }
        | PopoverKind::PreviousCommitMessagesMenu { .. }
        | PopoverKind::RepoTabMenu { .. }
        | PopoverKind::CommitMenu { .. }
        | PopoverKind::TagMenu { .. }
        | PopoverKind::TagRefMenu { .. }
        | PopoverKind::StatusFileMenu { .. }
        | PopoverKind::BranchMenu { .. }
        | PopoverKind::BranchSectionMenu { .. }
        | PopoverKind::SubmoduleInnerDiffMenu { .. }
        | PopoverKind::CommitFileMenu { .. }
        | PopoverKind::FileBrowserFileMenu { .. }
        | PopoverKind::BrowseHistoryMenu { .. } => width(260, 180, 380),
        PopoverKind::HistoryBranchFilter { .. }
        | PopoverKind::DiffContentModeSettings
        | PopoverKind::UiScalePicker
        | PopoverKind::DiffHunkMenu { .. } => width(220, 160, 220),
        PopoverKind::ChangeTrackingSettings => width(220, 220, 320),
        PopoverKind::DiffEditorMenu { .. } => width(260, 200, 340),
        PopoverKind::ConflictResolverInputRowMenu => width(220, 180, 280),
        PopoverKind::ConflictResolverChunkMenu => width(220, 190, 280),
        PopoverKind::ConflictResolverOutputMenu => width(240, 200, 300),
        PopoverKind::StashMenu { .. } => width(220, 180, 360),
    }
}

/// The width limits of a popover; every popover has them.
pub fn popover_width_spec(kind: &PopoverKind) -> (r: Option<PopoverWidthSpec>)
    ensures
        r == Some(width_spec_of(*kind)),
{
    let spec = match kind {
        PopoverKind::RepoPicker | PopoverKind::BranchPicker { .. } => PopoverWidthSpec::range(
            420,
            420,
            820,
        ),
        PopoverKind::RecentRepositoryPicker => PopoverWidthSpec::range(480, 480, 860),
        PopoverKind::StashPrompt
        | PopoverKind::CommitPrompt { .. }
        | PopoverKind::StashPickerPrompt { .. }
        | PopoverKind::CloneRepo
        | PopoverKind::CreateTagPrompt { .. } => PopoverWidthSpec::fixed(420),
        PopoverKind::CreateBranchFromRefPrompt { .. }
        | PopoverKind::CheckoutRemoteBranchPrompt { .. } => PopoverWidthSpec::fixed(540),
        PopoverKind::StashDropConfirm { .. }
        | PopoverKind::ForcePushConfirm { .. }
        | PopoverKind::ForceDeleteBranchConfirm { .. }
        | PopoverKind::DiscardChangesConfirm { .. } => PopoverWidthSpec::fixed(420),
        PopoverKind::PushSetUpstreamPrompt { .. } => PopoverWidthSpec::fixed(320),
        PopoverKind::ResetPrompt { .. } => PopoverWidthSpec::fixed(380),
        PopoverKind::MergeAbortConfirm { .. }
        | PopoverKind::ConflictSaveStageConfirm { .. } => PopoverWidthSpec::fixed(360),
        PopoverKind::ForceRemoveWorktreeConfirm { .. } => PopoverWidthSpec::fixed(460),
        PopoverKind::PullReconcilePrompt { .. } => PopoverWidthSpec::fixed(440),
        PopoverKind::Repo { kind, .. } => match kind {
            RepoPopoverKind::Remote(RemotePopoverKind::RemoveConfirm)
            | RepoPopoverKind::Remote(RemotePopoverKind::DeleteBranchConfirm)
            | RepoPopoverKind::Worktree(WorktreePopoverKind::RemoveConfirm)
            | RepoPopoverKind::Submodule(
                SubmodulePopoverKind::RemoveConfirm,
            ) => PopoverWidthSpec::fixed(420),
            RepoPopoverKind::Remote(RemotePopoverKind::AddPrompt)
            | RepoPopoverKind::Remote(RemotePopoverKind::EditUrlPrompt)
            | RepoPopoverKind::Worktree(WorktreePopoverKind::AddPrompt)
            | RepoPopoverKind::Submodule(SubmodulePopoverKind::AddPrompt)
            | RepoPopoverKind::Submodule(
                SubmodulePopoverKind::TrustConfirm,
            ) => PopoverWidthSpec::fixed(640),
            RepoPopoverKind::Submodule(
                SubmodulePopoverKind::ChangePointerPrompt,
            ) => PopoverWidthSpec::fixed(420),
            RepoPopoverKind::Worktree(WorktreePopoverKind::OpenPicker)
            | RepoPopoverKind::Worktree(WorktreePopoverKind::RemovePicker)
            | RepoPopoverKind::Submodule(SubmodulePopoverKind::OpenPicker)
            | RepoPopoverKind::Submodule(
                SubmodulePopoverKind::RemovePicker,
            ) => PopoverWidthSpec::range(520, 520, 820),
            RepoPopoverKind::Remote(RemotePopoverKind::Menu)
            | RepoPopoverKind::Worktree(WorktreePopoverKind::SectionMenu)
            | RepoPopoverKind::Worktree(WorktreePopoverKind::Menu)
            | RepoPopoverKind::Submodule(SubmodulePopoverKind::SectionMenu)
            | RepoPopoverKind::Submodule(SubmodulePopoverKind::Menu) => PopoverWidthSpec::range(
                260,
                180,
                380,
            ),
        },
        PopoverKind::FileHistory { .. } => PopoverWidthSpec::range(520, 520, 820),
        PopoverKind::AppMenu => PopoverWidthSpec::fixed(250),
        PopoverKind::TerminalShutdownConfirm => PopoverWidthSpec::fixed(440),
        PopoverKind::TerminalMenu { .. } => PopoverWidthSpec::range(260, 180, 380),
        PopoverKind::DiffActionMenu => PopoverWidthSpec::range(240, 200, 320),
        PopoverKind::PullPicker
        | PopoverKind::PushPicker
        | PopoverKind::CommitOptionsMenu { .. }
        | PopoverKind::PreviousCommitMessagesMenu { .. }
        | PopoverKind::RepoTabMenu { .. }
        | PopoverKind::CommitMenu { .. }
        | PopoverKind::TagMenu { .. }
        | PopoverKind::TagRefMenu { .. }
        | PopoverKind::StatusFileMenu { .. }
        | PopoverKind::BranchMenu { .. }
        | PopoverKind::BranchSectionMenu { .. }
        | PopoverKind::SubmoduleInnerDiffMenu { .. }
        | PopoverKind::CommitFileMenu { .. }
        | PopoverKind::FileBrowserFileMenu { .. }
        | PopoverKind::BrowseHistoryMenu { .. } => PopoverWidthSpec::range(260, 180, 380),
        PopoverKind::HistoryBranchFilter { .. }
        | PopoverKind::DiffContentModeSettings
        | PopoverKind::UiScalePicker
        | PopoverKind::DiffHunkMenu { .. } => PopoverWidthSpec::range(220, 160, 220),
        PopoverKind::ChangeTrackingSettings => PopoverWidthSpec::range(220, 220, 320),
        PopoverKind::DiffEditorMenu { .. } => PopoverWidthSpec::range(260, 200, 340),
        PopoverKind::ConflictResolverInputRowMenu => PopoverWidthSpec::range(220, 180, 280),
        PopoverKind::ConflictResolverChunkMenu => PopoverWidthSpec::range(220, 190, 280),
        PopoverKind::ConflictResolverOutputMenu => PopoverWidthSpec::range(240, 200, 300),
        PopoverKind::StashMenu { .. } => PopoverWidthSpec::range(220, 180, 360),
    };
    Some(spec)
}

/// The width used to decide which side of the anchor has room, in design
/// pixels: the preferred width, raised to the minimum width.
pub fn popover_preferred_anchor_width(kind: &PopoverKind) -> (r: u32)
    ensures
        r == (if width_spec_of(*kind).preferred >= width_spec_of(*kind).min {
            width_spec_of(*kind).preferred
        } else {
            width_spec_of(*kind).min
        }),
{
    match popover_width_spec(kind) {
        Some(spec) => {
            if spec.preferred_px() >= spec.min_px() {
                spec.preferred_px()
            } else {
                spec.min_px()
            }
        },
        None => 640,
    }
}

/// Every popover's preferred width lies between its minimum and its maximum.
pub proof fn popover_widths_are_ordered(kind: PopoverKind)
    ensures
        width_spec_of(kind).min <= width_spec_of(kind).preferred <= width_spec_of(kind).max,
{
}

pub open spec fn is_bottom(corner: Anchor) -> bool {
    corner == Anchor::BottomLeft || corner == Anchor::BottomRight
}

pub open spec fn is_right(corner: Anchor) -> bool {
    corner == Anchor::TopRight || corner == Anchor::BottomRight
}

/// The corner with the same vertical edge and the other horizontal edge.
pub open spec fn mirrored(corner: Anchor) -> Anchor {
    match corner {
        Anchor::TopLeft => Anchor::TopRight,
        Anchor::TopRight => Anchor::TopLeft,
        Anchor::BottomLeft => Anchor::BottomRight,
        Anchor::BottomRight => Anchor::BottomLeft,
    }
}

/// The corner after the horizontal adjustment: a popover that hangs to one
/// side of its anchor is moved to the other side when the preferred width
/// does not fit on its side and the other side has more room.
pub open spec fn chosen_corner(
    corner: Anchor,
    space_left: int,
    space_right: int,
    preferred_width: int,
) -> Anchor {
    if is_right(corner) {
        if space_left < preferred_width && space_right > space_left {
            mirrored(corner)
        } else {
            corner
        }
    } else {
        if space_right < preferred_width && space_left > space_right {
            mirrored(corner)
        } else {
            corner
        }
    }
}

/// Picks the horizontal side of the anchor that the popover opens towards.
/// Lengths are in one integer unit of the caller's choosing.
pub fn choose_popover_anchor_corner(
    anchor_corner: Anchor,
    space_left: i64,
    space_right: i64,
    preferred_width: i64,
) -> (r: Anchor)
    ensures
        r == chosen_corner(anchor_corner, space_left as int, space_right as int, preferred_width as int),
{
    match anchor_corner {
        Anchor::TopRight if space_left < preferred_width && space_right > space_left => {
            Anchor::TopLeft
        },
        Anchor::BottomRight if space_left < preferred_width && space_right > space_left => {
            Anchor::BottomLeft
        },
        Anchor::TopLeft if space_right < preferred_width && space_left > space_right => {
            Anchor::TopRight
        },
        Anchor::BottomLeft if space_right < preferred_width && space_left > space_right => {
            Anchor::BottomRight
        },
        _ => anchor_corner,
    }
}

/// The horizontal choice keeps the vertical edge, moves only towards
/// strictly more room when the preferred width does not fit, and is stable:
/// choosing again from the chosen corner changes nothing.
pub proof fn chosen_corner_laws(corner: Anchor, space_left: int, space_right: int, preferred: int)
    ensures
        is_bottom(chosen_corner(corner, space_left, space_right, preferred)) == is_bottom(corner),
        chosen_corner(corner, space_left, space_right, preferred) != corner ==> {
            if is_right(corner) {
                space_left < preferred && space_right > space_left
            } else {
                space_right < preferred && space_left > space_right
            }
        },
        chosen_corner(
            chosen_corner(corner, space_left, space_right, preferred),
            space_left,
            space_right,
            preferred,
        ) == chosen_corner(corner, space_left, space_right, preferred),
{
}

/// The vertical adjustment of a context menu: a menu that would open
/// downwards flips upwards when less than `min_below` fits below the anchor
/// and there is more room above.
pub open spec fn context_menu_corner(corner: Anchor, below: int, above: int, min_below: int) -> Anchor {
    if below < min_below && above > below {
        match corner {
            Anchor::TopLeft => Anchor::BottomLeft,
            Anchor::TopRight => Anchor::BottomRight,
            _ => corner,
        }
    } else {
        corner
    }
}

pub fn context_menu_vertical_corner(corner: Anchor, below: i64, above: i64, min_below: i64) -> (r:
    Anchor)
    ensures
        r == context_menu_corner(corner, below as int, above as int, min_below as int),
{
    if below < min_below && above > below {
        match corner {
            Anchor::TopLeft => Anchor::BottomLeft,
            Anchor::TopRight => Anchor::BottomRight,
            _ => corner,
        }
    } else {
        corner
    }
}

/// Vertical offset of the popover from its anchor: away from the anchor by
/// `gap`, upwards when the popover hangs by a bottom corner.
pub fn popover_offset_y(corner: Anchor, gap: i64) -> (r: i64)
    requires
        gap > i64::MIN,
    ensures
        r == (if is_bottom(corner) { -gap } else { gap as int }),
{
    match corner {
        Anchor::BottomLeft | Anchor::BottomRight => -gap,
        _ => gap,
    }
}

/// The tallest panel a context menu may show: the room between the popover
/// edge and the window margin, less the menu chrome, never negative.
pub open spec fn max_panel_height(
    corner: Anchor,
    anchor_y: int,
    gap: int,
    window_h: int,
    margin: int,
    chrome: int,
) -> int {
    let edge = if is_bottom(corner) { anchor_y - gap } else { anchor_y + gap };
    let room = if is_bottom(corner) { edge - margin } else { window_h - margin - edge };
    let room = if room > 0 { room } else { 0 };
    if room - chrome > 0 { room - chrome } else { 0 }
}

pub fn context_menu_max_panel_height(
    corner: Anchor,
    anchor_y: i32,
    gap: i32,
    window_h: i32,
    margin: i32,
    chrome: i32,
) -> (r: i64)
    ensures
        r == max_panel_height(corner, anchor_y as int, gap as int, window_h as int, margin as int, chrome as int),
        r >= 0,
{
    let bottom = match corner {
        Anchor::BottomLeft | Anchor::BottomRight => true,
        _ => false,
    };
    let anchor_y = anchor_y as i64;
    let gap = gap as i64;
    let edge = if bottom { anchor_y - gap } else { anchor_y + gap };
    let room = if bottom { edge - margin as i64 } else { window_h as i64 - margin as i64 - edge };
    let room = if room > 0 { room } else { 0 };
    if room - chrome as i64 > 0 { room - chrome as i64 } else { 0 }
}

/// Where a popover is anchored.
#[derive(Clone, Copy, Debug, PartialEq, Eq, Structural)]
pub enum PopoverAnchor {
    Point { x: i32, y: i32 },
    Bounds { x: i32, y: i32, w: i32, h: i32 },
    Centered,
}

/// The point the given corner of the popover is placed at: a point anchor
/// is used as it is; a bounds anchor offers the corner of the bounds that
/// lets the popover open outwards; a centered popover has no anchor point.
pub open spec fn anchor_point(anchor: PopoverAnchor, corner: Anchor) -> (int, int) {
    match anchor {
        PopoverAnchor::Point { x, y } => (x as int, y as int),
        PopoverAnchor::Bounds { x, y, w, h } => match corner {
            Anchor::TopRight => (x + w, y + h),
            Anchor::BottomLeft => (x as int, y as int),
            Anchor::BottomRight => (x + w, y as int),
            Anchor::TopLeft => (x as int, y + h),
        },
        PopoverAnchor::Centered => (0, 0),
    }
}

pub fn popover_anchor_point(anchor: PopoverAnchor, corner: Anchor) -> (r: (i64, i64))
    ensures
        (r.0 as int, r.1 as int) == anchor_point(anchor, corner),
{
    match anchor {
        PopoverAnchor::Point { x, y } => (x as i64, y as i64),
        PopoverAnchor::Bounds { x, y, w, h } => match corner {
            Anchor::TopRight => (x as i64 + w as i64, y as i64 + h as i64),
            Anchor::BottomLeft => (x as i64, y as i64),
            Anchor::BottomRight => (x as i64 + w as i64, y as i64),
            Anchor::TopLeft => (x as i64, y as i64 + h as i64),
        },
        PopoverAnchor::Centered => (0, 0),
    }
}


pub open spec fn is_sep(c: char) -> bool {
    c == '/' || c == '\\'
}

/// The text without trailing path separators.
pub open spec fn trim_end_seps(s: Seq<char>) -> Seq<char>
    decreases s.len(),
{
    if s.len() > 0 && is_sep(s.last()) {
        trim_end_seps(s.drop_last())
    } else {
        s
    }
}

/// The part after the last path separator (all of it when there is none).
pub open spec fn last_segment(s: Seq<char>) -> Seq<char>
    decreases s.len(),
{
    if s.len() == 0 {
        s
    } else if is_sep(s.last()) {
        Seq::empty()
    } else {
        last_segment(s.drop_last()).push(s.last())
    }
}

/// The text without one trailing `.git`.
pub open spec fn strip_git_suffix(s: Seq<char>) -> Seq<char> {
    if s.len() >= 4 && s.subrange(s.len() - 4, s.len() as int) == ".git"@ {
        s.subrange(0, s.len() - 4)
    } else {
        s
    }
}

/// The folder name a clone of `url` gets: the last path segment of the
/// trimmed URL without trailing separators, without `.git`, trimmed again;
/// `repo` when that leaves nothing.
pub open spec fn repo_name_from_url(url: Seq<char>) -> Seq<char> {
    let name = trim(strip_git_suffix(last_segment(trim_end_seps(trim(url)))));
    if name.len() == 0 {
        "repo"@
    } else {
        name
    }
}

pub fn clone_repo_name_from_url(url: &str) -> (r: String)
    ensures
        r@ == repo_name_from_url(url@),
{
    let v = chars_of(url);
    let (a, mut b) = trim_bounds(&v, 0, v.len());
    assert(v@.subrange(0, v@.len() as int) =~= url@);
    while b > a && (v[b - 1] == '/' || v[b - 1] == '\\')
        invariant
            a <= b <= v@.len(),
            trim_end_seps(trim(url@)) == trim_end_seps(v@.subrange(a as int, b as int)),
        decreases b - a,
    {
        assert(v@.subrange(a as int, b as int).drop_last() =~= v@.subrange(a as int, b - 1));
        b = b - 1;
    }
    let ghost stripped = v@.subrange(a as int, b as int);
    assert(trim_end_seps(stripped) == stripped);
    let mut c = b;
    while c > a && !(v[c - 1] == '/' || v[c - 1] == '\\')
        invariant
            a <= c <= b <= v@.len(),
            stripped == v@.subrange(a as int, b as int),
            last_segment(stripped) == last_segment(v@.subrange(a as int, c as int)) + v@.subrange(
                c as int,
                b as int,
            ),
        decreases c - a,
    {
        let ghost prev = v@.subrange(a as int, c as int);
        assert(prev.drop_last() =~= v@.subrange(a as int, c - 1));
        assert(last_segment(prev) == last_segment(v@.subrange(a as int, c - 1)).push(v@[c - 1]));
        assert(last_segment(v@.subrange(a as int, c - 1)).push(v@[c - 1]) + v@.subrange(
            c as int,
            b as int,
        ) =~= last_segment(v@.subrange(a as int, c - 1)) + v@.subrange(c - 1, b as int));
        c = c - 1;
    }
    assert(last_segment(v@.subrange(a as int, c as int)) =~= Seq::<char>::empty());
    assert(last_segment(stripped) =~= v@.subrange(c as int, b as int));
    let mut e = b;
    if b - c >= 4 && crate::text::chars_eq_str(&v, b - 4, b, ".git") {
        e = b - 4;
        assert(v@.subrange(c as int, b as int).subrange(b - c - 4, b - c) =~= v@.subrange(
            b - 4,
            b as int,
        ));
        assert(v@.subrange(c as int, b as int).subrange(0, b - c - 4) =~= v@.subrange(
            c as int,
            e as int,
        ));
    } else {
        if b - c >= 4 {
            assert(v@.subrange(c as int, b as int).subrange(b - c - 4, b - c) =~= v@.subrange(
                b - 4,
                b as int,
            ));
        }
    }
    assert(strip_git_suffix(v@.subrange(c as int, b as int)) == v@.subrange(c as int, e as int));
    let (p, q) = trim_bounds(&v, c, e);
    if p == q {
        String::from_str("repo")
    } else {
        let mut out: Vec<char> = Vec::new();
        let mut i = p;
        while i < q
            invariant
                p <= i <= q <= v@.len(),
                out@ == v@.subrange(p as int, i as int),
            decreases q - i,
        {
            out.push(v[i]);
            i = i + 1;
            assert(out@ =~= v@.subrange(p as int, i as int));
        }
        string_of(out)
    }
}

/// A clone's folder name is never empty and never holds a path separator.
pub proof fn repo_name_is_a_single_segment(url: Seq<char>)
    ensures
        repo_name_from_url(url).len() > 0,
        forall|i: int|
            0 <= i < repo_name_from_url(url).len() ==> !is_sep(#[trigger] repo_name_from_url(url)[i]),
{
    reveal_strlit("repo");
    let seg = last_segment(trim_end_seps(trim(url)));
    lemma_last_segment_has_no_sep(trim_end_seps(trim(url)));
    let stripped = strip_git_suffix(seg);
    assert forall|i: int| 0 <= i < stripped.len() implies !is_sep(#[trigger] stripped[i]) by {
        if seg.len() >= 4 && seg.subrange(seg.len() - 4, seg.len() as int) == ".git"@ {
            assert(stripped[i] == seg[i]);
        }
    }
    lemma_trim_is_infix(stripped);
}

/// Whitespace around the URL and separators after it do not change the
/// clone's folder name, and the name has no whitespace at either end.
pub proof fn clone_name_ignores_surroundings(url: Seq<char>)
    ensures
        repo_name_from_url(trim(url)) == repo_name_from_url(url),
        repo_name_from_url(trim(url).push('/')) == repo_name_from_url(url),
        repo_name_from_url(trim(url).push('\\')) == repo_name_from_url(url),
        trim(repo_name_from_url(url)) == repo_name_from_url(url),
{
    let t = trim(url);
    lemma_trim_is_trimmed(url);
    lemma_trailing_sep_is_trimmed(t, '/');
    lemma_trailing_sep_is_trimmed(t, '\\');
    assert(t.push('/').drop_last() =~= t);
    assert(t.push('\\').drop_last() =~= t);
    let name = trim(strip_git_suffix(last_segment(trim_end_seps(t))));
    lemma_trim_is_trimmed(strip_git_suffix(last_segment(trim_end_seps(t))));
    if name.len() == 0 {
        reveal_strlit("repo");
        lemma_trimmed_is_fixed("repo"@);
    }
}

proof fn lemma_trailing_sep_is_trimmed(t: Seq<char>, c: char)
    requires
        is_trimmed(t),
        is_sep(c),
    ensures
        trim(t.push(c)) == t.push(c),
{
    let u = t.push(c);
    assert(u.last() == c);
    if t.len() > 0 {
        assert(u[0] == t[0]);
    }
    lemma_trimmed_is_fixed(u);
}

proof fn lemma_last_segment_has_no_sep(s: Seq<char>)
    ensures
        forall|i: int| 0 <= i < last_segment(s).len() ==> !is_sep(#[trigger] last_segment(s)[i]),
    decreases s.len(),
{
    if s.len() > 0 && !is_sep(s.last()) {
        lemma_last_segment_has_no_sep(s.drop_last());
        let prev = last_segment(s.drop_last());
        assert forall|i: int| 0 <= i < last_segment(s).len() implies !is_sep(
            #[trigger] last_segment(s)[i],
        ) by {
            if i < prev.len() {
                assert(last_segment(s)[i] == prev[i]);
            }
        }
    }
}


/// Load state of a piece of repository data.
#[derive(Clone, Copy, Debug, PartialEq, Eq, Structural)]
pub enum LoadState {
    NotLoaded,
    Loading,
    Ready,
    Error,
}

/// What the popover host reads of an open repository.
#[derive(Clone, Debug)]
pub struct RepoLoadStatus {
    pub id: u64,
    pub tags: LoadState,
    pub remote_tags: LoadState,
    pub recent_commit_messages: LoadState,
    /// The checked-out branch, when it has loaded.
    pub head_branch: Option<String>,
}

/// Text inputs that prompts reset or focus when they open.
#[derive(Clone, Copy, Debug, PartialEq, Eq, Structural)]
pub enum PromptInput {
    CreateBranch,
    StashMessage,
    CommitMessage,
    CloneRepoUrl,
    CloneRepoParentDir,
    CreateTag,
    CreateTagMessage,
    RemoteName,
    RemoteUrl,
    RemoteUrlEdit,
    WorktreePath,
    SubmoduleUrl,
    SubmodulePath,
    SubmoduleBranch,
    SubmoduleName,
    SubmoduleRef,
    PushUpstreamBranch,
}

/// Work that opening a popover asks of the window, the inputs and the store.
#[derive(Clone, Debug)]
pub enum PopoverEffect {
    ClearActiveContextMenuInvoker,
    LoadRecentCommitMessages { repo_id: u64, limit: usize },
    LoadTags { repo_id: u64 },
    LoadRemoteTags { repo_id: u64 },
    FocusContextMenu,
    EnsureRepoPickerSearch,
    LoadRecentRepos,
    EnsureRecentRepoPickerSearch,
    EnsureBranchPickerSearch,
    SetBranchPickerSearchText { text: String },
    ClearTruncatedTooltip,
    /// Apply the theme and set the text, first dropping pending key presses
    /// when `clear_key_presses` holds.
    ResetInput { input: PromptInput, text: String, clear_key_presses: bool },
    /// Apply the theme and empty the text, first dropping pending key
    /// presses when `clear_key_presses` holds.
    ClearInput { input: PromptInput, clear_key_presses: bool },
    /// Apply the theme and keep the text, first dropping pending key presses
    /// when `clear_key_presses` holds.
    RefreshInput { input: PromptInput, clear_key_presses: bool },
    /// Set the input to the URL of the remote being edited.
    ResetInputToRemoteUrl,
    Focus { input: PromptInput },
    EnsureStashPickerSearch,
    EnsureWorktreePickerSearch,
    LoadWorktrees { repo_id: u64 },
    EnsureSubmodulePickerSearch,
    LoadSubmodules { repo_id: u64 },
    EnsureFileHistorySearch,
    LoadFileHistory { repo_id: u64, limit: usize },
    FocusPromptTabGroup,
    SyncTitlebarAppMenu { open: bool },
}

pub fn find_repo(repos: &Vec<RepoLoadStatus>, id: u64) -> (r: Option<usize>)
    ensures
        match r {
            Some(i) => i < repos@.len() && repos@[i as int].id == id && forall|j: int|
                0 <= j < i ==> repos@[j].id != id,
            None => forall|j: int| 0 <= j < repos@.len() ==> repos@[j].id != id,
        },
{
    let mut i: usize = 0;
    while i < repos.len()
        invariant
            i <= repos@.len(),
            forall|j: int| 0 <= j < i ==> repos@[j].id != id,
        decreases repos@.len() - i,
    {
        if repos[i].id == id {
            return Some(i);
        }
        i = i + 1;
    }
    None
}

pub open spec fn needs_load(s: LoadState) -> bool {
    s == LoadState::NotLoaded || s == LoadState::Error
}

/// Data some menus load lazily when they open: recent commit messages for
/// the previous-messages menu, local and remote tags for the tag menus,
/// each only when it has not loaded yet or failed, and only for a
/// repository that is open.
pub open spec fn lazy_load_effects(kind: PopoverKind, repos: Seq<RepoLoadStatus>) -> Seq<PopoverEffect> {
    let repo_id: Option<u64> = match kind {
        PopoverKind::TagMenu { repo_id } | PopoverKind::TagRefMenu { repo_id } => Some(repo_id),
        PopoverKind::PreviousCommitMessagesMenu { repo_id } => Some(repo_id),
        _ => None,
    };
    match repo_id {
        None => Seq::empty(),
        Some(id) => {
            if exists|i: int| 0 <= i < repos.len() && repos[i].id == id {
                let repo = repos[choose|i: int| 0 <= i < repos.len() && repos[i].id == id && forall|j: int| 0 <= j < i ==> repos[j].id != id];
                if kind is PreviousCommitMessagesMenu {
                    if needs_load(repo.recent_commit_messages) {
                        seq![PopoverEffect::LoadRecentCommitMessages { repo_id: id, limit: 10 }]
                    } else {
                        Seq::empty()
                    }
                } else {
                    (if needs_load(repo.tags) { seq![PopoverEffect::LoadTags { repo_id: id }] } else { Seq::empty() })
                    + (if needs_load(repo.remote_tags) { seq![PopoverEffect::LoadRemoteTags { repo_id: id }] } else { Seq::empty() })
                }
            } else {
                Seq::empty()
            }
        },
    }
}

fn request_lazy_popover_repo_data(kind: &PopoverKind, repos: &Vec<RepoLoadStatus>, out: &mut Vec<PopoverEffect>)
    ensures
        final(out)@ == old(out)@ + lazy_load_effects(*kind, repos@),
{
    let repo_id = match kind {
        PopoverKind::TagMenu { repo_id } | PopoverKind::TagRefMenu { repo_id } => Some(*repo_id),
        PopoverKind::PreviousCommitMessagesMenu { repo_id } => Some(*repo_id),
        _ => None,
    };
    let Some(repo_id) = repo_id else {
        assert(lazy_load_effects(*kind, repos@) =~= Seq::<PopoverEffect>::empty());
        assert(out@ =~= old(out)@ + lazy_load_effects(*kind, repos@));
        return;
    };
    let ix = find_repo(repos, repo_id);
    let Some(ix) = ix else {
        assert(lazy_load_effects(*kind, repos@) =~= Seq::<PopoverEffect>::empty());
        assert(out@ =~= old(out)@ + lazy_load_effects(*kind, repos@));
        return;
    };
    proof {
        let c = choose|i: int| 0 <= i < repos@.len() && repos@[i].id == repo_id && forall|j: int| 0 <= j < i ==> repos@[j].id != repo_id;
        assert(c == ix as int) by {
            if c < ix as int {
            } else if c > ix as int {
            }
        }
    }
    let repo = &repos[ix];
    if let PopoverKind::PreviousCommitMessagesMenu { .. } = kind {
        if repo.recent_commit_messages == LoadState::NotLoaded || repo.recent_commit_messages == LoadState::Error {
            out.push(PopoverEffect::LoadRecentCommitMessages { repo_id, limit: 10 });
        }
        assert(out@ =~= old(out)@ + lazy_load_effects(*kind, repos@));
        return;
    }
    let ghost mid = out@;
    if repo.tags == LoadState::NotLoaded || repo.tags == LoadState::Error {
        out.push(PopoverEffect::LoadTags { repo_id });
    }
    let ghost mid2 = out@;
    if repo.remote_tags == LoadState::NotLoaded || repo.remote_tags == LoadState::Error {
        out.push(PopoverEffect::LoadRemoteTags { repo_id });
    }
    assert(out@ =~= old(out)@ + lazy_load_effects(*kind, repos@));
}


pub open spec fn clear(input: PromptInput, clear_key_presses: bool) -> PopoverEffect {
    PopoverEffect::ClearInput { input, clear_key_presses }
}

pub open spec fn focus(input: PromptInput) -> PopoverEffect {
    PopoverEffect::Focus { input }
}

/// The upstream branch a push prompt suggests: the repository's checked-out
/// branch when it is known and not empty.
pub open spec fn upstream_suggestion(repos: Seq<RepoLoadStatus>, id: u64) -> Option<String> {
    if exists|i: int| 0 <= i < repos.len() && repos[i].id == id {
        let repo = repos[choose|i: int| 0 <= i < repos.len() && repos[i].id == id && forall|j: int| 0 <= j < i ==> repos[j].id != id];
        match repo.head_branch {
            Some(h) => if h@.len() > 0 { Some(h) } else { None },
            None => None,
        }
    } else {
        None
    }
}

/// What opening a repository-scoped prompt or picker asks for.
pub open spec fn repo_prompt_open_effects(repo_id: u64, kind: RepoPopoverKind) -> Seq<PopoverEffect> {
match kind {
        RepoPopoverKind::Remote(RemotePopoverKind::AddPrompt) => seq![
            clear(PromptInput::RemoteName, false),
            clear(PromptInput::RemoteUrl, false),
            focus(PromptInput::RemoteName),
        ],
        RepoPopoverKind::Remote(RemotePopoverKind::EditUrlPrompt) => seq![
            PopoverEffect::ResetInputToRemoteUrl,
            focus(PromptInput::RemoteUrlEdit),
        ],
        RepoPopoverKind::Worktree(WorktreePopoverKind::AddPrompt) => seq![
            clear(PromptInput::WorktreePath, false),
            PopoverEffect::EnsureBranchPickerSearch,
            focus(PromptInput::WorktreePath),
        ],
        RepoPopoverKind::Worktree(WorktreePopoverKind::OpenPicker)
        | RepoPopoverKind::Worktree(WorktreePopoverKind::RemovePicker) => seq![
            PopoverEffect::EnsureWorktreePickerSearch,
            PopoverEffect::LoadWorktrees { repo_id },
        ],
        RepoPopoverKind::Submodule(SubmodulePopoverKind::AddPrompt) => seq![
            clear(PromptInput::SubmoduleUrl, false),
            clear(PromptInput::SubmodulePath, false),
            clear(PromptInput::SubmoduleBranch, false),
            clear(PromptInput::SubmoduleName, false),
            focus(PromptInput::SubmoduleUrl),
        ],
        RepoPopoverKind::Submodule(SubmodulePopoverKind::ChangePointerPrompt) => seq![
            clear(PromptInput::SubmoduleRef, false),
            focus(PromptInput::SubmoduleRef),
        ],
        RepoPopoverKind::Submodule(SubmodulePopoverKind::TrustConfirm) => Seq::empty(),
        RepoPopoverKind::Submodule(SubmodulePopoverKind::OpenPicker)
        | RepoPopoverKind::Submodule(SubmodulePopoverKind::RemovePicker) => seq![
            PopoverEffect::EnsureSubmodulePickerSearch,
            PopoverEffect::LoadSubmodules { repo_id },
        ],
        RepoPopoverKind::Remote(RemotePopoverKind::RemoveConfirm)
        | RepoPopoverKind::Remote(RemotePopoverKind::DeleteBranchConfirm)
        | RepoPopoverKind::Worktree(WorktreePopoverKind::RemoveConfirm)
        | RepoPopoverKind::Submodule(SubmodulePopoverKind::RemoveConfirm) => seq![PopoverEffect::FocusPromptTabGroup],
        _ => Seq::empty(),
    }
}

/// What opening a popover that is not a context menu asks for, by kind:
/// the search inputs pickers need, the data they load, the prompt inputs
/// that are reset and the one that takes focus.
pub open spec fn prompt_open_effects(kind: PopoverKind, repos: Seq<RepoLoadStatus>) -> Seq<PopoverEffect> {
    match kind {
        PopoverKind::RepoPicker => seq![PopoverEffect::EnsureRepoPickerSearch],
        PopoverKind::RecentRepositoryPicker => seq![PopoverEffect::LoadRecentRepos, PopoverEffect::EnsureRecentRepoPickerSearch],
        PopoverKind::BranchPicker { .. } => seq![PopoverEffect::EnsureBranchPickerSearch],
        PopoverKind::CreateBranchFromRefPrompt { target, source_selectable, .. } =>
            (if source_selectable {
                seq![PopoverEffect::EnsureBranchPickerSearch, PopoverEffect::SetBranchPickerSearchText { text: target }]
            } else {
                Seq::empty()
            }) + seq![clear(PromptInput::CreateBranch, true), focus(PromptInput::CreateBranch)],
        PopoverKind::CheckoutRemoteBranchPrompt { branch, .. } => seq![
            PopoverEffect::ResetInput { input: PromptInput::CreateBranch, text: branch, clear_key_presses: true },
            focus(PromptInput::CreateBranch),
        ],
        PopoverKind::StashPrompt => seq![clear(PromptInput::StashMessage, true), focus(PromptInput::StashMessage)],
        PopoverKind::CommitPrompt { .. } => seq![clear(PromptInput::CommitMessage, true), focus(PromptInput::CommitMessage)],
        PopoverKind::StashPickerPrompt { .. } => seq![PopoverEffect::EnsureStashPickerSearch],
        PopoverKind::CloneRepo => seq![
            PopoverEffect::RefreshInput { input: PromptInput::CloneRepoUrl, clear_key_presses: true },
            PopoverEffect::RefreshInput { input: PromptInput::CloneRepoParentDir, clear_key_presses: true },
            focus(PromptInput::CloneRepoUrl),
        ],
        PopoverKind::CreateTagPrompt { .. } => seq![
            clear(PromptInput::CreateTag, true),
            clear(PromptInput::CreateTagMessage, false),
            focus(PromptInput::CreateTag),
        ],
        PopoverKind::Repo { repo_id, kind } => repo_prompt_open_effects(repo_id, kind),
        PopoverKind::FileHistory { repo_id } => seq![
            PopoverEffect::EnsureFileHistorySearch,
            PopoverEffect::LoadFileHistory { repo_id, limit: 200 },
        ],
        PopoverKind::PushSetUpstreamPrompt { repo_id } => seq![
            match upstream_suggestion(repos, repo_id) {
                Some(h) => PopoverEffect::ResetInput { input: PromptInput::PushUpstreamBranch, text: h, clear_key_presses: false },
                None => PopoverEffect::RefreshInput { input: PromptInput::PushUpstreamBranch, clear_key_presses: false },
            },
            focus(PromptInput::PushUpstreamBranch),
        ],
        PopoverKind::StashDropConfirm { .. }
        | PopoverKind::ForcePushConfirm { .. }
        | PopoverKind::MergeAbortConfirm { .. }
        | PopoverKind::ConflictSaveStageConfirm { .. }
        | PopoverKind::ForceDeleteBranchConfirm { .. }
        | PopoverKind::ForceRemoveWorktreeConfirm { .. }
        | PopoverKind::DiscardChangesConfirm { .. } => seq![PopoverEffect::FocusPromptTabGroup],
        _ => Seq::empty(),
    }
}


fn repo_prompt_open_effects_of(repo_id: u64, kind: RepoPopoverKind) -> (r: Vec<PopoverEffect>)
    ensures
        r@ == repo_prompt_open_effects(repo_id, kind),
{
    let r = match kind {
        RepoPopoverKind::Remote(RemotePopoverKind::AddPrompt) => vec![
            PopoverEffect::ClearInput { input: PromptInput::RemoteName, clear_key_presses: false },
            PopoverEffect::ClearInput { input: PromptInput::RemoteUrl, clear_key_presses: false },
            PopoverEffect::Focus { input: PromptInput::RemoteName },
        ],
        RepoPopoverKind::Remote(RemotePopoverKind::EditUrlPrompt) => vec![
            PopoverEffect::ResetInputToRemoteUrl,
            PopoverEffect::Focus { input: PromptInput::RemoteUrlEdit },
        ],
        RepoPopoverKind::Worktree(WorktreePopoverKind::AddPrompt) => vec![
            PopoverEffect::ClearInput { input: PromptInput::WorktreePath, clear_key_presses: false },
            PopoverEffect::EnsureBranchPickerSearch,
            PopoverEffect::Focus { input: PromptInput::WorktreePath },
        ],
        RepoPopoverKind::Worktree(WorktreePopoverKind::OpenPicker)
        | RepoPopoverKind::Worktree(WorktreePopoverKind::RemovePicker) => vec![
            PopoverEffect::EnsureWorktreePickerSearch,
            PopoverEffect::LoadWorktrees { repo_id },
        ],
        RepoPopoverKind::Submodule(SubmodulePopoverKind::AddPrompt) => vec![
            PopoverEffect::ClearInput { input: PromptInput::SubmoduleUrl, clear_key_presses: false },
            PopoverEffect::ClearInput { input: PromptInput::SubmodulePath, clear_key_presses: false },
            PopoverEffect::ClearInput { input: PromptInput::SubmoduleBranch, clear_key_presses: false },
            PopoverEffect::ClearInput { input: PromptInput::SubmoduleName, clear_key_presses: false },
            PopoverEffect::Focus { input: PromptInput::SubmoduleUrl },
        ],
        RepoPopoverKind::Submodule(SubmodulePopoverKind::ChangePointerPrompt) => vec![
            PopoverEffect::ClearInput { input: PromptInput::SubmoduleRef, clear_key_presses: false },
            PopoverEffect::Focus { input: PromptInput::SubmoduleRef },
        ],
        RepoPopoverKind::Submodule(SubmodulePopoverKind::TrustConfirm) => vec![],
        RepoPopoverKind::Submodule(SubmodulePopoverKind::OpenPicker)
        | RepoPopoverKind::Submodule(SubmodulePopoverKind::RemovePicker) => vec![
            PopoverEffect::EnsureSubmodulePickerSearch,
            PopoverEffect::LoadSubmodules { repo_id },
        ],
        RepoPopoverKind::Remote(RemotePopoverKind::RemoveConfirm)
        | RepoPopoverKind::Remote(RemotePopoverKind::DeleteBranchConfirm)
        | RepoPopoverKind::Worktree(WorktreePopoverKind::RemoveConfirm)
        | RepoPopoverKind::Submodule(SubmodulePopoverKind::RemoveConfirm) => vec![
            PopoverEffect::FocusPromptTabGroup,
        ],
        _ => vec![],
    };
    assert(r@ =~= repo_prompt_open_effects(repo_id, kind));
    r
}

fn upstream_suggestion_of(repos: &Vec<RepoLoadStatus>, repo_id: u64) -> (r: Option<String>)
    ensures
        r == upstream_suggestion(repos@, repo_id),
{
    match find_repo(repos, repo_id) {
        Some(ix) => {
            proof {
                let c = choose|i: int| 0 <= i < repos@.len() && repos@[i].id == repo_id && forall|j: int| 0 <= j < i ==> repos@[j].id != repo_id;
                assert(c == ix as int) by {
                    if c < ix as int {
                    } else if c > ix as int {
                    }
                }
            }
            match &repos[ix].head_branch {
                Some(h) => {
                    if h.as_str().unicode_len() > 0 {
                        Some(h.clone())
                    } else {
                        None
                    }
                },
                None => None,
            }
        },
        None => None,
    }
}

fn prompt_open_effects_of(kind: &PopoverKind, repos: &Vec<RepoLoadStatus>) -> (r: Vec<PopoverEffect>)
    ensures
        r@ == prompt_open_effects(*kind, repos@),
{
    match kind {
        PopoverKind::RepoPicker => {
            let r = vec![PopoverEffect::EnsureRepoPickerSearch];
            assert(r@ =~= prompt_open_effects(*kind, repos@));
            r
        },
        PopoverKind::RecentRepositoryPicker => {
            let r = vec![PopoverEffect::LoadRecentRepos, PopoverEffect::EnsureRecentRepoPickerSearch];
            assert(r@ =~= prompt_open_effects(*kind, repos@));
            r
        },
        PopoverKind::BranchPicker { .. } => {
            let r = vec![PopoverEffect::EnsureBranchPickerSearch];
            assert(r@ =~= prompt_open_effects(*kind, repos@));
            r
        },
        PopoverKind::CreateBranchFromRefPrompt { target, source_selectable, .. } => {
            let mut r: Vec<PopoverEffect> = Vec::new();
            if *source_selectable {
                r.push(PopoverEffect::EnsureBranchPickerSearch);
                r.push(PopoverEffect::SetBranchPickerSearchText { text: target.clone() });
            }
            r.push(PopoverEffect::ClearInput { input: PromptInput::CreateBranch, clear_key_presses: true });
            r.push(PopoverEffect::Focus { input: PromptInput::CreateBranch });
            assert(r@ =~= prompt_open_effects(*kind, repos@));
            r
        },
        PopoverKind::CheckoutRemoteBranchPrompt { branch, .. } => {
            let r = vec![
                PopoverEffect::ResetInput { input: PromptInput::CreateBranch, text: branch.clone(), clear_key_presses: true },
                PopoverEffect::Focus { input: PromptInput::CreateBranch },
            ];
            assert(r@ =~= prompt_open_effects(*kind, repos@));
            r
        },
        PopoverKind::StashPrompt => {
            let r = vec![
                PopoverEffect::ClearInput { input: PromptInput::StashMessage, clear_key_presses: true },
                PopoverEffect::Focus { input: PromptInput::StashMessage },
            ];
            assert(r@ =~= prompt_open_effects(*kind, repos@));
            r
        },
        PopoverKind::CommitPrompt { .. } => {
            let r = vec![
                PopoverEffect::ClearInput { input: PromptInput::CommitMessage, clear_key_presses: true },
                PopoverEffect::Focus { input: PromptInput::CommitMessage },
            ];
            assert(r@ =~= prompt_open_effects(*kind, repos@));
            r
        },
        PopoverKind::StashPickerPrompt { .. } => {
            let r = vec![PopoverEffect::EnsureStashPickerSearch];
            assert(r@ =~= prompt_open_effects(*kind, repos@));
            r
        },
        PopoverKind::CloneRepo => {
            let r = vec![
                PopoverEffect::RefreshInput { input: PromptInput::CloneRepoUrl, clear_key_presses: true },
                PopoverEffect::RefreshInput { input: PromptInput::CloneRepoParentDir, clear_key_presses: true },
                PopoverEffect::Focus { input: PromptInput::CloneRepoUrl },
            ];
            assert(r@ =~= prompt_open_effects(*kind, repos@));
            r
        },
        PopoverKind::CreateTagPrompt { .. } => {
            let r = vec![
                PopoverEffect::ClearInput { input: PromptInput::CreateTag, clear_key_presses: true },
                PopoverEffect::ClearInput { input: PromptInput::CreateTagMessage, clear_key_presses: false },
                PopoverEffect::Focus { input: PromptInput::CreateTag },
            ];
            assert(r@ =~= prompt_open_effects(*kind, repos@));
            r
        },
        PopoverKind::Repo { repo_id, kind: repo_kind } => {
            repo_prompt_open_effects_of(*repo_id, *repo_kind)
        },
        PopoverKind::FileHistory { repo_id } => {
            let r = vec![
                PopoverEffect::EnsureFileHistorySearch,
                PopoverEffect::LoadFileHistory { repo_id: *repo_id, limit: 200 },
            ];
            assert(r@ =~= prompt_open_effects(*kind, repos@));
            r
        },
        PopoverKind::PushSetUpstreamPrompt { repo_id } => {
            let first = match upstream_suggestion_of(repos, *repo_id) {
                Some(h) => PopoverEffect::ResetInput { input: PromptInput::PushUpstreamBranch, text: h, clear_key_presses: false },
                None => PopoverEffect::RefreshInput { input: PromptInput::PushUpstreamBranch, clear_key_presses: false },
            };
            let r = vec![first, PopoverEffect::Focus { input: PromptInput::PushUpstreamBranch }];
            assert(r@ =~= prompt_open_effects(*kind, repos@));
            r
        },
        PopoverKind::StashDropConfirm { .. }
        | PopoverKind::ForcePushConfirm { .. }
        | PopoverKind::MergeAbortConfirm { .. }
        | PopoverKind::ConflictSaveStageConfirm { .. }
        | PopoverKind::ForceDeleteBranchConfirm { .. }
        | PopoverKind::ForceRemoveWorktreeConfirm { .. }
        | PopoverKind::DiscardChangesConfirm { .. } => {
            let r = vec![PopoverEffect::FocusPromptTabGroup];
            assert(r@ =~= prompt_open_effects(*kind, repos@));
            r
        },
        _ => {
            let r: Vec<PopoverEffect> = vec![];
            assert(r@ =~= prompt_open_effects(*kind, repos@));
            r
        },
    }
}

/// Popovers opened from a context-menu row that keep that row highlighted.
pub open spec fn keeps_active_invoker(kind: PopoverKind) -> bool {
    is_context_menu_kind(kind) || match kind {
        PopoverKind::CreateBranchFromRefPrompt { .. }
        | PopoverKind::StashPrompt
        | PopoverKind::CommitPrompt { .. }
        | PopoverKind::StashPickerPrompt { .. } => true,
        _ => false,
    }
}

/// Everything opening a popover asks for, in order: the truncated-text
/// tooltip goes away, lazily loaded menu data is requested, the invoking
/// row loses its highlight unless the popover keeps it, the context menu or
/// the prompt is prepared, and the title bar learns whether the app menu is
/// open.
pub open spec fn open_effects(kind: PopoverKind, repos: Seq<RepoLoadStatus>) -> Seq<PopoverEffect> {
    seq![PopoverEffect::ClearTruncatedTooltip] + lazy_load_effects(kind, repos) + (if keeps_active_invoker(kind) {
        Seq::empty()
    } else {
        seq![PopoverEffect::ClearActiveContextMenuInvoker]
    }) + (if is_context_menu_kind(kind) {
        seq![PopoverEffect::FocusContextMenu]
    } else {
        prompt_open_effects(kind, repos)
    }) + seq![PopoverEffect::SyncTitlebarAppMenu { open: kind is AppMenu }]
}

/// Opening a tag menu for an open repository asks for its local and its
/// remote tags, each when it has not loaded yet or failed to.
pub proof fn tag_menus_load_missing_tags(kind: PopoverKind, repos: Seq<RepoLoadStatus>, i: int)
    requires
        kind matches PopoverKind::TagMenu { .. } || kind matches PopoverKind::TagRefMenu { .. },
        0 <= i < repos.len(),
        repos[i].id == (match kind {
            PopoverKind::TagMenu { repo_id } => repo_id,
            PopoverKind::TagRefMenu { repo_id } => repo_id,
            _ => 0,
        }),
        forall|j: int| 0 <= j < i ==> repos[j].id != repos[i].id,
    ensures
        repos[i].tags == LoadState::NotLoaded || repos[i].tags == LoadState::Error ==> open_effects(
            kind,
            repos,
        ).contains(PopoverEffect::LoadTags { repo_id: repos[i].id }),
        repos[i].remote_tags == LoadState::NotLoaded || repos[i].remote_tags == LoadState::Error ==> open_effects(
            kind,
            repos,
        ).contains(PopoverEffect::LoadRemoteTags { repo_id: repos[i].id }),
{
    let id = repos[i].id;
    let c = choose|c: int| 0 <= c < repos.len() && repos[c].id == id && forall|j: int| 0 <= j < c ==> repos[j].id != id;
    assert(0 <= i < repos.len() && repos[i].id == id && forall|j: int| 0 <= j < i ==> repos[j].id != id);
    assert(c == i) by {
        if c < i {
            assert(repos[c].id != id);
        } else if c > i {
            assert(repos[i].id != id);
        }
    }
    let lazy = lazy_load_effects(kind, repos);
    let all = open_effects(kind, repos);
    let rest = (if keeps_active_invoker(kind) {
        Seq::empty()
    } else {
        seq![PopoverEffect::ClearActiveContextMenuInvoker]
    }) + (if is_context_menu_kind(kind) {
        seq![PopoverEffect::FocusContextMenu]
    } else {
        prompt_open_effects(kind, repos)
    }) + seq![PopoverEffect::SyncTitlebarAppMenu { open: kind is AppMenu }];
    assert(all =~= seq![PopoverEffect::ClearTruncatedTooltip] + lazy + rest);
    let tags: Seq<PopoverEffect> = if needs_load(repos[i].tags) { seq![PopoverEffect::LoadTags { repo_id: id }] } else { Seq::empty() };
    let remote: Seq<PopoverEffect> = if needs_load(repos[i].remote_tags) {
        seq![PopoverEffect::LoadRemoteTags { repo_id: id }]
    } else {
        Seq::empty()
    };
    assert(lazy =~= tags + remote);
    if needs_load(repos[i].tags) {
        assert(all[1] == PopoverEffect::LoadTags { repo_id: id });
    }
    if needs_load(repos[i].remote_tags) {
        assert(all[1 + tags.len() as int] == PopoverEffect::LoadRemoteTags { repo_id: id });
    }
}

/// How a prompt reacted to the dismiss key.
#[derive(Clone, Copy, Debug, PartialEq, Eq, Structural)]
pub enum PromptDismissal {
    /// The popover closed.
    Closed,
    /// The inline prompt closed and focus returns to the diff panel.
    DismissedInline,
    /// Nothing happened.
    Ignored,
}

/// What picking a branch in an inline branch picker did.
#[derive(Clone, Debug)]
pub enum BranchPickerSelection {
    /// The prompt's source ref is now the picked branch.
    SourceChosen { name: String },
    /// Delete the branch; `centered` tells whether the picker was centered.
    DeleteBranch { repo_id: u64, name: String, centered: bool },
    /// Check out the branch.
    CheckoutBranch { repo_id: u64, name: String },
}

/// What the escape key did in an inline branch picker.
#[derive(Clone, Debug)]
pub enum BranchPickerEscape {
    /// The picker's search text goes back to the prompt's source ref.
    ResetSearchText { text: String },
    /// The popover closed.
    Closed,
}

/// The state of the popover host: which popover is open, where, and the
/// selections and toggles its prompts keep while open.
pub struct PopoverHost {
    pub popover: Option<PopoverKind>,
    pub popover_anchor: Option<PopoverAnchor>,
    pub context_menu_selected_ix: Option<usize>,
    pub repo_picker_selected_index: Option<usize>,
    pub recent_repo_picker_selected_index: Option<usize>,
    pub branch_picker_selected_index: Option<usize>,
    pub worktree_picker_selected_index: Option<usize>,
    pub submodule_picker_selected_index: Option<usize>,
    pub file_history_selected_index: Option<usize>,
    pub stash_picker_prompt_selected_index: Option<usize>,
    pub notify_fingerprint: u64,
    pub create_branch_checkout_enabled: bool,
    pub create_branch_source_target: String,
    pub worktree_ref_source_target: String,
    pub create_tag_annotated: bool,
    pub submodule_add_advanced_expanded: bool,
    pub submodule_force_enabled: bool,
    pub commit_amend_enabled: bool,
    pub commit_push_after_enabled: bool,
    pub diff_reveal_whitespace_chars: bool,
    pub diff_word_wrap: bool,
    pub diff_show_line_numbers: bool,
    /// How timestamps are shown.
    pub date_time_format: DateTimeFormat,
    pub timezone: Timezone,
    pub show_timezone: bool,
}

/// The host after closing its popover: no popover, anchor, menu selection
/// or change fingerprint; the rest as it was.
pub open spec fn closed(h: PopoverHost) -> PopoverHost {
    PopoverHost { popover: None, popover_anchor: None, context_menu_selected_ix: None, notify_fingerprint: 0, ..h }
}

/// The host after closing an inline prompt in place: no popover or anchor;
/// the rest, the menu selection and the change fingerprint among it, as it
/// was.
pub open spec fn dismissed_inline(h: PopoverHost) -> PopoverHost {
    PopoverHost { popover: None, popover_anchor: None, ..h }
}

/// How the application shows timestamps.
#[derive(Clone, Copy, Debug, PartialEq, Eq, Structural)]
pub struct DateTimeSettings {
    pub format: DateTimeFormat,
    pub timezone: Timezone,
    pub show_timezone: bool,
}

/// Prompts whose fields take part in tab navigation.
pub open spec fn tab_navigable(kind: PopoverKind) -> bool {
    is_confirm_dialog_kind(kind) || match kind {
        PopoverKind::CreateBranchFromRefPrompt { .. }
        | PopoverKind::CheckoutRemoteBranchPrompt { .. }
        | PopoverKind::StashPrompt
        | PopoverKind::CommitPrompt { .. }
        | PopoverKind::CloneRepo
        | PopoverKind::CreateTagPrompt { .. }
        | PopoverKind::PushSetUpstreamPrompt { .. } => true,
        PopoverKind::Repo { kind, .. } => match kind {
            RepoPopoverKind::Remote(RemotePopoverKind::AddPrompt)
            | RepoPopoverKind::Remote(RemotePopoverKind::EditUrlPrompt)
            | RepoPopoverKind::Worktree(WorktreePopoverKind::AddPrompt)
            | RepoPopoverKind::Submodule(SubmodulePopoverKind::AddPrompt) => true,
            _ => false,
        },
        _ => false,
    }
}

/// How each prompt answers the dismiss key: confirmation dialogs close,
/// inline prompts are dismissed in place, the modal prompts close, and
/// everything else ignores it.
pub open spec fn dismissal_of(kind: PopoverKind) -> PromptDismissal {
    if is_confirm_dialog_kind(kind) {
        PromptDismissal::Closed
    } else {
        match kind {
            PopoverKind::CreateBranchFromRefPrompt { .. }
            | PopoverKind::StashPrompt
            | PopoverKind::CommitPrompt { .. }
            | PopoverKind::StashPickerPrompt { .. } => PromptDismissal::DismissedInline,
            PopoverKind::CloneRepo
            | PopoverKind::RecentRepositoryPicker
            | PopoverKind::CreateTagPrompt { .. }
            | PopoverKind::CheckoutRemoteBranchPrompt { .. }
            | PopoverKind::PushSetUpstreamPrompt { .. } => PromptDismissal::Closed,
            PopoverKind::Repo { kind, .. } => match kind {
                RepoPopoverKind::Remote(RemotePopoverKind::AddPrompt)
                | RepoPopoverKind::Remote(RemotePopoverKind::EditUrlPrompt)
                | RepoPopoverKind::Worktree(WorktreePopoverKind::AddPrompt)
                | RepoPopoverKind::Submodule(SubmodulePopoverKind::AddPrompt) => PromptDismissal::Closed,
                _ => PromptDismissal::Ignored,
            },
            _ => PromptDismissal::Ignored,
        }
    }
}

pub open spec fn is_inline_branch_picker(kind: PopoverKind) -> bool {
    match kind {
        PopoverKind::BranchPicker { .. } => true,
        PopoverKind::CreateBranchFromRefPrompt { source_selectable, .. } => source_selectable,
        PopoverKind::Repo { kind: RepoPopoverKind::Worktree(WorktreePopoverKind::AddPrompt), .. } => true,
        _ => false,
    }
}

pub open spec fn text_is_blank(s: Seq<char>) -> bool {
    trim(s).len() == 0
}

fn is_blank(s: &str) -> (r: bool)
    ensures
        r == text_is_blank(s@),
{
    let v = chars_of(s);
    let (a, b) = trim_bounds(&v, 0, v.len());
    assert(v@.subrange(0, v@.len() as int) =~= s@);
    a == b
}

impl PopoverHost {
    /// A host with nothing open; the diff and commit toggles start from the
    /// given settings.
    pub fn new(
        commit_push_after_enabled: bool,
        diff_reveal_whitespace_chars: bool,
        diff_word_wrap: bool,
        diff_show_line_numbers: bool,
        date_time: DateTimeSettings,
    ) -> (r: Self)
        ensures
            r.popover is None,
            r.popover_anchor is None,
            r.context_menu_selected_ix is None,
            r.notify_fingerprint == 0,
            r.create_branch_checkout_enabled,
            r.create_branch_source_target@ == Seq::<char>::empty(),
            r.worktree_ref_source_target@ == Seq::<char>::empty(),
            !r.create_tag_annotated,
            !r.submodule_add_advanced_expanded,
            !r.submodule_force_enabled,
            !r.commit_amend_enabled,
            r.commit_push_after_enabled == commit_push_after_enabled,
            r.diff_reveal_whitespace_chars == diff_reveal_whitespace_chars,
            r.diff_word_wrap == diff_word_wrap,
            r.diff_show_line_numbers == diff_show_line_numbers,
            r.date_time_format == date_time.format,
            r.timezone == date_time.timezone,
            r.show_timezone == date_time.show_timezone,
            r.repo_picker_selected_index is None,
            r.recent_repo_picker_selected_index is None,
            r.branch_picker_selected_index is None,
            r.worktree_picker_selected_index is None,
            r.submodule_picker_selected_index is None,
            r.file_history_selected_index is None,
            r.stash_picker_prompt_selected_index is None,
    {
        PopoverHost {
            popover: None,
            popover_anchor: None,
            context_menu_selected_ix: None,
            repo_picker_selected_index: None,
            recent_repo_picker_selected_index: None,
            branch_picker_selected_index: None,
            worktree_picker_selected_index: None,
            submodule_picker_selected_index: None,
            file_history_selected_index: None,
            stash_picker_prompt_selected_index: None,
            notify_fingerprint: 0,
            create_branch_checkout_enabled: true,
            create_branch_source_target: String::new(),
            worktree_ref_source_target: String::new(),
            create_tag_annotated: false,
            submodule_add_advanced_expanded: false,
            submodule_force_enabled: false,
            commit_amend_enabled: false,
            commit_push_after_enabled,
            diff_reveal_whitespace_chars,
            diff_word_wrap,
            diff_show_line_numbers,
            date_time_format: date_time.format,
            timezone: date_time.timezone,
            show_timezone: date_time.show_timezone,
        }
    }

    pub fn is_open(&self) -> (r: bool)
        ensures
            r == self.popover is Some,
    {
        self.popover.is_some()
    }

    /// Closes whatever is open and forgets its anchor, menu selection and
    /// change fingerprint.
    pub fn close_popover(&mut self)
        ensures
            *final(self) == closed(*old(self)),
            final(self).popover is None,
            final(self).popover_anchor is None,
            final(self).context_menu_selected_ix is None,
            final(self).notify_fingerprint == 0,
            final(self).create_branch_source_target == old(self).create_branch_source_target,
            final(self).worktree_ref_source_target == old(self).worktree_ref_source_target,
            final(self).branch_picker_selected_index == old(self).branch_picker_selected_index,
    {
        self.popover = None;
        self.popover_anchor = None;
        self.context_menu_selected_ix = None;
        self.notify_fingerprint = 0;
    }

    /// Closes an inline prompt in place, keeping the menu selection and the
    /// change fingerprint.
    pub fn dismiss_inline_popover(&mut self)
        ensures
            *final(self) == dismissed_inline(*old(self)),
            final(self).popover is None,
            final(self).popover_anchor is None,
            final(self).context_menu_selected_ix == old(self).context_menu_selected_ix,
            final(self).notify_fingerprint == old(self).notify_fingerprint,
    {
        self.popover = None;
        self.popover_anchor = None;
    }

    pub fn prompt_tab_navigation_enabled(&self) -> (r: bool)
        ensures
            r == (self.popover matches Some(k) && tab_navigable(k)),
    {
        match &self.popover {
            None => false,
            Some(kind) => {
                let confirm = popover_is_confirm_dialog(kind);
                confirm || match kind {
                    PopoverKind::CreateBranchFromRefPrompt { .. }
                    | PopoverKind::CheckoutRemoteBranchPrompt { .. }
                    | PopoverKind::StashPrompt
                    | PopoverKind::CommitPrompt { .. }
                    | PopoverKind::CloneRepo
                    | PopoverKind::CreateTagPrompt { .. }
                    | PopoverKind::PushSetUpstreamPrompt { .. } => true,
                    PopoverKind::Repo { kind, .. } => match kind {
                        RepoPopoverKind::Remote(RemotePopoverKind::AddPrompt)
                        | RepoPopoverKind::Remote(RemotePopoverKind::EditUrlPrompt)
                        | RepoPopoverKind::Worktree(WorktreePopoverKind::AddPrompt)
                        | RepoPopoverKind::Submodule(SubmodulePopoverKind::AddPrompt) => true,
                        _ => false,
                    },
                    _ => false,
                }
            },
        }
    }

    /// Answers the dismiss key of a prompt.
    pub fn dismiss_prompt_popover(&mut self) -> (r: PromptDismissal)
        ensures
            r == (match old(self).popover {
                Some(k) => dismissal_of(k),
                None => PromptDismissal::Ignored,
            }),
            r == PromptDismissal::Closed ==> final(self).popover is None && final(self).popover_anchor is None
                && final(self).context_menu_selected_ix is None && final(self).notify_fingerprint == 0,
            r == PromptDismissal::DismissedInline ==> final(self).popover is None && final(self).popover_anchor is None
                && final(self).context_menu_selected_ix == old(self).context_menu_selected_ix
                && final(self).notify_fingerprint == old(self).notify_fingerprint,
            r == PromptDismissal::Ignored ==> final(self).popover == old(self).popover
                && final(self).popover_anchor == old(self).popover_anchor,
    {
        let decision = match &self.popover {
            None => PromptDismissal::Ignored,
            Some(kind) => {
                if popover_is_confirm_dialog(kind) {
                    PromptDismissal::Closed
                } else {
                    match kind {
                        PopoverKind::CreateBranchFromRefPrompt { .. }
                        | PopoverKind::StashPrompt
                        | PopoverKind::CommitPrompt { .. }
                        | PopoverKind::StashPickerPrompt { .. } => PromptDismissal::DismissedInline,
                        PopoverKind::CloneRepo
                        | PopoverKind::RecentRepositoryPicker
                        | PopoverKind::CreateTagPrompt { .. }
                        | PopoverKind::CheckoutRemoteBranchPrompt { .. }
                        | PopoverKind::PushSetUpstreamPrompt { .. } => PromptDismissal::Closed,
                        PopoverKind::Repo { kind, .. } => match kind {
                            RepoPopoverKind::Remote(RemotePopoverKind::AddPrompt)
                            | RepoPopoverKind::Remote(RemotePopoverKind::EditUrlPrompt)
                            | RepoPopoverKind::Worktree(WorktreePopoverKind::AddPrompt)
                            | RepoPopoverKind::Submodule(SubmodulePopoverKind::AddPrompt) => PromptDismissal::Closed,
                            _ => PromptDismissal::Ignored,
                        },
                        _ => PromptDismissal::Ignored,
                    }
                }
            },
        };
        match decision {
            PromptDismissal::Closed => self.close_popover(),
            PromptDismissal::DismissedInline => self.dismiss_inline_popover(),
            PromptDismissal::Ignored => {},
        }
        decision
    }

    /// The dismiss key while a prompt is open: the prompts that take part in
    /// tab navigation answer it (`Some`), and the key goes no further; with
    /// any other popover it is left to others (`None`) and nothing changes.
    pub fn dismiss_prompt(&mut self) -> (r: Option<PromptDismissal>)
        ensures
            match old(self).popover {
                Some(k) => if tab_navigable(k) {
                    r == Some(dismissal_of(k))
                } else {
                    r is None
                },
                None => r is None,
            },
            r is None ==> *final(self) == *old(self),
            r == Some(PromptDismissal::Closed) ==> final(self).popover is None && final(self).popover_anchor is None,
            r == Some(PromptDismissal::DismissedInline) ==> final(self).popover is None
                && final(self).popover_anchor is None,
    {
        if !self.prompt_tab_navigation_enabled() {
            return None;
        }
        Some(self.dismiss_prompt_popover())
    }

    pub fn inline_branch_picker_active(&self) -> (r: bool)
        ensures
            r == (self.popover matches Some(k) && is_inline_branch_picker(k)),
    {
        match &self.popover {
            Some(PopoverKind::BranchPicker { .. }) => true,
            Some(PopoverKind::CreateBranchFromRefPrompt { source_selectable, .. }) => *source_selectable,
            Some(PopoverKind::Repo { kind: RepoPopoverKind::Worktree(WorktreePopoverKind::AddPrompt), .. }) => true,
            _ => false,
        }
    }

    /// The repository and start point of the open create-branch prompt: the
    /// chosen source ref when the source is selectable (none while it is
    /// empty), else the prompt's own target.
    pub fn create_branch_prompt_repo_and_target(&self) -> (r: Option<(u64, String)>)
        ensures
            r == (match self.popover {
                Some(PopoverKind::CreateBranchFromRefPrompt { repo_id, target, source_selectable }) => {
                    if source_selectable {
                        if self.create_branch_source_target@.len() == 0 {
                            None
                        } else {
                            Some((repo_id, self.create_branch_source_target))
                        }
                    } else {
                        Some((repo_id, target))
                    }
                },
                _ => None,
            }),
    {
        match &self.popover {
            Some(PopoverKind::CreateBranchFromRefPrompt { repo_id, target, source_selectable }) => {
                if *source_selectable {
                    if self.create_branch_source_target.as_str().unicode_len() == 0 {
                        None
                    } else {
                        Some((*repo_id, self.create_branch_source_target.clone()))
                    }
                } else {
                    Some((*repo_id, target.clone()))
                }
            },
            _ => None,
        }
    }

    /// The create-tag prompt can submit once the tag name is not blank.
    pub fn can_submit_create_tag(&self, tag_name: &str) -> (r: bool)
        ensures
            r == (self.popover matches Some(PopoverKind::CreateTagPrompt { .. }) && !text_is_blank(tag_name@)),
    {
        let open = match &self.popover {
            Some(PopoverKind::CreateTagPrompt { .. }) => true,
            _ => false,
        };
        open && !is_blank(tag_name)
    }

    /// The clone prompt can submit once neither the URL nor the parent
    /// folder is blank.
    pub fn can_submit_clone_repo(&self, url: &str, parent_dir: &str) -> (r: bool)
        ensures
            r == (self.popover matches Some(PopoverKind::CloneRepo) && !text_is_blank(url@) && !text_is_blank(
                parent_dir@,
            )),
    {
        let open = match &self.popover {
            Some(PopoverKind::CloneRepo) => true,
            _ => false,
        };
        open && !is_blank(url) && !is_blank(parent_dir)
    }

    /// The change-pointer prompt can submit once the ref is not blank.
    pub fn can_submit_submodule_change_pointer(&self, reference: &str) -> (r: bool)
        ensures
            r == (self.popover matches Some(
                PopoverKind::Repo { kind: RepoPopoverKind::Submodule(SubmodulePopoverKind::ChangePointerPrompt), .. },
            ) && !text_is_blank(reference@)),
    {
        let open = match &self.popover {
            Some(PopoverKind::Repo { kind: RepoPopoverKind::Submodule(SubmodulePopoverKind::ChangePointerPrompt), .. }) => true,
            _ => false,
        };
        open && !is_blank(reference)
    }

    /// The create-branch prompt can submit once it has a start point and
    /// the branch name is not blank.
    pub fn can_submit_create_branch(&self, name: &str) -> (r: bool)
        ensures
            r == (self.create_branch_prompt_repo_and_target_spec() is Some && !text_is_blank(name@)),
    {
        let target = self.create_branch_prompt_repo_and_target();
        target.is_some() && !is_blank(name)
    }

    pub open spec fn create_branch_prompt_repo_and_target_spec(&self) -> Option<(u64, String)> {
        match self.popover {
            Some(PopoverKind::CreateBranchFromRefPrompt { repo_id, target, source_selectable }) => {
                if source_selectable {
                    if self.create_branch_source_target@.len() == 0 {
                        None
                    } else {
                        Some((repo_id, self.create_branch_source_target))
                    }
                } else {
                    Some((repo_id, target))
                }
            },
            _ => None,
        }
    }

    /// The stash prompt can submit for an active repository once its
    /// message is not blank.
    pub fn can_submit_stash(active_repo_id: Option<u64>, message: &str) -> (r: bool)
        ensures
            r == (active_repo_id is Some && !text_is_blank(message@)),
    {
        active_repo_id.is_some() && !is_blank(message)
    }

    /// The commit prompt can submit for an active repository once its
    /// message is not blank.
    pub fn can_submit_commit_prompt(active_repo_id: Option<u64>, message: &str) -> (r: bool)
        ensures
            r == (active_repo_id is Some && !text_is_blank(message@)),
    {
        active_repo_id.is_some() && !is_blank(message)
    }

    /// The escape key in an inline branch picker: the create-branch and
    /// add-worktree prompts drop the picker selection and restore their
    /// source ref as the search text; anything else closes.
    pub fn handle_inline_branch_picker_escape(&mut self) -> (r: BranchPickerEscape)
        ensures
            match old(self).popover {
                Some(PopoverKind::CreateBranchFromRefPrompt { .. }) => r == (BranchPickerEscape::ResetSearchText {
                    text: old(self).create_branch_source_target,
                }) && final(self).branch_picker_selected_index is None && final(self).popover == old(self).popover,
                Some(PopoverKind::Repo { kind: RepoPopoverKind::Worktree(WorktreePopoverKind::AddPrompt), .. }) => r
                    == (BranchPickerEscape::ResetSearchText { text: old(self).worktree_ref_source_target })
                    && final(self).branch_picker_selected_index is None && final(self).popover == old(self).popover,
                _ => r == BranchPickerEscape::Closed && final(self).popover is None,
            },
    {
        match &self.popover {
            Some(PopoverKind::CreateBranchFromRefPrompt { .. }) => {
                self.branch_picker_selected_index = None;
                BranchPickerEscape::ResetSearchText { text: self.create_branch_source_target.clone() }
            },
            Some(PopoverKind::Repo { kind: RepoPopoverKind::Worktree(WorktreePopoverKind::AddPrompt), .. }) => {
                self.branch_picker_selected_index = None;
                BranchPickerEscape::ResetSearchText { text: self.worktree_ref_source_target.clone() }
            },
            _ => {
                self.close_popover();
                BranchPickerEscape::Closed
            },
        }
    }

    /// Picking a branch in an inline branch picker: the create-branch and
    /// add-worktree prompts take it as their source ref; a delete picker
    /// deletes it and closes; any other picker checks it out and closes.
    pub fn handle_inline_branch_picker_select(&mut self, name: String, repo_id: u64) -> (r: BranchPickerSelection)
        ensures
            match old(self).popover {
                Some(PopoverKind::CreateBranchFromRefPrompt { .. }) => r == (BranchPickerSelection::SourceChosen { name })
                    && final(self).create_branch_source_target == name
                    && final(self).branch_picker_selected_index is None && final(self).popover == old(self).popover,
                Some(PopoverKind::Repo { kind: RepoPopoverKind::Worktree(WorktreePopoverKind::AddPrompt), .. }) => r
                    == (BranchPickerSelection::SourceChosen { name }) && final(self).worktree_ref_source_target == name
                    && final(self).branch_picker_selected_index is None && final(self).popover == old(self).popover,
                Some(PopoverKind::BranchPicker { purpose: BranchPickerPurpose::Delete }) => r
                    == (BranchPickerSelection::DeleteBranch {
                    repo_id,
                    name,
                    centered: old(self).popover_anchor == Some(PopoverAnchor::Centered),
                }) && final(self).popover is None,
                _ => r == (BranchPickerSelection::CheckoutBranch { repo_id, name }) && final(self).popover is None,
            },
    {
        match &self.popover {
            Some(PopoverKind::CreateBranchFromRefPrompt { .. }) => {
                self.create_branch_source_target = name.clone();
                self.branch_picker_selected_index = None;
                BranchPickerSelection::SourceChosen { name }
            },
            Some(PopoverKind::Repo { kind: RepoPopoverKind::Worktree(WorktreePopoverKind::AddPrompt), .. }) => {
                self.worktree_ref_source_target = name.clone();
                self.branch_picker_selected_index = None;
                BranchPickerSelection::SourceChosen { name }
            },
            Some(PopoverKind::BranchPicker { purpose: BranchPickerPurpose::Delete }) => {
                let centered = match self.popover_anchor {
                    Some(PopoverAnchor::Centered) => true,
                    _ => false,
                };
                self.close_popover();
                BranchPickerSelection::DeleteBranch { repo_id, name, centered }
            },
            _ => {
                self.close_popover();
                BranchPickerSelection::CheckoutBranch { repo_id, name }
            },
        }
    }

    /// Opens a popover at an anchor and answers what the window, the inputs
    /// and the store must do for it. `first_selectable` is the first
    /// selectable row of the context menu the kind shows, and
    /// `notify_fingerprint` the change fingerprint of the open popover.
    #[verifier::rlimit(40)]
    pub fn open_popover(
        &mut self,
        kind: PopoverKind,
        anchor: PopoverAnchor,
        repos: &Vec<RepoLoadStatus>,
        default_tag_annotated: bool,
        first_selectable: Option<usize>,
        notify_fingerprint: u64,
    ) -> (r: Vec<PopoverEffect>)
        ensures
            r@ == open_effects(kind, repos@),
            final(self).popover == Some(kind),
            final(self).popover_anchor == Some(anchor),
            final(self).context_menu_selected_ix == (if is_context_menu_kind(kind) {
                first_selectable
            } else {
                None
            }),
            final(self).repo_picker_selected_index is None,
            final(self).recent_repo_picker_selected_index is None,
            final(self).branch_picker_selected_index is None,
            final(self).worktree_picker_selected_index is None,
            final(self).submodule_picker_selected_index is None,
            final(self).file_history_selected_index is None,
            final(self).stash_picker_prompt_selected_index == (if kind is StashPickerPrompt {
                Some(0usize)
            } else {
                old(self).stash_picker_prompt_selected_index
            }),
            final(self).notify_fingerprint == notify_fingerprint,
            final(self).create_branch_checkout_enabled == (kind is CreateBranchFromRefPrompt
                || old(self).create_branch_checkout_enabled),
            final(self).create_branch_source_target == (match kind {
                PopoverKind::CreateBranchFromRefPrompt { target, .. } => target,
                _ => old(self).create_branch_source_target,
            }),
            final(self).create_tag_annotated == (if kind is CreateTagPrompt {
                default_tag_annotated
            } else {
                old(self).create_tag_annotated
            }),
            kind matches PopoverKind::Repo { kind: RepoPopoverKind::Worktree(WorktreePopoverKind::AddPrompt), .. }
                ==> final(self).worktree_ref_source_target@ == Seq::<char>::empty(),
            !(kind matches PopoverKind::Repo { kind: RepoPopoverKind::Worktree(WorktreePopoverKind::AddPrompt), .. })
                ==> final(self).worktree_ref_source_target == old(self).worktree_ref_source_target,
            final(self).submodule_add_advanced_expanded == (!(kind matches PopoverKind::Repo {
                kind: RepoPopoverKind::Submodule(SubmodulePopoverKind::AddPrompt),
                ..
            }) && old(self).submodule_add_advanced_expanded),
            final(self).submodule_force_enabled == (!(kind matches PopoverKind::Repo {
                kind: RepoPopoverKind::Submodule(SubmodulePopoverKind::AddPrompt),
                ..
            }) && old(self).submodule_force_enabled),
    {
        let mut effects: Vec<PopoverEffect> = vec![PopoverEffect::ClearTruncatedTooltip];
        request_lazy_popover_repo_data(&kind, repos, &mut effects);
        let is_context_menu = popover_is_context_menu(&kind);
        let keep_active_invoker = is_context_menu || match &kind {
            PopoverKind::CreateBranchFromRefPrompt { .. }
            | PopoverKind::StashPrompt
            | PopoverKind::CommitPrompt { .. }
            | PopoverKind::StashPickerPrompt { .. } => true,
            _ => false,
        };
        if !keep_active_invoker {
            effects.push(PopoverEffect::ClearActiveContextMenuInvoker);
        }
        let ghost before_body = effects@;
        self.popover_anchor = Some(anchor);
        self.context_menu_selected_ix = None;
        self.repo_picker_selected_index = None;
        self.recent_repo_picker_selected_index = None;
        self.branch_picker_selected_index = None;
        self.worktree_picker_selected_index = None;
        self.submodule_picker_selected_index = None;
        self.file_history_selected_index = None;
        if is_context_menu {
            self.context_menu_selected_ix = first_selectable;
            effects.push(PopoverEffect::FocusContextMenu);
        } else {
            match &kind {
                PopoverKind::CreateBranchFromRefPrompt { target, .. } => {
                    self.create_branch_checkout_enabled = true;
                    self.create_branch_source_target = target.clone();
                },
                PopoverKind::StashPickerPrompt { .. } => {
                    self.stash_picker_prompt_selected_index = Some(0);
                },
                PopoverKind::CreateTagPrompt { .. } => {
                    self.create_tag_annotated = default_tag_annotated;
                },
                PopoverKind::Repo { kind: RepoPopoverKind::Worktree(WorktreePopoverKind::AddPrompt), .. } => {
                    self.worktree_ref_source_target = String::new();
                },
                PopoverKind::Repo { kind: RepoPopoverKind::Submodule(SubmodulePopoverKind::AddPrompt), .. } => {
                    self.submodule_add_advanced_expanded = false;
                    self.submodule_force_enabled = false;
                },
                _ => {},
            }
            let mut body = prompt_open_effects_of(&kind, repos);
            effects.append(&mut body);
        }
        let is_app_menu = match &kind {
            PopoverKind::AppMenu => true,
            _ => false,
        };
        self.popover = Some(kind);
        self.notify_fingerprint = notify_fingerprint;
        effects.push(PopoverEffect::SyncTitlebarAppMenu { open: is_app_menu });
        assert(effects@ =~= open_effects(kind, repos@));
        effects
    }

    /// Records the commit-and-push toggle; the open commit options menu
    /// redraws when it changed.
    pub fn sync_commit_push_after_enabled(&mut self, enabled: bool) -> (notify: bool)
        ensures
            final(self).commit_push_after_enabled == enabled,
            notify == (old(self).commit_push_after_enabled != enabled && old(self).popover matches Some(
                PopoverKind::CommitOptionsMenu { .. },
            )),
            final(self).popover == old(self).popover,
    {
        if self.commit_push_after_enabled == enabled {
            return false;
        }
        self.commit_push_after_enabled = enabled;
        match &self.popover {
            Some(PopoverKind::CommitOptionsMenu { .. }) => true,
            _ => false,
        }
    }

    /// Records the amend toggle; the open commit options menu redraws when
    /// it changed.
    pub fn sync_commit_amend_enabled(&mut self, enabled: bool) -> (notify: bool)
        ensures
            final(self).commit_amend_enabled == enabled,
            notify == (old(self).commit_amend_enabled != enabled && old(self).popover matches Some(
                PopoverKind::CommitOptionsMenu { .. },
            )),
            final(self).popover == old(self).popover,
    {
        if self.commit_amend_enabled == enabled {
            return false;
        }
        self.commit_amend_enabled = enabled;
        match &self.popover {
            Some(PopoverKind::CommitOptionsMenu { .. }) => true,
            _ => false,
        }
    }

    /// Records the whitespace-reveal toggle; the open diff action menu
    /// redraws when it changed.
    pub fn sync_diff_reveal_whitespace_chars(&mut self, next: bool) -> (notify: bool)
        ensures
            final(self).diff_reveal_whitespace_chars == next,
            notify == (old(self).diff_reveal_whitespace_chars != next && old(self).popover matches Some(
                PopoverKind::DiffActionMenu,
            )),
            final(self).popover == old(self).popover,
    {
        if self.diff_reveal_whitespace_chars == next {
            return false;
        }
        self.diff_reveal_whitespace_chars = next;
        match &self.popover {
            Some(PopoverKind::DiffActionMenu) => true,
            _ => false,
        }
    }

    /// Records the word-wrap toggle; the open diff action menu redraws when
    /// it changed.
    pub fn sync_diff_word_wrap(&mut self, next: bool) -> (notify: bool)
        ensures
            final(self).diff_word_wrap == next,
            notify == (old(self).diff_word_wrap != next && old(self).popover matches Some(
                PopoverKind::DiffActionMenu,
            )),
            final(self).popover == old(self).popover,
    {
        if self.diff_word_wrap == next {
            return false;
        }
        self.diff_word_wrap = next;
        match &self.popover {
            Some(PopoverKind::DiffActionMenu) => true,
            _ => false,
        }
    }

    /// Records the line-number toggle; the open diff action menu redraws
    /// when it changed.
    pub fn sync_diff_show_line_numbers(&mut self, next: bool) -> (notify: bool)
        ensures
            final(self).diff_show_line_numbers == next,
            notify == (old(self).diff_show_line_numbers != next && old(self).popover matches Some(
                PopoverKind::DiffActionMenu,
            )),
            final(self).popover == old(self).popover,
    {
        if self.diff_show_line_numbers == next {
            return false;
        }
        self.diff_show_line_numbers = next;
        match &self.popover {
            Some(PopoverKind::DiffActionMenu) => true,
            _ => false,
        }
    }
}

} // verus!

verus! {

/// Every confirmation dialog takes part in prompt tab navigation.
pub proof fn confirm_dialogs_are_tab_navigable(kind: PopoverKind)
    requires
        is_confirm_dialog_kind(kind),
    ensures
        tab_navigable(kind),
        dismissal_of(kind) == PromptDismissal::Closed,
{
}

// ---------------------------------------------------------------------------
// Submitting prompts.
// ---------------------------------------------------------------------------

pub open spec fn ends_with(s: Seq<char>, suffix: Seq<char>) -> bool {
    s.len() >= suffix.len() && s.subrange(s.len() - suffix.len(), s.len() as int) == suffix
}

/// A non-empty path component with no separator that is neither `.` nor
/// `..`.
pub open spec fn plain_component(s: Seq<char>) -> bool {
    &&& s.len() > 0
    &&& s != "."@
    &&& s != ".."@
    &&& forall|i: int| 0 <= i < s.len() ==> !is_sep(#[trigger] s[i])
}

/// `path` is `base` extended by `segment`, with or without one separator
/// between them.
pub open spec fn joined(path: Seq<char>, base: Seq<char>, segment: Seq<char>) -> bool {
    ||| path == base + segment
    ||| exists|c: char| is_sep(c) && path == base + seq![c] + segment
}

/// The text of `Path::new(base).join(segment)`. `Path::join` has no state
/// and reads nothing but its two arguments; how it parses them is the path
/// syntax of the target, so the result is fixed by the two texts on the
/// target the crate is built for.
pub uninterp spec fn path_join(base: Seq<char>, segment: Seq<char>) -> Seq<char>;

/// `Path::join` (std), read back as text: the result is the one that
/// `path_join` names. `PathBuf::push` documents that a
/// relative path is appended, after a separator where one is needed. The
/// contract claims, for a plain component: the joined path ends with it on
/// every platform (on Windows a component with a drive prefix such as
/// `C:` replaces the base instead); and, for one without `:` on a base
/// that does not start with a backslash (so no Windows prefix or verbatim
/// base is involved), that the result is the base, perhaps a separator, and
/// the component. Whether a separator is added, and which one, is the
/// target's, and only the name fixes it.
#[verifier::external_body]
fn join_path(base: &str, segment: &str) -> (r: String)
    ensures
        r@ == path_join(base@, segment@),
        plain_component(segment@) ==> ends_with(r@, segment@),
        plain_component(segment@) && !segment@.contains(':') && !(base@.len() > 0 && base@[0] == '\\') ==> joined(
            r@,
            base@,
            segment@,
        ),
{
    std::path::Path::new(base).join(segment).to_string_lossy().into_owned()
}

/// What a submitted prompt asks the store to do.
#[derive(Clone, Debug)]
pub enum PromptMsg {
    CreateTag { repo_id: u64, name: String, target: String, message: Option<String>, annotated: bool },
    /// Clone `url` into the folder `dest`.
    CloneRepo { url: String, dest: String },
    CreateBranch { repo_id: u64, name: String, target: String, checkout: bool },
    Commit { repo_id: u64, message: String, push_after_commit: bool },
    Stash { repo_id: u64, message: String, include_untracked: bool },
}

impl PopoverHost {
    /// Submits the create-tag prompt with the texts of its name and message
    /// inputs, both trimmed: nothing happens unless the prompt is open and
    /// the name is not blank; an annotated tag carries the message.
    pub fn submit_create_tag(&mut self, name_text: &str, message_text: &str) -> (r: Option<PromptMsg>)
        ensures
            match old(self).popover {
                Some(PopoverKind::CreateTagPrompt { repo_id, target }) => if trim(name_text@).len() == 0 {
                    r is None && *final(self) == *old(self)
                } else {
                    &&& r matches Some(PromptMsg::CreateTag { repo_id: id, name, target: t, message, annotated })
                        && id == repo_id && name@ == trim(name_text@) && t == target && annotated
                        == old(self).create_tag_annotated && (if annotated {
                        message matches Some(m) && m@ == trim(message_text@)
                    } else {
                        message is None
                    })
                    &&& *final(self) == closed(*old(self))
                },
                _ => r is None && *final(self) == *old(self),
            },
    {
        let (repo_id, target) = match &self.popover {
            Some(PopoverKind::CreateTagPrompt { repo_id, target }) => (*repo_id, target.clone()),
            _ => {
                return None;
            },
        };
        let name = trimmed(name_text);
        if name.as_str().unicode_len() == 0 {
            return None;
        }
        let annotated = self.create_tag_annotated;
        let message = if annotated { Some(trimmed(message_text)) } else { None };
        self.close_popover();
        Some(PromptMsg::CreateTag { repo_id, name, target, message, annotated })
    }

    /// Submits the clone prompt: with neither the trimmed URL nor the
    /// trimmed parent folder blank, clone into the parent folder joined with
    /// a folder named after the URL.
    pub fn submit_clone_repo(&mut self, url_text: &str, parent_text: &str) -> (r: Option<PromptMsg>)
        ensures
            if old(self).popover matches Some(PopoverKind::CloneRepo) && trim(url_text@).len() > 0 && trim(
                parent_text@,
            ).len() > 0 {
                &&& r matches Some(PromptMsg::CloneRepo { url, dest }) && url@ == trim(url_text@) && dest@
                    == path_join(trim(parent_text@), repo_name_from_url(trim(url_text@))) && (
                plain_component(repo_name_from_url(trim(url_text@))) ==> ends_with(
                    dest@,
                    repo_name_from_url(trim(url_text@)),
                )) && (plain_component(repo_name_from_url(trim(url_text@))) && !repo_name_from_url(
                    trim(url_text@),
                ).contains(':') && trim(parent_text@)[0] != '\\' ==> joined(
                    dest@,
                    trim(parent_text@),
                    repo_name_from_url(trim(url_text@)),
                ))
                &&& *final(self) == closed(*old(self))
            } else {
                r is None && *final(self) == *old(self)
            },
    {
        match &self.popover {
            Some(PopoverKind::CloneRepo) => {},
            _ => {
                return None;
            },
        }
        let url = trimmed(url_text);
        let parent_dir = trimmed(parent_text);
        if url.as_str().unicode_len() == 0 || parent_dir.as_str().unicode_len() == 0 {
            return None;
        }
        let repo_name = clone_repo_name_from_url(url.as_str());
        let dest = join_path(parent_dir.as_str(), repo_name.as_str());
        self.close_popover();
        Some(PromptMsg::CloneRepo { url, dest })
    }

    /// Submits the create-branch prompt: with a start point and a name that
    /// is not blank, create the branch, checking it out when the prompt's
    /// toggle says so, and dismiss the prompt in place.
    pub fn submit_create_branch(&mut self, name_text: &str) -> (r: Option<PromptMsg>)
        ensures
            match old(self).create_branch_prompt_repo_and_target_spec() {
                Some((repo_id, target)) => if trim(name_text@).len() == 0 {
                    r is None && *final(self) == *old(self)
                } else {
                    &&& r matches Some(PromptMsg::CreateBranch { repo_id: id, name, target: t, checkout }) && id
                        == repo_id && name@ == trim(name_text@) && t == target && checkout
                        == old(self).create_branch_checkout_enabled
                    &&& *final(self) == dismissed_inline(*old(self))
                },
                None => r is None && *final(self) == *old(self),
            },
    {
        let Some((repo_id, target)) = self.create_branch_prompt_repo_and_target() else {
            return None;
        };
        let name = trimmed(name_text);
        if name.as_str().unicode_len() == 0 {
            return None;
        }
        let checkout = self.create_branch_checkout_enabled;
        self.dismiss_inline_popover();
        Some(PromptMsg::CreateBranch { repo_id, name, target, checkout })
    }

    /// Submits the commit prompt with its trimmed message, when it is not
    /// blank; the commit is not pushed.
    pub fn submit_commit_prompt(&mut self, message_text: &str) -> (r: Option<PromptMsg>)
        ensures
            match old(self).popover {
                Some(PopoverKind::CommitPrompt { repo_id }) => if trim(message_text@).len() == 0 {
                    r is None && *final(self) == *old(self)
                } else {
                    &&& r matches Some(PromptMsg::Commit { repo_id: id, message, push_after_commit }) && id
                        == repo_id && message@ == trim(message_text@) && !push_after_commit
                    &&& *final(self) == dismissed_inline(*old(self))
                },
                _ => r is None && *final(self) == *old(self),
            },
    {
        let repo_id = match &self.popover {
            Some(PopoverKind::CommitPrompt { repo_id }) => *repo_id,
            _ => {
                return None;
            },
        };
        let message = trimmed(message_text);
        if message.as_str().unicode_len() == 0 {
            return None;
        }
        self.dismiss_inline_popover();
        Some(PromptMsg::Commit { repo_id, message, push_after_commit: false })
    }

    /// Submits the stash prompt for the active repository with its trimmed
    /// message, when it is not blank; untracked files are stashed too.
    pub fn submit_stash(&mut self, active_repo_id: Option<u64>, message_text: &str) -> (r: Option<PromptMsg>)
        ensures
            match active_repo_id {
                Some(repo_id) => if trim(message_text@).len() == 0 {
                    r is None && *final(self) == *old(self)
                } else {
                    &&& r matches Some(PromptMsg::Stash { repo_id: id, message, include_untracked }) && id
                        == repo_id && message@ == trim(message_text@) && include_untracked
                    &&& *final(self) == dismissed_inline(*old(self))
                },
                None => r is None && *final(self) == *old(self),
            },
    {
        let Some(repo_id) = active_repo_id else {
            return None;
        };
        let message = trimmed(message_text);
        if message.as_str().unicode_len() == 0 {
            return None;
        }
        self.dismiss_inline_popover();
        Some(PromptMsg::Stash { repo_id, message, include_untracked: true })
    }

    /// Closes the popover; answers whether the diff panel takes the focus
    /// back, which it does after the diff settings and diff menus.
    pub fn close_popover_and_restore_focus(&mut self) -> (restore_diff_focus: bool)
        ensures
            restore_diff_focus == (match old(self).popover {
                Some(PopoverKind::ChangeTrackingSettings)
                | Some(PopoverKind::DiffContentModeSettings)
                | Some(PopoverKind::DiffActionMenu)
                | Some(PopoverKind::DiffHunkMenu { .. })
                | Some(PopoverKind::DiffEditorMenu { .. }) => true,
                _ => false,
            }),
            final(self).popover is None,
            final(self).popover_anchor is None,
    {
        let restore = match &self.popover {
            Some(PopoverKind::ChangeTrackingSettings)
            | Some(PopoverKind::DiffContentModeSettings)
            | Some(PopoverKind::DiffActionMenu)
            | Some(PopoverKind::DiffHunkMenu { .. })
            | Some(PopoverKind::DiffEditorMenu { .. }) => true,
            _ => false,
        };
        self.close_popover();
        restore
    }
}

impl PopoverHost {
    /// Takes a timestamp format; answers whether it changed, in which case
    /// the main pane takes it too and the settings are saved.
    pub fn set_date_time_format(&mut self, next: DateTimeFormat) -> (changed: bool)
        ensures
            changed == (old(self).date_time_format != next),
            final(self).date_time_format == next,
            final(self).timezone == old(self).timezone,
            final(self).show_timezone == old(self).show_timezone,
            final(self).popover == old(self).popover,
    {
        if self.date_time_format == next {
            return false;
        }
        self.date_time_format = next;
        true
    }

    /// Takes a time zone; answers whether it changed, in which case the
    /// main pane takes it too and the settings are saved.
    pub fn set_timezone(&mut self, next: Timezone) -> (changed: bool)
        ensures
            changed == (old(self).timezone != next),
            final(self).timezone == next,
            final(self).date_time_format == old(self).date_time_format,
            final(self).show_timezone == old(self).show_timezone,
            final(self).popover == old(self).popover,
    {
        if self.timezone == next {
            return false;
        }
        self.timezone = next;
        true
    }

    /// Takes whether timestamps show their zone; answers whether it
    /// changed, in which case the main pane takes it too and the settings
    /// are saved.
    pub fn set_show_timezone(&mut self, enabled: bool) -> (changed: bool)
        ensures
            changed == (old(self).show_timezone != enabled),
            final(self).show_timezone == enabled,
            final(self).date_time_format == old(self).date_time_format,
            final(self).timezone == old(self).timezone,
            final(self).popover == old(self).popover,
    {
        if self.show_timezone == enabled {
            return false;
        }
        self.show_timezone = enabled;
        true
    }

    /// The timestamp settings the host holds, as they are saved.
    pub fn date_time_settings(&self) -> (r: DateTimeSettings)
        ensures
            r == (DateTimeSettings {
                format: self.date_time_format,
                timezone: self.timezone,
                show_timezone: self.show_timezone,
            }),
    {
        DateTimeSettings { format: self.date_time_format, timezone: self.timezone, show_timezone: self.show_timezone }
    }
}

} // verus!
