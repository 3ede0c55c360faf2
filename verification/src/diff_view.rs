use vstd::prelude::*;

use crate::text::{chars_of, decimal, push_decimal, string_of};
use crate::theme::{ColorRole, ColorSpec, plain, tinted};

verus! {

// ---------------------------------------------------------------------------
// Submodule summaries.
// ---------------------------------------------------------------------------

/// The first twelve characters of a commit id, or all of a shorter one.
pub open spec fn short_hash(commit_id: Seq<char>) -> Seq<char> {
    if commit_id.len() <= 12 { commit_id } else { commit_id.subrange(0, 12) }
}

pub fn short_submodule_hash(commit_id: &str) -> (r: String)
    ensures
        r@ == short_hash(commit_id@),
{
    let n = commit_id.unicode_len();
    let k = if n < 12 { n } else { 12 };
    let r = String::from_str(commit_id.substring_char(0, k));
    assert(r@ =~= short_hash(commit_id@));
    r
}

pub fn short_submodule_hash_opt(commit_id: Option<&str>) -> (r: String)
    ensures
        r@ == (match commit_id {
            Some(c) => short_hash(c@),
            None => "missing"@,
        }),
{
    match commit_id {
        Some(c) => short_submodule_hash(c),
        None => String::from_str("missing"),
    }
}

pub fn full_submodule_hash_opt(commit_id: Option<&str>) -> (r: String)
    ensures
        r@ == (match commit_id {
            Some(c) => c@,
            None => "missing"@,
        }),
{
    match commit_id {
        Some(c) => String::from_str(c),
        None => String::from_str("missing"),
    }
}

/// Which two states of a submodule a range of its summary compares.
#[derive(Clone, Copy, Debug, PartialEq, Eq, Structural)]
pub enum SubmoduleDiffRangeKind {
    StagedPointer,
    UnstagedPointer,
    CommitHistory,
}

pub fn submodule_range_label(kind: SubmoduleDiffRangeKind) -> (r: &'static str)
    ensures
        r@ == (match kind {
            SubmoduleDiffRangeKind::StagedPointer => "Committed -> Index"@,
            SubmoduleDiffRangeKind::UnstagedPointer => "Index -> Checked out"@,
            SubmoduleDiffRangeKind::CommitHistory => "Parent -> Commit"@,
        }),
{
    match kind {
        SubmoduleDiffRangeKind::StagedPointer => "Committed -> Index",
        SubmoduleDiffRangeKind::UnstagedPointer => "Index -> Checked out",
        SubmoduleDiffRangeKind::CommitHistory => "Parent -> Commit",
    }
}

/// How a file inside a submodule changed.
#[derive(Clone, Copy, Debug, PartialEq, Eq, Structural)]
pub enum FileChangeKind {
    Added,
    Modified,
    Deleted,
    Renamed,
    Untracked,
    Conflicted,
}

/// A changed file inside a submodule.
#[derive(Clone, Debug)]
pub struct SubmoduleInnerChange {
    pub path: String,
    pub kind: FileChangeKind,
}

/// The changes between two commits of a submodule; a side is `None` where
/// the submodule had no commit there.
#[derive(Clone, Debug)]
pub struct SubmoduleDiffRange {
    pub kind: SubmoduleDiffRangeKind,
    pub from: Option<String>,
    pub to: Option<String>,
    pub changes: Vec<SubmoduleInnerChange>,
}

/// What changed in a submodule: its commit ranges, then the live changes of
/// its index and of its working tree.
#[derive(Clone, Debug)]
pub struct SubmoduleDiffSummary {
    pub ranges: Vec<SubmoduleDiffRange>,
    pub live_staged: Vec<SubmoduleInnerChange>,
    pub live_unstaged: Vec<SubmoduleInnerChange>,
}

#[derive(Clone, Copy, Debug, PartialEq, Eq, Structural)]
pub enum DiffArea {
    Staged,
    Unstaged,
}

/// What a diff shows.
#[derive(Clone, Debug)]
pub enum DiffTarget {
    WorkingTree { path: String, area: DiffArea },
    Commit { commit_id: String, path: Option<String> },
    CommitRange { from_commit_id: String, to_commit_id: String, path: Option<String> },
}

#[derive(Clone, Copy, Debug, PartialEq, Eq, Structural)]
pub enum InlineSubmoduleDiffSection {
    Range(SubmoduleDiffRangeKind),
    LiveStaged,
    LiveUnstaged,
}

/// A row of the inline submodule diff: a changed file and the diff that
/// opens for it.
#[derive(Clone, Debug)]
pub struct InlineSubmoduleDiffEntry {
    pub path: String,
    pub kind: FileChangeKind,
    pub target: DiffTarget,
    pub section: InlineSubmoduleDiffSection,
}

/// The entries of a range from `from` to `to`: one per change, diffing the
/// two commits at the change's path.
pub open spec fn commit_range_entries(
    from: String,
    to: String,
    kind: SubmoduleDiffRangeKind,
    changes: Seq<SubmoduleInnerChange>,
) -> Seq<InlineSubmoduleDiffEntry> {
    changes.map_values(
        |c: SubmoduleInnerChange|
            InlineSubmoduleDiffEntry {
                path: c.path,
                kind: c.kind,
                target: DiffTarget::CommitRange { from_commit_id: from, to_commit_id: to, path: Some(c.path) },
                section: InlineSubmoduleDiffSection::Range(kind),
            },
    )
}

/// The entries of one range; none where a side of the range is missing.
pub open spec fn range_entries(range: SubmoduleDiffRange) -> Seq<InlineSubmoduleDiffEntry> {
    match (range.from, range.to) {
        (Some(from), Some(to)) => commit_range_entries(from, to, range.kind, range.changes@),
        _ => seq![],
    }
}

pub open spec fn ranges_entries(ranges: Seq<SubmoduleDiffRange>) -> Seq<InlineSubmoduleDiffEntry>
    decreases ranges.len(),
{
    if ranges.len() == 0 {
        seq![]
    } else {
        ranges_entries(ranges.drop_last()) + range_entries(ranges.last())
    }
}

pub open spec fn live_entries(changes: Seq<SubmoduleInnerChange>, area: DiffArea) -> Seq<
    InlineSubmoduleDiffEntry,
> {
    changes.map_values(
        |c: SubmoduleInnerChange|
            InlineSubmoduleDiffEntry {
                path: c.path,
                kind: c.kind,
                target: DiffTarget::WorkingTree { path: c.path, area },
                section: if area == DiffArea::Staged {
                    InlineSubmoduleDiffSection::LiveStaged
                } else {
                    InlineSubmoduleDiffSection::LiveUnstaged
                },
            },
    )
}

/// The rows of the inline submodule diff: the range changes in range order,
/// then the staged and then the unstaged live changes.
pub open spec fn submodule_entries(summary: SubmoduleDiffSummary) -> Seq<InlineSubmoduleDiffEntry> {
    ranges_entries(summary.ranges@) + live_entries(summary.live_staged@, DiffArea::Staged)
        + live_entries(summary.live_unstaged@, DiffArea::Unstaged)
}

fn push_live_entries(out: &mut Vec<InlineSubmoduleDiffEntry>, changes: &Vec<SubmoduleInnerChange>, area: DiffArea)
    ensures
        final(out)@ == old(out)@ + live_entries(changes@, area),
{
    let ghost base = out@;
    let mut i: usize = 0;
    while i < changes.len()
        invariant
            i <= changes@.len(),
            out@ == base + live_entries(changes@.subrange(0, i as int), area),
        decreases changes@.len() - i,
    {
        let c = &changes[i];
        let section = if area == DiffArea::Staged {
            InlineSubmoduleDiffSection::LiveStaged
        } else {
            InlineSubmoduleDiffSection::LiveUnstaged
        };
        out.push(
            InlineSubmoduleDiffEntry {
                path: c.path.clone(),
                kind: c.kind,
                target: DiffTarget::WorkingTree { path: c.path.clone(), area },
                section,
            },
        );
        i = i + 1;
        assert(out@ =~= base + live_entries(changes@.subrange(0, i as int), area));
    }
    assert(changes@.subrange(0, changes@.len() as int) =~= changes@);
}

pub fn inline_submodule_entries(summary: &SubmoduleDiffSummary) -> (r: Vec<InlineSubmoduleDiffEntry>)
    ensures
        r@ == submodule_entries(*summary),
{
    let mut entries: Vec<InlineSubmoduleDiffEntry> = Vec::new();
    let mut ri: usize = 0;
    while ri < summary.ranges.len()
        invariant
            ri <= summary.ranges@.len(),
            entries@ == ranges_entries(summary.ranges@.subrange(0, ri as int)),
        decreases summary.ranges@.len() - ri,
    {
        let range = &summary.ranges[ri];
        let ghost before = entries@;
        match (&range.from, &range.to) {
            (Some(from), Some(to)) => {
                let mut ci: usize = 0;
                while ci < range.changes.len()
                    invariant
                        ci <= range.changes@.len(),
                        range.from == Some(*from),
                        range.to == Some(*to),
                        entries@ == before + commit_range_entries(
                            *from,
                            *to,
                            range.kind,
                            range.changes@.subrange(0, ci as int),
                        ),
                    decreases range.changes@.len() - ci,
                {
                    let c = &range.changes[ci];
                    entries.push(
                        InlineSubmoduleDiffEntry {
                            path: c.path.clone(),
                            kind: c.kind,
                            target: DiffTarget::CommitRange {
                                from_commit_id: from.clone(),
                                to_commit_id: to.clone(),
                                path: Some(c.path.clone()),
                            },
                            section: InlineSubmoduleDiffSection::Range(range.kind),
                        },
                    );
                    ci = ci + 1;
                    assert(entries@ =~= before + commit_range_entries(
                        *from,
                        *to,
                        range.kind,
                        range.changes@.subrange(0, ci as int),
                    ));
                }
                assert(range.changes@.subrange(0, ci as int) =~= range.changes@);
            },
            _ => {},
        }
        proof {
            assert(summary.ranges@.subrange(0, ri + 1).drop_last() =~= summary.ranges@.subrange(0, ri as int));
        }
        ri = ri + 1;
    }
    assert(summary.ranges@.subrange(0, summary.ranges@.len() as int) =~= summary.ranges@);
    push_live_entries(&mut entries, &summary.live_staged, DiffArea::Staged);
    push_live_entries(&mut entries, &summary.live_unstaged, DiffArea::Unstaged);
    entries
}

// ---------------------------------------------------------------------------
// Searching the diff.
// ---------------------------------------------------------------------------

/// How the diff search matches its query.
#[derive(Clone, Copy, Debug, PartialEq, Eq, Structural, Default)]
pub struct DiffSearchOptions {
    pub match_case: bool,
    pub whole_word: bool,
    pub regex: bool,
}

/// Work the diff panel carries out after a change of its search state.
#[derive(Clone, Debug)]
pub enum DiffSearchEffect {
    /// Drop the cached query overlays of diff text for another query or
    /// other options.
    InvalidateQueryOverlayCache { query: String, options: DiffSearchOptions },
    ClearQueryOverlayCache,
    ClearWorktreePreviewSegmentsCache,
    ClearConflictQueryOverlayCaches,
    CancelPendingQueryRecompute,
    RecomputeMatches,
    RecomputeMatchesAndScrollToFirst,
    /// Show the source of a rendered markdown preview, so that the search
    /// runs over text.
    ShowMarkdownSource,
    EnsureFileDiffCache,
    /// Show the text of a rendered conflict preview.
    ShowConflictText,
    FocusSearchInput,
    SelectAllSearchText,
    ClearSearchInput,
    ResetSearchScroll,
    FocusDiffPanel,
    Notify,
}

/// The search state of the main pane's diff panel.
#[derive(Clone, Debug)]
pub struct MainPaneView {
    pub diff_search_active: bool,
    pub diff_search_query: String,
    pub diff_search_options: DiffSearchOptions,
    pub diff_search_regex_error: Option<String>,
    /// The match positions, as row indices.
    pub diff_search_matches: Vec<usize>,
    pub diff_search_match_ix: Option<usize>,
}

/// What the panel shows that the search needs to know.
#[derive(Clone, Copy, Debug, PartialEq, Eq, Structural)]
pub struct DiffSearchSurface {
    pub markdown_preview_active: bool,
    pub wants_file_diff: bool,
    pub conflict_rendered_preview_active: bool,
}

pub open spec fn refresh_effects(query: String, options: DiffSearchOptions) -> Seq<DiffSearchEffect> {
    seq![
        DiffSearchEffect::InvalidateQueryOverlayCache { query, options },
        DiffSearchEffect::ClearWorktreePreviewSegmentsCache,
        DiffSearchEffect::ClearConflictQueryOverlayCaches,
        DiffSearchEffect::CancelPendingQueryRecompute,
        DiffSearchEffect::RecomputeMatchesAndScrollToFirst,
    ]
}

pub open spec fn source_mode_effects(surface: DiffSearchSurface) -> Seq<DiffSearchEffect> {
    (if surface.markdown_preview_active {
        seq![DiffSearchEffect::ShowMarkdownSource] + (if surface.wants_file_diff {
            seq![DiffSearchEffect::EnsureFileDiffCache]
        } else {
            seq![]
        })
    } else {
        seq![]
    }) + (if surface.conflict_rendered_preview_active {
        seq![DiffSearchEffect::ShowConflictText]
    } else {
        seq![]
    })
}

/// What opening the search asks for, after leaving a rendered preview:
/// the caches that depend on the query are dropped, the matches are
/// recomputed (a newly opened search also scrolls to the first one) and the
/// search input takes the focus with its text selected.
pub open spec fn activation_effects(surface: DiffSearchSurface, was_active: bool) -> Seq<DiffSearchEffect> {
    source_mode_effects(surface) + seq![
        DiffSearchEffect::ClearQueryOverlayCache,
        DiffSearchEffect::ClearWorktreePreviewSegmentsCache,
        DiffSearchEffect::ClearConflictQueryOverlayCaches,
        DiffSearchEffect::CancelPendingQueryRecompute,
        if was_active {
            DiffSearchEffect::RecomputeMatches
        } else {
            DiffSearchEffect::RecomputeMatchesAndScrollToFirst
        },
        DiffSearchEffect::FocusSearchInput,
        DiffSearchEffect::SelectAllSearchText,
    ]
}

impl MainPaneView {
    pub fn new() -> (r: MainPaneView)
        ensures
            !r.diff_search_active,
            r.diff_search_query@ == Seq::<char>::empty(),
            r.diff_search_options == (DiffSearchOptions { match_case: false, whole_word: false, regex: false }),
            r.diff_search_regex_error is None,
            r.diff_search_matches@.len() == 0,
            r.diff_search_match_ix is None,
    {
        MainPaneView {
            diff_search_active: false,
            diff_search_query: String::new(),
            diff_search_options: DiffSearchOptions { match_case: false, whole_word: false, regex: false },
            diff_search_regex_error: None,
            diff_search_matches: Vec::new(),
            diff_search_match_ix: None,
        }
    }

    /// After the search options changed: drops what was cached for the old
    /// options and searches again from the first match. The state itself
    /// stays as it is.
    pub fn refresh_diff_search_after_option_change(&self) -> (r: Vec<DiffSearchEffect>)
        ensures
            r@ == refresh_effects(self.diff_search_query, self.diff_search_options),
    {
        let query = self.diff_search_query.clone();
        let r = vec![
            DiffSearchEffect::InvalidateQueryOverlayCache { query, options: self.diff_search_options },
            DiffSearchEffect::ClearWorktreePreviewSegmentsCache,
            DiffSearchEffect::ClearConflictQueryOverlayCaches,
            DiffSearchEffect::CancelPendingQueryRecompute,
            DiffSearchEffect::RecomputeMatchesAndScrollToFirst,
        ];
        assert(r@ =~= refresh_effects(self.diff_search_query, self.diff_search_options));
        r
    }

    /// Takes new search options; searches again only where they differ.
    pub fn set_diff_search_options(&mut self, next: DiffSearchOptions) -> (r: Vec<DiffSearchEffect>)
        ensures
            final(self).diff_search_options == next,
            final(self).diff_search_active == old(self).diff_search_active,
            final(self).diff_search_query == old(self).diff_search_query,
            final(self).diff_search_regex_error == old(self).diff_search_regex_error,
            final(self).diff_search_matches == old(self).diff_search_matches,
            final(self).diff_search_match_ix == old(self).diff_search_match_ix,
            r@ == (if old(self).diff_search_options != next {
                refresh_effects(old(self).diff_search_query, next)
            } else {
                seq![]
            }) + seq![DiffSearchEffect::FocusSearchInput, DiffSearchEffect::Notify],
    {
        let mut effects: Vec<DiffSearchEffect> = Vec::new();
        if self.diff_search_options != next {
            self.diff_search_options = next;
            effects = self.refresh_diff_search_after_option_change();
        }
        let ghost before = effects@;
        effects.push(DiffSearchEffect::FocusSearchInput);
        effects.push(DiffSearchEffect::Notify);
        assert(effects@ =~= before + seq![DiffSearchEffect::FocusSearchInput, DiffSearchEffect::Notify]);
        effects
    }

    /// Shows the text that the search will run over.
    pub fn prepare_source_mode_for_diff_search(&self, surface: DiffSearchSurface) -> (r: Vec<DiffSearchEffect>)
        ensures
            r@ == source_mode_effects(surface),
    {
        let mut effects: Vec<DiffSearchEffect> = Vec::new();
        if surface.markdown_preview_active {
            effects.push(DiffSearchEffect::ShowMarkdownSource);
            if surface.wants_file_diff {
                effects.push(DiffSearchEffect::EnsureFileDiffCache);
            }
        }
        if surface.conflict_rendered_preview_active {
            effects.push(DiffSearchEffect::ShowConflictText);
        }
        assert(effects@ =~= source_mode_effects(surface));
        effects
    }

    /// Opens the search: a search that was already open keeps its place, a
    /// new one scrolls to its first match; the input takes the focus with
    /// its text selected.
    pub fn activate_diff_search(&mut self, surface: DiffSearchSurface) -> (r: Vec<DiffSearchEffect>)
        ensures
            final(self).diff_search_active,
            final(self).diff_search_query == old(self).diff_search_query,
            final(self).diff_search_options == old(self).diff_search_options,
            final(self).diff_search_regex_error == old(self).diff_search_regex_error,
            final(self).diff_search_matches == old(self).diff_search_matches,
            final(self).diff_search_match_ix == old(self).diff_search_match_ix,
            r@ == activation_effects(surface, old(self).diff_search_active),
    {
        let mut effects = self.prepare_source_mode_for_diff_search(surface);
        let ghost before = effects@;
        let was_search_active = self.diff_search_active;
        self.diff_search_active = true;
        effects.push(DiffSearchEffect::ClearQueryOverlayCache);
        effects.push(DiffSearchEffect::ClearWorktreePreviewSegmentsCache);
        effects.push(DiffSearchEffect::ClearConflictQueryOverlayCaches);
        effects.push(DiffSearchEffect::CancelPendingQueryRecompute);
        if was_search_active {
            effects.push(DiffSearchEffect::RecomputeMatches);
        } else {
            effects.push(DiffSearchEffect::RecomputeMatchesAndScrollToFirst);
        }
        effects.push(DiffSearchEffect::FocusSearchInput);
        effects.push(DiffSearchEffect::SelectAllSearchText);
        assert(effects@ =~= before + seq![
            DiffSearchEffect::ClearQueryOverlayCache,
            DiffSearchEffect::ClearWorktreePreviewSegmentsCache,
            DiffSearchEffect::ClearConflictQueryOverlayCaches,
            DiffSearchEffect::CancelPendingQueryRecompute,
            if was_search_active {
                DiffSearchEffect::RecomputeMatches
            } else {
                DiffSearchEffect::RecomputeMatchesAndScrollToFirst
            },
            DiffSearchEffect::FocusSearchInput,
            DiffSearchEffect::SelectAllSearchText,
        ]);
        effects
    }

    /// The search shortcut: with a diff target shown it opens the search
    /// (`Some`, with what opening does); with none it does nothing (`None`).
    pub fn open_search_for_active_view(
        &mut self,
        diff_target_visible: bool,
        surface: DiffSearchSurface,
    ) -> (r: Option<Vec<DiffSearchEffect>>)
        ensures
            !diff_target_visible ==> r is None && *final(self) == *old(self),
            diff_target_visible ==> final(self).diff_search_active,
            diff_target_visible ==> (r matches Some(effects) && effects@ == activation_effects(
                surface,
                old(self).diff_search_active,
            )),
    {
        if !diff_target_visible {
            return None;
        }
        Some(self.activate_diff_search(surface))
    }

    /// Closes the search: its query, error, matches and position are
    /// cleared and the diff panel takes the focus back.
    pub fn deactivate_diff_search(&mut self) -> (r: Vec<DiffSearchEffect>)
        ensures
            !final(self).diff_search_active,
            final(self).diff_search_query@ == Seq::<char>::empty(),
            final(self).diff_search_options == old(self).diff_search_options,
            final(self).diff_search_regex_error is None,
            final(self).diff_search_matches@.len() == 0,
            final(self).diff_search_match_ix is None,
            r@ == seq![
                DiffSearchEffect::CancelPendingQueryRecompute,
                DiffSearchEffect::ClearSearchInput,
                DiffSearchEffect::ResetSearchScroll,
                DiffSearchEffect::ClearQueryOverlayCache,
                DiffSearchEffect::ClearWorktreePreviewSegmentsCache,
                DiffSearchEffect::ClearConflictQueryOverlayCaches,
                DiffSearchEffect::FocusDiffPanel,
            ],
    {
        self.diff_search_active = false;
        self.diff_search_query = String::new();
        self.diff_search_regex_error = None;
        self.diff_search_matches = Vec::new();
        self.diff_search_match_ix = None;
        let r = vec![
            DiffSearchEffect::CancelPendingQueryRecompute,
            DiffSearchEffect::ClearSearchInput,
            DiffSearchEffect::ResetSearchScroll,
            DiffSearchEffect::ClearQueryOverlayCache,
            DiffSearchEffect::ClearWorktreePreviewSegmentsCache,
            DiffSearchEffect::ClearConflictQueryOverlayCaches,
            DiffSearchEffect::FocusDiffPanel,
        ];
        assert(r@ =~= seq![
            DiffSearchEffect::CancelPendingQueryRecompute,
            DiffSearchEffect::ClearSearchInput,
            DiffSearchEffect::ResetSearchScroll,
            DiffSearchEffect::ClearQueryOverlayCache,
            DiffSearchEffect::ClearWorktreePreviewSegmentsCache,
            DiffSearchEffect::ClearConflictQueryOverlayCaches,
            DiffSearchEffect::FocusDiffPanel,
        ]);
        r
    }

    /// The label beside the search input, with its color.
    pub fn diff_search_match_label(&self) -> (r: (String, ColorRole))
        ensures
            r.0@ == match_label(
                self.diff_search_query@,
                self.diff_search_regex_error is Some,
                self.diff_search_matches@.len() as int,
                self.diff_search_match_ix,
            ),
            r.1 == (if self.diff_search_regex_error is Some && self.diff_search_query@.len() > 0 {
                ColorRole::Danger
            } else {
                ColorRole::TextMuted
            }),
    {
        let query_len = self.diff_search_query.as_str().unicode_len();
        let regex_invalid = self.diff_search_regex_error.is_some();
        let n = self.diff_search_matches.len();
        let label = if query_len == 0 {
            String::from_str("Type to search")
        } else if regex_invalid {
            String::from_str("Invalid regex")
        } else if n == 0 {
            String::from_str("No matches")
        } else {
            let ix = match self.diff_search_match_ix {
                Some(i) => i,
                None => 0,
            };
            let ix = if ix < n - 1 { ix } else { n - 1 };
            let mut out: Vec<char> = Vec::new();
            push_decimal(&mut out, (ix + 1) as u64);
            out.push('/');
            push_decimal(&mut out, n as u64);
            string_of(out)
        };
        let color = if regex_invalid && query_len > 0 { ColorRole::Danger } else { ColorRole::TextMuted };
        (label, color)
    }
}

/// The label of the search: a prompt while the query is empty, the regex
/// error, that nothing matched, or the current match's number out of all,
/// the position held inside the matches.
pub open spec fn match_label(query: Seq<char>, regex_invalid: bool, n: int, match_ix: Option<usize>) -> Seq<
    char,
> {
    if query.len() == 0 {
        "Type to search"@
    } else if regex_invalid {
        "Invalid regex"@
    } else if n == 0 {
        "No matches"@
    } else {
        let ix = match match_ix {
            Some(i) => i as int,
            None => 0,
        };
        let ix = if ix < n - 1 { ix } else { n - 1 };
        decimal((ix + 1) as nat) + seq!['/'] + decimal(n as nat)
    }
}

// ---------------------------------------------------------------------------
// Keyboard shortcuts of the diff panel.
// ---------------------------------------------------------------------------

/// The modifier keys held with a key.
#[derive(Clone, Copy, Debug, PartialEq, Eq, Structural)]
pub struct Modifiers {
    pub control: bool,
    pub alt: bool,
    pub shift: bool,
    pub platform: bool,
    pub function: bool,
}

/// No modifier is held that turns a key into a command.
pub open spec fn is_plain(m: Modifiers) -> bool {
    !m.control && !m.alt && !m.platform && !m.function
}

/// Control or the platform key, without alt or function.
pub open spec fn is_command(m: Modifiers) -> bool {
    (m.control || m.platform) && !m.alt && !m.function
}

pub open spec fn modifier_count(m: Modifiers) -> int {
    (if m.control { 1int } else { 0int }) + (if m.alt { 1int } else { 0int }) + (if m.shift {
        1int
    } else {
        0int
    }) + (if m.platform { 1int } else { 0int }) + (if m.function { 1int } else { 0int })
}

/// The keys the diff panel answers to.
#[derive(Clone, Copy, Debug, PartialEq, Eq, Structural)]
pub enum DiffKey {
    Escape,
    Space,
    F1,
    F2,
    F3,
    F4,
    F7,
    Up,
    Down,
    Left,
    Right,
    A,
    B,
    C,
    D,
    E,
    F,
    H,
    I,
    S,
    U,
    W,
    Other,
}

pub open spec fn diff_key(key: Seq<char>) -> DiffKey {
    if key == "escape"@ {
        DiffKey::Escape
    } else if key == "space"@ {
        DiffKey::Space
    } else if key == "f1"@ {
        DiffKey::F1
    } else if key == "f2"@ {
        DiffKey::F2
    } else if key == "f3"@ {
        DiffKey::F3
    } else if key == "f4"@ {
        DiffKey::F4
    } else if key == "f7"@ {
        DiffKey::F7
    } else if key == "up"@ {
        DiffKey::Up
    } else if key == "down"@ {
        DiffKey::Down
    } else if key == "left"@ {
        DiffKey::Left
    } else if key == "right"@ {
        DiffKey::Right
    } else if key == "a"@ {
        DiffKey::A
    } else if key == "b"@ {
        DiffKey::B
    } else if key == "c"@ {
        DiffKey::C
    } else if key == "d"@ {
        DiffKey::D
    } else if key == "e"@ {
        DiffKey::E
    } else if key == "f"@ {
        DiffKey::F
    } else if key == "h"@ {
        DiffKey::H
    } else if key == "i"@ {
        DiffKey::I
    } else if key == "s"@ {
        DiffKey::S
    } else if key == "u"@ {
        DiffKey::U
    } else if key == "w"@ {
        DiffKey::W
    } else {
        DiffKey::Other
    }
}

fn is_key(cs: &Vec<char>, name: &str) -> (r: bool)
    ensures
        r == (cs@ == name@),
{
    let n = chars_of(name);
    crate::text::chars_equal(cs, &n)
}

/// The key of a key name.
pub fn diff_key_of(key: &str) -> (r: DiffKey)
    ensures
        r == diff_key(key@),
{
    let cs = chars_of(key);
    if is_key(&cs, "escape") {
        DiffKey::Escape
    } else if is_key(&cs, "space") {
        DiffKey::Space
    } else if is_key(&cs, "f1") {
        DiffKey::F1
    } else if is_key(&cs, "f2") {
        DiffKey::F2
    } else if is_key(&cs, "f3") {
        DiffKey::F3
    } else if is_key(&cs, "f4") {
        DiffKey::F4
    } else if is_key(&cs, "f7") {
        DiffKey::F7
    } else if is_key(&cs, "up") {
        DiffKey::Up
    } else if is_key(&cs, "down") {
        DiffKey::Down
    } else if is_key(&cs, "left") {
        DiffKey::Left
    } else if is_key(&cs, "right") {
        DiffKey::Right
    } else if is_key(&cs, "a") {
        DiffKey::A
    } else if is_key(&cs, "b") {
        DiffKey::B
    } else if is_key(&cs, "c") {
        DiffKey::C
    } else if is_key(&cs, "d") {
        DiffKey::D
    } else if is_key(&cs, "e") {
        DiffKey::E
    } else if is_key(&cs, "f") {
        DiffKey::F
    } else if is_key(&cs, "h") {
        DiffKey::H
    } else if is_key(&cs, "i") {
        DiffKey::I
    } else if is_key(&cs, "s") {
        DiffKey::S
    } else if is_key(&cs, "u") {
        DiffKey::U
    } else if is_key(&cs, "w") {
        DiffKey::W
    } else {
        DiffKey::Other
    }
}

/// What the diff panel knows when a key arrives.
#[derive(Clone, Debug)]
pub struct DiffShortcutContext {
    /// The platform key, not control, is the secondary modifier (macOS).
    pub platform_key_is_secondary: bool,
    pub inline_submodule_diff_active: bool,
    pub active_repo_id: Option<u64>,
    /// The diff target of the active repository.
    pub diff_target: Option<DiffTarget>,
    /// The status list of the target's area has loaded.
    pub status_ready: bool,
    /// The path that the status list selects next once the target's path
    /// leaves its section.
    pub next_path_in_section: Option<String>,
    pub raw_input_focused: bool,
    pub search_input_focused: bool,
    pub conflict_input_focused: bool,
    pub external_editor_configured: bool,
    pub file_preview_active: bool,
    pub conflict_resolver_active: bool,
    pub markdown_preview_active: bool,
    pub conflict_preview_active: bool,
    pub has_active_conflict_target: bool,
    pub annotate_enabled: bool,
    pub diff_text_has_selection: bool,
    pub conflict_count: usize,
    /// The conflict resolver's pick for the key, if it has one.
    pub quick_pick_choice: Option<u8>,
}

/// What follows staging or unstaging the shown file.
#[derive(Clone, Debug)]
pub enum AfterStage {
    Nothing,
    SelectNext(String),
    ClearSelection,
}

#[derive(Clone, Copy, Debug, PartialEq, Eq, Structural)]
pub enum DiffViewMode {
    Inline,
    Split,
}

/// What a key asks the diff panel to do.
#[derive(Clone, Debug)]
pub enum DiffShortcutAction {
    Nothing,
    DeactivateSearch,
    CloseInlineSubmoduleDiff { repo_id: u64 },
    /// Clear the status selection and the diff selection.
    ClearSelection { repo_id: u64 },
    OpenSearch,
    SearchPrevMatch,
    SearchNextMatch,
    /// Stage an unstaged file or unstage a staged one, then rebuild the
    /// diff cache.
    ToggleStaged { repo_id: u64, path: String, area: DiffArea, then: AfterStage },
    /// Select the previous (`-1`) or next (`1`) file; where there is none,
    /// pick the conflict resolver's choice if one is given.
    SelectAdjacentFile { repo_id: u64, direction: i8, else_pick_conflict: Option<u8> },
    ConfirmDiscard { repo_id: u64, area: DiffArea, path: String },
    ShowFileHistory { repo_id: u64, path: String },
    OpenInEditor { path: String },
    CopyPath { path: String },
    CopySelection,
    SelectAll,
    SetDiffViewMode { mode: DiffViewMode },
    ToggleWhitespace,
    SetAnnotate { enabled: bool },
    NavigateChange { forward: bool },
    NavigateMatchOrChange { forward: bool },
    GlobalNavBack { repo_id: u64 },
    GlobalNavForward { repo_id: u64 },
    PickConflict { choice: u8 },
}

/// Whether the key was handled.
#[derive(Clone, Copy, Debug, PartialEq, Eq, Structural)]
pub enum ShortcutHandled {
    Yes,
    No,
    /// As the action reports.
    IfActionHandled,
}

#[derive(Clone, Debug)]
pub struct DiffShortcutDecision {
    pub action: DiffShortcutAction,
    pub handled: ShortcutHandled,
}

pub open spec fn done(action: DiffShortcutAction) -> Option<DiffShortcutDecision> {
    Some(DiffShortcutDecision { action, handled: ShortcutHandled::Yes })
}

pub open spec fn attempt(action: DiffShortcutAction) -> Option<DiffShortcutDecision> {
    Some(DiffShortcutDecision { action, handled: ShortcutHandled::IfActionHandled })
}

pub open spec fn after_stage(ctx: DiffShortcutContext) -> AfterStage {
    if ctx.status_ready {
        match ctx.next_path_in_section {
            Some(p) => AfterStage::SelectNext(p),
            None => AfterStage::ClearSelection,
        }
    } else {
        AfterStage::Nothing
    }
}

/// The conflict resolver picks a side for the key.
pub open spec fn quick_pick(m: Modifiers, ctx: DiffShortcutContext) -> Option<u8> {
    if ctx.conflict_resolver_active && is_plain(m) && !ctx.raw_input_focused && !ctx.conflict_input_focused
        && ctx.conflict_count > 0 {
        ctx.quick_pick_choice
    } else {
        None
    }
}

/// Commands on the working-tree file shown, with control or the platform key.
pub open spec fn file_command(k: DiffKey, m: Modifiers, ctx: DiffShortcutContext) -> Option<DiffShortcutDecision> {
    if !ctx.inline_submodule_diff_active && is_command(m) && !ctx.raw_input_focused && !ctx.search_input_focused {
        match (ctx.active_repo_id, ctx.diff_target) {
            (Some(repo_id), Some(DiffTarget::WorkingTree { path, area })) => {
                if k == DiffKey::S && area == DiffArea::Unstaged && !m.shift {
                    done(DiffShortcutAction::ToggleStaged { repo_id, path, area, then: after_stage(ctx) })
                } else if k == DiffKey::U && area == DiffArea::Staged && !m.shift {
                    done(DiffShortcutAction::ToggleStaged { repo_id, path, area, then: after_stage(ctx) })
                } else if k == DiffKey::D && !m.shift {
                    done(DiffShortcutAction::ConfirmDiscard { repo_id, area, path })
                } else if k == DiffKey::H && !m.shift {
                    done(DiffShortcutAction::ShowFileHistory { repo_id, path })
                } else if k == DiffKey::E && !m.shift && ctx.external_editor_configured {
                    done(DiffShortcutAction::OpenInEditor { path })
                } else if k == DiffKey::C && m.shift {
                    done(DiffShortcutAction::CopyPath { path })
                } else {
                    None
                }
            },
            _ => None,
        }
    } else {
        None
    }
}

/// Opening the file of any diff target in the external editor.
pub open spec fn editor_command(k: DiffKey, m: Modifiers, ctx: DiffShortcutContext) -> Option<DiffShortcutDecision> {
    if !ctx.inline_submodule_diff_active && is_command(m) && !ctx.raw_input_focused && !ctx.search_input_focused
        && ctx.active_repo_id is Some && k == DiffKey::E && !m.shift && ctx.external_editor_configured {
        match ctx.diff_target {
            Some(DiffTarget::WorkingTree { path, .. }) => done(DiffShortcutAction::OpenInEditor { path }),
            Some(DiffTarget::Commit { path: Some(path), .. }) => done(DiffShortcutAction::OpenInEditor { path }),
            Some(DiffTarget::CommitRange { path: Some(path), .. }) => done(DiffShortcutAction::OpenInEditor { path }),
            _ => None,
        }
    } else {
        None
    }
}

/// Copying and selecting the diff text.
pub open spec fn text_command(k: DiffKey, m: Modifiers, ctx: DiffShortcutContext) -> Option<DiffShortcutDecision> {
    if !ctx.raw_input_focused && is_command(m) && !m.shift && k == DiffKey::C && ctx.diff_text_has_selection {
        done(DiffShortcutAction::CopySelection)
    } else if !ctx.raw_input_focused && is_command(m) && k == DiffKey::A {
        done(DiffShortcutAction::SelectAll)
    } else {
        None
    }
}

/// The alt-key commands of the diff view.
pub open spec fn alt_command(k: DiffKey, m: Modifiers, ctx: DiffShortcutContext) -> Option<DiffShortcutDecision> {
    if m.alt && !m.control && !m.platform && !m.function {
        if k == DiffKey::I || k == DiffKey::S {
            if ctx.conflict_resolver_active {
                None
            } else if ctx.has_active_conflict_target {
                done(DiffShortcutAction::SetDiffViewMode { mode: DiffViewMode::Split })
            } else if !ctx.markdown_preview_active {
                done(
                    DiffShortcutAction::SetDiffViewMode {
                        mode: if k == DiffKey::I { DiffViewMode::Inline } else { DiffViewMode::Split },
                    },
                )
            } else {
                None
            }
        } else if k == DiffKey::W && !ctx.markdown_preview_active && !ctx.conflict_preview_active {
            done(DiffShortcutAction::ToggleWhitespace)
        } else if k == DiffKey::B && !ctx.markdown_preview_active && !ctx.conflict_preview_active {
            done(DiffShortcutAction::SetAnnotate { enabled: !ctx.annotate_enabled })
        } else if k == DiffKey::Up {
            attempt(DiffShortcutAction::NavigateChange { forward: false })
        } else if k == DiffKey::Down {
            attempt(DiffShortcutAction::NavigateChange { forward: true })
        } else if k == DiffKey::Left && ctx.active_repo_id is Some {
            done(DiffShortcutAction::GlobalNavBack { repo_id: ctx.active_repo_id->0 })
        } else if k == DiffKey::Right && ctx.active_repo_id is Some {
            done(DiffShortcutAction::GlobalNavForward { repo_id: ctx.active_repo_id->0 })
        } else {
            None
        }
    } else {
        None
    }
}

/// The first rule that applies to a key decides what it does:
/// escape closes the search, the inline submodule diff or the selection;
/// the secondary modifier with `f` opens the search; F2 and F3 step through
/// the matches of an open search; space stages or unstages the shown file;
/// F1 and F4 select the previous or next file; file commands with control or
/// the platform key; then, in a file preview, only copying and selecting
/// text; elsewhere the alt commands, F2, F3 and F7 navigation, the conflict
/// resolver's picks, and copying and selecting text.
pub open spec fn diff_shortcut(
    search_active: bool,
    k: DiffKey,
    m: Modifiers,
    ctx: DiffShortcutContext,
) -> DiffShortcutDecision {
    let secondary = if ctx.platform_key_is_secondary { m.platform } else { m.control };
    let none = DiffShortcutDecision { action: DiffShortcutAction::Nothing, handled: ShortcutHandled::No };
    let escape = if k == DiffKey::Escape && is_plain(m) {
        if search_active {
            done(DiffShortcutAction::DeactivateSearch)
        } else {
            match ctx.active_repo_id {
                Some(repo_id) => if ctx.inline_submodule_diff_active {
                    done(DiffShortcutAction::CloseInlineSubmoduleDiff { repo_id })
                } else {
                    done(DiffShortcutAction::ClearSelection { repo_id })
                },
                None => None,
            }
        }
    } else {
        None
    };
    let space = if k == DiffKey::Space && is_plain(m) && !ctx.inline_submodule_diff_active && !ctx.raw_input_focused
        && !ctx.search_input_focused {
        match (ctx.active_repo_id, ctx.diff_target) {
            (Some(repo_id), Some(DiffTarget::WorkingTree { path, area })) => done(
                DiffShortcutAction::ToggleStaged { repo_id, path, area, then: after_stage(ctx) },
            ),
            _ => None,
        }
    } else {
        None
    };
    if escape is Some {
        escape->0
    } else if secondary && modifier_count(m) == 1 && k == DiffKey::F {
        attempt(DiffShortcutAction::OpenSearch)->0
    } else if search_active && (k == DiffKey::F2 || k == DiffKey::F3) && is_plain(m) {
        done(if k == DiffKey::F2 { DiffShortcutAction::SearchPrevMatch } else { DiffShortcutAction::SearchNextMatch })->0
    } else if space is Some {
        space->0
    } else if (k == DiffKey::F1 || k == DiffKey::F4) && is_plain(m) && ctx.active_repo_id is Some {
        attempt(
            DiffShortcutAction::SelectAdjacentFile {
                repo_id: ctx.active_repo_id->0,
                direction: if k == DiffKey::F1 { -1i8 } else { 1i8 },
                else_pick_conflict: if ctx.file_preview_active { None } else { quick_pick(m, ctx) },
            },
        )->0
    } else if file_command(k, m, ctx) is Some {
        file_command(k, m, ctx)->0
    } else if editor_command(k, m, ctx) is Some {
        editor_command(k, m, ctx)->0
    } else if ctx.file_preview_active {
        if text_command(k, m, ctx) is Some { text_command(k, m, ctx)->0 } else { none }
    } else if alt_command(k, m, ctx) is Some {
        alt_command(k, m, ctx)->0
    } else if (k == DiffKey::F2 || k == DiffKey::F3 || k == DiffKey::F7) && is_plain(m) {
        done(
            if k == DiffKey::F2 {
                DiffShortcutAction::NavigateMatchOrChange { forward: false }
            } else if k == DiffKey::F3 {
                DiffShortcutAction::NavigateMatchOrChange { forward: true }
            } else {
                DiffShortcutAction::NavigateChange { forward: !m.shift }
            },
        )->0
    } else if quick_pick(m, ctx) is Some {
        done(DiffShortcutAction::PickConflict { choice: quick_pick(m, ctx)->0 })->0
    } else if text_command(k, m, ctx) is Some {
        text_command(k, m, ctx)->0
    } else {
        none
    }
}

fn decided(action: DiffShortcutAction) -> (r: DiffShortcutDecision)
    ensures
        Some(r) == done(action),
{
    DiffShortcutDecision { action, handled: ShortcutHandled::Yes }
}

fn after_stage_of(ctx: &DiffShortcutContext) -> (r: AfterStage)
    ensures
        r == after_stage(*ctx),
{
    if ctx.status_ready {
        match &ctx.next_path_in_section {
            Some(p) => AfterStage::SelectNext(p.clone()),
            None => AfterStage::ClearSelection,
        }
    } else {
        AfterStage::Nothing
    }
}

fn quick_pick_of(m: Modifiers, ctx: &DiffShortcutContext) -> (r: Option<u8>)
    ensures
        r == quick_pick(m, *ctx),
{
    if ctx.conflict_resolver_active && !m.control && !m.alt && !m.platform && !m.function && !ctx.raw_input_focused
        && !ctx.conflict_input_focused && ctx.conflict_count > 0 {
        ctx.quick_pick_choice
    } else {
        None
    }
}

fn file_command_of(k: DiffKey, m: Modifiers, ctx: &DiffShortcutContext) -> (r: Option<DiffShortcutDecision>)
    ensures
        r == file_command(k, m, *ctx),
{
    if !ctx.inline_submodule_diff_active && (m.control || m.platform) && !m.alt && !m.function && !ctx.raw_input_focused
        && !ctx.search_input_focused {
        match (ctx.active_repo_id, &ctx.diff_target) {
            (Some(repo_id), Some(DiffTarget::WorkingTree { path, area })) => {
                let area = *area;
                if k == DiffKey::S && area == DiffArea::Unstaged && !m.shift {
                    Some(decided(DiffShortcutAction::ToggleStaged { repo_id, path: path.clone(), area, then: after_stage_of(ctx) }))
                } else if k == DiffKey::U && area == DiffArea::Staged && !m.shift {
                    Some(decided(DiffShortcutAction::ToggleStaged { repo_id, path: path.clone(), area, then: after_stage_of(ctx) }))
                } else if k == DiffKey::D && !m.shift {
                    Some(decided(DiffShortcutAction::ConfirmDiscard { repo_id, area, path: path.clone() }))
                } else if k == DiffKey::H && !m.shift {
                    Some(decided(DiffShortcutAction::ShowFileHistory { repo_id, path: path.clone() }))
                } else if k == DiffKey::E && !m.shift && ctx.external_editor_configured {
                    Some(decided(DiffShortcutAction::OpenInEditor { path: path.clone() }))
                } else if k == DiffKey::C && m.shift {
                    Some(decided(DiffShortcutAction::CopyPath { path: path.clone() }))
                } else {
                    None
                }
            },
            _ => None,
        }
    } else {
        None
    }
}

fn editor_command_of(k: DiffKey, m: Modifiers, ctx: &DiffShortcutContext) -> (r: Option<DiffShortcutDecision>)
    ensures
        r == editor_command(k, m, *ctx),
{
    if !ctx.inline_submodule_diff_active && (m.control || m.platform) && !m.alt && !m.function && !ctx.raw_input_focused
        && !ctx.search_input_focused && ctx.active_repo_id.is_some() && k == DiffKey::E && !m.shift
        && ctx.external_editor_configured {
        match &ctx.diff_target {
            Some(DiffTarget::WorkingTree { path, .. }) => Some(decided(DiffShortcutAction::OpenInEditor { path: path.clone() })),
            Some(DiffTarget::Commit { path: Some(path), .. }) => Some(decided(DiffShortcutAction::OpenInEditor { path: path.clone() })),
            Some(DiffTarget::CommitRange { path: Some(path), .. }) => Some(decided(DiffShortcutAction::OpenInEditor { path: path.clone() })),
            _ => None,
        }
    } else {
        None
    }
}

fn text_command_of(k: DiffKey, m: Modifiers, ctx: &DiffShortcutContext) -> (r: Option<DiffShortcutDecision>)
    ensures
        r == text_command(k, m, *ctx),
{
    let command = (m.control || m.platform) && !m.alt && !m.function;
    if !ctx.raw_input_focused && command && !m.shift && k == DiffKey::C && ctx.diff_text_has_selection {
        Some(decided(DiffShortcutAction::CopySelection))
    } else if !ctx.raw_input_focused && command && k == DiffKey::A {
        Some(decided(DiffShortcutAction::SelectAll))
    } else {
        None
    }
}

fn alt_command_of(k: DiffKey, m: Modifiers, ctx: &DiffShortcutContext) -> (r: Option<DiffShortcutDecision>)
    ensures
        r == alt_command(k, m, *ctx),
{
    if m.alt && !m.control && !m.platform && !m.function {
        if k == DiffKey::I || k == DiffKey::S {
            if ctx.conflict_resolver_active {
                None
            } else if ctx.has_active_conflict_target {
                Some(decided(DiffShortcutAction::SetDiffViewMode { mode: DiffViewMode::Split }))
            } else if !ctx.markdown_preview_active {
                let mode = if k == DiffKey::I { DiffViewMode::Inline } else { DiffViewMode::Split };
                Some(decided(DiffShortcutAction::SetDiffViewMode { mode }))
            } else {
                None
            }
        } else if k == DiffKey::W && !ctx.markdown_preview_active && !ctx.conflict_preview_active {
            Some(decided(DiffShortcutAction::ToggleWhitespace))
        } else if k == DiffKey::B && !ctx.markdown_preview_active && !ctx.conflict_preview_active {
            Some(decided(DiffShortcutAction::SetAnnotate { enabled: !ctx.annotate_enabled }))
        } else if k == DiffKey::Up {
            Some(DiffShortcutDecision { action: DiffShortcutAction::NavigateChange { forward: false }, handled: ShortcutHandled::IfActionHandled })
        } else if k == DiffKey::Down {
            Some(DiffShortcutDecision { action: DiffShortcutAction::NavigateChange { forward: true }, handled: ShortcutHandled::IfActionHandled })
        } else if k == DiffKey::Left && ctx.active_repo_id.is_some() {
            Some(decided(DiffShortcutAction::GlobalNavBack { repo_id: ctx.active_repo_id.unwrap() }))
        } else if k == DiffKey::Right && ctx.active_repo_id.is_some() {
            Some(decided(DiffShortcutAction::GlobalNavForward { repo_id: ctx.active_repo_id.unwrap() }))
        } else {
            None
        }
    } else {
        None
    }
}

impl MainPaneView {
    /// Decides what a key does in the diff panel; the caller carries the
    /// action out and reports the key handled as the decision says.
    pub fn handle_diff_shortcut(&self, key: &str, modifiers: Modifiers, ctx: &DiffShortcutContext) -> (r:
        DiffShortcutDecision)
        ensures
            r == diff_shortcut(self.diff_search_active, diff_key(key@), modifiers, *ctx),
    {
        let k = diff_key_of(key);
        let m = modifiers;
        let plain = !m.control && !m.alt && !m.platform && !m.function;
        let secondary = if ctx.platform_key_is_secondary { m.platform } else { m.control };
        let count: u8 = (if m.control { 1u8 } else { 0u8 }) + (if m.alt { 1u8 } else { 0u8 }) + (if m.shift {
            1u8
        } else {
            0u8
        }) + (if m.platform { 1u8 } else { 0u8 }) + (if m.function { 1u8 } else { 0u8 });
        if k == DiffKey::Escape && plain {
            if self.diff_search_active {
                return decided(DiffShortcutAction::DeactivateSearch);
            }
            if let Some(repo_id) = ctx.active_repo_id {
                if ctx.inline_submodule_diff_active {
                    return decided(DiffShortcutAction::CloseInlineSubmoduleDiff { repo_id });
                }
                return decided(DiffShortcutAction::ClearSelection { repo_id });
            }
        }
        if secondary && count == 1 && k == DiffKey::F {
            return DiffShortcutDecision { action: DiffShortcutAction::OpenSearch, handled: ShortcutHandled::IfActionHandled };
        }
        if self.diff_search_active && (k == DiffKey::F2 || k == DiffKey::F3) && plain {
            if k == DiffKey::F2 {
                return decided(DiffShortcutAction::SearchPrevMatch);
            }
            return decided(DiffShortcutAction::SearchNextMatch);
        }
        if k == DiffKey::Space && plain && !ctx.inline_submodule_diff_active && !ctx.raw_input_focused
            && !ctx.search_input_focused {
            if let (Some(repo_id), Some(DiffTarget::WorkingTree { path, area })) = (ctx.active_repo_id, &ctx.diff_target) {
                return decided(
                    DiffShortcutAction::ToggleStaged { repo_id, path: path.clone(), area: *area, then: after_stage_of(ctx) },
                );
            }
        }
        if (k == DiffKey::F1 || k == DiffKey::F4) && plain && ctx.active_repo_id.is_some() {
            let else_pick_conflict = if ctx.file_preview_active { None } else { quick_pick_of(m, ctx) };
            return DiffShortcutDecision {
                action: DiffShortcutAction::SelectAdjacentFile {
                    repo_id: ctx.active_repo_id.unwrap(),
                    direction: if k == DiffKey::F1 { -1 } else { 1 },
                    else_pick_conflict,
                },
                handled: ShortcutHandled::IfActionHandled,
            };
        }
        if let Some(d) = file_command_of(k, m, ctx) {
            return d;
        }
        if let Some(d) = editor_command_of(k, m, ctx) {
            return d;
        }
        if ctx.file_preview_active {
            if let Some(d) = text_command_of(k, m, ctx) {
                return d;
            }
            return DiffShortcutDecision { action: DiffShortcutAction::Nothing, handled: ShortcutHandled::No };
        }
        if let Some(d) = alt_command_of(k, m, ctx) {
            return d;
        }
        if (k == DiffKey::F2 || k == DiffKey::F3 || k == DiffKey::F7) && plain {
            let action = if k == DiffKey::F2 {
                DiffShortcutAction::NavigateMatchOrChange { forward: false }
            } else if k == DiffKey::F3 {
                DiffShortcutAction::NavigateMatchOrChange { forward: true }
            } else {
                DiffShortcutAction::NavigateChange { forward: !m.shift }
            };
            return decided(action);
        }
        if let Some(choice) = quick_pick_of(m, ctx) {
            return decided(DiffShortcutAction::PickConflict { choice });
        }
        if let Some(d) = text_command_of(k, m, ctx) {
            return d;
        }
        DiffShortcutDecision { action: DiffShortcutAction::Nothing, handled: ShortcutHandled::No }
    }
}

// ---------------------------------------------------------------------------
// The submodule summary.
// ---------------------------------------------------------------------------

/// The state of a submodule's checkout.
#[derive(Clone, Copy, Debug, PartialEq, Eq, Structural)]
pub enum SubmoduleStatus {
    UpToDate,
    NotInitialized,
    HeadMismatch,
    MergeConflict,
    MissingMapping,
    Unknown(char),
}

/// Whether a summary compares against the working tree or within a commit.
#[derive(Clone, Copy, Debug, PartialEq, Eq, Structural)]
pub enum SubmoduleDiffSummaryMode {
    Worktree,
    Commit,
}

/// What the summary offers for its submodule.
#[derive(Clone, Copy, Debug, PartialEq, Eq, Structural)]
pub struct SubmoduleSummaryActions {
    /// The submodule has a checkout to open.
    pub can_open: bool,
    pub can_change_pointer: bool,
    /// Offer to load (initialize) the submodule.
    pub show_load: bool,
}

pub open spec fn summary_actions(
    mode: SubmoduleDiffSummaryMode,
    status: Option<SubmoduleStatus>,
    checkout_exists: bool,
) -> SubmoduleSummaryActions {
    let initialized = match status {
        Some(SubmoduleStatus::NotInitialized) => false,
        Some(SubmoduleStatus::MergeConflict) | Some(SubmoduleStatus::MissingMapping) => false,
        Some(_) => true,
        None => checkout_exists,
    };
    let conflicted = status == Some(SubmoduleStatus::MergeConflict) || status == Some(
        SubmoduleStatus::MissingMapping,
    );
    SubmoduleSummaryActions {
        can_open: initialized,
        can_change_pointer: mode == SubmoduleDiffSummaryMode::Worktree && initialized && !conflicted,
        show_load: mode == SubmoduleDiffSummaryMode::Worktree && (status == Some(SubmoduleStatus::NotInitialized)
            || (status is None && !checkout_exists)),
    }
}

/// The actions of a submodule summary: the summary's own status, else the
/// status from the submodule list, decides; without either, whether the
/// submodule's checkout exists on disk.
pub fn submodule_summary_actions(
    mode: SubmoduleDiffSummaryMode,
    summary_status: Option<SubmoduleStatus>,
    listed_status: Option<SubmoduleStatus>,
    checkout_exists: bool,
) -> (r: SubmoduleSummaryActions)
    ensures
        r == summary_actions(mode, if summary_status is Some { summary_status } else { listed_status }, checkout_exists),
{
    let status = if summary_status.is_some() { summary_status } else { listed_status };
    let initialized = match status {
        Some(SubmoduleStatus::NotInitialized) => false,
        Some(SubmoduleStatus::MergeConflict) | Some(SubmoduleStatus::MissingMapping) => false,
        Some(_) => true,
        None => checkout_exists,
    };
    let conflicted = match status {
        Some(SubmoduleStatus::MergeConflict) | Some(SubmoduleStatus::MissingMapping) => true,
        _ => false,
    };
    let not_initialized = match status {
        Some(SubmoduleStatus::NotInitialized) => true,
        _ => false,
    };
    let worktree = match mode {
        SubmoduleDiffSummaryMode::Worktree => true,
        SubmoduleDiffSummaryMode::Commit => false,
    };
    SubmoduleSummaryActions {
        can_open: initialized,
        can_change_pointer: worktree && initialized && !conflicted,
        show_load: worktree && (not_initialized || (status.is_none() && !checkout_exists)),
    }
}

/// A submodule that is not loaded cannot be opened or re-pointed, and is
/// offered for loading in the working tree; a conflicted one cannot be
/// re-pointed.
pub proof fn submodule_actions_follow_status(mode: SubmoduleDiffSummaryMode, checkout_exists: bool)
    ensures
        !summary_actions(mode, Some(SubmoduleStatus::NotInitialized), checkout_exists).can_open,
        !summary_actions(mode, Some(SubmoduleStatus::NotInitialized), checkout_exists).can_change_pointer,
        summary_actions(mode, Some(SubmoduleStatus::NotInitialized), checkout_exists).show_load == (mode
            == SubmoduleDiffSummaryMode::Worktree),
        !summary_actions(mode, Some(SubmoduleStatus::MergeConflict), checkout_exists).can_change_pointer,
        !summary_actions(mode, Some(SubmoduleStatus::MissingMapping), checkout_exists).can_change_pointer,
        forall|s: Option<SubmoduleStatus>| #[trigger] summary_actions(mode, s, checkout_exists).can_change_pointer
            ==> summary_actions(mode, s, checkout_exists).can_open && !summary_actions(
            mode,
            s,
            checkout_exists,
        ).show_load,
{
}

/// The badge of a submodule's status: its label and color.
pub open spec fn status_badge(status: SubmoduleStatus, is_dark: bool) -> (Seq<char>, ColorSpec) {
    match status {
        SubmoduleStatus::UpToDate => ("Loaded"@, plain(ColorRole::Success)),
        SubmoduleStatus::NotInitialized => ("Not loaded"@, tinted(ColorRole::TextMuted, if is_dark { 86 } else { 94 })),
        SubmoduleStatus::HeadMismatch => ("Head mismatch"@, plain(ColorRole::Warning)),
        SubmoduleStatus::MergeConflict => ("Conflict"@, plain(ColorRole::Danger)),
        SubmoduleStatus::MissingMapping => ("Missing mapping"@, plain(ColorRole::Danger)),
        SubmoduleStatus::Unknown(_) => ("Unknown"@, plain(ColorRole::TextMuted)),
    }
}

pub fn submodule_status_badge(status: SubmoduleStatus, is_dark: bool) -> (r: (&'static str, ColorSpec))
    ensures
        (r.0@, r.1) == status_badge(status, is_dark),
{
    match status {
        SubmoduleStatus::UpToDate => ("Loaded", ColorSpec { role: ColorRole::Success, alpha_percent: None }),
        SubmoduleStatus::NotInitialized => (
            "Not loaded",
            ColorSpec { role: ColorRole::TextMuted, alpha_percent: Some(if is_dark { 86 } else { 94 }) },
        ),
        SubmoduleStatus::HeadMismatch => ("Head mismatch", ColorSpec { role: ColorRole::Warning, alpha_percent: None }),
        SubmoduleStatus::MergeConflict => ("Conflict", ColorSpec { role: ColorRole::Danger, alpha_percent: None }),
        SubmoduleStatus::MissingMapping => ("Missing mapping", ColorSpec { role: ColorRole::Danger, alpha_percent: None }),
        SubmoduleStatus::Unknown(_) => ("Unknown", ColorSpec { role: ColorRole::TextMuted, alpha_percent: None }),
    }
}

/// The color of the submodule icon in the summary's header; a missing
/// status counts as up to date.
pub fn submodule_icon_color(status: Option<SubmoduleStatus>, is_dark: bool) -> (r: ColorSpec)
    ensures
        r == (match status {
            Some(SubmoduleStatus::NotInitialized) => tinted(ColorRole::TextMuted, if is_dark { 82 } else { 94 }),
            Some(SubmoduleStatus::HeadMismatch) => plain(ColorRole::Warning),
            Some(SubmoduleStatus::MergeConflict) | Some(SubmoduleStatus::MissingMapping) => plain(ColorRole::Danger),
            _ => plain(ColorRole::Accent),
        }),
{
    match status {
        Some(SubmoduleStatus::NotInitialized) => ColorSpec {
            role: ColorRole::TextMuted,
            alpha_percent: Some(if is_dark { 82 } else { 94 }),
        },
        Some(SubmoduleStatus::HeadMismatch) => ColorSpec { role: ColorRole::Warning, alpha_percent: None },
        Some(SubmoduleStatus::MergeConflict) | Some(SubmoduleStatus::MissingMapping) => ColorSpec {
            role: ColorRole::Danger,
            alpha_percent: None,
        },
        _ => ColorSpec { role: ColorRole::Accent, alpha_percent: None },
    }
}

/// The icon of a changed file inside a submodule, with its color.
pub fn submodule_change_icon(kind: FileChangeKind) -> (r: (&'static str, ColorRole))
    ensures
        (r.0@, r.1) == (match kind {
            FileChangeKind::Untracked | FileChangeKind::Added => ("icons/plus.svg"@, ColorRole::Success),
            FileChangeKind::Modified => ("icons/pencil.svg"@, ColorRole::Warning),
            FileChangeKind::Deleted => ("icons/minus.svg"@, ColorRole::Danger),
            FileChangeKind::Renamed => ("icons/swap.svg"@, ColorRole::Accent),
            FileChangeKind::Conflicted => ("icons/warning.svg"@, ColorRole::Danger),
        }),
{
    match kind {
        FileChangeKind::Untracked | FileChangeKind::Added => ("icons/plus.svg", ColorRole::Success),
        FileChangeKind::Modified => ("icons/pencil.svg", ColorRole::Warning),
        FileChangeKind::Deleted => ("icons/minus.svg", ColorRole::Danger),
        FileChangeKind::Renamed => ("icons/swap.svg", ColorRole::Accent),
        FileChangeKind::Conflicted => ("icons/warning.svg", ColorRole::Danger),
    }
}

/// A count of added or removed lines: the sign and the number, or a dash
/// where the count is unknown.
pub open spec fn line_count_label(count: Option<u64>, sign: char) -> Seq<char> {
    match count {
        Some(n) => seq![sign] + decimal(n as nat),
        None => seq!['\u{2014}'],
    }
}

pub fn submodule_line_count_label(count: Option<u64>, added: bool) -> (r: String)
    ensures
        r@ == line_count_label(count, if added { '+' } else { '-' }),
{
    let mut out: Vec<char> = Vec::new();
    match count {
        Some(n) => {
            out.push(if added { '+' } else { '-' });
            push_decimal(&mut out, n);
        },
        None => {
            out.push('\u{2014}');
        },
    }
    assert(out@ =~= line_count_label(count, if added { '+' } else { '-' }));
    string_of(out)
}

/// A range section stands out where it is the one the selected diff shows:
/// the staged pointer for a staged selection, the unstaged one for an
/// unstaged selection; a commit's history always.
pub fn submodule_range_emphasized(kind: SubmoduleDiffRangeKind, selected_area: Option<DiffArea>) -> (r: bool)
    ensures
        r == (match kind {
            SubmoduleDiffRangeKind::StagedPointer => selected_area == Some(DiffArea::Staged),
            SubmoduleDiffRangeKind::UnstagedPointer => selected_area == Some(DiffArea::Unstaged),
            SubmoduleDiffRangeKind::CommitHistory => true,
        }),
{
    match kind {
        SubmoduleDiffRangeKind::StagedPointer => match selected_area {
            Some(DiffArea::Staged) => true,
            _ => false,
        },
        SubmoduleDiffRangeKind::UnstagedPointer => match selected_area {
            Some(DiffArea::Unstaged) => true,
            _ => false,
        },
        SubmoduleDiffRangeKind::CommitHistory => true,
    }
}

/// The hashes a range compares, as `from -> to`, each shortened or not.
pub fn submodule_range_hashes(from: Option<&str>, to: Option<&str>, short: bool) -> (r: String)
    ensures
        r@ == (if short {
            (match from {
                Some(c) => short_hash(c@),
                None => "missing"@,
            }) + " -> "@ + (match to {
                Some(c) => short_hash(c@),
                None => "missing"@,
            })
        } else {
            (match from {
                Some(c) => c@,
                None => "missing"@,
            }) + " -> "@ + (match to {
                Some(c) => c@,
                None => "missing"@,
            })
        }),
{
    let (a, b) = if short {
        (short_submodule_hash_opt(from), short_submodule_hash_opt(to))
    } else {
        (full_submodule_hash_opt(from), full_submodule_hash_opt(to))
    };
    let joined = a.concat(" -> ");
    joined.concat(b.as_str())
}

/// What the "Save & stage" button of the conflict resolver does.
#[derive(Clone, Debug)]
pub enum ConflictSaveStage {
    /// Ask first: the confirmation opens at the click, telling what is
    /// still unresolved.
    Confirm { repo_id: u64, path: String, has_conflict_markers: bool, unresolved_blocks: usize },
    /// Save the resolved text and stage the file.
    SaveAndStage { repo_id: u64, path: String },
}

/// The "Save & stage" button: when the stage safety check of the resolved
/// text asks for confirmation, the confirmation opens with what the check
/// found; otherwise the file is saved and staged.
pub fn conflict_save_stage_action(
    repo_id: u64,
    path: String,
    requires_confirmation: bool,
    has_conflict_markers: bool,
    unresolved_blocks: usize,
) -> (r: ConflictSaveStage)
    ensures
        requires_confirmation ==> r == (ConflictSaveStage::Confirm {
            repo_id,
            path,
            has_conflict_markers,
            unresolved_blocks,
        }),
        !requires_confirmation ==> r == (ConflictSaveStage::SaveAndStage { repo_id, path }),
{
    if requires_confirmation {
        ConflictSaveStage::Confirm { repo_id, path, has_conflict_markers, unresolved_blocks }
    } else {
        ConflictSaveStage::SaveAndStage { repo_id, path }
    }
}

/// What the diff panel knows when it picks its body.
#[derive(Clone, Copy, Debug, PartialEq, Eq, Structural)]
pub struct DiffPanelInputs {
    /// The active repository has a submodule summary for the target.
    pub has_submodule_summary: bool,
    /// A submodule's diff is shown inline.
    pub inline_submodule_diff_active: bool,
    /// The target is an untracked directory, which has a notice of its own.
    pub untracked_directory_notice: bool,
    /// The target is a file to preview rather than a diff.
    pub file_preview_active: bool,
    /// The worktree preview is still loading.
    pub worktree_preview_loading: bool,
    /// The target is an unstaged working-tree file in conflict.
    pub conflict_target: bool,
    /// The conflict resolver has a strategy for that conflict.
    pub conflict_strategy: bool,
    /// The file-diff or collapsed-diff view is asked for.
    pub wants_file_or_collapsed_diff: bool,
}

/// What fills the diff panel under its header.
#[derive(Clone, Copy, Debug, PartialEq, Eq, Structural)]
pub enum DiffBody {
    SubmoduleSummary,
    UntrackedDirectoryNotice,
    FilePreview,
    ConflictResolver,
    ConflictCompare,
    FileDiff,
    Diff,
}

/// The body the panel picks and what it does on the way.
#[derive(Clone, Copy, Debug, PartialEq, Eq, Structural)]
pub struct DiffBodyPlan {
    pub body: DiffBody,
    /// Make sure the previewed file is loaded.
    pub load_file_preview: bool,
    /// Drop a worktree preview still loading, with its source and scroll
    /// state, since a summary or a notice takes its place.
    pub reset_worktree_preview: bool,
}

pub open spec fn shows_untracked_notice(i: DiffPanelInputs) -> bool {
    !i.has_submodule_summary && !i.inline_submodule_diff_active && i.untracked_directory_notice
}

pub open spec fn shows_file_preview(i: DiffPanelInputs) -> bool {
    i.file_preview_active && !shows_untracked_notice(i) && !i.has_submodule_summary && !i.inline_submodule_diff_active
}

/// The body: the submodule summary (unless a submodule diff is inline),
/// then the untracked-directory notice, the file preview, the conflict
/// resolver (a conflict with a strategy), the conflict comparison (one
/// without), the file diff and last the plain diff.
pub open spec fn diff_body(i: DiffPanelInputs) -> DiffBody {
    let conflict = i.conflict_target && !i.inline_submodule_diff_active;
    if i.has_submodule_summary && !i.inline_submodule_diff_active {
        DiffBody::SubmoduleSummary
    } else if shows_untracked_notice(i) {
        DiffBody::UntrackedDirectoryNotice
    } else if shows_file_preview(i) {
        DiffBody::FilePreview
    } else if conflict && i.conflict_strategy {
        DiffBody::ConflictResolver
    } else if conflict {
        DiffBody::ConflictCompare
    } else if i.wants_file_or_collapsed_diff {
        DiffBody::FileDiff
    } else {
        DiffBody::Diff
    }
}

/// Picks the diff panel's body, and says whether the previewed file is to
/// be loaded, or a preview still loading dropped for a summary or a
/// notice.
pub fn diff_body_plan(i: DiffPanelInputs) -> (r: DiffBodyPlan)
    ensures
        r.body == diff_body(i),
        r.load_file_preview == shows_file_preview(i),
        r.reset_worktree_preview == (!shows_file_preview(i) && (i.has_submodule_summary
            || i.inline_submodule_diff_active || shows_untracked_notice(i)) && i.worktree_preview_loading),
{
    let notice = !i.has_submodule_summary && !i.inline_submodule_diff_active && i.untracked_directory_notice;
    let file_preview = i.file_preview_active && !notice && !i.has_submodule_summary
        && !i.inline_submodule_diff_active;
    let reset = !file_preview && (i.has_submodule_summary || i.inline_submodule_diff_active || notice)
        && i.worktree_preview_loading;
    let conflict = i.conflict_target && !i.inline_submodule_diff_active;
    let body = if i.has_submodule_summary && !i.inline_submodule_diff_active {
        DiffBody::SubmoduleSummary
    } else if notice {
        DiffBody::UntrackedDirectoryNotice
    } else if file_preview {
        DiffBody::FilePreview
    } else if conflict && i.conflict_strategy {
        DiffBody::ConflictResolver
    } else if conflict {
        DiffBody::ConflictCompare
    } else if i.wants_file_or_collapsed_diff {
        DiffBody::FileDiff
    } else {
        DiffBody::Diff
    };
    DiffBodyPlan { body, load_file_preview: file_preview, reset_worktree_preview: reset }
}

/// Outside a file preview, alt with the arrows steps through the changes:
/// Down to the next one and Up to the previous one, whether or not the
/// search is open and shift is held; the step is handled only if there is
/// a change to go to.
pub proof fn alt_arrows_step_through_changes(search_active: bool, m: Modifiers, ctx: DiffShortcutContext)
    requires
        m.alt,
        !m.control,
        !m.platform,
        !m.function,
        !ctx.file_preview_active,
    ensures
        diff_shortcut(search_active, DiffKey::Down, m, ctx) == (DiffShortcutDecision {
            action: DiffShortcutAction::NavigateChange { forward: true },
            handled: ShortcutHandled::IfActionHandled,
        }),
        diff_shortcut(search_active, DiffKey::Up, m, ctx) == (DiffShortcutDecision {
            action: DiffShortcutAction::NavigateChange { forward: false },
            handled: ShortcutHandled::IfActionHandled,
        }),
{
}

} // verus!
