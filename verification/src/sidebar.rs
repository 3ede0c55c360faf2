use vstd::prelude::*;
use vstd::relations::{sorted_by, total_ordering};
use vstd::seq_lib::{group_to_multiset_ensures, lemma_sorted_unique};
use vstd::multiset::group_multiset_axioms;

use rustc_hash::FxHasher;
use std::hash::{Hash, Hasher};

use crate::text::{chars_of, string_of};
use crate::ordering::{chars_le, chars_le_is_total, chars_leq, pair_le, pair_le_is_total, pair_leq, sort_by_view, text_le, views};

verus! {

// ---------------------------------------------------------------------------
// The application state the sidebar reads.
// ---------------------------------------------------------------------------

/// A value that loads in the background.
#[derive(Clone, Debug)]
pub enum Loadable<T> {
    NotLoaded,
    Loading,
    Ready(T),
    Error(String),
}

/// A worktree of a repository.
#[derive(Clone, Debug)]
pub struct Worktree {
    pub path: String,
    pub head: Option<String>,
    pub branch: Option<String>,
    pub detached: bool,
}

/// An open repository, with the revision counters of what the sidebar shows.
#[derive(Clone, Debug)]
pub struct RepoState {
    pub id: u64,
    pub workdir: String,
    pub head_branch: Loadable<String>,
    pub detached_head_commit: Option<String>,
    pub worktrees: Loadable<Vec<Worktree>>,
    pub head_branch_rev: u64,
    pub branches_rev: u64,
    pub remote_branches_rev: u64,
    pub worktrees_rev: u64,
    pub submodules_rev: u64,
    pub stashes_rev: u64,
    pub branch_sidebar_rev: u64,
    pub file_browser_rev: u64,
}

impl RepoState {
    /// A repository that has just been opened: nothing loaded yet.
    pub fn new_opening(id: u64, workdir: String) -> (r: RepoState)
        ensures
            r.id == id,
            r.workdir == workdir,
            r.head_branch is NotLoaded,
            r.detached_head_commit is None,
            r.worktrees is NotLoaded,
            r.head_branch_rev == 0 && r.branches_rev == 0 && r.remote_branches_rev == 0,
            r.worktrees_rev == 0 && r.submodules_rev == 0 && r.stashes_rev == 0,
            r.branch_sidebar_rev == 0 && r.file_browser_rev == 0,
    {
        RepoState {
            id,
            workdir,
            head_branch: Loadable::NotLoaded,
            detached_head_commit: None,
            worktrees: Loadable::NotLoaded,
            head_branch_rev: 0,
            branches_rev: 0,
            remote_branches_rev: 0,
            worktrees_rev: 0,
            submodules_rev: 0,
            stashes_rev: 0,
            branch_sidebar_rev: 0,
            file_browser_rev: 0,
        }
    }
}

/// The open repositories, in tab order, and the active one.
#[derive(Clone, Debug)]
pub struct AppState {
    pub repos: Vec<RepoState>,
    pub active_repo: Option<u64>,
}

/// The first repository with the id.
pub open spec fn find_repo(repos: Seq<RepoState>, id: u64) -> Option<RepoState>
    decreases repos.len(),
{
    if repos.len() == 0 {
        None
    } else if repos[0].id == id {
        Some(repos[0])
    } else {
        find_repo(repos.drop_first(), id)
    }
}

/// The first repository open at the path.
pub open spec fn find_workdir(repos: Seq<RepoState>, path: Seq<char>) -> Option<RepoState>
    decreases repos.len(),
{
    if repos.len() == 0 {
        None
    } else if repos[0].workdir@ == path {
        Some(repos[0])
    } else {
        find_workdir(repos.drop_first(), path)
    }
}

fn find_repo_index(repos: &Vec<RepoState>, id: u64) -> (r: Option<usize>)
    ensures
        match r {
            Some(i) => i < repos@.len() && find_repo(repos@, id) == Some(repos@[i as int]),
            None => find_repo(repos@, id) is None,
        },
{
    let mut i: usize = 0;
    proof {
        assert(repos@.subrange(0, repos@.len() as int) =~= repos@);
    }
    while i < repos.len()
        invariant
            i <= repos@.len(),
            find_repo(repos@, id) == find_repo(repos@.subrange(i as int, repos@.len() as int), id),
        decreases repos@.len() - i,
    {
        proof {
            assert(repos@.subrange(i as int, repos@.len() as int).drop_first() =~= repos@.subrange(i + 1, repos@.len() as int));
        }
        if repos[i].id == id {
            return Some(i);
        }
        i = i + 1;
    }
    None
}

fn find_workdir_index(repos: &Vec<RepoState>, path: &String) -> (r: Option<usize>)
    ensures
        match r {
            Some(i) => i < repos@.len() && find_workdir(repos@, path@) == Some(repos@[i as int]),
            None => find_workdir(repos@, path@) is None,
        },
{
    let mut i: usize = 0;
    proof {
        assert(repos@.subrange(0, repos@.len() as int) =~= repos@);
    }
    while i < repos.len()
        invariant
            i <= repos@.len(),
            find_workdir(repos@, path@) == find_workdir(repos@.subrange(i as int, repos@.len() as int), path@),
        decreases repos@.len() - i,
    {
        proof {
            assert(repos@.subrange(i as int, repos@.len() as int).drop_first() =~= repos@.subrange(i + 1, repos@.len() as int));
        }
        if repos[i].workdir == *path {
            return Some(i);
        }
        i = i + 1;
    }
    None
}

// ---------------------------------------------------------------------------
// What the sidebar's redraws depend on.
// ---------------------------------------------------------------------------

/// The revisions of what the branch sidebar shows of a repository.
#[derive(Clone, Copy, Debug, PartialEq, Eq, Structural)]
pub struct BranchSidebarFingerprint {
    pub repo_id: u64,
    pub head_branch_rev: u64,
    pub branches_rev: u64,
    pub remote_branches_rev: u64,
    pub worktrees_rev: u64,
    pub submodules_rev: u64,
    pub stashes_rev: u64,
    pub branch_sidebar_rev: u64,
}

pub open spec fn branch_fingerprint(repo: RepoState) -> BranchSidebarFingerprint {
    BranchSidebarFingerprint {
        repo_id: repo.id,
        head_branch_rev: repo.head_branch_rev,
        branches_rev: repo.branches_rev,
        remote_branches_rev: repo.remote_branches_rev,
        worktrees_rev: repo.worktrees_rev,
        submodules_rev: repo.submodules_rev,
        stashes_rev: repo.stashes_rev,
        branch_sidebar_rev: repo.branch_sidebar_rev,
    }
}

impl BranchSidebarFingerprint {
    pub fn from_repo(repo: &RepoState) -> (r: BranchSidebarFingerprint)
        ensures
            r == branch_fingerprint(*repo),
    {
        BranchSidebarFingerprint {
            repo_id: repo.id,
            head_branch_rev: repo.head_branch_rev,
            branches_rev: repo.branches_rev,
            remote_branches_rev: repo.remote_branches_rev,
            worktrees_rev: repo.worktrees_rev,
            submodules_rev: repo.submodules_rev,
            stashes_rev: repo.stashes_rev,
            branch_sidebar_rev: repo.branch_sidebar_rev,
        }
    }
}

/// The workdirs of the open repositories, in tab order.
pub open spec fn workdir_views(repos: Seq<RepoState>) -> Seq<Seq<char>> {
    repos.map_values(|r: RepoState| r.workdir@)
}

/// The branch that a worktree of the active repository shows as a badge:
/// the live branch of the repository open at the worktree's path, where that
/// repository has loaded its head on a branch.
pub open spec fn worktree_badge(repos: Seq<RepoState>, w: Worktree) -> Option<(Seq<char>, Seq<char>)> {
    match find_workdir(repos, w.path@) {
        Some(r) => match r.head_branch {
            Loadable::Ready(b) => if r.detached_head_commit is None {
                Some((b@, w.path@))
            } else {
                None
            },
            _ => None,
        },
        None => None,
    }
}

pub open spec fn badges_of_worktrees(repos: Seq<RepoState>, wts: Seq<Worktree>) -> Seq<(Seq<char>, Seq<char>)>
    decreases wts.len(),
{
    if wts.len() == 0 {
        seq![]
    } else {
        let prev = badges_of_worktrees(repos, wts.drop_last());
        match worktree_badge(repos, wts.last()) {
            Some(b) => prev.push(b),
            None => prev,
        }
    }
}

/// The workspace badges of the active repository, as (branch, path) pairs
/// in worktree order.
pub open spec fn workspace_badges(state: AppState) -> Seq<(Seq<char>, Seq<char>)> {
    match state.active_repo {
        Some(id) => match find_repo(state.repos@, id) {
            Some(active) => match active.worktrees {
                Loadable::Ready(wts) => badges_of_worktrees(state.repos@, wts@),
                _ => seq![],
            },
            None => seq![],
        },
        None => seq![],
    }
}

pub open spec fn active_repo_of(state: AppState) -> Option<RepoState> {
    match state.active_repo {
        Some(id) => find_repo(state.repos@, id),
        None => None,
    }
}

/// The open workdirs in sorted order, so that the order of the tabs does
/// not show in the fingerprint.
pub fn sorted_workdirs(repos: &Vec<RepoState>) -> (r: Vec<String>)
    ensures
        views(r@) == workdir_views(repos@).sort_by(chars_leq()),
{
    let mut workdirs: Vec<String> = Vec::new();
    let mut i: usize = 0;
    while i < repos.len()
        invariant
            i <= repos@.len(),
            views(workdirs@) == workdir_views(repos@.subrange(0, i as int)),
        decreases repos@.len() - i,
    {
        let w = repos[i].workdir.clone();
        assert(w@ == repos@[i as int].workdir@);
        let ghost before = workdirs@;
        workdirs.push(w);
        proof {
            let sub = repos@.subrange(0, i + 1);
            assert(views(before).len() == before.len());
            assert(workdir_views(repos@.subrange(0, i as int)).len() == i);
            assert(before.len() == i);
            assert(workdirs@.len() == i + 1);
            assert(views(workdirs@).len() == workdir_views(sub).len());
            assert forall|k: int| 0 <= k < i + 1 implies views(workdirs@)[k] == workdir_views(sub)[k] by {
                if k < i {
                    assert(views(before)[k] == workdir_views(repos@.subrange(0, i as int))[k]);
                }
            }
            assert(views(workdirs@) =~= workdir_views(sub));
        }
        i = i + 1;
    }
    assert(repos@.subrange(0, repos@.len() as int) =~= repos@);
    proof {
        chars_le_is_total();
    }
    let le = |a: &String, b: &String| -> (r: bool)
        ensures
            r == chars_le(a@, b@),
        { text_le(a.as_str(), b.as_str()) };
    let sorted = sort_by_view(workdirs, le, Ghost(chars_leq()));
    proof {
        let target = workdir_views(repos@);
        target.lemma_sort_by_ensures(chars_leq());
        lemma_sorted_unique(views(sorted@), target.sort_by(chars_leq()), chars_leq());
    }
    sorted
}

fn push_worktree_badges(repos: &Vec<RepoState>, wts: &Vec<Worktree>) -> (r: Vec<(String, String)>)
    ensures
        views(r@) == badges_of_worktrees(repos@, wts@),
{
    let mut out: Vec<(String, String)> = Vec::new();
    let mut i: usize = 0;
    while i < wts.len()
        invariant
            i <= wts@.len(),
            views(out@) == badges_of_worktrees(repos@, wts@.subrange(0, i as int)),
        decreases wts@.len() - i,
    {
        let w = &wts[i];
        let ghost before = out@;
        if let Some(k) = find_workdir_index(repos, &w.path) {
            let r = &repos[k];
            if let Loadable::Ready(b) = &r.head_branch {
                if r.detached_head_commit.is_none() {
                    out.push((b.clone(), w.path.clone()));
                }
            }
        }
        proof {
            assert(wts@.subrange(0, i + 1).drop_last() =~= wts@.subrange(0, i as int));
            assert(views(out@) =~= badges_of_worktrees(repos@, wts@.subrange(0, i + 1)));
        }
        i = i + 1;
    }
    assert(wts@.subrange(0, wts@.len() as int) =~= wts@);
    out
}

/// The active repository's workspace badges in sorted order (by branch,
/// then by path); none without an active repository.
pub fn sorted_badges(state: &AppState) -> (r: Vec<(String, String)>)
    ensures
        views(r@) == workspace_badges(*state).sort_by(pair_leq()),
{
    let badges: Vec<(String, String)> = match state.active_repo {
        Some(id) => match find_repo_index(&state.repos, id) {
            Some(k) => match &state.repos[k].worktrees {
                Loadable::Ready(wts) => push_worktree_badges(&state.repos, wts),
                _ => Vec::new(),
            },
            None => Vec::new(),
        },
        None => Vec::new(),
    };
    assert(views(badges@) == workspace_badges(*state));
    proof {
        pair_le_is_total();
    }
    let le = |a: &(String, String), b: &(String, String)| -> (r: bool)
        ensures
            r == pair_le(a@, b@),
        {
            if a.0 != b.0 {
                text_le(a.0.as_str(), b.0.as_str())
            } else {
                text_le(a.1.as_str(), b.1.as_str())
            }
        };
    let sorted = sort_by_view(badges, le, Ghost(pair_leq()));
    proof {
        let target = workspace_badges(*state);
        target.lemma_sort_by_ensures(pair_leq());
        lemma_sorted_unique(views(sorted@), target.sort_by(pair_leq()), pair_leq());
    }
    sorted
}

/// The digest `FxHasher` (rustc-hash) gives a slice of paths, hashed as
/// `Path`s: their number, then each path, in the order given. FxHasher has
/// no seed; its multiplier and rotation are chosen by the pointer width,
/// and `Path` hashes by the path syntax of the target, so the digest is
/// fixed by the paths, the pointer width and the target the crate is built
/// for.
pub uninterp spec fn fx_path_list_hash(paths: Seq<Seq<char>>, pointer_bits: u32) -> u64;

/// The digest `FxHasher` gives a slice of (branch, path) pairs, the branch
/// hashed as a `str` and the path as a `Path`, in the order given; fixed as
/// `fx_path_list_hash` is.
pub uninterp spec fn fx_branch_path_list_hash(pairs: Seq<(Seq<char>, Seq<char>)>, pointer_bits: u32) -> u64;

/// `FxHasher` (rustc-hash) over the workdirs taken as a slice of paths.
/// The contract claims that the digest is the one that
/// `fx_path_list_hash` names for these paths at this pointer width.
#[verifier::external_body]
fn fx_hash_workdirs(workdirs: &Vec<String>) -> (h: u64)
    ensures
        h == fx_path_list_hash(views(workdirs@), usize::BITS),
{
    let paths: Vec<&std::path::Path> = workdirs.iter().map(|w| std::path::Path::new(w.as_str())).collect();
    let mut hasher = FxHasher::default();
    paths.hash(&mut hasher);
    hasher.finish()
}

/// `FxHasher` (rustc-hash) over the badges taken as a slice of (branch,
/// path) pairs. The contract claims that the digest is the one that
/// `fx_branch_path_list_hash` names for these pairs at this pointer width.
#[verifier::external_body]
fn fx_hash_badges(badges: &Vec<(String, String)>) -> (h: u64)
    ensures
        h == fx_branch_path_list_hash(views(badges@), usize::BITS),
{
    let pairs: Vec<(&str, &std::path::Path)> =
        badges.iter().map(|(b, p)| (b.as_str(), std::path::Path::new(p.as_str()))).collect();
    let mut hasher = FxHasher::default();
    pairs.hash(&mut hasher);
    hasher.finish()
}

/// The number of open repositories, and the digest of their workdirs in
/// sorted order.
fn open_repo_workdirs_fingerprint(state: &AppState) -> (r: (usize, u64))
    ensures
        r.0 == state.repos@.len(),
        r.1 == fx_path_list_hash(workdir_views(state.repos@).sort_by(chars_leq()), usize::BITS),
{
    let workdirs = sorted_workdirs(&state.repos);
    (state.repos.len(), fx_hash_workdirs(&workdirs))
}

/// The number of the active repository's workspace badges, and the digest
/// of the badges in sorted order; `(0, 0)` without an active repository.
fn active_workspace_badges_fingerprint(state: &AppState) -> (r: (usize, u64))
    ensures
        active_repo_of(*state) is None ==> r == (0usize, 0u64),
        active_repo_of(*state) is Some ==> r.0 == workspace_badges(*state).len(),
        active_repo_of(*state) is Some ==> r.1 == fx_branch_path_list_hash(
            workspace_badges(*state).sort_by(pair_leq()),
            usize::BITS,
        ),
{
    let found = match state.active_repo {
        Some(id) => find_repo_index(&state.repos, id),
        None => None,
    };
    if found.is_none() {
        return (0, 0);
    }
    let badges = sorted_badges(state);
    proof {
        broadcast use group_to_multiset_ensures;

        let target = workspace_badges(*state);
        pair_le_is_total();
        target.lemma_sort_by_ensures(pair_leq());
        assert(views(badges@).len() == badges@.len());
        assert(target.sort_by(pair_leq()).to_multiset().len() == target.to_multiset().len());
    }
    (badges.len(), fx_hash_badges(&badges))
}

/// What the sidebar redraws for: it redraws when this changes.
#[derive(Clone, Copy, Debug, PartialEq, Eq, Structural)]
pub struct SidebarNotifyFingerprint {
    pub active_repo_id: Option<u64>,
    pub repo_fingerprint: Option<BranchSidebarFingerprint>,
    pub open_repo_workdirs_count: usize,
    pub open_repo_workdirs_hash: u64,
    pub active_workspace_badges_count: usize,
    pub active_workspace_badges_hash: u64,
    pub file_browser_rev: u64,
}

/// The fingerprint of an application state: the active repository and
/// its branch-sidebar revisions, the open workdirs (counted, and hashed in
/// sorted order), the active repository's workspace badges (counted, and
/// hashed in sorted order; nothing without an active repository) and its
/// file-browser revision.
pub open spec fn notify_fingerprint(state: AppState) -> SidebarNotifyFingerprint {
    let active = active_repo_of(state);
    SidebarNotifyFingerprint {
        active_repo_id: state.active_repo,
        repo_fingerprint: match active {
            Some(repo) => Some(branch_fingerprint(repo)),
            None => None,
        },
        open_repo_workdirs_count: state.repos@.len() as usize,
        open_repo_workdirs_hash: fx_path_list_hash(workdir_views(state.repos@).sort_by(chars_leq()), usize::BITS),
        active_workspace_badges_count: if active is Some {
            workspace_badges(state).len() as usize
        } else {
            0
        },
        active_workspace_badges_hash: if active is Some {
            fx_branch_path_list_hash(workspace_badges(state).sort_by(pair_leq()), usize::BITS)
        } else {
            0
        },
        file_browser_rev: match active {
            Some(repo) => repo.file_browser_rev,
            None => 0,
        },
    }
}

impl SidebarNotifyFingerprint {
    /// The fingerprint of an application state: the active repository and
    /// its branch-sidebar revisions, the open workdirs (counted and hashed
    /// in sorted order), the active repository's workspace badges (counted
    /// and hashed in sorted order) and its file-browser revision.
    pub fn from_state(state: &AppState) -> (r: Self)
        ensures
            r.active_repo_id == state.active_repo,
            r.repo_fingerprint == (match active_repo_of(*state) {
                Some(repo) => Some(branch_fingerprint(repo)),
                None => None,
            }),
            r.open_repo_workdirs_count == state.repos@.len(),
            r.active_workspace_badges_count == (if active_repo_of(*state) is Some {
                workspace_badges(*state).len()
            } else {
                0
            }),
            active_repo_of(*state) is None ==> r.active_workspace_badges_hash == 0,
            r.file_browser_rev == (match active_repo_of(*state) {
                Some(repo) => repo.file_browser_rev,
                None => 0,
            }),
            r == notify_fingerprint(*state),
    {
        let active = match state.active_repo {
            Some(id) => find_repo_index(&state.repos, id),
            None => None,
        };
        let (repo_fingerprint, file_browser_rev) = match active {
            Some(k) => (Some(BranchSidebarFingerprint::from_repo(&state.repos[k])), state.repos[k].file_browser_rev),
            None => (None, 0),
        };
        let (open_repo_workdirs_count, open_repo_workdirs_hash) = open_repo_workdirs_fingerprint(state);
        let (active_workspace_badges_count, active_workspace_badges_hash) = active_workspace_badges_fingerprint(state);
        SidebarNotifyFingerprint {
            active_repo_id: state.active_repo,
            repo_fingerprint,
            open_repo_workdirs_count,
            open_repo_workdirs_hash,
            active_workspace_badges_count,
            active_workspace_badges_hash,
            file_browser_rev,
        }
    }
}

// ---------------------------------------------------------------------------
// The fingerprint does not see the order of the tabs.
// ---------------------------------------------------------------------------

pub open spec fn unique_ids(repos: Seq<RepoState>) -> bool {
    forall|i: int, j: int| 0 <= i < j < repos.len() ==> #[trigger] repos[i].id != #[trigger] repos[j].id
}

pub open spec fn unique_workdirs(repos: Seq<RepoState>) -> bool {
    forall|i: int, j: int| 0 <= i < j < repos.len() ==> #[trigger] repos[i].workdir@ != #[trigger] repos[j].workdir@
}

proof fn lemma_find_repo(repos: Seq<RepoState>, id: u64)
    requires
        unique_ids(repos),
    ensures
        forall|r: RepoState| repos.contains(r) && r.id == id ==> find_repo(repos, id) == Some(r),
        (forall|r: RepoState| repos.contains(r) ==> r.id != id) ==> find_repo(repos, id) is None,
    decreases repos.len(),
{
    if repos.len() > 0 {
        let rest = repos.drop_first();
        assert forall|i: int, j: int| 0 <= i < j < rest.len() implies #[trigger] rest[i].id != #[trigger] rest[j].id by {
            assert(rest[i] == repos[i + 1] && rest[j] == repos[j + 1]);
        }
        lemma_find_repo(rest, id);
        assert forall|r: RepoState| repos.contains(r) && r.id == id implies find_repo(repos, id) == Some(r) by {
            let k = choose|k: int| 0 <= k < repos.len() && repos[k] == r;
            if k > 0 {
                assert(repos[0].id != repos[k].id);
                assert(rest[k - 1] == r);
                assert(rest.contains(r));
            }
        }
        if forall|r: RepoState| repos.contains(r) ==> r.id != id {
            assert(repos.contains(repos[0]));
            assert forall|r: RepoState| rest.contains(r) implies r.id != id by {
                let k = choose|k: int| 0 <= k < rest.len() && rest[k] == r;
                assert(repos[k + 1] == r);
                assert(repos.contains(r));
            }
        }
    }
}

proof fn lemma_find_workdir(repos: Seq<RepoState>, path: Seq<char>)
    requires
        unique_workdirs(repos),
    ensures
        forall|r: RepoState| repos.contains(r) && r.workdir@ == path ==> find_workdir(repos, path) == Some(r),
        (forall|r: RepoState| repos.contains(r) ==> r.workdir@ != path) ==> find_workdir(repos, path) is None,
    decreases repos.len(),
{
    if repos.len() > 0 {
        let rest = repos.drop_first();
        assert forall|i: int, j: int| 0 <= i < j < rest.len() implies #[trigger] rest[i].workdir@ != #[trigger] rest[j].workdir@ by {
            assert(rest[i] == repos[i + 1] && rest[j] == repos[j + 1]);
        }
        lemma_find_workdir(rest, path);
        assert forall|r: RepoState| repos.contains(r) && r.workdir@ == path implies find_workdir(repos, path) == Some(r) by {
            let k = choose|k: int| 0 <= k < repos.len() && repos[k] == r;
            if k > 0 {
                assert(repos[0].workdir@ != repos[k].workdir@);
                assert(rest[k - 1] == r);
                assert(rest.contains(r));
            }
        }
        if forall|r: RepoState| repos.contains(r) ==> r.workdir@ != path {
            assert(repos.contains(repos[0]));
            assert forall|r: RepoState| rest.contains(r) implies r.workdir@ != path by {
                let k = choose|k: int| 0 <= k < rest.len() && rest[k] == r;
                assert(repos[k + 1] == r);
                assert(repos.contains(r));
            }
        }
    }
}

proof fn lemma_same_elements<A>(a: Seq<A>, b: Seq<A>)
    requires
        a.to_multiset() == b.to_multiset(),
    ensures
        forall|x: A| a.contains(x) <==> b.contains(x),
{
    a.to_multiset_ensures();
    b.to_multiset_ensures();
    assert forall|x: A| a.contains(x) <==> b.contains(x) by {
        assert(a.contains(x) <==> a.to_multiset().count(x) > 0);
        assert(b.contains(x) <==> b.to_multiset().count(x) > 0);
    }
}

proof fn lemma_map_multiset<A, B>(a: Seq<A>, b: Seq<A>, f: spec_fn(A) -> B)
    requires
        a.to_multiset() == b.to_multiset(),
    ensures
        a.map_values(f).to_multiset() == b.map_values(f).to_multiset(),
    decreases a.len(),
{
    broadcast use group_to_multiset_ensures;
    broadcast use group_multiset_axioms;

    a.to_multiset_ensures();
    b.to_multiset_ensures();
    if a.len() == 0 {
        assert(b.len() == 0);
        assert(a.map_values(f) =~= b.map_values(f));
    } else {
        let x = a.last();
        assert(a.to_multiset().count(x) > 0);
        assert(b.contains(x));
        let i = choose|i: int| 0 <= i < b.len() && b[i] == x;
        let a2 = a.drop_last();
        let b2 = b.remove(i);
        assert(a =~= a2.push(x));
        assert(a2.to_multiset() =~= a.to_multiset().remove(x));
        assert(b2.to_multiset() =~= b.to_multiset().remove(x));
        lemma_map_multiset(a2, b2, f);
        assert(a.map_values(f) =~= a2.map_values(f).push(f(x)));
        assert(b.map_values(f).remove(i) =~= b2.map_values(f));
        assert(b.map_values(f)[i] == f(x));
        assert(b.map_values(f).to_multiset() =~= b2.map_values(f).to_multiset().insert(f(x)));
    }
}

proof fn lemma_badges_agree(a: Seq<RepoState>, b: Seq<RepoState>, wts: Seq<Worktree>)
    requires
        forall|p: Seq<char>| find_workdir(a, p) == find_workdir(b, p),
    ensures
        badges_of_worktrees(a, wts) == badges_of_worktrees(b, wts),
    decreases wts.len(),
{
    if wts.len() > 0 {
        lemma_badges_agree(a, b, wts.drop_last());
        assert(find_workdir(a, wts.last().path@) == find_workdir(b, wts.last().path@));
    }
}

/// The sidebar's fingerprint does not see the order of the repository tabs:
/// for the same active repository and the same open repositories (each open
/// once), the active repository, the number of open repositories and the
/// sorted workdirs and badges that are hashed are the same, and so is the
/// whole fingerprint.
pub proof fn sidebar_fingerprint_ignores_repo_order(a: AppState, b: AppState)
    requires
        a.active_repo == b.active_repo,
        a.repos@.to_multiset() == b.repos@.to_multiset(),
        unique_ids(a.repos@),
        unique_ids(b.repos@),
        unique_workdirs(a.repos@),
        unique_workdirs(b.repos@),
    ensures
        active_repo_of(a) == active_repo_of(b),
        a.repos@.len() == b.repos@.len(),
        workdir_views(a.repos@).sort_by(chars_leq()) == workdir_views(b.repos@).sort_by(chars_leq()),
        workspace_badges(a).sort_by(pair_leq()) == workspace_badges(b).sort_by(pair_leq()),
        notify_fingerprint(a) == notify_fingerprint(b),
{
    broadcast use group_to_multiset_ensures;

    let ra = a.repos@;
    let rb = b.repos@;
    lemma_same_elements(ra, rb);
    assert(ra.len() == ra.to_multiset().len());
    if let Some(id) = a.active_repo {
        lemma_find_repo(ra, id);
        lemma_find_repo(rb, id);
        match find_repo(ra, id) {
            Some(r) => {
                assert(ra.contains(r) && r.id == id) by {
                    lemma_find_repo_found(ra, id);
                }
            },
            None => {
                if find_repo(rb, id) is Some {
                    lemma_find_repo_found(rb, id);
                }
            },
        }
    }
    assert forall|p: Seq<char>| find_workdir(ra, p) == find_workdir(rb, p) by {
        lemma_find_workdir(ra, p);
        lemma_find_workdir(rb, p);
        match find_workdir(ra, p) {
            Some(r) => {
                lemma_find_workdir_found(ra, p);
            },
            None => {
                if find_workdir(rb, p) is Some {
                    lemma_find_workdir_found(rb, p);
                }
            },
        }
    }
    if let Some(id) = a.active_repo {
        if let Some(active) = find_repo(ra, id) {
            if let Loadable::Ready(wts) = active.worktrees {
                lemma_badges_agree(ra, rb, wts@);
            }
        }
    }
    let f = |r: RepoState| r.workdir@;
    lemma_map_multiset(ra, rb, f);
    assert(workdir_views(ra) == ra.map_values(f));
    assert(workdir_views(rb) == rb.map_values(f));
    chars_le_is_total();
    let wa = workdir_views(ra);
    let wb = workdir_views(rb);
    wa.lemma_sort_by_ensures(chars_leq());
    wb.lemma_sort_by_ensures(chars_leq());
    lemma_sorted_unique(wa.sort_by(chars_leq()), wb.sort_by(chars_leq()), chars_leq());
}

/// Whether a repository is open at the path of one of the active
/// repository's worktrees, so that it lends that worktree its badge.
pub open spec fn opens_active_worktree(state: AppState, repo: RepoState) -> bool {
    match active_repo_of(state) {
        Some(active) => match active.worktrees {
            Loadable::Ready(wts) => exists|k: int| 0 <= k < wts@.len() && #[trigger] wts@[k].path@ == repo.workdir@,
            _ => false,
        },
        None => false,
    }
}

proof fn lemma_find_repo_same(a: Seq<RepoState>, b: Seq<RepoState>, id: u64)
    requires
        a.len() == b.len(),
        forall|i: int| 0 <= i < a.len() ==> #[trigger] a[i].id == b[i].id,
        forall|i: int| 0 <= i < a.len() && #[trigger] a[i].id == id ==> a[i] == b[i],
    ensures
        find_repo(a, id) == find_repo(b, id),
    decreases a.len(),
{
    if a.len() > 0 {
        assert(a[0].id == b[0].id);
        let (a2, b2) = (a.drop_first(), b.drop_first());
        assert forall|i: int| 0 <= i < a2.len() implies #[trigger] a2[i].id == b2[i].id by {
            assert(a2[i] == a[i + 1] && b2[i] == b[i + 1]);
            assert(a[i + 1].id == b[i + 1].id);
        }
        assert forall|i: int| 0 <= i < a2.len() && #[trigger] a2[i].id == id implies a2[i] == b2[i] by {
            assert(a2[i] == a[i + 1] && b2[i] == b[i + 1]);
            assert(a[i + 1].id == id);
        }
        lemma_find_repo_same(a2, b2, id);
    }
}

proof fn lemma_find_workdir_same(a: Seq<RepoState>, b: Seq<RepoState>, p: Seq<char>)
    requires
        a.len() == b.len(),
        forall|i: int| 0 <= i < a.len() ==> #[trigger] a[i].workdir@ == b[i].workdir@,
        forall|i: int| 0 <= i < a.len() && #[trigger] a[i].workdir@ == p ==> a[i] == b[i],
    ensures
        find_workdir(a, p) == find_workdir(b, p),
    decreases a.len(),
{
    if a.len() > 0 {
        assert(a[0].workdir@ == b[0].workdir@);
        let (a2, b2) = (a.drop_first(), b.drop_first());
        assert forall|i: int| 0 <= i < a2.len() implies #[trigger] a2[i].workdir@ == b2[i].workdir@ by {
            assert(a2[i] == a[i + 1] && b2[i] == b[i + 1]);
            assert(a[i + 1].workdir@ == b[i + 1].workdir@);
        }
        assert forall|i: int| 0 <= i < a2.len() && #[trigger] a2[i].workdir@ == p implies a2[i] == b2[i] by {
            assert(a2[i] == a[i + 1] && b2[i] == b[i + 1]);
            assert(a[i + 1].workdir@ == p);
        }
        lemma_find_workdir_same(a2, b2, p);
    }
}

proof fn lemma_badges_agree_on(a: Seq<RepoState>, b: Seq<RepoState>, wts: Seq<Worktree>)
    requires
        forall|k: int| 0 <= k < wts.len() ==> find_workdir(a, #[trigger] wts[k].path@) == find_workdir(b, wts[k].path@),
    ensures
        badges_of_worktrees(a, wts) == badges_of_worktrees(b, wts),
    decreases wts.len(),
{
    if wts.len() > 0 {
        let w2 = wts.drop_last();
        assert forall|k: int| 0 <= k < w2.len() implies find_workdir(a, #[trigger] w2[k].path@) == find_workdir(
            b,
            w2[k].path@,
        ) by {
            assert(w2[k] == wts[k]);
        }
        lemma_badges_agree_on(a, b, w2);
        assert(wts.last() == wts[wts.len() - 1]);
        assert(find_workdir(a, wts[wts.len() - 1].path@) == find_workdir(b, wts[wts.len() - 1].path@));
    }
}

/// The sidebar's fingerprint does not see changes to repositories that it
/// does not show: with the same tabs (the same ids and workdirs in the same
/// order) and the same active repository, a change to any repository other
/// than the active one and the ones open at its worktrees leaves the
/// fingerprint as it is.
pub proof fn sidebar_fingerprint_ignores_unrelated_repos(a: AppState, b: AppState)
    requires
        a.active_repo == b.active_repo,
        a.repos@.len() == b.repos@.len(),
        forall|i: int|
            0 <= i < a.repos@.len() ==> #[trigger] a.repos@[i].id == b.repos@[i].id && a.repos@[i].workdir@
                == b.repos@[i].workdir@,
        forall|i: int|
            0 <= i < a.repos@.len() && (a.active_repo == Some(#[trigger] a.repos@[i].id) || opens_active_worktree(
                a,
                a.repos@[i],
            )) ==> a.repos@[i] == b.repos@[i],
    ensures
        notify_fingerprint(a) == notify_fingerprint(b),
{
    let ra = a.repos@;
    let rb = b.repos@;
    assert forall|i: int| 0 <= i < ra.len() implies #[trigger] ra[i].id == rb[i].id by {
        assert(a.repos@[i].id == b.repos@[i].id);
    }
    assert forall|i: int| 0 <= i < ra.len() implies #[trigger] ra[i].workdir@ == rb[i].workdir@ by {
        assert(a.repos@[i].id == b.repos@[i].id);
    }
    assert(workdir_views(ra) =~= workdir_views(rb));
    if let Some(id) = a.active_repo {
        assert forall|i: int| 0 <= i < ra.len() && #[trigger] ra[i].id == id implies ra[i] == rb[i] by {
            assert(a.active_repo == Some(a.repos@[i].id));
        }
        lemma_find_repo_same(ra, rb, id);
        if let Some(active) = find_repo(ra, id) {
            if let Loadable::Ready(wts) = active.worktrees {
                assert forall|k: int| 0 <= k < wts@.len() implies find_workdir(ra, #[trigger] wts@[k].path@)
                    == find_workdir(rb, wts@[k].path@) by {
                    let p = wts@[k].path@;
                    assert forall|i: int| 0 <= i < ra.len() && #[trigger] ra[i].workdir@ == p implies ra[i]
                        == rb[i] by {
                        assert(active_repo_of(a) == Some(active));
                        assert(wts@[k].path@ == a.repos@[i].workdir@);
                        assert(opens_active_worktree(a, a.repos@[i]));
                        assert(a.repos@[i].id == ra[i].id);
                    }
                    lemma_find_workdir_same(ra, rb, p);
                }
                lemma_badges_agree_on(ra, rb, wts@);
            }
        }
    }
}

/// The sidebar notices when the active repository gains or loses a
/// workspace badge (a worktree's repository moved to a detached head, or
/// closed): with an active repository in both states, a different number of
/// badges gives a different fingerprint.
pub proof fn sidebar_fingerprint_notices_badge_count(a: AppState, b: AppState)
    requires
        active_repo_of(a) is Some,
        active_repo_of(b) is Some,
        workspace_badges(a).len() != workspace_badges(b).len(),
        workspace_badges(a).len() <= usize::MAX,
        workspace_badges(b).len() <= usize::MAX,
    ensures
        notify_fingerprint(a) != notify_fingerprint(b),
{
    assert(notify_fingerprint(a).active_workspace_badges_count != notify_fingerprint(b).active_workspace_badges_count);
}

/// The fingerprint carries every revision of the active repository's
/// branch sidebar as it is, so that a change to any of them (a new branch,
/// remote branch, worktree, submodule or stash, a moved head, a sidebar
/// change) makes the sidebar redraw.
pub proof fn fingerprint_carries_active_revisions(state: AppState, repo: RepoState)
    requires
        active_repo_of(state) == Some(repo),
    ensures
        notify_fingerprint(state).repo_fingerprint matches Some(f) && f.repo_id == repo.id && f.head_branch_rev
            == repo.head_branch_rev && f.branches_rev == repo.branches_rev && f.remote_branches_rev
            == repo.remote_branches_rev && f.worktrees_rev == repo.worktrees_rev && f.submodules_rev
            == repo.submodules_rev && f.stashes_rev == repo.stashes_rev && f.branch_sidebar_rev
            == repo.branch_sidebar_rev,
        notify_fingerprint(state).file_browser_rev == repo.file_browser_rev,
{
}

/// A change to any branch-sidebar revision or the file-browser revision of
/// the active repository changes the fingerprint.
pub proof fn fingerprint_notices_active_revisions(a: AppState, b: AppState, ra: RepoState, rb: RepoState)
    requires
        active_repo_of(a) == Some(ra),
        active_repo_of(b) == Some(rb),
        ra.head_branch_rev != rb.head_branch_rev || ra.branches_rev != rb.branches_rev || ra.remote_branches_rev
            != rb.remote_branches_rev || ra.worktrees_rev != rb.worktrees_rev || ra.submodules_rev != rb.submodules_rev
            || ra.stashes_rev != rb.stashes_rev || ra.branch_sidebar_rev != rb.branch_sidebar_rev || ra.file_browser_rev
            != rb.file_browser_rev,
    ensures
        notify_fingerprint(a) != notify_fingerprint(b),
{
    fingerprint_carries_active_revisions(a, ra);
    fingerprint_carries_active_revisions(b, rb);
}

proof fn lemma_find_repo_found(repos: Seq<RepoState>, id: u64)
    requires
        find_repo(repos, id) is Some,
    ensures
        repos.contains(find_repo(repos, id)->0),
        find_repo(repos, id)->0.id == id,
    decreases repos.len(),
{
    if repos[0].id != id {
        lemma_find_repo_found(repos.drop_first(), id);
        let r = find_repo(repos, id)->0;
        let k = choose|k: int| 0 <= k < repos.drop_first().len() && repos.drop_first()[k] == r;
        assert(repos[k + 1] == r);
    } else {
        assert(repos[0] == repos[0]);
    }
}

proof fn lemma_find_workdir_found(repos: Seq<RepoState>, path: Seq<char>)
    requires
        find_workdir(repos, path) is Some,
    ensures
        repos.contains(find_workdir(repos, path)->0),
        find_workdir(repos, path)->0.workdir@ == path,
    decreases repos.len(),
{
    if repos[0].workdir@ != path {
        lemma_find_workdir_found(repos.drop_first(), path);
        let r = find_workdir(repos, path)->0;
        let k = choose|k: int| 0 <= k < repos.drop_first().len() && repos.drop_first()[k] == r;
        assert(repos[k + 1] == r);
    } else {
        assert(repos[0] == repos[0]);
    }
}

// ---------------------------------------------------------------------------
// The file browser.
// ---------------------------------------------------------------------------

/// An entry of the file tree, listed depth first; its path is relative to
/// the workdir, one component per element.
#[derive(Clone, Debug)]
pub struct FileEntry {
    pub path: Vec<String>,
    pub depth: usize,
    pub is_directory: bool,
}

/// The file browser of a repository.
#[derive(Clone, Debug)]
pub struct FileBrowserState {
    pub entries: Loadable<Vec<FileEntry>>,
    pub search_query: String,
    pub expanded_dirs: Vec<Vec<String>>,
}

/// A row the file browser shows.
#[derive(Clone, Copy, Debug, PartialEq, Eq, Structural)]
pub struct FileBrowserVisibleRow {
    pub entry_index: usize,
    pub depth: usize,
    pub is_directory: bool,
    pub is_expanded: bool,
}

pub open spec fn path_view(p: Vec<String>) -> Seq<Seq<char>> {
    views(p@)
}

pub open spec fn is_expanded_dir(expanded: Seq<Vec<String>>, p: Seq<Seq<char>>) -> bool {
    exists|k: int| 0 <= k < expanded.len() && #[trigger] path_view(expanded[k]) == p
}

/// Entry `j` is a directory that is not expanded.
pub open spec fn collapsed(e: Seq<FileEntry>, x: Seq<Vec<String>>, j: int) -> bool {
    e[j].is_directory && !is_expanded_dir(x, path_view(e[j].path))
}

/// Entry `j` is a collapsed directory whose subtree goes on up to entry `i`.
pub open spec fn open_at(e: Seq<FileEntry>, x: Seq<Vec<String>>, j: int, i: int) -> bool {
    &&& 0 <= j < i
    &&& collapsed(e, x, j)
    &&& forall|k: int| j < k < i ==> #[trigger] e[k].depth > e[j].depth
}

/// Entry `i` lies inside a collapsed directory.
pub open spec fn hidden(e: Seq<FileEntry>, x: Seq<Vec<String>>, i: int) -> bool {
    exists|j: int| #[trigger] open_at(e, x, j, i) && e[i].depth > e[j].depth
}

/// The entries among the first `m` that lie inside no collapsed directory.
pub open spec fn visible_upto(e: Seq<FileEntry>, x: Seq<Vec<String>>, m: int) -> Seq<usize>
    decreases m,
{
    if m <= 0 {
        seq![]
    } else if hidden(e, x, m - 1) {
        visible_upto(e, x, m - 1)
    } else {
        visible_upto(e, x, m - 1).push((m - 1) as usize)
    }
}

fn paths_equal(a: &Vec<String>, b: &Vec<String>) -> (r: bool)
    ensures
        r == (path_view(*a) == path_view(*b)),
{
    if a.len() != b.len() {
        proof {
            assert(path_view(*a).len() != path_view(*b).len());
        }
        return false;
    }
    let mut i: usize = 0;
    while i < a.len()
        invariant
            a@.len() == b@.len(),
            i <= a@.len(),
            forall|k: int| 0 <= k < i ==> a@[k]@ == b@[k]@,
        decreases a@.len() - i,
    {
        if a[i] != b[i] {
            proof {
                assert(path_view(*a)[i as int] != path_view(*b)[i as int]);
            }
            return false;
        }
        i = i + 1;
    }
    assert(path_view(*a) =~= path_view(*b));
    true
}

fn dir_is_expanded(expanded: &Vec<Vec<String>>, path: &Vec<String>) -> (r: bool)
    ensures
        r == is_expanded_dir(expanded@, path_view(*path)),
{
    let mut k: usize = 0;
    while k < expanded.len()
        invariant
            k <= expanded@.len(),
            forall|j: int| 0 <= j < k ==> path_view(#[trigger] expanded@[j]) != path_view(*path),
        decreases expanded@.len() - k,
    {
        if paths_equal(&expanded[k], path) {
            return true;
        }
        k = k + 1;
    }
    false
}

/// The entries the file browser shows without a search: all but those
/// inside a collapsed directory.
pub fn file_browser_visible_mask(entries: &Vec<FileEntry>, expanded_dirs: &Vec<Vec<String>>) -> (r: Vec<usize>)
    ensures
        r@ == visible_upto(entries@, expanded_dirs@, entries@.len() as int),
{
    let ghost e = entries@;
    let ghost x = expanded_dirs@;
    let n = entries.len();
    let mut visible: Vec<usize> = Vec::new();
    let mut skip: Option<(usize, usize)> = None;
    let ghost mut jt: int = 0;
    let mut i: usize = 0;
    while i < n
        invariant
            e == entries@,
            x == expanded_dirs@,
            n == e.len(),
            i <= n,
            visible@ == visible_upto(e, x, i as int),
            skip is None ==> forall|j: int| !#[trigger] open_at(e, x, j, i as int),
            skip matches Some((d, end)) ==> {
                &&& open_at(e, x, jt, i as int)
                &&& d == e[jt].depth
                &&& forall|j: int| #[trigger] open_at(e, x, j, i as int) ==> e[j].depth >= d
                &&& jt < end <= n
                &&& forall|k: int| jt < k < end ==> #[trigger] e[k].depth > d
                &&& end < n ==> e[end as int].depth <= d
            },
        decreases n - i,
    {
        let depth = entries[i].depth;
        let mut skipped = false;
        if let Some((d, end)) = skip {
            if i < end && depth > d {
                skipped = true;
            } else {
                proof {
                    if end < i {
                        assert(e[end as int].depth > d);
                    }
                    assert forall|j: int| open_at(e, x, j, i as int) implies !(e[i as int].depth > e[j].depth) by {
                    }
                    assert(!hidden(e, x, i as int));
                }
                skip = None;
            }
        }
        if skipped {
            proof {
                assert(open_at(e, x, jt, i as int) && e[i as int].depth > e[jt].depth);
                assert(hidden(e, x, i as int));
                assert forall|j: int| #[trigger] open_at(e, x, j, i + 1) implies e[j].depth >= e[jt].depth by {
                    if j < i {
                        assert(open_at(e, x, j, i as int));
                    }
                }
                assert(open_at(e, x, jt, i + 1));
            }
        } else {
            proof {
                assert(!hidden(e, x, i as int));
            }
            visible.push(i);
            let is_collapsed = entries[i].is_directory && !dir_is_expanded(expanded_dirs, &entries[i].path);
            if is_collapsed {
                let mut end = i + 1;
                while end < n && entries[end].depth > depth
                    invariant
                        e == entries@,
                        n == e.len(),
                        i < end <= n,
                        depth == e[i as int].depth,
                        forall|k: int| i < k < end ==> #[trigger] e[k].depth > depth,
                    decreases n - end,
                {
                    end = end + 1;
                }
                skip = Some((depth, end));
                proof {
                    jt = i as int;
                    assert(collapsed(e, x, i as int));
                    assert(open_at(e, x, i as int, i + 1));
                    assert forall|j: int| #[trigger] open_at(e, x, j, i + 1) implies e[j].depth >= depth by {
                        if j < i {
                            assert(open_at(e, x, j, i as int));
                            assert(e[i as int].depth > e[j].depth);
                            assert(hidden(e, x, i as int));
                        }
                    }
                }
            } else {
                proof {
                    assert forall|j: int| !#[trigger] open_at(e, x, j, i + 1) by {
                        if open_at(e, x, j, i + 1) && j < i {
                            assert(open_at(e, x, j, i as int));
                            assert(hidden(e, x, i as int));
                        }
                    }
                }
            }
        }
        i = i + 1;
    }
    visible
}

/// A row for entry `i` of the tree.
pub open spec fn browse_row(e: Seq<FileEntry>, x: Seq<Vec<String>>, i: usize) -> FileBrowserVisibleRow {
    FileBrowserVisibleRow {
        entry_index: i,
        depth: e[i as int].depth,
        is_directory: e[i as int].is_directory,
        is_expanded: e[i as int].is_directory && is_expanded_dir(x, path_view(e[i as int].path)),
    }
}

/// The rows without a search: the visible entries, each directory marked
/// expanded where it is.
pub open spec fn browse_rows(e: Seq<FileEntry>, x: Seq<Vec<String>>) -> Seq<FileBrowserVisibleRow> {
    visible_upto(e, x, e.len() as int).map_values(|i: usize| browse_row(e, x, i))
}

proof fn lemma_visible_upto_in_range(e: Seq<FileEntry>, x: Seq<Vec<String>>, m: int)
    requires
        0 <= m <= e.len(),
        m <= usize::MAX,
    ensures
        forall|k: int| 0 <= k < visible_upto(e, x, m).len() ==> #[trigger] visible_upto(e, x, m)[k] < m,
    decreases m,
{
    if m > 0 {
        lemma_visible_upto_in_range(e, x, m - 1);
        let prev = visible_upto(e, x, m - 1);
        let v = visible_upto(e, x, m);
        if !hidden(e, x, m - 1) {
            assert(v == prev.push((m - 1) as usize));
            assert forall|k: int| 0 <= k < v.len() implies #[trigger] v[k] < m by {
                if k < prev.len() {
                    assert(v[k] == prev[k]);
                }
            }
        } else {
            assert(v == prev);
        }
    }
}

/// `needle` occurs in `hay`.
pub open spec fn contains_text(hay: Seq<char>, needle: Seq<char>) -> bool {
    exists|i: int| 0 <= i && i + needle.len() <= hay.len() && #[trigger] hay.subrange(i, i + needle.len()) == needle
}

/// `a` is a proper, non-empty ancestor of `b`.
pub open spec fn is_ancestor_path(a: Seq<Seq<char>>, b: Seq<Seq<char>>) -> bool {
    0 < a.len() < b.len() && a == b.subrange(0, a.len() as int)
}

/// Entry `i` matches the search: its lowered path holds the lowered query.
pub open spec fn search_match(lowered: Seq<String>, query: Seq<char>, i: int) -> bool {
    contains_text(lowered[i]@, query)
}

/// Entry `i` shows in a search: it matches, or it is a directory on the
/// way to an entry that matches.
pub open spec fn search_keep(e: Seq<FileEntry>, lowered: Seq<String>, query: Seq<char>, i: int) -> bool {
    search_match(lowered, query, i) || exists|m: int|
        0 <= m < e.len() && #[trigger] search_match(lowered, query, m) && is_ancestor_path(
            path_view(e[i].path),
            path_view(e[m].path),
        )
}

/// The rows of a search among the first `m` entries: those that show, with
/// every directory expanded.
pub open spec fn search_rows_upto(e: Seq<FileEntry>, lowered: Seq<String>, query: Seq<char>, m: int) -> Seq<
    FileBrowserVisibleRow,
>
    decreases m,
{
    if m <= 0 {
        seq![]
    } else if search_keep(e, lowered, query, m - 1) {
        search_rows_upto(e, lowered, query, m - 1).push(
            FileBrowserVisibleRow {
                entry_index: (m - 1) as usize,
                depth: e[m - 1].depth,
                is_directory: e[m - 1].is_directory,
                is_expanded: e[m - 1].is_directory,
            },
        )
    } else {
        search_rows_upto(e, lowered, query, m - 1)
    }
}

fn contains_chars(hay: &Vec<char>, needle: &Vec<char>) -> (r: bool)
    ensures
        r == contains_text(hay@, needle@),
{
    if needle.len() > hay.len() {
        return false;
    }
    if needle.len() == 0 {
        assert(hay@.subrange(0int, 0int + needle@.len()) =~= needle@);
        return true;
    }
    let hl = hay.len();
    let last = hay.len() - needle.len();
    let mut i: usize = 0;
    while i <= last
        invariant
            hl == hay@.len(),
            needle@.len() > 0,
            last == hay@.len() - needle@.len(),
            i <= last + 1,
            forall|j: int| 0 <= j < i ==> #[trigger] hay@.subrange(j, j + needle@.len()) != needle@,
        decreases last + 1 - i,
    {
        let mut k: usize = 0;
        let mut same = true;
        while k < needle.len()
            invariant
                hl == hay@.len(),
                i <= last,
                last == hay@.len() - needle@.len(),
                k <= needle@.len(),
                same ==> forall|t: int| 0 <= t < k ==> hay@[i + t] == needle@[t],
                !same ==> hay@.subrange(i as int, i + needle@.len()) != needle@,
            decreases needle@.len() - k,
        {
            if same && hay[i + k] != needle[k] {
                same = false;
                proof {
                    assert(hay@.subrange(i as int, i + needle@.len())[k as int] != needle@[k as int]);
                }
            }
            k = k + 1;
        }
        if same {
            assert(hay@.subrange(i as int, i + needle@.len()) =~= needle@);
            return true;
        }
        i = i + 1;
    }
    proof {
        assert forall|j: int| 0 <= j && j + needle@.len() <= hay@.len() implies #[trigger] hay@.subrange(
            j,
            j + needle@.len(),
        ) != needle@ by {
            assert(j < i);
        }
    }
    false
}

fn is_ancestor_exec(a: &Vec<String>, b: &Vec<String>) -> (r: bool)
    ensures
        r == is_ancestor_path(path_view(*a), path_view(*b)),
{
    if a.len() == 0 || a.len() >= b.len() {
        return false;
    }
    let mut i: usize = 0;
    while i < a.len()
        invariant
            0 < a@.len() < b@.len(),
            i <= a@.len(),
            forall|k: int| 0 <= k < i ==> a@[k]@ == b@[k]@,
        decreases a@.len() - i,
    {
        if a[i] != b[i] {
            proof {
                assert(path_view(*b).subrange(0, a@.len() as int)[i as int] != path_view(*a)[i as int]);
            }
            return false;
        }
        i = i + 1;
    }
    assert(path_view(*a) =~= path_view(*b).subrange(0, a@.len() as int));
    true
}

/// The rows of a search, given each entry's lowered path and the lowered
/// query.
pub fn file_browser_search_rows(entries: &Vec<FileEntry>, lowered_paths: &Vec<String>, lowered_query: &str) -> (r: Vec<
    FileBrowserVisibleRow,
>)
    requires
        lowered_paths@.len() == entries@.len(),
    ensures
        r@ == search_rows_upto(entries@, lowered_paths@, lowered_query@, entries@.len() as int),
{
    let n = entries.len();
    let q = chars_of(lowered_query);
    let mut matched: Vec<bool> = Vec::new();
    let mut m: usize = 0;
    while m < n
        invariant
            n == entries@.len(),
            lowered_paths@.len() == n,
            q@ == lowered_query@,
            m <= n,
            matched@.len() == m,
            forall|k: int| 0 <= k < m ==> matched@[k] == search_match(lowered_paths@, lowered_query@, k),
        decreases n - m,
    {
        let hay = chars_of(lowered_paths[m].as_str());
        matched.push(contains_chars(&hay, &q));
        m = m + 1;
    }
    let mut rows: Vec<FileBrowserVisibleRow> = Vec::new();
    let mut i: usize = 0;
    while i < n
        invariant
            n == entries@.len(),
            lowered_paths@.len() == n,
            matched@.len() == n,
            forall|k: int| 0 <= k < n ==> matched@[k] == search_match(lowered_paths@, lowered_query@, k),
            i <= n,
            rows@ == search_rows_upto(entries@, lowered_paths@, lowered_query@, i as int),
        decreases n - i,
    {
        let mut keep = matched[i];
        if !keep {
            let mut j: usize = 0;
            while j < n
                invariant
                    n == entries@.len(),
                    matched@.len() == n,
                    forall|k: int| 0 <= k < n ==> matched@[k] == search_match(lowered_paths@, lowered_query@, k),
                    i < n,
                    j <= n,
                    keep == exists|t: int|
                        0 <= t < j && #[trigger] search_match(lowered_paths@, lowered_query@, t) && is_ancestor_path(
                            path_view(entries@[i as int].path),
                            path_view(entries@[t].path),
                        ),
                decreases n - j,
            {
                if !keep && matched[j] && is_ancestor_exec(&entries[i].path, &entries[j].path) {
                    keep = true;
                }
                j = j + 1;
            }
        }
        if keep {
            rows.push(
                FileBrowserVisibleRow {
                    entry_index: i,
                    depth: entries[i].depth,
                    is_directory: entries[i].is_directory,
                    is_expanded: entries[i].is_directory,
                },
            );
        }
        i = i + 1;
    }
    rows
}

/// `str::to_lowercase`: the Unicode lowercase mapping of a text.
pub uninterp spec fn str_lowercase(s: Seq<char>) -> Seq<char>;

/// `str::to_lowercase` (std): returns the lowercase of the text, which
/// depends on the text alone.
#[verifier::external_body]
fn lowercase(s: &str) -> (r: String)
    ensures
        r@ == str_lowercase(s@),
{
    s.to_lowercase()
}

/// The text of the path made of these components, as `PathBuf` collects
/// them and `to_string_lossy` reads it back: the components joined by the
/// target's separator. Collecting reads nothing but the components, so the
/// text is fixed by them on the target the crate is built for.
pub uninterp spec fn native_path_text(components: Seq<Seq<char>>) -> Seq<char>;

/// `PathBuf`'s `FromIterator` (std) over the components, read back as text
/// with `to_string_lossy`: the result is the one `native_path_text` names.
#[verifier::external_body]
fn path_string(p: &Vec<String>) -> (r: String)
    ensures
        r@ == native_path_text(path_view(*p)),
{
    p.iter().collect::<std::path::PathBuf>().to_string_lossy().into_owned()
}

/// The lowered path texts of the entries.
pub open spec fn lowered_paths(e: Seq<FileEntry>) -> Seq<Seq<char>> {
    e.map_values(|f: FileEntry| str_lowercase(native_path_text(path_view(f.path))))
}

/// The rows the file browser shows: nothing before the entries have
/// loaded; with a search, the matching entries and the directories on the
/// way to them; without one, the entries outside collapsed directories.
pub fn compute_file_browser_visible_rows(fb: &FileBrowserState) -> (r: Vec<FileBrowserVisibleRow>)
    ensures
        match fb.entries {
            Loadable::Ready(e) => if fb.search_query@.len() > 0 {
                exists|lowered: Seq<String>|
                    views(lowered) == lowered_paths(e@) && r@ == search_rows_upto(
                        e@,
                        lowered,
                        str_lowercase(fb.search_query@),
                        e@.len() as int,
                    )
            } else {
                r@ == browse_rows(e@, fb.expanded_dirs@)
            },
            _ => r@.len() == 0,
        },
{
    let entries = match &fb.entries {
        Loadable::Ready(e) => e,
        _ => {
            return Vec::new();
        },
    };
    if fb.search_query.as_str().unicode_len() > 0 {
        let query = lowercase(fb.search_query.as_str());
        let mut lowered: Vec<String> = Vec::new();
        let mut i: usize = 0;
        while i < entries.len()
            invariant
                i <= entries@.len(),
                views(lowered@) == lowered_paths(entries@.subrange(0, i as int)),
            decreases entries@.len() - i,
        {
            let text = path_string(&entries[i].path);
            let low = lowercase(text.as_str());
            let ghost before = lowered@;
            lowered.push(low);
            proof {
                let sub = entries@.subrange(0, i + 1);
                assert(views(before).len() == before.len());
                assert(lowered_paths(entries@.subrange(0, i as int)).len() == i);
                assert forall|k: int| 0 <= k < i + 1 implies views(lowered@)[k] == lowered_paths(sub)[k] by {
                    if k < i {
                        assert(views(before)[k] == lowered_paths(entries@.subrange(0, i as int))[k]);
                    }
                }
                assert(views(lowered@) =~= lowered_paths(sub));
            }
            i = i + 1;
        }
        assert(entries@.subrange(0, entries@.len() as int) =~= entries@);
        let rows = file_browser_search_rows(entries, &lowered, query.as_str());
        return rows;
    }
    let mask = file_browser_visible_mask(entries, &fb.expanded_dirs);
    let entry_count = entries.len();
    proof {
        lemma_visible_upto_in_range(entries@, fb.expanded_dirs@, entries@.len() as int);
    }
    let mut rows: Vec<FileBrowserVisibleRow> = Vec::new();
    let mut k: usize = 0;
    while k < mask.len()
        invariant
            mask@ == visible_upto(entries@, fb.expanded_dirs@, entries@.len() as int),
            forall|t: int| 0 <= t < mask@.len() ==> #[trigger] mask@[t] < entries@.len(),
            k <= mask@.len(),
            rows@ == mask@.subrange(0, k as int).map_values(|i: usize| browse_row(entries@, fb.expanded_dirs@, i)),
        decreases mask@.len() - k,
    {
        let i = mask[k];
        let entry = &entries[i];
        let is_expanded = entry.is_directory && dir_is_expanded(&fb.expanded_dirs, &entry.path);
        rows.push(FileBrowserVisibleRow { entry_index: i, depth: entry.depth, is_directory: entry.is_directory, is_expanded });
        k = k + 1;
        assert(rows@ =~= mask@.subrange(0, k as int).map_values(|i: usize| browse_row(entries@, fb.expanded_dirs@, i)));
    }
    assert(mask@.subrange(0, mask@.len() as int) =~= mask@);
    rows
}

/// Entries at the top of the tree always show, and an entry right below a
/// collapsed directory and deeper than it never does.
pub proof fn file_browser_visibility_laws(e: Seq<FileEntry>, x: Seq<Vec<String>>, i: int)
    requires
        0 <= i < e.len(),
    ensures
        e[i].depth == 0 ==> !hidden(e, x, i),
        (i > 0 && collapsed(e, x, i - 1) && e[i].depth > e[i - 1].depth) ==> hidden(e, x, i),
{
    if i > 0 && collapsed(e, x, i - 1) && e[i].depth > e[i - 1].depth {
        assert(open_at(e, x, i - 1, i));
    }
}

/// With no collapsed directory the browser shows every entry, in order.
pub proof fn every_entry_shows_when_nothing_is_collapsed(e: Seq<FileEntry>, x: Seq<Vec<String>>, m: int)
    requires
        0 <= m <= e.len(),
        m <= usize::MAX + 1,
        forall|j: int| 0 <= j < e.len() ==> !collapsed(e, x, j),
    ensures
        visible_upto(e, x, m) == Seq::new(m as nat, |k: int| k as usize),
    decreases m,
{
    if m > 0 {
        every_entry_shows_when_nothing_is_collapsed(e, x, m - 1);
        assert(!hidden(e, x, m - 1)) by {
            if hidden(e, x, m - 1) {
                let j = choose|j: int| #[trigger] open_at(e, x, j, m - 1) && e[m - 1].depth > e[j].depth;
                assert(collapsed(e, x, j));
            }
        }
        assert(visible_upto(e, x, m) =~= Seq::new(m as nat, |k: int| k as usize));
    } else {
        assert(visible_upto(e, x, m) =~= Seq::new(m as nat, |k: int| k as usize));
    }
}

/// The last rows the file browser computed, under the repository and the
/// file-browser revision they were computed for. The key holds the
/// repository too: revisions count per repository, so two repositories can
/// be at the same revision.
#[derive(Clone, Debug)]
pub struct FileBrowserRowsCache {
    pub entry: Option<((u64, u64), Vec<FileBrowserVisibleRow>)>,
}

impl FileBrowserRowsCache {
    pub fn new() -> (r: Self)
        ensures
            r.entry is None,
    {
        FileBrowserRowsCache { entry: None }
    }

    /// The rows for a repository at a revision: the cached ones when they
    /// were computed under the same key; else freshly computed, and cached.
    pub fn file_browser_visible_rows(&mut self, repo_id: u64, rev: u64, fb: &FileBrowserState) -> (r: Vec<
        FileBrowserVisibleRow,
    >)
        ensures
            match old(self).entry {
                Some((key, rows)) if key == (repo_id, rev) => r@ == rows@ && final(self).entry == old(self).entry,
                _ => {
                    &&& final(self).entry matches Some((key, rows)) && key == (repo_id, rev) && rows@ == r@
                    &&& match fb.entries {
                        Loadable::Ready(e) => if fb.search_query@.len() > 0 {
                            exists|lowered: Seq<String>|
                                views(lowered) == lowered_paths(e@) && r@ == search_rows_upto(
                                    e@,
                                    lowered,
                                    str_lowercase(fb.search_query@),
                                    e@.len() as int,
                                )
                        } else {
                            r@ == browse_rows(e@, fb.expanded_dirs@)
                        },
                        _ => r@.len() == 0,
                    }
                },
            },
    {
        if let Some((key, rows)) = &self.entry {
            if key.0 == repo_id && key.1 == rev {
                let mut out: Vec<FileBrowserVisibleRow> = Vec::new();
                let mut i: usize = 0;
                while i < rows.len()
                    invariant
                        i <= rows@.len(),
                        out@ == rows@.subrange(0, i as int),
                    decreases rows@.len() - i,
                {
                    out.push(rows[i]);
                    i = i + 1;
                    assert(out@ =~= rows@.subrange(0, i as int));
                }
                assert(rows@.subrange(0, rows@.len() as int) =~= rows@);
                return out;
            }
        }
        let rows = compute_file_browser_visible_rows(fb);
        let mut copy: Vec<FileBrowserVisibleRow> = Vec::new();
        let mut i: usize = 0;
        while i < rows.len()
            invariant
                i <= rows@.len(),
                copy@ == rows@.subrange(0, i as int),
            decreases rows@.len() - i,
        {
            copy.push(rows[i]);
            i = i + 1;
            assert(copy@ =~= rows@.subrange(0, i as int));
        }
        assert(rows@.subrange(0, rows@.len() as int) =~= rows@);
        self.entry = Some(((repo_id, rev), copy));
        rows
    }
}

} // verus!
