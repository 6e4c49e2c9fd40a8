//! The migration guard: a pure decision over observed filesystem facts, and
//! the effect of the migration action on those facts.
//!
//! The guard runs once at process start, before any asynchronous work.  It
//! decides whether the legacy data directory should be moved to the new
//! location.  After a successful move, a symbolic link left at the legacy
//! path serves as the "already migrated" sentinel, which makes the whole
//! sequence idempotent: the guard never fires twice.

use vstd::prelude::*;

verus! {

/// What the guard observed of the filesystem at the instant of the check.
///
/// Paths are byte strings.  A field whose meaning depends on another flag
/// (for instance `legacy_path`, meaningful only when `legacy_resolved`) is
/// simply ignored by the decision when that flag is off; [`FsSnapshot::wf`]
/// pins the status flags down to consistent combinations.
#[derive(Clone, Debug, PartialEq, Eq)]
pub struct FsSnapshot {
    /// Whether the legacy directory path could be resolved at all.
    pub legacy_resolved: bool,
    /// The resolved legacy path (meaningful only when `legacy_resolved`).
    pub legacy_path: Vec<u8>,
    /// Whether something exists at the legacy path.
    pub legacy_exists: bool,
    /// Whether the legacy path is itself a symbolic link (the sentinel).
    pub legacy_is_symlink: bool,
    /// Target of the sentinel link (meaningful only when `legacy_is_symlink`).
    pub legacy_link_target: Vec<u8>,
    /// Whether the legacy directory holds the config marker file.
    pub legacy_has_config: bool,
    /// Names of the entries under the legacy directory.
    pub legacy_files: Vec<Vec<u8>>,
    /// Whether the new directory path could be resolved.
    pub new_resolved: bool,
    /// The resolved new path (meaningful only when `new_resolved`).
    pub new_path: Vec<u8>,
    /// Whether the new directory exists.
    pub new_exists: bool,
    /// Whether the new directory already holds the config marker file.
    pub new_has_config: bool,
    /// Names of the entries under the new directory.
    pub new_files: Vec<Vec<u8>>,
}

impl FsSnapshot {
    /// Consistency of the status flags: facts about a directory are only
    /// recorded when its path resolved, and a config marker implies the
    /// directory holding it exists.
    pub open spec fn wf(self) -> bool {
        &&& !self.legacy_resolved ==> {
            &&& !self.legacy_exists
            &&& !self.legacy_is_symlink
            &&& !self.legacy_has_config
            &&& self.legacy_files@.len() == 0
        }
        &&& !self.new_resolved ==> {
            &&& !self.new_exists
            &&& !self.new_has_config
            &&& self.new_files@.len() == 0
        }
        &&& self.new_has_config ==> self.new_exists
    }
}

/// The migration decision as a pure function of the observed state: migrate
/// exactly when both paths resolve, the legacy path is an existing real
/// directory (not the sentinel link), the new directory has not been
/// initialized independently, and the two paths differ.
pub open spec fn spec_should_migrate(s: FsSnapshot) -> bool {
    &&& s.legacy_resolved
    &&& s.legacy_exists
    &&& !s.legacy_is_symlink
    &&& s.new_resolved
    &&& !s.new_has_config
    &&& s.legacy_path@ != s.new_path@
}

/// Byte-wise equality of two paths.
pub fn bytes_equal(a: &Vec<u8>, b: &Vec<u8>) -> (r: bool)
    ensures
        r == (a@ == b@),
{
    if a.len() != b.len() {
        return false;
    }
    let mut i: usize = 0;
    while i < a.len()
        invariant
            a@.len() == b@.len(),
            i <= a@.len(),
            forall|j: int| 0 <= j < i ==> a@[j] == b@[j],
        decreases a@.len() - i,
    {
        if a[i] != b[i] {
            return false;
        }
        i = i + 1;
    }
    proof {
        assert(a@ =~= b@);
    }
    true
}

/// The guard's decision procedure, evaluated over one snapshot.
pub fn should_migrate(s: &FsSnapshot) -> (b: bool)
    ensures
        b == spec_should_migrate(*s),
{
    if !s.legacy_resolved {
        return false;
    }
    // Already migrated (sentinel present) or never used the legacy layout.
    if s.legacy_is_symlink || !s.legacy_exists {
        return false;
    }
    if !s.new_resolved {
        return false;
    }
    if s.new_has_config {
        // The new installation was initialized independently; moving the
        // legacy directory over it would overwrite that state.
        false
    } else if bytes_equal(&s.legacy_path, &s.new_path) {
        false
    } else {
        true
    }
}

/// Law: the guard is off exactly when one of the disqualifying conditions
/// holds — each of them alone forces `false`, and the answer is `true`
/// only when none of them holds.
pub proof fn lemma_guard_refusals(s: FsSnapshot)
    ensures
        !spec_should_migrate(s) <==> {
            ||| !s.legacy_resolved
            ||| !s.legacy_exists
            ||| s.legacy_is_symlink
            ||| !s.new_resolved
            ||| s.new_has_config
            ||| s.legacy_path@ == s.new_path@
        },
{
}

/// How one run of the decision-plus-action sequence ended.
#[derive(Clone, Copy, Debug, PartialEq, Eq, Structural)]
pub enum MigrationOutcome {
    /// The guard said no; nothing was touched.
    NotNeeded,
    /// The rename failed; the legacy directory is intact, nothing moved.
    RenameFailed,
    /// The data moved, but the sentinel link could not be created.  The
    /// migration still counts as data-wise successful.
    SymlinkFailed,
    /// The data moved and the sentinel link is in place.
    Migrated,
}

/// The two-state migration lifecycle of the data directory.
#[derive(Clone, Copy, Debug, PartialEq, Eq, Structural)]
pub enum MigrationState {
    NotMigrated,
    Migrated,
}

/// The state after an outcome: any outcome that moved the data (with or
/// without the sentinel) reaches `Migrated`; once reached it is never left.
pub open spec fn spec_state_after(prev: MigrationState, out: MigrationOutcome) -> MigrationState {
    if prev == MigrationState::Migrated {
        MigrationState::Migrated
    } else if out == MigrationOutcome::Migrated || out == MigrationOutcome::SymlinkFailed {
        MigrationState::Migrated
    } else {
        prev
    }
}

/// Advances the migration lifecycle by one observed outcome.
pub fn migration_state_after(prev: MigrationState, out: MigrationOutcome) -> (st: MigrationState)
    ensures
        st == spec_state_after(prev, out),
{
    if prev == MigrationState::Migrated {
        MigrationState::Migrated
    } else if out == MigrationOutcome::Migrated || out == MigrationOutcome::SymlinkFailed {
        MigrationState::Migrated
    } else {
        prev
    }
}

/// Equality of two snapshots, observation by observation.
pub open spec fn snap_eq(a: FsSnapshot, b: FsSnapshot) -> bool {
    &&& a.legacy_resolved == b.legacy_resolved
    &&& a.legacy_path@ == b.legacy_path@
    &&& a.legacy_exists == b.legacy_exists
    &&& a.legacy_is_symlink == b.legacy_is_symlink
    &&& a.legacy_link_target@ == b.legacy_link_target@
    &&& a.legacy_has_config == b.legacy_has_config
    &&& a.legacy_files.deep_view() == b.legacy_files.deep_view()
    &&& a.new_resolved == b.new_resolved
    &&& a.new_path@ == b.new_path@
    &&& a.new_exists == b.new_exists
    &&& a.new_has_config == b.new_has_config
    &&& a.new_files.deep_view() == b.new_files.deep_view()
}

/// How the observed filesystem state changes across one run of the
/// decision-plus-action sequence.
///
/// - When the guard says no, or the rename fails, nothing changes.
/// - When the rename succeeds, the legacy directory's entries (config
///   marker included) now live at the new path; the legacy path either
///   carries the sentinel link to the new path (link created) or is gone
///   (link failed).  The original entries are preserved either way.
pub open spec fn migration_transition(
    pre: FsSnapshot,
    post: FsSnapshot,
    rename_ok: bool,
    symlink_ok: bool,
    out: MigrationOutcome,
) -> bool {
    if !spec_should_migrate(pre) {
        out == MigrationOutcome::NotNeeded && snap_eq(pre, post)
    } else if !rename_ok {
        out == MigrationOutcome::RenameFailed && snap_eq(pre, post)
    } else {
        &&& post.legacy_resolved == pre.legacy_resolved
        &&& post.legacy_path@ == pre.legacy_path@
        &&& post.legacy_files@.len() == 0
        &&& post.new_resolved == pre.new_resolved
        &&& post.new_path@ == pre.new_path@
        &&& post.new_exists
        &&& post.new_has_config == pre.legacy_has_config
        &&& post.new_files.deep_view() == pre.legacy_files.deep_view()
        &&& if symlink_ok {
            &&& out == MigrationOutcome::Migrated
            &&& post.legacy_exists
            &&& post.legacy_is_symlink
            &&& post.legacy_link_target@ == pre.new_path@
            &&& post.legacy_has_config == pre.legacy_has_config
        } else {
            &&& out == MigrationOutcome::SymlinkFailed
            &&& !post.legacy_exists
            &&& !post.legacy_is_symlink
            &&& !post.legacy_has_config
        }
    }
}

/// Copies a byte string.
fn copy_bytes(src: &Vec<u8>) -> (r: Vec<u8>)
    ensures
        r@ == src@,
{
    let mut r: Vec<u8> = Vec::new();
    let mut i: usize = 0;
    while i < src.len()
        invariant
            i <= src@.len(),
            r@ == src@.subrange(0, i as int),
        decreases src@.len() - i,
    {
        r.push(src[i]);
        proof {
            assert(r@ =~= src@.subrange(0, i as int + 1));
        }
        i = i + 1;
    }
    proof {
        assert(src@.subrange(0, src@.len() as int) =~= src@);
    }
    r
}

/// Runs the decision and, where it holds, applies the action's effect to the
/// snapshot.  The two flags stand for the outside world's verdict on the two
/// syscalls (rename, symlink creation); whatever they are, the result obeys
/// [`migration_transition`].
pub fn run_migration(s: &mut FsSnapshot, rename_ok: bool, symlink_ok: bool) -> (out:
    MigrationOutcome)
    ensures
        migration_transition(*old(s), *final(s), rename_ok, symlink_ok, out),
        old(s).wf() ==> final(s).wf(),
{
    if !should_migrate(s) {
        return MigrationOutcome::NotNeeded;
    }
    if !rename_ok {
        // A failed rename aborts the migration with the data intact.
        return MigrationOutcome::RenameFailed;
    }
    // The rename moved the whole legacy directory to the new path.
    let mut moved: Vec<Vec<u8>> = Vec::new();
    core::mem::swap(&mut moved, &mut s.legacy_files);
    s.new_files = moved;
    s.new_exists = true;
    s.new_has_config = s.legacy_has_config;
    if symlink_ok {
        s.legacy_exists = true;
        s.legacy_is_symlink = true;
        s.legacy_link_target = copy_bytes(&s.new_path);
        MigrationOutcome::Migrated
    } else {
        s.legacy_exists = false;
        s.legacy_is_symlink = false;
        s.legacy_has_config = false;
        MigrationOutcome::SymlinkFailed
    }
}

/// Law: after any run whose rename step succeeded (and after any run that
/// was not needed to begin with), the guard is off: either the sentinel
/// link now stands at the legacy path, or the legacy path is gone.
pub proof fn lemma_migration_idempotent(
    pre: FsSnapshot,
    post: FsSnapshot,
    rename_ok: bool,
    symlink_ok: bool,
    out: MigrationOutcome,
)
    requires
        migration_transition(pre, post, rename_ok, symlink_ok, out),
        rename_ok || !spec_should_migrate(pre),
    ensures
        !spec_should_migrate(post),
{
}

/// Law: running the sequence a second time right after such a run is a
/// no-op: the guard answers `NotNeeded` and the state is unchanged.
pub proof fn lemma_second_run_no_op(
    post: FsSnapshot,
    post2: FsSnapshot,
    rename_ok2: bool,
    symlink_ok2: bool,
    out2: MigrationOutcome,
)
    requires
        !spec_should_migrate(post),
        migration_transition(post, post2, rename_ok2, symlink_ok2, out2),
    ensures
        out2 == MigrationOutcome::NotNeeded,
        snap_eq(post, post2),
{
}

} // verus!
