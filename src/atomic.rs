//! The atomic primitive layer's protocol: staging files beside the target,
//! committing them by rename, cleaning up on every failure path, and the
//! rename-or-copy fallback for moves.
//!
//! The driver performs each returned action on the filesystem and reports its
//! outcome back; the machines here decide what comes next.
use vstd::prelude::*;
use crate::paths::push_char;

verus! {

/// Explicit failure injection for the commit step of the atomic primitives.
/// Production code uses `FaultInjection::new()`, which injects nothing.
#[derive(Clone, Copy, Debug, PartialEq, Eq, Structural)]
pub struct FaultInjection {
    pub rename_fail_in_copy: bool,
    pub rename_fail_in_write: bool,
    pub rename_fail_in_rename_or_copy: bool,
}

impl FaultInjection {
    /// No failure is injected.
    pub fn new() -> (r: FaultInjection)
        ensures
            !r.rename_fail_in_copy,
            !r.rename_fail_in_write,
            !r.rename_fail_in_rename_or_copy,
    {
        FaultInjection {
            rename_fail_in_copy: false,
            rename_fail_in_write: false,
            rename_fail_in_rename_or_copy: false,
        }
    }

    /// Force the commit rename of `atomic_copy_file` to fail.
    pub fn set_force_rename_fail_in_copy(&mut self, v: bool)
        ensures
            *final(self) == (FaultInjection { rename_fail_in_copy: v, ..*old(self) }),
    {
        self.rename_fail_in_copy = v;
    }

    pub fn should_force_rename_fail_in_copy(&self) -> (r: bool)
        ensures
            r == self.rename_fail_in_copy,
    {
        self.rename_fail_in_copy
    }

    /// Force the commit rename of `atomic_write` to fail.
    pub fn set_force_rename_fail_in_write(&mut self, v: bool)
        ensures
            *final(self) == (FaultInjection { rename_fail_in_write: v, ..*old(self) }),
    {
        self.rename_fail_in_write = v;
    }

    pub fn should_force_rename_fail_in_write(&self) -> (r: bool)
        ensures
            r == self.rename_fail_in_write,
    {
        self.rename_fail_in_write
    }

    /// Force the first rename of `atomic_rename_or_copy` to fail, so that the
    /// copy-and-remove fallback runs.
    pub fn set_force_rename_fail_in_rename_or_copy(&mut self, v: bool)
        ensures
            *final(self) == (FaultInjection { rename_fail_in_rename_or_copy: v, ..*old(self) }),
    {
        self.rename_fail_in_rename_or_copy = v;
    }

    pub fn should_force_rename_fail_in_rename_or_copy(&self) -> (r: bool)
        ensures
            r == self.rename_fail_in_rename_or_copy,
    {
        self.rename_fail_in_rename_or_copy
    }

    /// Exclusive access to the settings for the span of a test: the returned
    /// borrow is the lock, released when it is dropped.
    pub fn acquire_test_lock(&mut self) -> (r: &mut FaultInjection)
        ensures
            *r == *old(self),
            *final(self) == *final(r),
    {
        self
    }
}

/// Prefix of the staging files made by `atomic_write`.
pub const WRITE_TEMP_PREFIX: &'static str = ".tmp_atomic_write.";

/// Prefix of the staging files made by `atomic_copy_file`.
pub const COPY_TEMP_PREFIX: &'static str = ".tmp_atomic_copy.";

/// Lower-case hexadecimal digit of `d < 16`.
pub open spec fn hex_digit(d: nat) -> char {
    if d < 10 {
        (('0' as u32) + d) as char
    } else {
        (('a' as u32) + d - 10) as char
    }
}

/// Lower-case hexadecimal rendering of `n`, without leading zeros.
pub open spec fn hex_spec(n: nat) -> Seq<char>
    decreases n,
{
    if n < 16 {
        seq![hex_digit(n)]
    } else {
        hex_spec(n / 16).push(hex_digit(n % 16))
    }
}

/// The last `k` characters of `s` (all of `s` when it is shorter).
pub open spec fn tail_spec(s: Seq<char>, k: nat) -> Seq<char> {
    if s.len() <= k {
        s
    } else {
        s.subrange(s.len() - k, s.len() as int)
    }
}

fn digit_char(d: u8) -> (c: char)
    requires
        d < 16,
    ensures
        c == hex_digit(d as nat),
{
    if d < 10 {
        (('0' as u8) + d) as char
    } else {
        (('a' as u8) + d - 10) as char
    }
}

/// Appends the hexadecimal rendering of `n` to `out`.
pub fn push_hex(out: &mut String, n: u128)
    ensures
        final(out)@ == old(out)@ + hex_spec(n as nat),
    decreases n,
{
    if n < 16 {
        push_char(out, digit_char(n as u8));
        proof {
            assert(hex_spec(n as nat) =~= seq![hex_digit(n as nat)]);
        }
    } else {
        push_hex(out, n / 16);
        push_char(out, digit_char((n % 16) as u8));
    }
}

/// The entropy string that distinguishes one staging file from another: the
/// hexadecimal renderings of each source of uniqueness, back to back.
pub open spec fn entropy_spec(parts: Seq<u128>) -> Seq<char>
    decreases parts.len(),
{
    if parts.len() == 0 {
        Seq::empty()
    } else {
        entropy_spec(parts.drop_last()) + hex_spec(parts.last() as nat)
    }
}

/// Name of a staging file: `prefix`, then the last `keep` characters of the
/// entropy string built from `parts` (process id, clock, thread, sequence).
pub open spec fn temp_name_spec(prefix: Seq<char>, parts: Seq<u128>, keep: nat) -> Seq<char> {
    prefix + tail_spec(entropy_spec(parts), keep)
}

/// Builds a staging file name from its sources of uniqueness.
pub fn temp_file_name(prefix: &str, parts: &Vec<u128>, keep: usize) -> (r: String)
    ensures
        r@ == temp_name_spec(prefix@, parts@, keep as nat),
{
    let mut raw = String::new();
    let mut i: usize = 0;
    while i < parts.len()
        invariant
            i <= parts@.len(),
            raw@ == entropy_spec(parts@.subrange(0, i as int)),
        decreases parts@.len() - i,
    {
        proof {
            assert(parts@.subrange(0, i + 1).drop_last() =~= parts@.subrange(0, i as int));
        }
        push_hex(&mut raw, parts[i]);
        i = i + 1;
    }
    proof {
        assert(parts@.subrange(0, i as int) =~= parts@);
    }
    let n = raw.as_str().unicode_len();
    let tail = if n <= keep {
        raw.as_str().substring_char(0, n)
    } else {
        raw.as_str().substring_char(n - keep, n)
    };
    proof {
        if n <= keep {
            assert(tail@ =~= raw@);
        }
    }
    let mut out = prefix.to_owned();
    out.append(tail);
    out
}

/// Name of the staging file of `atomic_write`: eight characters of entropy
/// from the process id and the clock.
pub fn write_temp_name(pid: u32, nanos: u128) -> (r: String)
    ensures
        r@ == temp_name_spec(WRITE_TEMP_PREFIX@, seq![pid as u128, nanos], 8),
{
    let parts: Vec<u128> = vec![pid as u128, nanos];
    proof {
        assert(parts@ =~= seq![pid as u128, nanos]);
    }
    temp_file_name(WRITE_TEMP_PREFIX, &parts, 8)
}

/// Name of the staging file of `atomic_copy_file`: twelve characters of
/// entropy from the process id, the clock, a hash of the thread and a
/// per-call sequence number.
pub fn copy_temp_name(pid: u32, nanos: u128, thread_hash: u64, seq_no: u64) -> (r: String)
    ensures
        r@ == temp_name_spec(
            COPY_TEMP_PREFIX@,
            seq![pid as u128, nanos, thread_hash as u128, seq_no as u128],
            12,
        ),
{
    let parts: Vec<u128> = vec![pid as u128, nanos, thread_hash as u128, seq_no as u128];
    proof {
        assert(parts@ =~= seq![pid as u128, nanos, thread_hash as u128, seq_no as u128]);
    }
    temp_file_name(COPY_TEMP_PREFIX, &parts, 12)
}

/// `true` when `s` begins with `prefix`.
pub fn has_prefix(s: &str, prefix: &str) -> (r: bool)
    ensures
        r == (prefix@.len() <= s@.len() && s@.subrange(0, prefix@.len() as int) == prefix@),
{
    let sl = s.unicode_len();
    let pl = prefix.unicode_len();
    if pl > sl {
        return false;
    }
    let mut i: usize = 0;
    while i < pl
        invariant
            pl <= sl,
            sl == s@.len(),
            pl == prefix@.len(),
            i <= pl,
            forall|k: int| 0 <= k < i ==> s@[k] == prefix@[k],
        decreases pl - i,
    {
        if s.get_char(i) != prefix.get_char(i) {
            proof {
                assert(s@.subrange(0, pl as int)[i as int] != prefix@[i as int]);
            }
            return false;
        }
        i = i + 1;
    }
    proof {
        assert(s@.subrange(0, pl as int) =~= prefix@);
    }
    true
}

/// `true` when a file name is that of a staging file of either primitive.
pub fn is_temp_artifact(name: &str) -> (r: bool)
    ensures
        r == ((WRITE_TEMP_PREFIX@.len() <= name@.len() && name@.subrange(
            0,
            WRITE_TEMP_PREFIX@.len() as int,
        ) == WRITE_TEMP_PREFIX@) || (COPY_TEMP_PREFIX@.len() <= name@.len() && name@.subrange(
            0,
            COPY_TEMP_PREFIX@.len() as int,
        ) == COPY_TEMP_PREFIX@)),
{
    has_prefix(name, WRITE_TEMP_PREFIX) || has_prefix(name, COPY_TEMP_PREFIX)
}

/// Where a staged commit stands.
#[derive(Clone, Copy, Debug, PartialEq, Eq, Structural)]
pub enum CommitPhase {
    Writing,
    Renaming,
    Cleaning,
    Done,
}

/// What the driver of a staged commit performs next.
#[derive(Clone, Copy, Debug, PartialEq, Eq, Structural)]
pub enum CommitAction {
    /// Write the content into the staging file.
    WriteTemp,
    /// Rename the staging file onto the target.
    RenameTemp,
    /// Remove the staging file.
    RemoveTemp,
    /// Report success.
    Succeed,
    /// Report the failure of the write or the rename.
    Fail,
}

/// A staged commit: content goes to a staging file beside the target, which
/// is then renamed onto it; every failure removes the staging file.
#[derive(Clone, Copy, Debug, PartialEq, Eq, Structural)]
pub struct AtomicCommit {
    pub phase: CommitPhase,
    /// The rename is treated as failed without being attempted.
    pub force_rename_failure: bool,
}

impl AtomicCommit {
    pub open spec fn on_written_spec(self, ok: bool) -> (AtomicCommit, CommitAction) {
        if ok && !self.force_rename_failure {
            (AtomicCommit { phase: CommitPhase::Renaming, ..self }, CommitAction::RenameTemp)
        } else {
            (AtomicCommit { phase: CommitPhase::Cleaning, ..self }, CommitAction::RemoveTemp)
        }
    }

    pub open spec fn on_renamed_spec(self, ok: bool) -> (AtomicCommit, CommitAction) {
        if ok {
            (AtomicCommit { phase: CommitPhase::Done, ..self }, CommitAction::Succeed)
        } else {
            (AtomicCommit { phase: CommitPhase::Cleaning, ..self }, CommitAction::RemoveTemp)
        }
    }

    /// Start a commit; the first action is always `WriteTemp`.
    pub fn start(force_rename_failure: bool) -> (r: (AtomicCommit, CommitAction))
        ensures
            r.0 == (AtomicCommit { phase: CommitPhase::Writing, force_rename_failure }),
            r.1 == CommitAction::WriteTemp,
    {
        (AtomicCommit { phase: CommitPhase::Writing, force_rename_failure }, CommitAction::WriteTemp)
    }

    /// The staging file was written (`ok`) or its write failed.
    pub fn on_written(&mut self, ok: bool) -> (r: CommitAction)
        requires
            old(self).phase == CommitPhase::Writing,
        ensures
            (*final(self), r) == old(self).on_written_spec(ok),
    {
        if ok && !self.force_rename_failure {
            self.phase = CommitPhase::Renaming;
            CommitAction::RenameTemp
        } else {
            self.phase = CommitPhase::Cleaning;
            CommitAction::RemoveTemp
        }
    }

    /// The rename onto the target succeeded (`ok`) or failed.
    pub fn on_renamed(&mut self, ok: bool) -> (r: CommitAction)
        requires
            old(self).phase == CommitPhase::Renaming,
        ensures
            (*final(self), r) == old(self).on_renamed_spec(ok),
    {
        if ok {
            self.phase = CommitPhase::Done;
            CommitAction::Succeed
        } else {
            self.phase = CommitPhase::Cleaning;
            CommitAction::RemoveTemp
        }
    }

    /// The staging file was removed (whatever the removal's outcome, the
    /// original failure is what is reported).
    pub fn on_removed(&mut self) -> (r: CommitAction)
        requires
            old(self).phase == CommitPhase::Cleaning,
        ensures
            final(self).phase == CommitPhase::Done,
            final(self).force_rename_failure == old(self).force_rename_failure,
            r == CommitAction::Fail,
    {
        self.phase = CommitPhase::Done;
        CommitAction::Fail
    }
}

/// What an observer of the directory sees of a commit.
pub ghost struct CommitDisk {
    /// A staging file is present.
    pub temp_present: bool,
    /// The target holds the new content (else its previous content).
    pub target_new: bool,
}

/// The effect of one action on the directory: writing creates the staging
/// file (possibly partial), a successful rename moves it onto the target in
/// one step, a failed rename changes nothing, and a removal that succeeds
/// deletes the staging file.
pub open spec fn commit_effect(d: CommitDisk, a: CommitAction, ok: bool) -> CommitDisk {
    match a {
        CommitAction::WriteTemp => CommitDisk { temp_present: true, ..d },
        CommitAction::RenameTemp => if ok {
            CommitDisk { temp_present: false, target_new: true }
        } else {
            d
        },
        CommitAction::RemoveTemp => if ok {
            CommitDisk { temp_present: false, ..d }
        } else {
            d
        },
        _ => d,
    }
}

/// Runs a commit to its end with the given outcomes of the write, the rename
/// and the removal; returns the final action and what the directory holds.
pub open spec fn run_commit(force: bool, write_ok: bool, rename_ok: bool, remove_ok: bool) -> (
    CommitAction,
    CommitDisk,
) {
    let c0 = AtomicCommit { phase: CommitPhase::Writing, force_rename_failure: force };
    let d0 = CommitDisk { temp_present: false, target_new: false };
    let d1 = commit_effect(d0, CommitAction::WriteTemp, write_ok);
    let (c1, a1) = c0.on_written_spec(write_ok);
    if a1 == CommitAction::RenameTemp {
        let d2 = commit_effect(d1, a1, rename_ok);
        let (c2, a2) = c1.on_renamed_spec(rename_ok);
        if a2 == CommitAction::Succeed {
            (a2, d2)
        } else {
            (CommitAction::Fail, commit_effect(d2, a2, remove_ok))
        }
    } else {
        (CommitAction::Fail, commit_effect(d1, a1, remove_ok))
    }
}

/// Atomicity of `atomic_write` and `atomic_copy_file`: whichever step fails,
/// the target holds either its previous content (on failure) or the new
/// content in full (on success), and no staging file is left behind, on
/// success always and on failure whenever its removal succeeds.
pub proof fn lemma_commit_is_atomic(force: bool, write_ok: bool, rename_ok: bool, remove_ok: bool)
    ensures
        ({
            let (a, d) = run_commit(force, write_ok, rename_ok, remove_ok);
            &&& a == CommitAction::Succeed || a == CommitAction::Fail
            &&& (a == CommitAction::Succeed <==> d.target_new)
            &&& (a == CommitAction::Succeed ==> !d.temp_present)
            &&& (remove_ok ==> !d.temp_present)
            &&& (a == CommitAction::Succeed <==> (write_ok && rename_ok && !force))
        }),
{
}

/// Where a rename-or-copy move stands.
#[derive(Clone, Copy, Debug, PartialEq, Eq, Structural)]
pub enum MovePhase {
    Renaming,
    Copying,
    Removing,
    Done,
}

/// What the driver of a move performs next.
#[derive(Clone, Copy, Debug, PartialEq, Eq, Structural)]
pub enum MoveAction {
    /// Rename the source onto the destination.
    Rename,
    /// Copy the source file with `atomic_copy_file`.
    CopyFile,
    /// Copy the source tree with the tree synchronizer.
    CopyTree,
    /// Remove the source file.
    RemoveFile,
    /// Remove the source tree.
    RemoveTree,
    /// Report success.
    Succeed,
    /// Report the failure of the fallback.
    Fail,
}

/// `atomic_rename_or_copy`: a rename, and on its failure a copy of the file or
/// tree followed by removal of the source.
#[derive(Clone, Copy, Debug, PartialEq, Eq, Structural)]
pub struct RenameOrCopy {
    pub phase: MovePhase,
    pub src_is_dir: bool,
}

impl RenameOrCopy {
    pub open spec fn fallback_spec(src_is_dir: bool) -> (RenameOrCopy, MoveAction) {
        (
            RenameOrCopy { phase: MovePhase::Copying, src_is_dir },
            if src_is_dir {
                MoveAction::CopyTree
            } else {
                MoveAction::CopyFile
            },
        )
    }

    pub open spec fn start_spec(force_rename_failure: bool, src_is_dir: bool) -> (
        RenameOrCopy,
        MoveAction,
    ) {
        if force_rename_failure {
            Self::fallback_spec(src_is_dir)
        } else {
            (RenameOrCopy { phase: MovePhase::Renaming, src_is_dir }, MoveAction::Rename)
        }
    }

    pub open spec fn on_renamed_spec(self, ok: bool) -> (RenameOrCopy, MoveAction) {
        if ok {
            (RenameOrCopy { phase: MovePhase::Done, ..self }, MoveAction::Succeed)
        } else {
            Self::fallback_spec(self.src_is_dir)
        }
    }

    pub open spec fn on_copied_spec(self, ok: bool) -> (RenameOrCopy, MoveAction) {
        if ok {
            (
                RenameOrCopy { phase: MovePhase::Removing, ..self },
                if self.src_is_dir {
                    MoveAction::RemoveTree
                } else {
                    MoveAction::RemoveFile
                },
            )
        } else {
            (RenameOrCopy { phase: MovePhase::Done, ..self }, MoveAction::Fail)
        }
    }

    pub open spec fn on_removed_spec(self, ok: bool) -> (RenameOrCopy, MoveAction) {
        (
            RenameOrCopy { phase: MovePhase::Done, ..self },
            if ok {
                MoveAction::Succeed
            } else {
                MoveAction::Fail
            },
        )
    }

    fn fallback(src_is_dir: bool) -> (r: (RenameOrCopy, MoveAction))
        ensures
            r == Self::fallback_spec(src_is_dir),
    {
        (
            RenameOrCopy { phase: MovePhase::Copying, src_is_dir },
            if src_is_dir {
                MoveAction::CopyTree
            } else {
                MoveAction::CopyFile
            },
        )
    }

    /// Start a move; an injected rename failure goes straight to the fallback.
    pub fn start(force_rename_failure: bool, src_is_dir: bool) -> (r: (RenameOrCopy, MoveAction))
        ensures
            r == Self::start_spec(force_rename_failure, src_is_dir),
    {
        if force_rename_failure {
            Self::fallback(src_is_dir)
        } else {
            (RenameOrCopy { phase: MovePhase::Renaming, src_is_dir }, MoveAction::Rename)
        }
    }

    /// The rename succeeded (`ok`) or failed; its error is never reported.
    pub fn on_renamed(&mut self, ok: bool) -> (r: MoveAction)
        requires
            old(self).phase == MovePhase::Renaming,
        ensures
            (*final(self), r) == old(self).on_renamed_spec(ok),
    {
        if ok {
            self.phase = MovePhase::Done;
            MoveAction::Succeed
        } else {
            let (s, a) = Self::fallback(self.src_is_dir);
            *self = s;
            a
        }
    }

    /// The fallback copy succeeded (`ok`) or failed.
    pub fn on_copied(&mut self, ok: bool) -> (r: MoveAction)
        requires
            old(self).phase == MovePhase::Copying,
        ensures
            (*final(self), r) == old(self).on_copied_spec(ok),
    {
        if ok {
            self.phase = MovePhase::Removing;
            if self.src_is_dir {
                MoveAction::RemoveTree
            } else {
                MoveAction::RemoveFile
            }
        } else {
            self.phase = MovePhase::Done;
            MoveAction::Fail
        }
    }

    /// Removing the source succeeded (`ok`) or failed.
    pub fn on_removed(&mut self, ok: bool) -> (r: MoveAction)
        requires
            old(self).phase == MovePhase::Removing,
        ensures
            (*final(self), r) == old(self).on_removed_spec(ok),
    {
        self.phase = MovePhase::Done;
        if ok {
            MoveAction::Succeed
        } else {
            MoveAction::Fail
        }
    }
}

/// Where the moved entry can be found.
pub ghost struct MoveDisk {
    pub at_src: bool,
    pub at_dst: bool,
}

/// The effect of one action: a successful rename moves the entry, a
/// successful copy adds it at the destination, a successful removal deletes
/// the source; a failed action changes nothing.
pub open spec fn move_effect(d: MoveDisk, a: MoveAction, ok: bool) -> MoveDisk {
    if !ok {
        d
    } else {
        match a {
            MoveAction::Rename => MoveDisk { at_src: false, at_dst: true },
            MoveAction::CopyFile | MoveAction::CopyTree => MoveDisk { at_dst: true, ..d },
            MoveAction::RemoveFile | MoveAction::RemoveTree => MoveDisk { at_src: false, ..d },
            _ => d,
        }
    }
}

/// Runs a move to its end with the given outcomes.
pub open spec fn run_move(
    force: bool,
    src_is_dir: bool,
    rename_ok: bool,
    copy_ok: bool,
    remove_ok: bool,
) -> (MoveAction, MoveDisk) {
    let d0 = MoveDisk { at_src: true, at_dst: false };
    let (m0, a0) = RenameOrCopy::start_spec(force, src_is_dir);
    let (m1, a1, d1) = if a0 == MoveAction::Rename {
        let (m, a) = m0.on_renamed_spec(rename_ok);
        (m, a, move_effect(d0, a0, rename_ok))
    } else {
        (m0, a0, d0)
    };
    if a1 == MoveAction::Succeed {
        (a1, d1)
    } else {
        let d2 = move_effect(d1, a1, copy_ok);
        let (m2, a2) = m1.on_copied_spec(copy_ok);
        if a2 == MoveAction::Fail {
            (a2, d2)
        } else {
            let (m3, a3) = m2.on_removed_spec(remove_ok);
            (a3, move_effect(d2, a2, remove_ok))
        }
    }
}

/// The rename-or-copy fallback: when the rename fails, or is forced to fail,
/// and the copy and the removal of the source succeed, the move succeeds,
/// the entry is present under the new name and absent under the old one, and
/// the rename's error is never reported. Whenever the move reports success
/// the entry has moved.
pub proof fn lemma_rename_fallback(force: bool, src_is_dir: bool, rename_ok: bool, copy_ok: bool, remove_ok: bool)
    ensures
        (force || !rename_ok) && copy_ok && remove_ok ==> run_move(
            force,
            src_is_dir,
            rename_ok,
            copy_ok,
            remove_ok,
        ) == (MoveAction::Succeed, MoveDisk { at_src: false, at_dst: true }),
        run_move(force, src_is_dir, rename_ok, copy_ok, remove_ok).0 == MoveAction::Succeed ==> run_move(
            force,
            src_is_dir,
            rename_ok,
            copy_ok,
            remove_ok,
        ).1 == (MoveDisk { at_src: false, at_dst: true }),
        run_move(force, src_is_dir, rename_ok, copy_ok, remove_ok).1.at_src || run_move(
            force,
            src_is_dir,
            rename_ok,
            copy_ok,
            remove_ok,
        ).1.at_dst,
{
}

} // verus!
