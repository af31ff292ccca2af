//! The metadata preserver's policy: which replication steps run, in what
//! order, which failures are critical, and where each entry of a source tree
//! lands under the destination.
use vstd::prelude::*;
use crate::paths::{join_spec, join_path, starts_with_path, path_starts_with};

verus! {

/// Extended attribute holding the access ACL.
pub const ACL_ACCESS_XATTR: &'static str = "system.posix_acl_access";

/// Extended attribute holding the default ACL of a directory.
pub const ACL_DEFAULT_XATTR: &'static str = "system.posix_acl_default";

/// One replication step, in the order they run.
#[derive(Clone, Copy, Debug, PartialEq, Eq, Structural)]
pub enum MetaStep {
    Permissions,
    Timestamps,
    Ownership,
    ExtendedAttributes,
    Acl,
}

/// Whether one file or a whole tree is being replicated.
#[derive(Clone, Copy, Debug, PartialEq, Eq, Structural)]
pub enum MetaScope {
    SingleFile,
    Tree,
}

/// What to do after a step.
#[derive(Clone, Copy, Debug, PartialEq, Eq, Structural)]
pub enum StepOutcome {
    /// The step succeeded; go on.
    Continue,
    /// The step failed and the failure is swallowed; go on.
    Ignore,
    /// The step failed and the failure is reported; stop.
    Abort,
}

/// Permission bits and timestamps of a single file are critical; everything
/// else, and everything in a tree, is best-effort.
pub open spec fn critical_spec(scope: MetaScope, step: MetaStep) -> bool {
    scope == MetaScope::SingleFile && (step == MetaStep::Permissions || step
        == MetaStep::Timestamps)
}

/// Whether a failure of `step` is reported in `scope`.
pub fn is_critical(scope: MetaScope, step: MetaStep) -> (r: bool)
    ensures
        r == critical_spec(scope, step),
{
    match scope {
        MetaScope::SingleFile => match step {
            MetaStep::Permissions | MetaStep::Timestamps => true,
            _ => false,
        },
        MetaScope::Tree => false,
    }
}

/// Classifies the outcome of one step.
pub fn classify_step(scope: MetaScope, step: MetaStep, ok: bool) -> (r: StepOutcome)
    ensures
        r == (if ok {
            StepOutcome::Continue
        } else if critical_spec(scope, step) {
            StepOutcome::Abort
        } else {
            StepOutcome::Ignore
        }),
{
    if ok {
        StepOutcome::Continue
    } else if is_critical(scope, step) {
        StepOutcome::Abort
    } else {
        StepOutcome::Ignore
    }
}

/// The step after `step`, if any.
pub fn next_step(step: MetaStep) -> (r: Option<MetaStep>)
    ensures
        r == (match step {
            MetaStep::Permissions => Some(MetaStep::Timestamps),
            MetaStep::Timestamps => Some(MetaStep::Ownership),
            MetaStep::Ownership => Some(MetaStep::ExtendedAttributes),
            MetaStep::ExtendedAttributes => Some(MetaStep::Acl),
            MetaStep::Acl => None,
        }),
{
    match step {
        MetaStep::Permissions => Some(MetaStep::Timestamps),
        MetaStep::Timestamps => Some(MetaStep::Ownership),
        MetaStep::Ownership => Some(MetaStep::ExtendedAttributes),
        MetaStep::ExtendedAttributes => Some(MetaStep::Acl),
        MetaStep::Acl => None,
    }
}

/// The failure reported once every step has run (or stopped): the first
/// step whose failure is critical.
pub open spec fn first_critical(scope: MetaScope, failed: Seq<MetaStep>) -> Option<MetaStep>
    decreases failed.len(),
{
    if failed.len() == 0 {
        None
    } else if critical_spec(scope, failed[0]) {
        Some(failed[0])
    } else {
        first_critical(scope, failed.drop_first())
    }
}

/// Fidelity of a single-file copy: its replication succeeds exactly when
/// neither the permission bits nor the timestamps failed to copy, whatever
/// else failed; over a tree every failure is swallowed.
pub proof fn lemma_single_file_fidelity(failed: Seq<MetaStep>)
    ensures
        first_critical(MetaScope::SingleFile, failed) is None <==> (!failed.contains(
            MetaStep::Permissions,
        ) && !failed.contains(MetaStep::Timestamps)),
        first_critical(MetaScope::Tree, failed) is None,
    decreases failed.len(),
{
    if failed.len() > 0 {
        lemma_single_file_fidelity(failed.drop_first());
        assert(failed =~= seq![failed[0]] + failed.drop_first());
        if failed.drop_first().contains(MetaStep::Permissions) {
            let k = choose|k: int| 0 <= k < failed.drop_first().len() && failed.drop_first()[k]
                == MetaStep::Permissions;
            assert(failed[k + 1] == MetaStep::Permissions);
        }
        if failed.drop_first().contains(MetaStep::Timestamps) {
            let k = choose|k: int| 0 <= k < failed.drop_first().len() && failed.drop_first()[k]
                == MetaStep::Timestamps;
            assert(failed[k + 1] == MetaStep::Timestamps);
        }
        if failed.contains(MetaStep::Permissions) && !critical_spec(MetaScope::SingleFile, failed[0]) {
            let k = choose|k: int| 0 <= k < failed.len() && failed[k] == MetaStep::Permissions;
            assert(failed.drop_first()[k - 1] == MetaStep::Permissions);
        }
        if failed.contains(MetaStep::Timestamps) && !critical_spec(MetaScope::SingleFile, failed[0]) {
            let k = choose|k: int| 0 <= k < failed.len() && failed[k] == MetaStep::Timestamps;
            assert(failed.drop_first()[k - 1] == MetaStep::Timestamps);
        }
        if critical_spec(MetaScope::SingleFile, failed[0]) {
            assert(failed.contains(failed[0]));
        }
    }
}

/// The result of a replication whose failed steps, in order, are `failed`.
pub fn replication_result(scope: MetaScope, failed: &Vec<MetaStep>) -> (r: Result<(), MetaStep>)
    ensures
        r == (match first_critical(scope, failed@) {
            Some(s) => Err(s),
            None => Ok(()),
        }),
{
    let mut i: usize = 0;
    proof {
        assert(failed@.subrange(0, failed@.len() as int) =~= failed@);
    }
    while i < failed.len()
        invariant
            i <= failed@.len(),
            first_critical(scope, failed@) == first_critical(
                scope,
                failed@.subrange(i as int, failed@.len() as int),
            ),
        decreases failed@.len() - i,
    {
        let ghost rest = failed@.subrange(i as int, failed@.len() as int);
        proof {
            assert(rest[0] == failed@[i as int]);
            assert(rest.drop_first() =~= failed@.subrange(i + 1, failed@.len() as int));
        }
        if is_critical(scope, failed[i]) {
            return Err(failed[i]);
        }
        i = i + 1;
    }
    Ok(())
}

/// How metadata is replicated from `src` to `dst`: not at all when either is
/// missing, as a single file when `src` is a file, else as a tree.
pub open spec fn scope_spec(src_exists: bool, dst_exists: bool, src_is_file: bool) -> Option<MetaScope> {
    if !src_exists || !dst_exists {
        None
    } else if src_is_file {
        Some(MetaScope::SingleFile)
    } else {
        Some(MetaScope::Tree)
    }
}

pub fn replication_scope(src_exists: bool, dst_exists: bool, src_is_file: bool) -> (r: Option<MetaScope>)
    ensures
        r == scope_spec(src_exists, dst_exists, src_is_file),
{
    if !src_exists || !dst_exists {
        None
    } else if src_is_file {
        Some(MetaScope::SingleFile)
    } else {
        Some(MetaScope::Tree)
    }
}

/// The path with its leading separators removed.
pub open spec fn drop_leading_seps(p: Seq<char>) -> Seq<char>
    decreases p.len(),
{
    if p.len() > 0 && p[0] == '/' {
        drop_leading_seps(p.drop_first())
    } else {
        p
    }
}

/// `Path::strip_prefix`: the rest of `p` below `base`.
pub open spec fn strip_prefix_spec(p: Seq<char>, base: Seq<char>) -> Option<Seq<char>> {
    if starts_with_path(p, base) {
        Some(drop_leading_seps(p.subrange(base.len() as int, p.len() as int)))
    } else {
        None
    }
}

/// The path of `p` relative to `base`, if `p` lies below it.
pub fn strip_prefix(p: &str, base: &str) -> (r: Option<String>)
    ensures
        r matches Some(s) ==> strip_prefix_spec(p@, base@) == Some(s@),
        r is None ==> strip_prefix_spec(p@, base@) is None,
{
    if !path_starts_with(p, base) {
        return None;
    }
    let n = p.unicode_len();
    let mut i: usize = base.unicode_len();
    proof {
        assert(p@.subrange(i as int, n as int) =~= p@.subrange(base@.len() as int, p@.len() as int));
    }
    while i < n && p.get_char(i) == '/'
        invariant
            base@.len() <= i <= n,
            n == p@.len(),
            drop_leading_seps(p@.subrange(base@.len() as int, n as int)) == drop_leading_seps(
                p@.subrange(i as int, n as int),
            ),
        decreases n - i,
    {
        proof {
            assert(p@.subrange(i as int, n as int).drop_first() =~= p@.subrange(i + 1, n as int));
        }
        i = i + 1;
    }
    let rest = p.substring_char(i, n);
    proof {
        let r = p@.subrange(i as int, n as int);
        if r.len() > 0 {
            assert(r[0] == p@[i as int]);
        }
    }
    Some(rest.to_owned())
}

/// Where the metadata of `path`, an entry of the tree at `src_root`, is
/// applied: the same relative place under `dst_root`.
pub fn metadata_target(path: &str, src_root: &str, dst_root: &str) -> (r: Option<String>)
    ensures
        r matches Some(t) ==> (strip_prefix_spec(path@, src_root@) matches Some(rel) && t@
            == join_spec(dst_root@, rel)),
        r is None ==> strip_prefix_spec(path@, src_root@) is None,
{
    match strip_prefix(path, src_root) {
        Some(rel) => Some(join_path(dst_root, rel.as_str())),
        None => None,
    }
}

/// The access and default ACL blobs of a path, as opaque bytes.
#[derive(Clone, Debug, PartialEq, Eq)]
pub struct PosixAcl {
    pub access: Option<Vec<u8>>,
    pub default: Option<Vec<u8>>,
}

impl PosixAcl {
    /// The ACL made of the blobs read from a path; `None` when neither
    /// attribute was present.
    pub fn from_blobs(access: Option<Vec<u8>>, default: Option<Vec<u8>>) -> (r: Option<PosixAcl>)
        ensures
            r is None <==> (access is None && default is None),
            r matches Some(a) ==> a.access == access && a.default == default,
    {
        if access.is_none() && default.is_none() {
            None
        } else {
            Some(PosixAcl { access, default })
        }
    }
}

} // verus!
