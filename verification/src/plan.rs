//! The planner: for one target and one eligible server it turns the source
//! side's listing into the ordered task list the scheduler executes — a
//! single skip task when the direction is disabled, a single missing-source
//! task when the listing is empty, one transfer task per listed path
//! otherwise.  For a shared target's push it first enforces the fleet-wide
//! consistency check.

use vstd::prelude::*;
use crate::config::TargetConfig;
use crate::errors::SyncError;
use crate::local::{local_path_spec, local_real_path_spec, LocalConfigClient};
use crate::report::{PullRemoteTaskState, PushLocalTaskState};

verus! {

/// Two target descriptions with the same fields.
pub open spec fn target_eq(a: TargetConfig, b: TargetConfig) -> bool {
    &&& a.path@ == b.path@
    &&& a.push == b.push
    &&& a.pull == b.pull
    &&& a.sudo == b.sudo
    &&& a.shared == b.shared
}

/// The remote half of a pull task.
pub struct PullRemoteTask {
    pub relative_path: String,
    pub server_name: String,
    pub state: PullRemoteTaskState,
}

/// The local half of a pull task: where the pulled bytes land.
pub struct PullLocalTask {
    pub path: String,
}

/// One (target, server, relative path) unit of pull work.
pub struct PullTask {
    pub remote: PullRemoteTask,
    pub local: PullLocalTask,
    pub target: TargetConfig,
}

/// What one executed pull task reports.
pub struct PullTaskResult {
    pub messages: Vec<String>,
}

/// The local half of a push task.
pub struct PushLocalTask {
    pub path: String,
    pub state: PushLocalTaskState,
    /// A shared target's source lines are shown once, not once per server.
    pub is_hidden: bool,
}

/// The remote half of a push task.
pub struct PushRemoteTask {
    pub relative_path: String,
    pub server_name: String,
}

/// One (target, server, relative path) unit of push work.
pub struct PushTask {
    pub remote: PushRemoteTask,
    pub local: PushLocalTask,
    pub target: TargetConfig,
}

/// What one executed push task reports.
pub struct PushTaskResult {
    pub messages: Vec<String>,
}

/// A shared target is pulled only from the first server; an ordinary target
/// from every server.
pub fn pull_eligible(target: &TargetConfig, idx: usize) -> (r: bool)
    ensures
        r == (idx == 0 || !target.shared),
{
    idx == 0 || !target.shared
}

/// Every planned pull task carries its target and server.
pub open spec fn pull_task_wf(t: PullTask, target: TargetConfig, server_name: Seq<char>) -> bool {
    target_eq(t.target, target) && t.remote.server_name@ == server_name
}

/// The transfer task of the path at `i` of the listing: in progress, its
/// relative path taken from the listing, its local destination resolved by
/// the path identity.
pub open spec fn pull_task_at(
    t: PullTask,
    root: Seq<char>,
    target: TargetConfig,
    server_name: Seq<char>,
    paths: Seq<String>,
    i: int,
) -> bool {
    &&& t.remote.state is Progress
    &&& t.remote.relative_path@ == paths[i]@
    &&& t.local.path@ == local_real_path_spec(
        root,
        server_name,
        target.path@,
        target.shared,
        paths[i]@,
    )
}

/// The pull tasks of one (target, server) pair, given the remote side's
/// listing: one skip task when the target is disabled for pulling, one
/// missing-source task when the listing is empty, one in-progress transfer
/// task per listed path otherwise, in listing order.
pub fn plan_pull_target(
    local: &LocalConfigClient,
    server_name: &String,
    target: &TargetConfig,
    paths: &Vec<String>,
) -> (r: Vec<PullTask>)
    ensures
        forall|i: int| 0 <= i < r@.len() ==> pull_task_wf(#[trigger] r@[i], *target, server_name@),
        !target.pull ==> r@.len() == 1 && r@[0].remote.state is Skip
            && r@[0].remote.relative_path@ == Seq::<char>::empty() && r@[0].local.path@
            == local_path_spec(local.root(), server_name@, target.path@, target.shared),
        target.pull && paths@.len() == 0 ==> r@.len() == 1 && r@[0].remote.state is NotExists
            && r@[0].remote.relative_path@ == Seq::<char>::empty() && r@[0].local.path@
            == local_path_spec(local.root(), server_name@, target.path@, target.shared),
        target.pull && paths@.len() > 0 ==> r@.len() == paths@.len() && forall|i: int|
            0 <= i < r@.len() ==> pull_task_at(
                #[trigger] r@[i],
                local.root(),
                *target,
                server_name@,
                paths@,
                i,
            ),
{
    let mut r: Vec<PullTask> = Vec::new();
    if !target.pull {
        let base = local.path(server_name, target);
        r.push(
            PullTask {
                remote: PullRemoteTask {
                    relative_path: String::new(),
                    server_name: server_name.clone(),
                    state: PullRemoteTaskState::Skip,
                },
                local: PullLocalTask { path: base },
                target: target.duplicate(),
            },
        );
        assert(pull_task_wf(r@[0], *target, server_name@));
        return r;
    }
    if paths.len() == 0 {
        let base = local.path(server_name, target);
        r.push(
            PullTask {
                remote: PullRemoteTask {
                    relative_path: String::new(),
                    server_name: server_name.clone(),
                    state: PullRemoteTaskState::NotExists,
                },
                local: PullLocalTask { path: base },
                target: target.duplicate(),
            },
        );
        assert(pull_task_wf(r@[0], *target, server_name@));
        return r;
    }
    let mut i: usize = 0;
    while i < paths.len()
        invariant
            i <= paths.len(),
            r@.len() == i,
            forall|j: int| 0 <= j < i ==> pull_task_wf(#[trigger] r@[j], *target, server_name@),
            forall|j: int|
                0 <= j < i ==> pull_task_at(
                    #[trigger] r@[j],
                    local.root(),
                    *target,
                    server_name@,
                    paths@,
                    j,
                ),
        decreases paths.len() - i,
    {
        let dest = local.real_path(server_name, target, &paths[i]);
        let task = PullTask {
            remote: PullRemoteTask {
                relative_path: paths[i].clone(),
                server_name: server_name.clone(),
                state: PullRemoteTaskState::Progress,
            },
            local: PullLocalTask { path: dest },
            target: target.duplicate(),
        };
        let ghost gtask = task;
        let ghost old_r = r@;
        r.push(task);
        proof {
            assert(pull_task_wf(gtask, *target, server_name@));
            assert(pull_task_at(gtask, local.root(), *target, server_name@, paths@, i as int));
            assert forall|j: int| 0 <= j < i + 1 implies pull_task_wf(
                #[trigger] r@[j],
                *target,
                server_name@,
            ) && pull_task_at(r@[j], local.root(), *target, server_name@, paths@, j) by {
                if j < i {
                    assert(r@[j] == old_r[j]);
                } else {
                    assert(r@[j] == gtask);
                }
            }
        }
        i += 1;
    }
    r
}

/// The fleet-wide consistency check of a shared target's push: the target
/// must be confirmed to exist on every server before the single local copy
/// is distributed; the first server it cannot be confirmed on aborts the
/// target's distribution.  Ordinary targets, and targets not pushed, pass
/// unconditionally.
pub fn shared_push_check(
    target: &TargetConfig,
    server_names: &Vec<String>,
    remote_exists: &Vec<bool>,
) -> (r: Result<(), SyncError>)
    requires
        server_names@.len() == remote_exists@.len(),
    ensures
        match r {
            Result::Ok(_) => !(target.shared && target.push) || forall|i: int|
                0 <= i < remote_exists@.len() ==> remote_exists@[i],
            Result::Err(e) => target.shared && target.push && (e matches
                SyncError::SharedTargetMissing { server, target_path } && target_path@
                == target.path@ && exists|i: int|
                0 <= i < remote_exists@.len() && !remote_exists@[i] && server@
                    == server_names@[i]@ && (forall|j: int| 0 <= j < i ==> remote_exists@[j])),
        },
{
    if !(target.shared && target.push) {
        return Ok(());
    }
    let mut i: usize = 0;
    while i < remote_exists.len()
        invariant
            i <= remote_exists@.len(),
            server_names@.len() == remote_exists@.len(),
            target.shared && target.push,
            forall|j: int| 0 <= j < i ==> remote_exists@[j],
        decreases remote_exists.len() - i,
    {
        if !remote_exists[i] {
            return Err(
                SyncError::SharedTargetMissing {
                    server: server_names[i].clone(),
                    target_path: target.path.clone(),
                },
            );
        }
        i += 1;
    }
    Ok(())
}

/// Every planned push task carries its target, server and hidden flag.
pub open spec fn push_task_wf(
    t: PushTask,
    target: TargetConfig,
    server_name: Seq<char>,
    hidden: bool,
) -> bool {
    target_eq(t.target, target) && t.remote.server_name@ == server_name && t.local.is_hidden
        == hidden
}

/// The transfer task of the path at `i` of the listing, push side.
pub open spec fn push_task_at(
    t: PushTask,
    root: Seq<char>,
    target: TargetConfig,
    server_name: Seq<char>,
    paths: Seq<String>,
    i: int,
) -> bool {
    &&& t.local.state is Progress
    &&& t.remote.relative_path@ == paths[i]@
    &&& t.local.path@ == local_real_path_spec(
        root,
        server_name,
        target.path@,
        target.shared,
        paths[i]@,
    )
}

/// The push tasks of one (target, server) pair, given the local side's
/// listing; `idx` is the server's position, which hides a shared target's
/// repeated source lines.  Shape as in `plan_pull_target`, with the sides
/// swapped.
pub fn plan_push_server(
    local: &LocalConfigClient,
    server_name: &String,
    idx: usize,
    target: &TargetConfig,
    paths: &Vec<String>,
) -> (r: Vec<PushTask>)
    ensures
        forall|i: int|
            0 <= i < r@.len() ==> push_task_wf(
                #[trigger] r@[i],
                *target,
                server_name@,
                idx >= 1 && target.shared,
            ),
        !target.push ==> r@.len() == 1 && r@[0].local.state is Skip
            && r@[0].remote.relative_path@ == Seq::<char>::empty() && r@[0].local.path@
            == local_path_spec(local.root(), server_name@, target.path@, target.shared),
        target.push && paths@.len() == 0 ==> r@.len() == 1 && r@[0].local.state is NotExists
            && r@[0].remote.relative_path@ == Seq::<char>::empty() && r@[0].local.path@
            == local_path_spec(local.root(), server_name@, target.path@, target.shared),
        target.push && paths@.len() > 0 ==> r@.len() == paths@.len() && forall|i: int|
            0 <= i < r@.len() ==> push_task_at(
                #[trigger] r@[i],
                local.root(),
                *target,
                server_name@,
                paths@,
                i,
            ),
{
    let hidden = idx >= 1 && target.shared;
    let mut r: Vec<PushTask> = Vec::new();
    if !target.push {
        let base = local.path(server_name, target);
        r.push(
            PushTask {
                local: PushLocalTask {
                    path: base,
                    state: PushLocalTaskState::Skip,
                    is_hidden: hidden,
                },
                remote: PushRemoteTask {
                    relative_path: String::new(),
                    server_name: server_name.clone(),
                },
                target: target.duplicate(),
            },
        );
        assert(push_task_wf(r@[0], *target, server_name@, hidden));
        return r;
    }
    if paths.len() == 0 {
        let base = local.path(server_name, target);
        r.push(
            PushTask {
                local: PushLocalTask {
                    path: base,
                    state: PushLocalTaskState::NotExists,
                    is_hidden: hidden,
                },
                remote: PushRemoteTask {
                    relative_path: String::new(),
                    server_name: server_name.clone(),
                },
                target: target.duplicate(),
            },
        );
        assert(push_task_wf(r@[0], *target, server_name@, hidden));
        return r;
    }
    let mut i: usize = 0;
    while i < paths.len()
        invariant
            i <= paths.len(),
            r@.len() == i,
            hidden == (idx >= 1 && target.shared),
            forall|j: int|
                0 <= j < i ==> push_task_wf(#[trigger] r@[j], *target, server_name@, hidden),
            forall|j: int|
                0 <= j < i ==> push_task_at(
                    #[trigger] r@[j],
                    local.root(),
                    *target,
                    server_name@,
                    paths@,
                    j,
                ),
        decreases paths.len() - i,
    {
        let dest = local.real_path(server_name, target, &paths[i]);
        let task = PushTask {
            local: PushLocalTask {
                path: dest,
                state: PushLocalTaskState::Progress,
                is_hidden: hidden,
            },
            remote: PushRemoteTask {
                relative_path: paths[i].clone(),
                server_name: server_name.clone(),
            },
            target: target.duplicate(),
        };
        let ghost gtask = task;
        let ghost old_r = r@;
        r.push(task);
        proof {
            assert(push_task_wf(gtask, *target, server_name@, hidden));
            assert(push_task_at(gtask, local.root(), *target, server_name@, paths@, i as int));
            assert forall|j: int| 0 <= j < i + 1 implies push_task_wf(
                #[trigger] r@[j],
                *target,
                server_name@,
                hidden,
            ) && push_task_at(r@[j], local.root(), *target, server_name@, paths@, j) by {
                if j < i {
                    assert(r@[j] == old_r[j]);
                } else {
                    assert(r@[j] == gtask);
                }
            }
        }
        i += 1;
    }
    r
}

/// A listing union with duplicates dropped: each path keeps its first
/// occurrence, in order.
pub open spec fn dedup_spec(s: Seq<Seq<char>>) -> Seq<Seq<char>>
    decreases s.len(),
{
    if s.len() == 0 {
        Seq::empty()
    } else {
        let rest = dedup_spec(s.drop_last());
        if rest.contains(s.last()) {
            rest
        } else {
            rest.push(s.last())
        }
    }
}

fn find_string(v: &Vec<String>, s: &String) -> (r: Option<usize>)
    ensures
        match r {
            Option::Some(j) => j < v@.len() && v@[j as int]@ == s@,
            Option::None => forall|j: int| 0 <= j < v@.len() ==> (#[trigger] v@[j])@ != s@,
        },
{
    let mut i: usize = 0;
    while i < v.len()
        invariant
            i <= v.len(),
            forall|j: int| 0 <= j < i ==> (#[trigger] v@[j])@ != s@,
        decreases v.len() - i,
    {
        if v[i].eq(s) {
            return Some(i);
        }
        i += 1;
    }
    None
}

fn vec_contains_string(v: &Vec<String>, s: &String) -> (r: bool)
    ensures
        r == v@.map_values(|t: String| t@).contains(s@),
{
    let ghost m = v@.map_values(|t: String| t@);
    match find_string(v, s) {
        Option::Some(j) => {
            proof {
                assert(m[j as int] == s@);
            }
            true
        },
        Option::None => {
            proof {
                if m.contains(s@) {
                    let j = m.index_of(s@);
                    assert(m[j] == v@[j]@);
                }
            }
            false
        },
    }
}

/// The two backends' listings joined as a set: their concatenation with
/// every repeated path dropped, first occurrences kept in order.
pub fn unique_paths(a: &Vec<String>, b: &Vec<String>) -> (r: Vec<String>)
    ensures
        r@.map_values(|t: String| t@) == dedup_spec(
            a@.map_values(|t: String| t@) + b@.map_values(|t: String| t@),
        ),
{
    let ghost all = a@.map_values(|t: String| t@) + b@.map_values(|t: String| t@);
    let mut r: Vec<String> = Vec::new();
    let mut i: usize = 0;
    while i < a.len()
        invariant
            i <= a.len(),
            all == a@.map_values(|t: String| t@) + b@.map_values(|t: String| t@),
            r@.map_values(|t: String| t@) == dedup_spec(all.take(i as int)),
        decreases a.len() - i,
    {
        proof {
            assert(all.take(i + 1).drop_last() =~= all.take(i as int));
            assert(all.take(i + 1).last() == a@[i as int]@);
        }
        if !vec_contains_string(&r, &a[i]) {
            let ghost old_view = r@.map_values(|t: String| t@);
            r.push(a[i].clone());
            assert(r@.map_values(|t: String| t@) =~= old_view.push(a@[i as int]@));
        }
        i += 1;
    }
    let mut k: usize = 0;
    while k < b.len()
        invariant
            k <= b.len(),
            all == a@.map_values(|t: String| t@) + b@.map_values(|t: String| t@),
            r@.map_values(|t: String| t@) == dedup_spec(all.take(a@.len() + k as int)),
        decreases b.len() - k,
    {
        proof {
            assert(all.take(a@.len() + k + 1).drop_last() =~= all.take(a@.len() + k as int));
            assert(all.take(a@.len() + k + 1).last() == b@[k as int]@);
        }
        if !vec_contains_string(&r, &b[k]) {
            let ghost old_view = r@.map_values(|t: String| t@);
            r.push(b[k].clone());
            assert(r@.map_values(|t: String| t@) =~= old_view.push(b@[k as int]@));
        }
        k += 1;
    }
    proof {
        assert(all.take(a@.len() + b@.len() as int) =~= all);
    }
    r
}

} // verus!
