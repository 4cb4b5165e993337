//! The privileged-file-access protocol.  A file the login user may not touch
//! is never moved over an elevated transfer channel; instead a short plan of
//! elevated shell steps and unprivileged transfer steps is run.  The plans
//! are built here, and their effect is proved against a model of the host:
//! writing content through the protocol and reading it back returns exactly
//! that content, the temporary files are gone afterwards, and — because the
//! write plan ends by restricting the destination's mode to its owner, a
//! plain copy guaranteeing nothing about the mode it leaves — the
//! destination is never left readable by others.

use vstd::prelude::*;
use crate::remote::{chmod600_command, chmod644_command, cp_command, mkdir_command, rm_command};
use crate::remote::{chmod600_command_spec, chmod644_command_spec, cp_command_spec};
use crate::remote::{mkdir_command_spec, rm_command_spec};

verus! {

/// One step of the protocol, executed on a host.
pub enum RemoteAction {
    /// `cp from to`, run elevated.
    CopyFile { from: String, to: String },
    /// `chmod 644 path`, run elevated: relaxes the file so the unprivileged
    /// transfer channel can read it.
    Chmod644 { path: String },
    /// `chmod 600 path`, run elevated: strips group and other access, so the
    /// written destination is readable by its owner alone.
    RestrictMode { path: String },
    /// `mkdir -p path`, run elevated.
    MakeDirAll { path: String },
    /// `rm path`, run elevated.
    RemoveFile { path: String },
    /// The unprivileged transfer channel writes `content` at `path`.
    TransferWrite { path: String, content: Vec<u8> },
    /// The unprivileged transfer channel reads the file at `path`.
    TransferRead { path: String },
}

/// The shell text of an elevated step; the two transfer steps are not shell
/// commands.
pub fn action_command(a: &RemoteAction) -> (r: Option<String>)
    ensures
        match a {
            RemoteAction::CopyFile { from, to } => (r matches Some(c) && c@ == cp_command_spec(
                from@,
                to@,
            )),
            RemoteAction::Chmod644 { path } => (r matches Some(c) && c@ == chmod644_command_spec(
                path@,
            )),
            RemoteAction::RestrictMode { path } => (r matches Some(c) && c@
                == chmod600_command_spec(path@)),
            RemoteAction::MakeDirAll { path } => (r matches Some(c) && c@ == mkdir_command_spec(
                path@,
            )),
            RemoteAction::RemoveFile { path } => (r matches Some(c) && c@ == rm_command_spec(
                path@,
            )),
            RemoteAction::TransferWrite { .. } => r is None,
            RemoteAction::TransferRead { .. } => r is None,
        },
{
    match a {
        RemoteAction::CopyFile { from, to } => Some(cp_command(from, to)),
        RemoteAction::Chmod644 { path } => Some(chmod644_command(path)),
        RemoteAction::RestrictMode { path } => Some(chmod600_command(path)),
        RemoteAction::MakeDirAll { path } => Some(mkdir_command(path)),
        RemoteAction::RemoveFile { path } => Some(rm_command(path)),
        RemoteAction::TransferWrite { .. } => None,
        RemoteAction::TransferRead { .. } => None,
    }
}

/// A host as the protocol sees it: which path holds which bytes, and which
/// paths the unprivileged login user may read.
pub struct HostState {
    pub files: Map<Seq<char>, Seq<u8>>,
    pub readable: Set<Seq<char>>,
}

/// An elevated copy: the destination takes the source's bytes.  A plain copy
/// guarantees nothing about the destination's permission bits — an existing
/// destination keeps its mode, a fresh one inherits the staging copy's — so
/// the model assumes the worst: the destination may be readable by others
/// until a mode step says otherwise.  A missing source leaves the host
/// unchanged (the command fails).
pub open spec fn do_copy(h: HostState, from: Seq<char>, to: Seq<char>) -> HostState {
    if h.files.dom().contains(from) {
        HostState { files: h.files.insert(to, h.files[from]), readable: h.readable.insert(to) }
    } else {
        h
    }
}

/// An elevated permission relaxation.
pub open spec fn do_chmod(h: HostState, path: Seq<char>) -> HostState {
    HostState { files: h.files, readable: h.readable.insert(path) }
}

/// An elevated permission restriction: only the owner reads the file now.
pub open spec fn do_restrict(h: HostState, path: Seq<char>) -> HostState {
    HostState { files: h.files, readable: h.readable.remove(path) }
}

/// An elevated directory creation: touches no file.
pub open spec fn do_mkdir(h: HostState, path: Seq<char>) -> HostState {
    h
}

/// An elevated removal.
pub open spec fn do_remove(h: HostState, path: Seq<char>) -> HostState {
    HostState { files: h.files.remove(path), readable: h.readable.remove(path) }
}

/// An unprivileged transfer write: the login user's own file, readable by
/// its owner and (mode 644) by others.
pub open spec fn do_transfer_write(h: HostState, path: Seq<char>, c: Seq<u8>) -> HostState {
    HostState { files: h.files.insert(path, c), readable: h.readable.insert(path) }
}

/// What one step does to the host (a transfer read changes nothing).
pub open spec fn apply_action(h: HostState, a: RemoteAction) -> HostState {
    match a {
        RemoteAction::CopyFile { from, to } => do_copy(h, from@, to@),
        RemoteAction::Chmod644 { path } => do_chmod(h, path@),
        RemoteAction::RestrictMode { path } => do_restrict(h, path@),
        RemoteAction::MakeDirAll { path } => do_mkdir(h, path@),
        RemoteAction::RemoveFile { path } => do_remove(h, path@),
        RemoteAction::TransferWrite { path, content } => do_transfer_write(h, path@, content@),
        RemoteAction::TransferRead { .. } => h,
    }
}

/// A plan's steps applied in order.
pub open spec fn apply_plan(h: HostState, plan: Seq<RemoteAction>) -> HostState
    decreases plan.len(),
{
    if plan.len() == 0 {
        h
    } else {
        apply_plan(apply_action(h, plan.first()), plan.drop_first())
    }
}

/// Every step of the plan can run: elevated copies and removals find their
/// file, and a transfer read finds a file the login user may read.
pub open spec fn plan_runs(h: HostState, plan: Seq<RemoteAction>) -> bool
    decreases plan.len(),
{
    if plan.len() == 0 {
        true
    } else {
        (match plan.first() {
            RemoteAction::CopyFile { from, .. } => h.files.dom().contains(from@),
            RemoteAction::RemoveFile { path } => h.files.dom().contains(path@),
            RemoteAction::Chmod644 { path } => h.files.dom().contains(path@),
            RemoteAction::RestrictMode { path } => h.files.dom().contains(path@),
            RemoteAction::TransferRead { path } => h.files.dom().contains(path@)
                && h.readable.contains(path@),
            _ => true,
        }) && plan_runs(apply_action(h, plan.first()), plan.drop_first())
    }
}

/// The bytes each transfer read of the plan hands back, in order.
pub open spec fn plan_read_values(h: HostState, plan: Seq<RemoteAction>) -> Seq<Seq<u8>>
    decreases plan.len(),
{
    if plan.len() == 0 {
        Seq::empty()
    } else {
        match plan.first() {
            RemoteAction::TransferRead { path } => seq![h.files[path@]].add(
                plan_read_values(h, plan.drop_first()),
            ),
            _ => plan_read_values(apply_action(h, plan.first()), plan.drop_first()),
        }
    }
}

/// The elevated write protocol: the content goes to a temporary path over
/// the unprivileged channel, the destination's parent is created, the
/// temporary file is copied over the destination with elevation, the
/// destination's mode is restricted to its owner (the copy alone guarantees
/// no mode), and the temporary file is removed.
pub open spec fn write_protocol(
    h: HostState,
    dest: Seq<char>,
    parent: Seq<char>,
    tmp: Seq<char>,
    c: Seq<u8>,
) -> HostState {
    do_remove(
        do_restrict(do_copy(do_mkdir(do_transfer_write(h, tmp, c), parent), tmp, dest), dest),
        tmp,
    )
}

/// The elevated read protocol's final state: the source is copied to a
/// temporary path with elevation, relaxed, transferred, and the temporary
/// file is removed.
pub open spec fn read_protocol_state(h: HostState, src: Seq<char>, tmp: Seq<char>) -> HostState {
    do_remove(do_chmod(do_copy(h, src, tmp), tmp), tmp)
}

/// The bytes the elevated read protocol hands back.
pub open spec fn read_protocol_value(h: HostState, src: Seq<char>, tmp: Seq<char>) -> Seq<u8> {
    do_chmod(do_copy(h, src, tmp), tmp).files[tmp]
}

/// The shape of the elevated write protocol as a plan: content to the
/// temporary path over the transfer channel, parent created, temporary file
/// copied over the destination, destination restricted to its owner,
/// temporary file removed.
pub open spec fn is_write_plan(
    plan: Seq<RemoteAction>,
    dest: Seq<char>,
    parent: Seq<char>,
    tmp: Seq<char>,
    c: Seq<u8>,
) -> bool {
    &&& plan.len() == 5
    &&& plan[0] matches RemoteAction::TransferWrite { path, content } && path@ == tmp && content@
        == c
    &&& plan[1] matches RemoteAction::MakeDirAll { path } && path@ == parent
    &&& plan[2] matches RemoteAction::CopyFile { from, to } && from@ == tmp && to@ == dest
    &&& plan[3] matches RemoteAction::RestrictMode { path } && path@ == dest
    &&& plan[4] matches RemoteAction::RemoveFile { path } && path@ == tmp
}

/// The shape of the elevated read protocol as a plan: source copied to the
/// temporary path with elevation, relaxed, transferred, temporary file
/// removed.
pub open spec fn is_read_plan(plan: Seq<RemoteAction>, src: Seq<char>, tmp: Seq<char>) -> bool {
    &&& plan.len() == 4
    &&& plan[0] matches RemoteAction::CopyFile { from, to } && from@ == src && to@ == tmp
    &&& plan[1] matches RemoteAction::Chmod644 { path } && path@ == tmp
    &&& plan[2] matches RemoteAction::TransferRead { path } && path@ == tmp
    &&& plan[3] matches RemoteAction::RemoveFile { path } && path@ == tmp
}

pub fn sudo_write_plan(path: &String, parent: &String, tmp: &String, content: &Vec<u8>) -> (r:
    Vec<RemoteAction>)
    ensures
        is_write_plan(r@, path@, parent@, tmp@, content@),
{
    let mut r: Vec<RemoteAction> = Vec::new();
    r.push(RemoteAction::TransferWrite { path: tmp.clone(), content: content.clone() });
    r.push(RemoteAction::MakeDirAll { path: parent.clone() });
    r.push(RemoteAction::CopyFile { from: tmp.clone(), to: path.clone() });
    r.push(RemoteAction::RestrictMode { path: path.clone() });
    r.push(RemoteAction::RemoveFile { path: tmp.clone() });
    r
}

pub fn sudo_read_plan(path: &String, tmp: &String) -> (r: Vec<RemoteAction>)
    ensures
        is_read_plan(r@, path@, tmp@),
{
    let mut r: Vec<RemoteAction> = Vec::new();
    r.push(RemoteAction::CopyFile { from: path.clone(), to: tmp.clone() });
    r.push(RemoteAction::Chmod644 { path: tmp.clone() });
    r.push(RemoteAction::TransferRead { path: tmp.clone() });
    r.push(RemoteAction::RemoveFile { path: tmp.clone() });
    r
}

/// A write plan does to any host exactly what the write protocol says, and
/// every one of its steps can run.
pub proof fn lemma_write_plan_effect(
    h: HostState,
    plan: Seq<RemoteAction>,
    dest: Seq<char>,
    parent: Seq<char>,
    tmp: Seq<char>,
    c: Seq<u8>,
)
    requires
        is_write_plan(plan, dest, parent, tmp, c),
    ensures
        apply_plan(h, plan) == write_protocol(h, dest, parent, tmp, c),
        plan_runs(h, plan),
{
    reveal_with_fuel(apply_plan, 7);
    reveal_with_fuel(plan_runs, 7);
    let p1 = plan.drop_first();
    let p2 = p1.drop_first();
    let p3 = p2.drop_first();
    let p4 = p3.drop_first();
    let p5 = p4.drop_first();
    assert(p1[0] == plan[1] && p1[1] == plan[2] && p1[2] == plan[3] && p1[3] == plan[4]);
    assert(p2[0] == plan[2] && p2[1] == plan[3] && p2[2] == plan[4]);
    assert(p3[0] == plan[3] && p3[1] == plan[4]);
    assert(p4[0] == plan[4]);
    assert(p5 =~= Seq::<RemoteAction>::empty());
    let h1 = apply_action(h, plan[0]);
    let h2 = apply_action(h1, plan[1]);
    let h3 = apply_action(h2, plan[2]);
    let h4 = apply_action(h3, plan[3]);
    let h5 = apply_action(h4, plan[4]);
    assert(h1 == do_transfer_write(h, tmp, c));
    assert(h2 == h1);
    assert(h3 == do_copy(h2, tmp, dest));
    assert(h4 == do_restrict(h3, dest));
    assert(h5 == do_remove(h4, tmp));
    assert(apply_plan(h5, p5) == h5);
    assert(apply_plan(h, plan) == h5);
    assert(h2.files.dom().contains(tmp));
    assert(h3.files.dom().contains(tmp));
    assert(h3.files.dom().contains(dest));
    assert(h4.files.dom().contains(tmp));
    assert(plan_runs(h5, p5));
}

/// On any host that holds the source file, a read plan can run (the
/// temporary copy exists and was relaxed before the transfer reads it), it
/// hands back exactly the source's bytes, and it leaves the host as the read
/// protocol says.
pub proof fn lemma_read_plan_effect(
    h: HostState,
    plan: Seq<RemoteAction>,
    src: Seq<char>,
    tmp: Seq<char>,
)
    requires
        is_read_plan(plan, src, tmp),
    ensures
        apply_plan(h, plan) == read_protocol_state(h, src, tmp),
        h.files.dom().contains(src) ==> plan_runs(h, plan) && plan_read_values(h, plan) == seq![
            read_protocol_value(h, src, tmp),
        ],
{
    reveal_with_fuel(apply_plan, 6);
    reveal_with_fuel(plan_runs, 6);
    reveal_with_fuel(plan_read_values, 6);
    let p1 = plan.drop_first();
    let p2 = p1.drop_first();
    let p3 = p2.drop_first();
    let p4 = p3.drop_first();
    assert(p1[0] == plan[1] && p1[1] == plan[2] && p1[2] == plan[3]);
    assert(p2[0] == plan[2] && p2[1] == plan[3]);
    assert(p3[0] == plan[3]);
    assert(p4 =~= Seq::<RemoteAction>::empty());
    let h1 = apply_action(h, plan[0]);
    let h2 = apply_action(h1, plan[1]);
    let h3 = apply_action(h2, plan[2]);
    let h4 = apply_action(h3, plan[3]);
    assert(h1 == do_copy(h, src, tmp));
    assert(h2 == do_chmod(h1, tmp));
    assert(h3 == h2);
    assert(h4 == do_remove(h3, tmp));
    assert(apply_plan(h4, p4) == h4);
    assert(apply_plan(h, plan) == h4);
    if h.files.dom().contains(src) {
        assert(h1.files.dom().contains(tmp));
        assert(h2.files.dom().contains(tmp));
        assert(h2.readable.contains(tmp));
        assert(h3.files.dom().contains(tmp));
        assert(plan_runs(h4, p4));
        assert(plan_read_values(h4, p4) =~= Seq::<Seq<u8>>::empty());
        assert(plan_read_values(h2, p2) =~= seq![h2.files[tmp]]);
        assert(plan_read_values(h, plan) =~= seq![read_protocol_value(h, src, tmp)]);
    }
}

/// Elevation round-trip: writing content through the protocol and reading it
/// back (also through the protocol) returns exactly that content; the read
/// can run (its temporary file exists and was relaxed); both temporary files
/// are gone afterwards; and the destination is not left readable by others.
pub proof fn lemma_elevation_round_trip(
    h: HostState,
    dest: Seq<char>,
    parent: Seq<char>,
    wtmp: Seq<char>,
    rtmp: Seq<char>,
    c: Seq<u8>,
)
    requires
        wtmp != dest,
        rtmp != dest,
    ensures
        ({
            let h1 = write_protocol(h, dest, parent, wtmp, c);
            let h2 = read_protocol_state(h1, dest, rtmp);
            &&& h1.files.dom().contains(dest)
            &&& h1.files[dest] == c
            &&& !h1.files.dom().contains(wtmp)
            &&& !h1.readable.contains(dest)
            &&& read_protocol_value(h1, dest, rtmp) == c
            &&& h2.files.dom().contains(dest)
            &&& h2.files[dest] == c
            &&& !h2.files.dom().contains(rtmp)
            &&& !h2.files.dom().contains(wtmp)
            &&& !h2.readable.contains(dest)
        }),
{
}

} // verus!
