//! The reporting contract: the named states every task's outcome is
//! classified into, one set per side and direction, and the one-line message
//! each state renders.  The presentation layer outside the library only
//! colors these lines; their text is fixed here.

use vstd::prelude::*;
use crate::sync::FileDecision;

verus! {

/// One report line: the file column, the icon column, the state column.
pub open spec fn message_spec(icon: Seq<char>, label: Seq<char>, file: Seq<char>) -> Seq<char> {
    "▕  "@ + file + " ▕  "@ + icon + "  ▕  "@ + label + " "@
}

fn compose_message(icon: &str, label: &str, file_message: &str) -> (r: String)
    ensures
        r@ == message_spec(icon@, label@, file_message@),
{
    let mut r = String::from_str("▕  ");
    r.append(file_message);
    r.append(" ▕  ");
    r.append(icon);
    r.append("  ▕  ");
    r.append(label);
    r.append(" ");
    r
}

/// The remote side of one pull task: where its file stands on the server.
#[derive(Clone, Copy, Debug, PartialEq, Eq, Structural)]
pub enum PullRemoteTaskState {
    /// The target is disabled for pulling.
    Skip,
    /// The source side has nothing under the target.
    NotExists,
    /// Planned, not yet decided.
    Progress,
    /// Local copy already byte-identical; nothing written.
    Synced,
    /// Local copy differs; it will be overwritten.
    FoundDiff,
    /// No local copy yet; it will be created.
    FoundNewFile,
}

impl PullRemoteTaskState {
    pub open spec fn icon_spec(&self) -> Seq<char> {
        match self {
            PullRemoteTaskState::NotExists => "✕"@,
            _ => " "@,
        }
    }

    pub open spec fn label_spec(&self) -> Seq<char> {
        match self {
            PullRemoteTaskState::NotExists => "not exists"@,
            PullRemoteTaskState::Skip => "skip"@,
            PullRemoteTaskState::Progress => ""@,
            PullRemoteTaskState::Synced => "synced 📌"@,
            PullRemoteTaskState::FoundDiff => "found diff 🔍️"@,
            PullRemoteTaskState::FoundNewFile => "found new file 🔍"@,
        }
    }

    pub fn icon(&self) -> (r: &'static str)
        ensures
            r@ == self.icon_spec(),
    {
        match self {
            PullRemoteTaskState::NotExists => "✕",
            _ => " ",
        }
    }

    pub fn label(&self) -> (r: &'static str)
        ensures
            r@ == self.label_spec(),
    {
        match self {
            PullRemoteTaskState::NotExists => "not exists",
            PullRemoteTaskState::Skip => "skip",
            PullRemoteTaskState::Progress => "",
            PullRemoteTaskState::Synced => "synced 📌",
            PullRemoteTaskState::FoundDiff => "found diff 🔍️",
            PullRemoteTaskState::FoundNewFile => "found new file 🔍",
        }
    }

    pub fn message(&self, file_message: &str) -> (r: String)
        ensures
            r@ == message_spec(self.icon_spec(), self.label_spec(), file_message@),
    {
        compose_message(self.icon(), self.label(), file_message)
    }
}

/// The local side of one pull task: what is done to the mirror copy.
#[derive(Clone, Copy, Debug, PartialEq, Eq, Structural)]
pub enum PullLocalTaskState {
    Progress,
    Create,
    Update,
    Skip,
}

impl PullLocalTaskState {
    pub open spec fn icon_spec(&self) -> Seq<char> {
        match self {
            PullLocalTaskState::Progress => "◰"@,
            PullLocalTaskState::Create => "✓"@,
            PullLocalTaskState::Update => "✓"@,
            PullLocalTaskState::Skip => "-"@,
        }
    }

    pub open spec fn label_spec(&self) -> Seq<char> {
        match self {
            PullLocalTaskState::Progress => ""@,
            PullLocalTaskState::Create => "create 📦️️"@,
            PullLocalTaskState::Update => "update ✏️️"@,
            PullLocalTaskState::Skip => "skip"@,
        }
    }

    pub fn icon(&self) -> (r: &'static str)
        ensures
            r@ == self.icon_spec(),
    {
        match self {
            PullLocalTaskState::Progress => "◰",
            PullLocalTaskState::Create => "✓",
            PullLocalTaskState::Update => "✓",
            PullLocalTaskState::Skip => "-",
        }
    }

    pub fn label(&self) -> (r: &'static str)
        ensures
            r@ == self.label_spec(),
    {
        match self {
            PullLocalTaskState::Progress => "",
            PullLocalTaskState::Create => "create 📦️️",
            PullLocalTaskState::Update => "update ✏️️",
            PullLocalTaskState::Skip => "skip",
        }
    }

    pub fn message(&self, file_message: &str) -> (r: String)
        ensures
            r@ == message_spec(self.icon_spec(), self.label_spec(), file_message@),
    {
        compose_message(self.icon(), self.label(), file_message)
    }
}

/// The local side of one push task: where its file stands in the mirror.
#[derive(Clone, Copy, Debug, PartialEq, Eq, Structural)]
pub enum PushLocalTaskState {
    Skip,
    NotExists,
    Progress,
    Synced,
    FoundDiff,
    FoundNewFile,
}

impl PushLocalTaskState {
    pub open spec fn icon_spec(&self) -> Seq<char> {
        match self {
            PushLocalTaskState::NotExists => "✕"@,
            _ => " "@,
        }
    }

    pub open spec fn label_spec(&self) -> Seq<char> {
        match self {
            PushLocalTaskState::NotExists => "not exists"@,
            PushLocalTaskState::Skip => "skip"@,
            PushLocalTaskState::Progress => ""@,
            PushLocalTaskState::Synced => "synced 📌"@,
            PushLocalTaskState::FoundDiff => "found diff 🔍"@,
            PushLocalTaskState::FoundNewFile => "found new file 🔍"@,
        }
    }

    pub fn icon(&self) -> (r: &'static str)
        ensures
            r@ == self.icon_spec(),
    {
        match self {
            PushLocalTaskState::NotExists => "✕",
            _ => " ",
        }
    }

    pub fn label(&self) -> (r: &'static str)
        ensures
            r@ == self.label_spec(),
    {
        match self {
            PushLocalTaskState::NotExists => "not exists",
            PushLocalTaskState::Skip => "skip",
            PushLocalTaskState::Progress => "",
            PushLocalTaskState::Synced => "synced 📌",
            PushLocalTaskState::FoundDiff => "found diff 🔍",
            PushLocalTaskState::FoundNewFile => "found new file 🔍",
        }
    }

    pub fn message(&self, file_message: &str) -> (r: String)
        ensures
            r@ == message_spec(self.icon_spec(), self.label_spec(), file_message@),
    {
        compose_message(self.icon(), self.label(), file_message)
    }
}

/// The remote side of one push task: what is done on the server.
#[derive(Clone, Copy, Debug, PartialEq, Eq, Structural)]
pub enum PushRemoteTaskState {
    Progress,
    Create,
    Update,
    Skip,
}

impl PushRemoteTaskState {
    pub open spec fn icon_spec(&self) -> Seq<char> {
        match self {
            PushRemoteTaskState::Progress => "◰"@,
            PushRemoteTaskState::Create => "✓"@,
            PushRemoteTaskState::Update => "✓"@,
            PushRemoteTaskState::Skip => "-"@,
        }
    }

    pub open spec fn label_spec(&self) -> Seq<char> {
        match self {
            PushRemoteTaskState::Progress => ""@,
            PushRemoteTaskState::Create => "create 📦️️"@,
            PushRemoteTaskState::Update => "update ✏️️"@,
            PushRemoteTaskState::Skip => "skip"@,
        }
    }

    pub fn icon(&self) -> (r: &'static str)
        ensures
            r@ == self.icon_spec(),
    {
        match self {
            PushRemoteTaskState::Progress => "◰",
            PushRemoteTaskState::Create => "✓",
            PushRemoteTaskState::Update => "✓",
            PushRemoteTaskState::Skip => "-",
        }
    }

    pub fn label(&self) -> (r: &'static str)
        ensures
            r@ == self.label_spec(),
    {
        match self {
            PushRemoteTaskState::Progress => "",
            PushRemoteTaskState::Create => "create 📦️️",
            PushRemoteTaskState::Update => "update ✏️️",
            PushRemoteTaskState::Skip => "skip",
        }
    }

    pub fn message(&self, file_message: &str) -> (r: String)
        ensures
            r@ == message_spec(self.icon_spec(), self.label_spec(), file_message@),
    {
        compose_message(self.icon(), self.label(), file_message)
    }
}

/// The file column of a remote-side line: `user@server:path`.
pub open spec fn remote_location_spec(user: Seq<char>, server: Seq<char>, path: Seq<char>)
    -> Seq<char> {
    user + "@"@ + server + ":"@ + path
}

pub fn format_remote_location(user: &String, server: &String, path: &String) -> (r: String)
    ensures
        r@ == remote_location_spec(user@, server@, path@),
{
    let mut r = user.clone();
    r.append("@");
    r.append(server.as_str());
    r.append(":");
    r.append(path.as_str());
    r
}

/// The file column of the second line of a pair: the arrow to the
/// destination path.
pub open spec fn local_arrow_spec(path: Seq<char>) -> Seq<char> {
    "└─> "@ + path
}

pub fn format_local_arrow(path: &String) -> (r: String)
    ensures
        r@ == local_arrow_spec(path@),
{
    let mut r = String::from_str("└─> ");
    r.append(path.as_str());
    r
}

/// The widest of a set of file columns, the width every line pads to.
pub open spec fn max_width_spec(ss: Seq<Seq<char>>) -> nat
    decreases ss.len(),
{
    if ss.len() == 0 {
        0
    } else if ss.last().len() > max_width_spec(ss.drop_last()) {
        ss.last().len()
    } else {
        max_width_spec(ss.drop_last())
    }
}

pub fn max_width(prefixes: &Vec<String>) -> (r: usize)
    ensures
        r as nat == max_width_spec(prefixes@.map_values(|s: String| s@)),
{
    let ghost views = prefixes@.map_values(|s: String| s@);
    let mut w: usize = 0;
    let mut i: usize = 0;
    while i < prefixes.len()
        invariant
            i <= prefixes.len(),
            views == prefixes@.map_values(|s: String| s@),
            w as nat == max_width_spec(views.take(i as int)),
        decreases prefixes.len() - i,
    {
        let len = prefixes[i].as_str().unicode_len();
        proof {
            assert(views.take(i + 1).drop_last() =~= views.take(i as int));
            assert(views.take(i + 1).last() == views[i as int]);
        }
        if len > w {
            w = len;
        }
        i += 1;
    }
    proof {
        assert(views.take(i as int) =~= views);
    }
    w
}

/// How a pull task's planned state and its file decision turn into the
/// reported pair of states: an already-synced file reports only its remote
/// line; a created or updated one reports the remote discovery and the local
/// action.
pub fn pull_outcome_states(d: &FileDecision) -> (r: (
    PullRemoteTaskState,
    Option<PullLocalTaskState>,
))
    ensures
        match d {
            FileDecision::Synced => r == (
                PullRemoteTaskState::Synced,
                Option::<PullLocalTaskState>::None,
            ),
            FileDecision::Update => r == (
                PullRemoteTaskState::FoundDiff,
                Option::Some(PullLocalTaskState::Update),
            ),
            FileDecision::Create => r == (
                PullRemoteTaskState::FoundNewFile,
                Option::Some(PullLocalTaskState::Create),
            ),
        },
{
    match d {
        FileDecision::Synced => (PullRemoteTaskState::Synced, Option::None),
        FileDecision::Update => (
            PullRemoteTaskState::FoundDiff,
            Option::Some(PullLocalTaskState::Update),
        ),
        FileDecision::Create => (
            PullRemoteTaskState::FoundNewFile,
            Option::Some(PullLocalTaskState::Create),
        ),
    }
}

/// The lines one executed pull task reports: the remote line always, the
/// local action line when a write was decided.
pub fn pull_task_messages(
    remote_state: &PullRemoteTaskState,
    local_state: &Option<PullLocalTaskState>,
    remote_file_message: &str,
    local_file_message: &str,
) -> (r: Vec<String>)
    ensures
        match local_state {
            Option::None => r@.len() == 1,
            Option::Some(_) => r@.len() == 2,
        },
        r@[0]@ == message_spec(
            remote_state.icon_spec(),
            remote_state.label_spec(),
            remote_file_message@,
        ),
        local_state matches Some(ls) ==> r@[1]@ == message_spec(
            ls.icon_spec(),
            ls.label_spec(),
            local_file_message@,
        ),
{
    let mut r: Vec<String> = Vec::new();
    r.push(remote_state.message(remote_file_message));
    match local_state {
        Option::Some(ls) => {
            r.push(ls.message(local_file_message));
        },
        Option::None => {},
    }
    r
}

/// The lines one executed push task reports.  A hidden task (a shared
/// target's repeated source) shows no source line: nothing at all when no
/// write was decided, only the remote action line when one was.
pub fn push_task_messages(
    local_state: &PushLocalTaskState,
    remote_state: &Option<PushRemoteTaskState>,
    is_hidden: bool,
    local_file_message: &str,
    remote_file_message: &str,
) -> (r: Vec<String>)
    ensures
        match remote_state {
            Option::None => if is_hidden {
                r@.len() == 0
            } else {
                r@.len() == 1 && r@[0]@ == message_spec(
                    local_state.icon_spec(),
                    local_state.label_spec(),
                    local_file_message@,
                )
            },
            Option::Some(rs) => if is_hidden {
                r@.len() == 1 && r@[0]@ == message_spec(
                    rs.icon_spec(),
                    rs.label_spec(),
                    remote_file_message@,
                )
            } else {
                r@.len() == 2 && r@[0]@ == message_spec(
                    local_state.icon_spec(),
                    local_state.label_spec(),
                    local_file_message@,
                ) && r@[1]@ == message_spec(
                    rs.icon_spec(),
                    rs.label_spec(),
                    remote_file_message@,
                )
            },
        },
{
    let mut r: Vec<String> = Vec::new();
    if !is_hidden {
        r.push(local_state.message(local_file_message));
    }
    match remote_state {
        Option::Some(rs) => {
            r.push(rs.message(remote_file_message));
        },
        Option::None => {},
    }
    r
}

/// The push-side counterpart of `pull_outcome_states`.
pub fn push_outcome_states(d: &FileDecision) -> (r: (
    PushLocalTaskState,
    Option<PushRemoteTaskState>,
))
    ensures
        match d {
            FileDecision::Synced => r == (
                PushLocalTaskState::Synced,
                Option::<PushRemoteTaskState>::None,
            ),
            FileDecision::Update => r == (
                PushLocalTaskState::FoundDiff,
                Option::Some(PushRemoteTaskState::Update),
            ),
            FileDecision::Create => r == (
                PushLocalTaskState::FoundNewFile,
                Option::Some(PushRemoteTaskState::Create),
            ),
        },
{
    match d {
        FileDecision::Synced => (PushLocalTaskState::Synced, Option::None),
        FileDecision::Update => (
            PushLocalTaskState::FoundDiff,
            Option::Some(PushRemoteTaskState::Update),
        ),
        FileDecision::Create => (
            PushLocalTaskState::FoundNewFile,
            Option::Some(PushRemoteTaskState::Create),
        ),
    }
}

} // verus!
