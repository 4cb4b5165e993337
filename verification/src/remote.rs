//! The remote backend's language: the shell commands run on a host, the
//! elevation wrapper, the `~`-aware path rewriting, and the reading of the
//! listing and size commands' output.  Running a command and moving bytes is
//! the transport's business outside the library; what is said to the host and
//! what its answers mean is decided and proved here.

use vstd::prelude::*;
use crate::config::TargetConfig;
use crate::errors::SyncError;
use crate::paths::{join_path, join_path_spec, rel_paths_spec, relative_paths_under};
use crate::strutil::{has_prefix, split_ws_spec, split_whitespace_vec, str_starts_with};
use crate::strutil::{parse_u64_spec, parse_u64_str, trim_spec, trim_str};

verus! {

/// The remote home of one file of a target: the target's configured path
/// with the relative path under it.  No server namespacing: the remote
/// filesystem already holds one copy per host.
pub fn remote_real_path(target: &TargetConfig, relative_path: &String) -> (r: String)
    ensures
        r@ == join_path_spec(target.path@, relative_path@),
{
    join_path(&target.path, relative_path)
}

/// A command wrapped for elevation: `sudo sh -c "<command>"`.
pub open spec fn sudo_command_spec(cmd: Seq<char>, sudo: bool) -> Seq<char> {
    if sudo {
        "sudo sh -c \""@ + cmd + "\""@
    } else {
        cmd
    }
}

pub fn wrap_sudo_command(command: &String, sudo: bool) -> (r: String)
    ensures
        r@ == sudo_command_spec(command@, sudo),
{
    if !sudo {
        return command.clone();
    }
    let mut r = String::from_str("sudo sh -c \"");
    r.append(command.as_str());
    r.append("\"");
    r
}

pub open spec fn ls_command_spec(path: Seq<char>) -> Seq<char> {
    "ls "@ + path
}

/// The existence probe: a non-zero exit of `ls` means "does not exist".
pub fn ls_command(path: &String) -> (r: String)
    ensures
        r@ == ls_command_spec(path@),
{
    let mut r = String::from_str("ls ");
    r.append(path.as_str());
    r
}

pub open spec fn find_command_spec(path: Seq<char>) -> Seq<char> {
    "find "@ + path + " -type f -o -type l"@
}

/// The listing command: every file or symbolic link under the target.
pub fn find_command(path: &String) -> (r: String)
    ensures
        r@ == find_command_spec(path@),
{
    let mut r = String::from_str("find ");
    r.append(path.as_str());
    r.append(" -type f -o -type l");
    r
}

pub open spec fn stat_command_spec(path: Seq<char>) -> Seq<char> {
    "stat -c %s "@ + path
}

/// The size probe: prints the file's byte count.
pub fn stat_command(path: &String) -> (r: String)
    ensures
        r@ == stat_command_spec(path@),
{
    let mut r = String::from_str("stat -c %s ");
    r.append(path.as_str());
    r
}

pub open spec fn cp_command_spec(from: Seq<char>, to: Seq<char>) -> Seq<char> {
    "cp "@ + from + " "@ + to
}

pub fn cp_command(from: &String, to: &String) -> (r: String)
    ensures
        r@ == cp_command_spec(from@, to@),
{
    let mut r = String::from_str("cp ");
    r.append(from.as_str());
    r.append(" ");
    r.append(to.as_str());
    r
}

pub open spec fn chmod644_command_spec(path: Seq<char>) -> Seq<char> {
    "chmod 644 "@ + path
}

pub fn chmod644_command(path: &String) -> (r: String)
    ensures
        r@ == chmod644_command_spec(path@),
{
    let mut r = String::from_str("chmod 644 ");
    r.append(path.as_str());
    r
}

pub open spec fn chmod600_command_spec(path: Seq<char>) -> Seq<char> {
    "chmod 600 "@ + path
}

pub fn chmod600_command(path: &String) -> (r: String)
    ensures
        r@ == chmod600_command_spec(path@),
{
    let mut r = String::from_str("chmod 600 ");
    r.append(path.as_str());
    r
}

pub open spec fn rm_command_spec(path: Seq<char>) -> Seq<char> {
    "rm "@ + path
}

pub fn rm_command(path: &String) -> (r: String)
    ensures
        r@ == rm_command_spec(path@),
{
    let mut r = String::from_str("rm ");
    r.append(path.as_str());
    r
}

pub open spec fn mkdir_command_spec(path: Seq<char>) -> Seq<char> {
    "mkdir -p "@ + path
}

pub fn mkdir_command(path: &String) -> (r: String)
    ensures
        r@ == mkdir_command_spec(path@),
{
    let mut r = String::from_str("mkdir -p ");
    r.append(path.as_str());
    r
}

pub open spec fn ssh_destination_spec(user: Seq<char>, host: Seq<char>) -> Seq<char> {
    "ssh://"@ + user + "@"@ + host
}

/// Where a server's session is opened: `ssh://<user>@<host>`.
pub fn ssh_destination(user: &String, host: &String) -> (r: String)
    ensures
        r@ == ssh_destination_spec(user@, host@),
{
    let mut r = String::from_str("ssh://");
    r.append(user.as_str());
    r.append("@");
    r.append(host.as_str());
    r
}

/// The login user's home directory prefix, `/home/<user>`.
pub open spec fn home_prefix_spec(user: Seq<char>) -> Seq<char> {
    "/home/"@ + user
}

pub fn home_prefix(user: &String) -> (r: String)
    ensures
        r@ == home_prefix_spec(user@),
{
    let mut r = String::from_str("/home/");
    r.append(user.as_str());
    r
}

/// A `~`-prefixed path expanded to the login home directory.  Done only at
/// the point of a low-level transfer or size call, never in the path
/// identity used for diffing: the transfer sub-channel does not understand
/// shell tilde expansion.
pub open spec fn expand_home_spec(p: Seq<char>, user: Seq<char>) -> Seq<char> {
    if p.len() > 0 && p[0] == '~' {
        home_prefix_spec(user) + p.skip(1)
    } else {
        p
    }
}

pub fn expand_home(path: &String, user: &String) -> (r: String)
    ensures
        r@ == expand_home_spec(path@, user@),
{
    let n = path.as_str().unicode_len();
    if n == 0 {
        return path.clone();
    }
    if path.as_str().get_char(0) != '~' {
        return path.clone();
    }
    let mut r = home_prefix(user);
    let rest = path.as_str().substring_char(1, n);
    assert(rest@ =~= path@.skip(1));
    r.append(rest);
    r
}

/// One token of a remote listing with the home directory written back as
/// `~`, so that tilde-relative targets compare correctly against
/// configuration: applied when the target's path is tilde-relative and the
/// token lies under `/home/<user>`.
pub open spec fn home_rewritten_spec(t: Seq<char>, tpath: Seq<char>, user: Seq<char>) -> Seq<char> {
    if tpath.len() > 0 && tpath[0] == '~' && has_prefix(t, home_prefix_spec(user)) {
        "~"@ + t.skip(home_prefix_spec(user).len() as int)
    } else {
        t
    }
}

pub fn rewrite_home_token(token: &String, target_path: &String, user: &String) -> (r: String)
    ensures
        r@ == home_rewritten_spec(token@, target_path@, user@),
{
    let tn = target_path.as_str().unicode_len();
    if tn == 0 || target_path.as_str().get_char(0) != '~' {
        return token.clone();
    }
    let home = home_prefix(user);
    if !str_starts_with(token.as_str(), home.as_str()) {
        return token.clone();
    }
    let n = token.as_str().unicode_len();
    let hn = home.as_str().unicode_len();
    let rest = token.as_str().substring_char(hn, n);
    assert(rest@ =~= token@.skip(home_prefix_spec(user@).len() as int));
    let mut r = String::from_str("~");
    r.append(rest);
    r
}

/// A whole listing rewritten token by token.
pub open spec fn rewrite_tokens_spec(ts: Seq<Seq<char>>, tpath: Seq<char>, user: Seq<char>)
    -> Seq<Seq<char>> {
    ts.map_values(|t: Seq<char>| home_rewritten_spec(t, tpath, user))
}

/// What a target's remote listing means: the `find` output split on
/// whitespace, each token's home prefix written back to `~` when the target
/// is tilde-relative, and every path expressed relative to the target's
/// path.  Fails with `InvalidPath` on the first discovered path that does
/// not lie under the target (a resolver/backend disagreement, never
/// silently ignored).
pub fn parse_find_output(output: &String, target_path: &String, user: &String) -> (r: Result<
    Vec<String>,
    SyncError,
>)
    ensures
        match r {
            Result::Ok(v) => rel_paths_spec(
                rewrite_tokens_spec(split_ws_spec(output@), target_path@, user@),
                target_path@,
            ) == Result::Ok::<Seq<Seq<char>>, Seq<char>>(v@.map_values(|p: String| p@)),
            Result::Err(e) => (e matches SyncError::InvalidPath { path } && rel_paths_spec(
                rewrite_tokens_spec(split_ws_spec(output@), target_path@, user@),
                target_path@,
            ) == Result::Err::<Seq<Seq<char>>, Seq<char>>(path@)),
        },
{
    let tokens = split_whitespace_vec(output.as_str());
    let mut rewritten: Vec<String> = Vec::new();
    let mut i: usize = 0;
    while i < tokens.len()
        invariant
            i <= tokens.len(),
            rewritten@.len() == i,
            forall|j: int|
                0 <= j < i ==> rewritten@[j]@ == home_rewritten_spec(
                    tokens@[j]@,
                    target_path@,
                    user@,
                ),
        decreases tokens.len() - i,
    {
        let t = rewrite_home_token(&tokens[i], target_path, user);
        rewritten.push(t);
        i += 1;
    }
    proof {
        assert(rewritten@.map_values(|p: String| p@) =~= rewrite_tokens_spec(
            tokens@.map_values(|p: String| p@),
            target_path@,
            user@,
        ));
    }
    relative_paths_under(&rewritten, target_path)
}

/// What the size probe's output means: its trimmed text read as a decimal
/// byte count, or nothing when it is not one.
pub fn parse_stat_output(output: &String) -> (r: Option<u64>)
    ensures
        r == parse_u64_spec(trim_spec(output@)),
{
    let trimmed = trim_str(output.as_str());
    parse_u64_str(trimmed.as_str())
}

/// Relies on chrono's `Local::now` and `DateTime::to_rfc3339`: the local
/// clock read at call time, rendered as an RFC 3339 timestamp (such as
/// `1996-12-19T16:39:57-08:00`).  The rendering is never empty; nothing else
/// is assumed of a clock reading.
#[verifier::external_body]
fn timestamp_token() -> (r: String)
    ensures
        r@.len() > 0,
{
    chrono::Local::now().to_rfc3339()
}

/// A uniquely-named temporary path under `/tmp` for the elevation protocol,
/// derived from a high-resolution timestamp (a probabilistic, not
/// cryptographic, uniqueness guarantee).
pub fn make_tmp_path() -> (r: String)
    ensures
        has_prefix(r@, "/tmp/"@),
        r@.len() > "/tmp/"@.len(),
{
    let mut r = String::from_str("/tmp/");
    let token = timestamp_token();
    r.append(token.as_str());
    assert(r@.subrange(0, "/tmp/"@.len() as int) =~= "/tmp/"@);
    r
}

} // verus!
