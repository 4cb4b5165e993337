//! Path joining and the test that a command-line path argument denotes a
//! configured target.  Paths are plain strings here; both backends' path
//! identities are built from these joins.

use vstd::prelude::*;
use crate::config::{CliConfig, ServerConfig, TargetConfig};
use crate::errors::SyncError;
use crate::strutil::has_prefix;
use crate::strutil::strip_prefix_str;

verus! {

/// A child path under a parent: the parent itself for an empty child, else
/// the two joined with a single separator.
pub open spec fn join_path_spec(parent: Seq<char>, path: Seq<char>) -> Seq<char> {
    if path.len() == 0 {
        parent
    } else {
        parent + "/"@ + path
    }
}

pub fn join_path(parent_path: &String, path: &String) -> (r: String)
    ensures
        r@ == join_path_spec(parent_path@, path@),
{
    if path.as_str().unicode_len() == 0 {
        return parent_path.clone();
    }
    let mut r = parent_path.clone();
    r.append("/");
    r.append(path.as_str());
    r
}

/// The display form of a path.  Paths are already strings of characters, so
/// this is the value itself.
pub fn convert_to_string(path: &String) -> (r: String)
    ensures
        r@ == path@,
{
    path.clone()
}

/// `given` equals `tpath` once `prefix` is stripped off it.
pub open spec fn strip_eq(given: Seq<char>, prefix: Seq<char>, tpath: Seq<char>) -> bool {
    has_prefix(given, prefix) && given.skip(prefix.len() as int) == tpath
}

/// The names of a server list, in order.
pub open spec fn server_names_spec(servers: Seq<ServerConfig>) -> Seq<Seq<char>> {
    servers.map_values(|s: ServerConfig| s.spec_name())
}

/// A path argument denotes the target when it equals the target's path
/// outright, or does so after one known local-store prefix is stripped: the
/// store root, the root with a trailing separator, or the root joined with
/// any server's name.
pub open spec fn is_target_config_spec(
    root: Seq<char>,
    names: Seq<Seq<char>>,
    tpath: Seq<char>,
    given: Seq<char>,
) -> bool {
    (exists|i: int|
        0 <= i < names.len() && strip_eq(given, root + "/"@ + names[i], tpath))
        || strip_eq(given, root, tpath)
        || strip_eq(given, root + "/"@, tpath)
        || given == tpath
}

/// Whether `target_config_path`, as typed on the command line, refers to
/// `config` under this configuration.
pub fn is_target_config(
    cli_config: &CliConfig,
    config: &TargetConfig,
    target_config_path: &str,
) -> (r: bool)
    ensures
        r == is_target_config_spec(
            cli_config.local.config_root_path@,
            server_names_spec(cli_config.remote.servers@),
            config.path@,
            target_config_path@,
        ),
{
    let ghost root = cli_config.local.config_root_path@;
    let ghost names = server_names_spec(cli_config.remote.servers@);
    let ghost tpath = config.path@;
    let ghost given = target_config_path@;
    let n = cli_config.remote.servers.len();
    let mut i: usize = 0;
    while i < n
        invariant
            i <= n,
            n == cli_config.remote.servers@.len(),
            root == cli_config.local.config_root_path@,
            names == server_names_spec(cli_config.remote.servers@),
            tpath == config.path@,
            given == target_config_path@,
            forall|j: int| 0 <= j < i ==> !strip_eq(given, root + "/"@ + names[j], tpath),
        decreases n - i,
    {
        let mut prefix = cli_config.local.config_root_path.clone();
        prefix.append("/");
        prefix.append(cli_config.remote.servers[i].name().as_str());
        assert(prefix@ == root + "/"@ + names[i as int]);
        match strip_prefix_str(target_config_path, prefix.as_str()) {
            Option::Some(rest) => {
                if rest == config.path {
                    assert(strip_eq(given, root + "/"@ + names[i as int], tpath));
                    return true;
                }
            },
            Option::None => {},
        }
        i += 1;
    }
    match strip_prefix_str(target_config_path, cli_config.local.config_root_path.as_str()) {
        Option::Some(rest) => {
            if rest == config.path {
                assert(strip_eq(given, root, tpath));
                return true;
            }
        },
        Option::None => {},
    }
    let mut slashed = cli_config.local.config_root_path.clone();
    slashed.append("/");
    match strip_prefix_str(target_config_path, slashed.as_str()) {
        Option::Some(rest) => {
            if rest == config.path {
                assert(strip_eq(given, root + "/"@, tpath));
                return true;
            }
        },
        Option::None => {},
    }
    let given_owned = String::from_str(target_config_path);
    if given_owned == config.path {
        return true;
    }
    false
}

/// A discovered path expressed relative to a root: empty for the root
/// itself, the remainder after `root/` when the path lies under it, nothing
/// when it lies elsewhere (a resolver/backend disagreement).
pub open spec fn relativize_spec(p: Seq<char>, root: Seq<char>) -> Option<Seq<char>> {
    if p == root {
        Option::Some(Seq::empty())
    } else if has_prefix(p, root + "/"@) {
        Option::Some(p.skip(root.len() as int + 1))
    } else {
        Option::None
    }
}

pub fn relativize(p: &str, root: &str) -> (r: Option<String>)
    ensures
        match r {
            Option::Some(rel) => relativize_spec(p@, root@) == Option::Some(rel@),
            Option::None => relativize_spec(p@, root@) is None,
        },
{
    proof {
        reveal_strlit("/");
    }
    let p_owned = String::from_str(p);
    let root_owned = String::from_str(root);
    if p_owned == root_owned {
        assert(Seq::empty() =~= ""@) by {
            reveal_strlit("");
        }
        return Some(String::new());
    }
    let mut slashed = root_owned;
    slashed.append("/");
    strip_prefix_str(p, slashed.as_str())
}

/// All of `paths` relativized against `root`, or the first path that does
/// not lie under it.
pub open spec fn rel_paths_from(paths: Seq<Seq<char>>, root: Seq<char>, i: int) -> Result<
    Seq<Seq<char>>,
    Seq<char>,
>
    decreases paths.len() - i,
{
    if i < 0 || i >= paths.len() {
        Result::Ok(Seq::empty())
    } else {
        match relativize_spec(paths[i], root) {
            Option::None => Result::Err(paths[i]),
            Option::Some(rel) => match rel_paths_from(paths, root, i + 1) {
                Result::Ok(rest) => Result::Ok(seq![rel].add(rest)),
                Result::Err(e) => Result::Err(e),
            },
        }
    }
}

pub open spec fn rel_paths_spec(paths: Seq<Seq<char>>, root: Seq<char>) -> Result<
    Seq<Seq<char>>,
    Seq<char>,
> {
    rel_paths_from(paths, root, 0)
}

/// `acc` already produced, continued by the rest of a relativization.
pub open spec fn rel_paths_combine(acc: Seq<Seq<char>>, rest: Result<Seq<Seq<char>>, Seq<char>>)
    -> Result<Seq<Seq<char>>, Seq<char>> {
    match rest {
        Result::Ok(v) => Result::Ok(acc + v),
        Result::Err(e) => Result::Err(e),
    }
}

/// Relativizes every discovered path against the root, in order, failing
/// with `InvalidPath` on the first path that does not lie under the root.
pub fn relative_paths_under(paths: &Vec<String>, root: &String) -> (r: Result<
    Vec<String>,
    SyncError,
>)
    ensures
        match r {
            Result::Ok(v) => rel_paths_spec(paths@.map_values(|p: String| p@), root@)
                == Result::Ok::<Seq<Seq<char>>, Seq<char>>(v@.map_values(|p: String| p@)),
            Result::Err(e) => (e matches SyncError::InvalidPath { path } && rel_paths_spec(
                paths@.map_values(|p: String| p@),
                root@,
            ) == Result::Err::<Seq<Seq<char>>, Seq<char>>(path@)),
        },
{
    let ghost ps = paths@.map_values(|p: String| p@);
    let mut out: Vec<String> = Vec::new();
    let mut i: usize = 0;
    while i < paths.len()
        invariant
            i <= paths.len(),
            ps == paths@.map_values(|p: String| p@),
            root@ == root@,
            rel_paths_spec(ps, root@) == rel_paths_combine(
                out@.map_values(|p: String| p@),
                rel_paths_from(ps, root@, i as int),
            ),
        decreases paths.len() - i,
    {
        match relativize(paths[i].as_str(), root.as_str()) {
            Option::None => {
                let bad = paths[i].clone();
                assert(rel_paths_from(ps, root@, i as int) == Result::Err::<
                    Seq<Seq<char>>,
                    Seq<char>,
                >(ps[i as int]));
                return Err(SyncError::InvalidPath { path: bad });
            },
            Option::Some(rel) => {
                let ghost old_out = out@.map_values(|p: String| p@);
                let ghost relv = rel@;
                out.push(rel);
                proof {
                    assert(out@.map_values(|p: String| p@) =~= old_out.push(relv));
                    let rest = rel_paths_from(ps, root@, i + 1);
                    match rest {
                        Result::Ok(v) => {
                            assert(old_out + (seq![relv].add(v)) =~= old_out.push(relv) + v);
                        },
                        Result::Err(_) => {},
                    }
                }
                i += 1;
            },
        }
    }
    proof {
        assert(rel_paths_from(ps, root@, i as int) == Result::Ok::<Seq<Seq<char>>, Seq<char>>(
            Seq::empty(),
        ));
        assert(out@.map_values(|p: String| p@) + Seq::<Seq<char>>::empty() =~= out@.map_values(
            |p: String| p@,
        ));
    }
    Ok(out)
}

} // verus!
