//! The local mirror's side of the path identity: where a (server, target,
//! relative path) triple lives under the configuration store root.  The
//! filesystem calls themselves stay outside the library; everything here is
//! the path computation those calls are made against.

use vstd::prelude::*;
use crate::config::{LocalConfig, TargetConfig};
use crate::paths::{join_path, join_path_spec};

verus! {

/// A target path with its leading separators removed, so that an absolute
/// target path is always rooted under the local store, never outside it.
pub open spec fn strip_leading_slashes(p: Seq<char>) -> Seq<char>
    decreases p.len(),
{
    if p.len() > 0 && p[0] == '/' {
        strip_leading_slashes(p.skip(1))
    } else {
        p
    }
}

pub fn strip_leading_separators(p: &str) -> (r: String)
    ensures
        r@ == strip_leading_slashes(p@),
{
    let n = p.unicode_len();
    let mut i: usize = 0;
    assert(p@.skip(0) =~= p@);
    while i < n
        invariant
            i <= n,
            n == p@.len(),
            strip_leading_slashes(p@) == strip_leading_slashes(p@.skip(i as int)),
        decreases n - i,
    {
        let c = p.get_char(i);
        if c != '/' {
            let rest = p.substring_char(i, n);
            assert(rest@ =~= p@.skip(i as int));
            return String::from_str(rest);
        }
        assert(p@.skip(i as int).skip(1) =~= p@.skip(i + 1));
        i += 1;
    }
    assert(p@.skip(i as int) =~= Seq::<char>::empty());
    String::new()
}

/// Where a target's files are grouped locally: under a server-named segment
/// for an ordinary target, directly under the store root for a shared one.
pub open spec fn parent_path_spec(root: Seq<char>, server: Seq<char>, shared: bool) -> Seq<char> {
    if shared {
        root
    } else {
        join_path_spec(root, server)
    }
}

/// The local root of one (server, target) pair.
pub open spec fn local_path_spec(
    root: Seq<char>,
    server: Seq<char>,
    tpath: Seq<char>,
    shared: bool,
) -> Seq<char> {
    join_path_spec(parent_path_spec(root, server, shared), strip_leading_slashes(tpath))
}

/// The local home of one file of the pair.
pub open spec fn local_real_path_spec(
    root: Seq<char>,
    server: Seq<char>,
    tpath: Seq<char>,
    shared: bool,
    rel: Seq<char>,
) -> Seq<char> {
    join_path_spec(local_path_spec(root, server, tpath, shared), rel)
}

/// Path identity: an ordinary target's local path carries the server's name
/// between the store root and the target's own (separator-stripped) path; a
/// shared target's does not, whichever server asks.
pub proof fn lemma_path_identity(root: Seq<char>, server: Seq<char>, tpath: Seq<char>)
    ensures
        server.len() > 0 && strip_leading_slashes(tpath).len() > 0 ==> local_path_spec(
            root,
            server,
            tpath,
            false,
        ) == root + "/"@ + server + "/"@ + strip_leading_slashes(tpath),
        local_path_spec(root, server, tpath, true) == join_path_spec(
            root,
            strip_leading_slashes(tpath),
        ),
        forall|other: Seq<char>|
            local_path_spec(root, server, tpath, true) == local_path_spec(
                root,
                other,
                tpath,
                true,
            ),
{
    if server.len() > 0 && strip_leading_slashes(tpath).len() > 0 {
        assert(local_path_spec(root, server, tpath, false) =~= root + "/"@ + server + "/"@
            + strip_leading_slashes(tpath));
    }
}

/// The local (mirror) backend's identity: it resolves paths under the
/// configured store root.
pub struct LocalConfigClient {
    config: LocalConfig,
}

impl LocalConfigClient {
    /// The store root this client was built with.
    pub closed spec fn root(&self) -> Seq<char> {
        self.config.config_root_path@
    }

    pub fn new(config: &LocalConfig) -> (r: Self)
        ensures
            r.root() == config.config_root_path@,
    {
        LocalConfigClient { config: LocalConfig { config_root_path: config.config_root_path.clone() } }
    }

    /// The store-root-or-server segment a target is grouped under.
    pub fn parent_path(&self, server_name: &String, target: &TargetConfig) -> (r: String)
        ensures
            r@ == parent_path_spec(self.root(), server_name@, target.shared),
    {
        if !target.shared {
            return join_path(&self.config.config_root_path, server_name);
        }
        self.config.config_root_path.clone()
    }

    /// The local root of the (server, target) pair.
    pub fn path(&self, server_name: &String, target: &TargetConfig) -> (r: String)
        ensures
            r@ == local_path_spec(self.root(), server_name@, target.path@, target.shared),
    {
        let parent = self.parent_path(server_name, target);
        let stripped = strip_leading_separators(target.path.as_str());
        join_path(&parent, &stripped)
    }

    /// The local home of one file of the pair.
    pub fn real_path(&self, server: &String, target: &TargetConfig, relative_path: &String) -> (r:
        String)
        ensures
            r@ == local_real_path_spec(
                self.root(),
                server@,
                target.path@,
                target.shared,
                relative_path@,
            ),
    {
        let base = self.path(server, target);
        join_path(&base, relative_path)
    }
}

} // verus!
