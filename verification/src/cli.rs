//! The options each subcommand runs with, and the text the two ssh helper
//! subcommands compute.  Argument parsing itself happens outside the
//! library; these are the parsed values and the derived output.

use vstd::prelude::*;
use crate::config::ServerConfig;

verus! {

/// Options of the listing subcommand.
pub struct ListOpt {
    /// Configuration path.
    pub config: String,
}

/// Options of the pull subcommand.
pub struct PullOpt {
    /// Configuration path.
    pub config: String,
    /// Compare and report, but write nothing.
    pub dry_run: bool,
    /// Restrict the run to the target this path denotes.
    pub target_config_path: Option<String>,
}

/// Options of the push subcommand.
pub struct PushOpt {
    /// Configuration path.
    pub config: String,
    /// Compare and report, but write nothing.
    pub dry_run: bool,
    /// Restrict the run to the target this path denotes.
    pub target_config_path: Option<String>,
}

/// Options of the ssh helper subcommand.
pub struct SshOpt {
    /// Configuration path.
    pub config: String,
    /// Which server to print the invocation for.
    pub server_name: String,
}

/// Options of the ssh-config helper subcommand.
pub struct SshConfigOpt {
    /// Configuration path.
    pub config: String,
}

/// The first server that goes by `name`.
pub fn find_server(servers: &Vec<ServerConfig>, name: &String) -> (r: Option<usize>)
    ensures
        match r {
            Option::Some(i) => i < servers@.len() && servers@[i as int].spec_name() == name@
                && forall|j: int| 0 <= j < i ==> (#[trigger] servers@[j]).spec_name() != name@,
            Option::None => forall|j: int|
                0 <= j < servers@.len() ==> (#[trigger] servers@[j]).spec_name() != name@,
        },
{
    let mut i: usize = 0;
    while i < servers.len()
        invariant
            i <= servers@.len(),
            forall|j: int| 0 <= j < i ==> (#[trigger] servers@[j]).spec_name() != name@,
        decreases servers.len() - i,
    {
        let candidate = servers[i].name();
        if candidate.eq(name) {
            return Some(i);
        }
        i += 1;
    }
    None
}

/// The ssh invocation printed for a server: `ssh <user>@<host>`, with
/// ` -i <identity>` appended when an identity file is configured.
pub open spec fn ssh_invocation_spec(
    user: Seq<char>,
    host: Seq<char>,
    identity: Option<String>,
) -> Seq<char> {
    let base = "ssh "@ + user + "@"@ + host;
    match identity {
        Option::Some(id) => base + " -i "@ + id@,
        Option::None => base,
    }
}

pub fn ssh_invocation(user: &String, host: &String, identity: &Option<String>) -> (r: String)
    ensures
        r@ == ssh_invocation_spec(user@, host@, *identity),
{
    let mut r = String::from_str("ssh ");
    r.append(user.as_str());
    r.append("@");
    r.append(host.as_str());
    match identity {
        Option::Some(id) => {
            r.append(" -i ");
            r.append(id.as_str());
        },
        Option::None => {},
    }
    r
}

/// One server's block in the generated ssh configuration: the `Host` line
/// with the server's name, the `HostName` line with its address, the `User`
/// line, and an `IdentityFile` line when an identity file is configured.
pub fn ssh_config_entry(server: &ServerConfig, user: &String, identity: &Option<String>) -> (r:
    Vec<String>)
    ensures
        identity is Some ==> r@.len() == 4,
        identity is None ==> r@.len() == 3,
        r@[0]@ == "Host "@ + server.spec_name(),
        r@[1]@ == "  HostName "@ + server.host@,
        r@[2]@ == "  User "@ + user@,
        identity matches Some(id) ==> r@[3]@ == "  IdentityFile "@ + id@,
{
    let mut r: Vec<String> = Vec::new();
    let mut host_line = String::from_str("Host ");
    host_line.append(server.name().as_str());
    r.push(host_line);
    let mut hostname_line = String::from_str("  HostName ");
    hostname_line.append(server.host.as_str());
    r.push(hostname_line);
    let mut user_line = String::from_str("  User ");
    user_line.append(user.as_str());
    r.push(user_line);
    match identity {
        Option::Some(id) => {
            let mut id_line = String::from_str("  IdentityFile ");
            id_line.append(id.as_str());
            r.push(id_line);
        },
        Option::None => {},
    }
    r
}

} // verus!
