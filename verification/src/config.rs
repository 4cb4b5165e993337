//! The configuration the engine runs against: the server fleet, the remote
//! account, the local mirror root, and the targets to keep in step.  The
//! document is parsed outside the library; here it is plain data with the
//! contracts the rest of the engine relies on.

use vstd::prelude::*;
use crate::errors::SyncError;
use crate::strutil::is_digit;

verus! {

/// A target's `push`/`pull` flags default to enabled when the configuration
/// leaves them out.
pub fn default_as_true() -> (r: bool)
    ensures
        r,
{
    true
}

/// A target's `sudo`/`shared` flags default to disabled when the
/// configuration leaves them out.
pub fn default_as_false() -> (r: bool)
    ensures
        !r,
{
    false
}

/// A remote host identity.
pub struct ServerConfig {
    /// Display and local-namespacing name; the host when absent.
    pub alias: Option<String>,
    /// Connection address.
    pub host: String,
}

impl ServerConfig {
    /// The name a server goes by: its alias, or its host when it has none.
    pub open spec fn spec_name(&self) -> Seq<char> {
        match self.alias {
            Option::Some(a) => a@,
            Option::None => self.host@,
        }
    }

    pub fn name(&self) -> (r: String)
        ensures
            r@ == self.spec_name(),
    {
        match &self.alias {
            Option::Some(a) => a.clone(),
            Option::None => self.host.clone(),
        }
    }
}

/// The remote side: the fleet and the account used to reach it.
pub struct RemoteConfig {
    pub servers: Vec<ServerConfig>,
    pub user: String,
    pub identity: Option<String>,
    /// Session-establishment timeout in seconds.
    pub timeout: Option<u64>,
}

/// The local mirror.
pub struct LocalConfig {
    pub config_root_path: String,
}

/// One logical configuration unit to keep in step.
pub struct TargetConfig {
    /// The remote-side reference path, absolute or home-relative.
    pub path: String,
    pub push: bool,
    pub pull: bool,
    /// Remote access to the target requires elevation.
    pub sudo: bool,
    /// One authoritative instance across the fleet rather than one per
    /// server.
    pub shared: bool,
}

impl TargetConfig {
    /// A fresh value with the same fields.
    pub fn duplicate(&self) -> (r: TargetConfig)
        ensures
            r.path@ == self.path@,
            r.push == self.push,
            r.pull == self.pull,
            r.sudo == self.sudo,
            r.shared == self.shared,
    {
        TargetConfig {
            path: self.path.clone(),
            push: self.push,
            pull: self.pull,
            sudo: self.sudo,
            shared: self.shared,
        }
    }
}

/// The whole configuration document, already parsed.
pub struct CliConfig {
    /// How many tasks may run at once; the scheduler's default applies when
    /// absent.
    pub concurrency: Option<usize>,
    /// Upper bound on transferred file sizes, as a human-readable size.
    pub max_file_size: Option<String>,
    pub remote: RemoteConfig,
    pub local: LocalConfig,
    pub targets: Vec<TargetConfig>,
}

/// The bound used when `max_file_size` is not configured.
pub const DEFAULT_MAX_FILE_SIZE: u64 = 300 * 1024;

/// How many decimal digit characters a size string holds, wherever they
/// stand in it.
pub open spec fn digit_count(s: Seq<char>) -> nat
    decreases s.len(),
{
    if s.len() == 0 {
        0
    } else if is_digit(s.last()) {
        digit_count(s.drop_last()) + 1
    } else {
        digit_count(s.drop_last())
    }
}

pub fn count_digits(s: &str) -> (r: usize)
    ensures
        r as nat == digit_count(s@),
{
    let n = s.unicode_len();
    let mut count: usize = 0;
    let mut i: usize = 0;
    while i < n
        invariant
            i <= n,
            n == s@.len(),
            count <= i,
            count as nat == digit_count(s@.take(i as int)),
        decreases n - i,
    {
        let c = s.get_char(i);
        let code = c as u32;
        proof {
            assert(s@.take(i + 1).drop_last() =~= s@.take(i as int));
            assert(s@.take(i + 1).last() == s@[i as int]);
        }
        if code >= 48 && code <= 57 {
            count += 1;
        }
        i += 1;
    }
    proof {
        assert(s@.take(n as int) =~= s@);
    }
    count
}

/// What the size parser reads out of a human-readable size string ("300 kb",
/// "1.5 MiB"), or nothing when the string is not a size.
pub uninterp spec fn parsed_size_of(s: Seq<char>) -> Option<u64>;

/// Relies on parse_size::parse_size (the default configuration): the reading
/// of a human-readable size string depends on its characters alone.  The
/// parser is handed only strings with fewer than twenty digit characters:
/// rounding up a mantissa that has already reached the largest representable
/// value overflows inside it, and reaching that value takes twenty digits.
#[verifier::external_body]
fn parse_size_str(s: &str) -> (r: Option<u64>)
    requires
        digit_count(s@) < 20,
    ensures
        r == parsed_size_of(s@),
{
    parse_size::parse_size(s).ok()
}

/// The batch size used when the configuration does not set one.
pub const DEFAULT_CONCURRENCY: usize = 10;

impl CliConfig {
    /// The batch size a run uses: the configured concurrency, the default
    /// when none is configured, and never below one (a configured zero is
    /// read as one, so the run can make progress at all).
    pub fn effective_concurrency(&self) -> (r: usize)
        ensures
            match self.concurrency {
                Option::None => r == DEFAULT_CONCURRENCY,
                Option::Some(c) => r == (if c == 0 {
                    1usize
                } else {
                    c
                }),
            },
            r >= 1,
    {
        match self.concurrency {
            Option::None => DEFAULT_CONCURRENCY,
            Option::Some(c) => if c == 0 {
                1
            } else {
                c
            },
        }
    }

    /// The configured size bound, the default when none is configured, or
    /// `InvalidSize` exactly when the configured string is not a size the
    /// engine accepts: strings of twenty or more digit characters are
    /// rejected outright (every in-range size fits in nineteen), everything
    /// else is read by the size parser.
    pub fn max_file_size(&self) -> (r: Result<u64, SyncError>)
        ensures
            match self.max_file_size {
                Option::None => r == Ok::<u64, SyncError>(DEFAULT_MAX_FILE_SIZE),
                Option::Some(s) => if digit_count(s@) >= 20 {
                    r matches Err(SyncError::InvalidSize { raw }) && raw@ == s@
                } else {
                    match parsed_size_of(s@) {
                        Option::Some(v) => r == Ok::<u64, SyncError>(v),
                        Option::None => (r matches Err(SyncError::InvalidSize { raw }) && raw@
                            == s@),
                    }
                },
            },
    {
        match &self.max_file_size {
            Option::None => Ok(DEFAULT_MAX_FILE_SIZE),
            Option::Some(s) => {
                if count_digits(s.as_str()) >= 20 {
                    return Err(SyncError::InvalidSize { raw: s.clone() });
                }
                match parse_size_str(s.as_str()) {
                    Option::Some(v) => Ok(v),
                    Option::None => Err(SyncError::InvalidSize { raw: s.clone() }),
                }
            },
        }
    }
}

} // verus!
