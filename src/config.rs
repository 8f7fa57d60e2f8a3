//! Run-time configuration, read once at start-up and never changed.
use vstd::prelude::*;
use vstd::string::StringExecFns;
use crate::prompt::{is_word, same_word};

verus! {

/// How to behave when running with elevated rights. Only `Auto` has any
/// effect today; the others are reserved.
#[derive(Clone, Copy, Debug, PartialEq, Eq, Structural)]
pub enum RootMode {
    Auto,
    Sandbox,
    User,
    TrustRoot,
}

/// The root mode a setting names; an absent or unknown setting means `Auto`.
pub open spec fn root_mode_of(v: Option<Seq<char>>) -> RootMode {
    match v {
        Some(s) => if s == seq!['s', 'a', 'n', 'd', 'b', 'o', 'x'] {
            RootMode::Sandbox
        } else if s == seq!['u', 's', 'e', 'r'] {
            RootMode::User
        } else if s == seq!['t', 'r', 'u', 's', 't', '-', 'r', 'o', 'o', 't'] {
            RootMode::TrustRoot
        } else {
            RootMode::Auto
        },
        None => RootMode::Auto,
    }
}

/// The content view of an optional setting.
pub open spec fn setting_view(o: Option<String>) -> Option<Seq<char>> {
    match o {
        Some(s) => Some(s@),
        None => None,
    }
}

impl RootMode {
    /// Reads the root mode from its setting, if the setting is present.
    pub fn from_env(v: &Option<String>) -> (r: RootMode)
        ensures
            r == root_mode_of(setting_view(*v)),
    {
        match v {
            Some(s) => {
                proof {
                    reveal_strlit("sandbox");
                    reveal_strlit("user");
                    reveal_strlit("trust-root");
                    assert("sandbox"@ =~= seq!['s', 'a', 'n', 'd', 'b', 'o', 'x']);
                    assert("user"@ =~= seq!['u', 's', 'e', 'r']);
                    assert("trust-root"@ =~= seq!['t', 'r', 'u', 's', 't', '-', 'r', 'o', 'o', 't']);
                }
                if same_text(s.as_str(), "sandbox") {
                    RootMode::Sandbox
                } else if same_text(s.as_str(), "user") {
                    RootMode::User
                } else if same_text(s.as_str(), "trust-root") {
                    RootMode::TrustRoot
                } else {
                    RootMode::Auto
                }
            },
            None => RootMode::Auto,
        }
    }
}

/// Whether two strings hold the same characters.
pub fn same_text(a: &str, b: &str) -> (r: bool)
    ensures
        r == (a@ == b@),
{
    let n = a.unicode_len();
    if n != b.unicode_len() {
        return false;
    }
    let mut i: usize = 0;
    while i < n
        invariant
            n == a@.len(),
            n == b@.len(),
            i <= n,
            forall|j: int| 0 <= j < i ==> a@[j] == b@[j],
        decreases n - i,
    {
        if a.get_char(i) != b.get_char(i) {
            return false;
        }
        i = i + 1;
    }
    assert(a@ =~= b@);
    true
}

/// The raw settings the configuration is made from; `None` where unset.
pub struct EnvSettings {
    pub pkgdest: Option<String>,
    pub snapshot_cache: Option<String>,
    pub pacman: Option<String>,
    pub sudo: Option<String>,
    pub build_user: Option<String>,
    pub auto_trust_root: Option<String>,
    pub root_mode: Option<String>,
}

/// The configuration every component reads.
pub struct Config {
    /// Where the build tool places built packages.
    pub pkgdest: String,
    /// Reserved: behaviour when running with elevated rights.
    pub root_mode: RootMode,
    /// Reserved: automatic trust of builds run with elevated rights.
    pub auto_trust_root: bool,
    /// Reserved: the user that builds would run as.
    pub build_user: String,
    /// Where downloaded source snapshots are kept.
    pub snapshot_cache: String,
    /// The package manager program.
    pub pacman: String,
    /// The elevation program.
    pub sudo: String,
    /// Whether commands and settings are echoed.
    pub verbose: bool,
}

/// A setting's value, or `d` when it is unset.
pub open spec fn setting_or(o: Option<String>, d: Seq<char>) -> Seq<char> {
    match o {
        Some(s) => s@,
        None => d,
    }
}

/// A flag setting is on when it is `1` or `true` in any case.
pub open spec fn flag_on(o: Option<String>) -> bool {
    match o {
        Some(s) => s@ == seq!['1'] || same_word(s@, seq!['t', 'r', 'u', 'e']),
        None => false,
    }
}

pub open spec fn default_pkgdest() -> Seq<char> {
    "/var/cache/makepkg"@
}

pub open spec fn default_snapshot_cache() -> Seq<char> {
    "/var/cache/yaorust/snapshots"@
}

pub open spec fn default_pacman() -> Seq<char> {
    "pacman"@
}

pub open spec fn default_sudo() -> Seq<char> {
    "sudo"@
}

pub open spec fn default_build_user() -> Seq<char> {
    "nobody"@
}

fn or_default(o: Option<String>, d: &str) -> (r: String)
    ensures
        r@ == setting_or(o, d@),
{
    match o {
        Some(s) => s,
        None => String::from_str(d),
    }
}

fn flag_setting(o: &Option<String>) -> (r: bool)
    ensures
        r == flag_on(*o),
{
    match o {
        Some(s) => {
            proof {
                reveal_strlit("1");
                reveal_strlit("true");
                assert("1"@ =~= seq!['1']);
                assert("true"@ =~= seq!['t', 'r', 'u', 'e']);
            }
            same_text(s.as_str(), "1") || is_word(s.as_str(), "true")
        },
        None => false,
    }
}

impl Config {
    /// Builds the configuration from the raw settings, with a default for
    /// each one that is unset.
    pub fn load(env: EnvSettings, verbose: bool) -> (r: Config)
        ensures
            r.pkgdest@ == setting_or(env.pkgdest, default_pkgdest()),
            r.snapshot_cache@ == setting_or(env.snapshot_cache, default_snapshot_cache()),
            r.pacman@ == setting_or(env.pacman, default_pacman()),
            r.sudo@ == setting_or(env.sudo, default_sudo()),
            r.build_user@ == setting_or(env.build_user, default_build_user()),
            r.auto_trust_root == flag_on(env.auto_trust_root),
            r.root_mode == root_mode_of(setting_view(env.root_mode)),
            r.verbose == verbose,
    {
        let auto_trust_root = flag_setting(&env.auto_trust_root);
        let root_mode = RootMode::from_env(&env.root_mode);
        Config {
            pkgdest: or_default(env.pkgdest, "/var/cache/makepkg"),
            root_mode,
            auto_trust_root,
            build_user: or_default(env.build_user, "nobody"),
            snapshot_cache: or_default(env.snapshot_cache, "/var/cache/yaorust/snapshots"),
            pacman: or_default(env.pacman, "pacman"),
            sudo: or_default(env.sudo, "sudo"),
            verbose,
        }
    }

    /// The programs that must be found before any package work starts: the
    /// archive tool, the build tool and the package manager.
    pub fn required_tools(&self) -> (r: Vec<String>)
        ensures
            crate::text::views(r@) == seq!["bsdtar"@, "makepkg"@, self.pacman@],
    {
        let mut r: Vec<String> = Vec::new();
        crate::command::push_str(&mut r, "bsdtar");
        crate::command::push_str(&mut r, "makepkg");
        crate::command::push_str(&mut r, self.pacman.as_str());
        assert(crate::text::views(r@) =~= seq!["bsdtar"@, "makepkg"@, self.pacman@]);
        r
    }
}

/// The command an invocation runs.
#[derive(Clone, Copy, Debug, PartialEq, Eq, Structural)]
pub enum Mode {
    /// Install from the binary repository or by building from source.
    Sync,
    /// Only fetch the recipe trees.
    Get,
}

/// Picks the command from the two command flags: fetching wins when both
/// are given, and `None` means that neither was.
pub fn mode_of(sync: bool, get: bool) -> (r: Option<Mode>)
    ensures
        r == (if get {
            Some(Mode::Get)
        } else if sync {
            Some(Mode::Sync)
        } else {
            None
        }),
{
    if get {
        Some(Mode::Get)
    } else if sync {
        Some(Mode::Sync)
    } else {
        None
    }
}

/// Whether the effective user id `euid` is the superuser's.
pub fn is_root(euid: u32) -> (r: bool)
    ensures
        r == (euid == 0),
{
    euid == 0
}

} // verus!
