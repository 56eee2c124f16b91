//! Environment probe and location resolver.
//!
//! The probe classifies the host OS family and names the environment
//! variable that holds the user's profile directory; the resolver composes
//! the Signal installation directory and the paths of its configuration
//! document and encrypted database. All paths are forward-slash joined
//! strings; reading the environment itself is the application's job.

use vstd::prelude::*;
use vstd::string::StrSliceExecFns;
use crate::errors::ExportError;
use crate::text::str_eq;

verus! {

/// The supported host OS families. Anything else is a fatal
/// configuration error.
#[derive(Clone, Copy, PartialEq, Eq, Structural, Debug)]
pub enum HostOs {
    Windows,
    Linux,
    MacOs,
}

/// The per-OS path of the Signal installation directory, relative to the
/// user's profile directory.
pub open spec fn os_suffix_spec(os: HostOs) -> Seq<char> {
    match os {
        HostOs::Windows => "AppData/Roaming/Signal"@,
        HostOs::Linux => ".config/Signal"@,
        HostOs::MacOs => "Library/Application Support/Signal"@,
    }
}

/// `s` ends with `suffix`.
pub open spec fn ends_with(s: Seq<char>, suffix: Seq<char>) -> bool {
    suffix.len() <= s.len() && s.subrange(s.len() - suffix.len(), s.len() as int) == suffix
}

/// Classifies an OS family name. Exactly "windows", "linux" and "macos"
/// are supported; any other name is an `UnsupportedOs` error.
pub fn host_os(name: &str) -> (r: Result<HostOs, ExportError>)
    ensures
        name@ == "windows"@ ==> r == Ok::<HostOs, ExportError>(HostOs::Windows),
        name@ == "linux"@ ==> r == Ok::<HostOs, ExportError>(HostOs::Linux),
        name@ == "macos"@ ==> r == Ok::<HostOs, ExportError>(HostOs::MacOs),
        name@ != "windows"@ && name@ != "linux"@ && name@ != "macos"@ ==> (r matches Err(e)
            && e matches ExportError::UnsupportedOs(os) && os@ == name@),
{
    proof {
        reveal_strlit("windows");
        reveal_strlit("linux");
        reveal_strlit("macos");
        assert("linux"@[0] == 'l');
        assert("macos"@[0] == 'm');
    }
    if str_eq(name, "windows") {
        Ok(HostOs::Windows)
    } else if str_eq(name, "linux") {
        Ok(HostOs::Linux)
    } else if str_eq(name, "macos") {
        Ok(HostOs::MacOs)
    } else {
        Err(ExportError::UnsupportedOs(name.to_owned()))
    }
}

/// The environment variable that holds the user's profile directory:
/// `USERPROFILE` on windows, `HOME` on linux and macos.
pub fn profile_env_var(os: HostOs) -> (r: &'static str)
    ensures
        os is Windows ==> r@ == "USERPROFILE"@,
        !(os is Windows) ==> r@ == "HOME"@,
{
    match os {
        HostOs::Windows => "USERPROFILE",
        _ => "HOME",
    }
}

/// Validates the looked-up value of a required environment variable:
/// unset or empty is an `EnvMissing` error; anything else is returned
/// verbatim.
pub fn require_env(var: &str, value: Option<String>) -> (r: Result<String, ExportError>)
    ensures
        value matches Some(v) ==> {
            &&& v@.len() > 0 ==> (r matches Ok(s) && s@ == v@)
            &&& v@.len() == 0 ==> (r matches Err(e) && e matches ExportError::EnvMissing(w)
                && w@ == var@)
        },
        value is None ==> (r matches Err(e) && e matches ExportError::EnvMissing(w) && w@
            == var@),
{
    match value {
        Some(s) => {
            if s.as_str().is_empty() {
                Err(ExportError::EnvMissing(var.to_owned()))
            } else {
                Ok(s)
            }
        },
        None => Err(ExportError::EnvMissing(var.to_owned())),
    }
}

/// The resolved locations of a Signal installation: the installation
/// directory, its configuration document, and its encrypted database.
/// Constructed once per invocation and immutable thereafter.
pub struct SignalPaths {
    pub install_dir: String,
    pub config_file: String,
    pub db_file: String,
}

/// The textual path of the OS-specific Signal directory suffix.
pub fn os_suffix(os: HostOs) -> (r: &'static str)
    ensures
        r@ == os_suffix_spec(os),
{
    match os {
        HostOs::Windows => "AppData/Roaming/Signal",
        HostOs::Linux => ".config/Signal",
        HostOs::MacOs => "Library/Application Support/Signal",
    }
}

/// A forward-slash-normalized path join: exactly one separator stands
/// between a non-empty base and the relative part, whether or not the
/// base already ends in one; an empty base contributes nothing.
pub open spec fn path_join(base: Seq<char>, rel: Seq<char>) -> Seq<char> {
    if base.len() == 0 {
        rel
    } else if base.last() == '/' {
        base + rel
    } else {
        base + seq!['/'] + rel
    }
}

/// Whether a path ends in a separator.
fn ends_with_slash(s: &str) -> (r: bool)
    ensures
        r == (s@.len() > 0 && s@.last() == '/'),
{
    let n = s.unicode_len();
    if n == 0 {
        false
    } else {
        let c = s.get_char(n - 1);
        c == '/'
    }
}

/// Joins a base path and a relative part with exactly one separator.
fn join_path(base: &str, rel: &str) -> (r: String)
    ensures
        r@ == path_join(base@, rel@),
{
    proof {
        reveal_strlit("/");
        assert("/"@ =~= seq!['/']);
    }
    if base.unicode_len() == 0 {
        rel.to_owned()
    } else if ends_with_slash(base) {
        base.to_owned().concat(rel)
    } else {
        let s = base.to_owned();
        let s = s.concat("/");
        s.concat(rel)
    }
}

/// Composes the Signal installation directory from the user's profile
/// directory and the OS-specific suffix.
pub fn get_signal_location(os: HostOs, home: &str) -> (r: String)
    ensures
        r@ == path_join(home@, os_suffix_spec(os)),
{
    join_path(home, os_suffix(os))
}

/// The path of the configuration document inside the installation
/// directory.
pub fn get_config_location(install_dir: &str) -> (r: String)
    ensures
        r@ == path_join(install_dir@, "config.json"@),
{
    join_path(install_dir, "config.json")
}

/// The path of the encrypted database inside the installation directory.
/// The input is always valid Unicode here, so the lookup cannot fail; the
/// `Result` mirrors the pipeline's error plumbing. The path is composed,
/// not canonicalized: a missing database is left to fail at open time,
/// where the error is clearer.
pub fn get_db_location(signal_location: &String) -> (r: Result<String, ExportError>)
    ensures
        r matches Ok(p) && p@ == path_join(signal_location@, "sql/db.sqlite"@),
{
    Ok(join_path(signal_location.as_str(), "sql/db.sqlite"))
}

/// Resolves all three locations of a Signal installation in one step.
pub fn signal_paths(os: HostOs, home: &str) -> (r: SignalPaths)
    ensures
        r.install_dir@ == path_join(home@, os_suffix_spec(os)),
        r.config_file@ == path_join(r.install_dir@, "config.json"@),
        r.db_file@ == path_join(r.install_dir@, "sql/db.sqlite"@),
{
    let install_dir = get_signal_location(os, home);
    let config_file = get_config_location(install_dir.as_str());
    let db_file = join_path(install_dir.as_str(), "sql/db.sqlite");
    SignalPaths { install_dir, config_file, db_file }
}

/// Law: for every supported OS, the resolved installation directory ends
/// with the OS-specific Signal directory suffix.
pub proof fn lemma_install_dir_ends_with_suffix(os: HostOs, home: Seq<char>, install: Seq<char>)
    requires
        install == path_join(home, os_suffix_spec(os)),
    ensures
        ends_with(install, os_suffix_spec(os)),
{
    let suffix = os_suffix_spec(os);
    assert(install.subrange(install.len() - suffix.len(), install.len() as int) =~= suffix);
}

} // verus!
