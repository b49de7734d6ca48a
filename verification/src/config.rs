//! Deriving the child's execution environment.
//!
//! The bind host and port come from environment-variable overrides with
//! lenient defaults; the data directory comes from the shell-supplied
//! per-user directory with a project-local fallback.  The caller reads the
//! environment and hands the raw values in; this module only decides.

use vstd::prelude::*;
use crate::digits::{parse_port, parse_port_spec};
use crate::paths::{join, join_spec, view_opt};

verus! {

/// The port used when no valid override is present.
pub const DEFAULT_PORT: u16 = 1421;

/// The host the child binds when no override is present: loopback.
pub open spec fn host_spec(host_var: Option<Seq<char>>) -> Seq<char> {
    match host_var {
        Some(h) => h,
        None => "127.0.0.1"@,
    }
}

/// The port the child binds: the override when it parses as a 16-bit
/// decimal number, the default otherwise.  An unparsable override is
/// deliberately treated like an absent one, never as an error.
pub open spec fn port_spec(port_var: Option<Seq<char>>) -> u16 {
    match port_var {
        Some(s) => match parse_port_spec(s) {
            Some(p) => p,
            None => DEFAULT_PORT,
        },
        None => DEFAULT_PORT,
    }
}

/// The child's writable data directory: the shell-supplied per-user
/// directory when available, else `data` under the project root.
pub open spec fn data_dir_spec(project_root: Seq<char>, app_data_dir: Option<Seq<char>>) -> Seq<
    char,
> {
    match app_data_dir {
        Some(d) => d,
        None => join_spec(project_root, "data"@),
    }
}

/// The resolved execution environment of one launch attempt.
#[derive(Debug, PartialEq, Eq)]
pub struct LaunchConfig {
    /// Address the child binds, also exported to it.
    pub host: String,
    /// Port the child binds, also exported to it.
    pub port: u16,
    /// Directory the child may write; created by the caller before spawning.
    pub data_dir: String,
    /// The child's working directory.
    pub project_root: String,
}

/// Whether `c` is exactly the configuration that the given inputs determine.
pub open spec fn config_matches(
    c: LaunchConfig,
    project_root: Seq<char>,
    app_data_dir: Option<Seq<char>>,
    host_var: Option<Seq<char>>,
    port_var: Option<Seq<char>>,
) -> bool {
    &&& c.host@ == host_spec(host_var)
    &&& c.port == port_spec(port_var)
    &&& c.data_dir@ == data_dir_spec(project_root, app_data_dir)
    &&& c.project_root@ == project_root
}

/// Derives the launch configuration from the project root, the optional
/// shell-supplied data directory, and the raw environment overrides.
/// Infallible: every combination of inputs yields a configuration.
pub fn build_config(
    project_root: &str,
    app_data_dir: Option<String>,
    host_var: Option<String>,
    port_var: Option<String>,
) -> (c: LaunchConfig)
    ensures
        config_matches(
            c,
            project_root@,
            view_opt(app_data_dir),
            view_opt(host_var),
            view_opt(port_var),
        ),
{
    let host = match host_var {
        Some(h) => h,
        None => String::from_str("127.0.0.1"),
    };
    let port = match &port_var {
        Some(s) => match parse_port(s.as_str()) {
            Some(p) => p,
            None => DEFAULT_PORT,
        },
        None => DEFAULT_PORT,
    };
    let data_dir = match app_data_dir {
        Some(d) => d,
        None => join(project_root, "data"),
    };
    LaunchConfig { host, port, data_dir, project_root: String::from_str(project_root) }
}

/// Building the configuration is a pure function of its inputs: two
/// configurations derived from the same project root, data-directory hint
/// and overrides agree in every field, so deriving it a second time changes
/// nothing that the first derivation decided.
pub proof fn lemma_build_config_deterministic(
    c1: LaunchConfig,
    c2: LaunchConfig,
    project_root: Seq<char>,
    app_data_dir: Option<Seq<char>>,
    host_var: Option<Seq<char>>,
    port_var: Option<Seq<char>>,
)
    requires
        config_matches(c1, project_root, app_data_dir, host_var, port_var),
        config_matches(c2, project_root, app_data_dir, host_var, port_var),
    ensures
        c1.host@ == c2.host@,
        c1.port == c2.port,
        c1.data_dir@ == c2.data_dir@,
        c1.project_root@ == c2.project_root@,
{
}

} // verus!
