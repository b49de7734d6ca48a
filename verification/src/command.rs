//! The exact shape of the child's invocation.
//!
//! A `CommandPlan` is everything the spawning code needs: the program, its
//! argument list, the extra environment, and the working directory.  The
//! environment mirrors the host and port given on the command line, so the
//! child may learn its bind parameters from either source.

use vstd::prelude::*;
use crate::config::LaunchConfig;
use crate::digits::{dec_str, port_to_string};

verus! {

/// A fully resolved child invocation, ready to be performed.
#[derive(Debug, PartialEq, Eq)]
pub struct CommandPlan {
    /// The interpreter executable.
    pub program: String,
    /// `script --host <host> --port <port>`.
    pub args: Vec<String>,
    /// Extra environment for the child: data directory, host, port.
    pub env: Vec<(String, String)>,
    /// The child's working directory: the project root.
    pub cwd: String,
    /// The directory the caller must create before spawning.
    pub data_dir: String,
}

/// Whether `p` is exactly the invocation that the resolved pieces
/// determine: program, the five arguments in order, the three exported
/// variables in order, working directory and data directory.
pub open spec fn plan_matches(
    p: CommandPlan,
    interpreter: Seq<char>,
    script: Seq<char>,
    host: Seq<char>,
    port: u16,
    data_dir: Seq<char>,
    project_root: Seq<char>,
) -> bool {
    &&& p.program@ == interpreter
    &&& p.args@.len() == 5
    &&& p.args@[0]@ == script
    &&& p.args@[1]@ == "--host"@
    &&& p.args@[2]@ == host
    &&& p.args@[3]@ == "--port"@
    &&& p.args@[4]@ == dec_str(port as int)
    &&& p.env@.len() == 3
    &&& p.env@[0].0@ == "ORATIO_DATA_DIR"@
    &&& p.env@[0].1@ == data_dir
    &&& p.env@[1].0@ == "ORATIO_HOST"@
    &&& p.env@[1].1@ == host
    &&& p.env@[2].0@ == "ORATIO_PORT"@
    &&& p.env@[2].1@ == dec_str(port as int)
    &&& p.cwd@ == project_root
    &&& p.data_dir@ == data_dir
}

/// Lays out the child's command line and environment from the resolved
/// interpreter, script and configuration.
pub fn build_command(interpreter: &str, script: &str, config: &LaunchConfig) -> (p: CommandPlan)
    ensures
        plan_matches(
            p,
            interpreter@,
            script@,
            config.host@,
            config.port,
            config.data_dir@,
            config.project_root@,
        ),
{
    let port_text = port_to_string(config.port);

    let mut args: Vec<String> = Vec::new();
    args.push(String::from_str(script));
    args.push(String::from_str("--host"));
    args.push(config.host.clone());
    args.push(String::from_str("--port"));
    args.push(port_text.clone());

    let mut env: Vec<(String, String)> = Vec::new();
    env.push((String::from_str("ORATIO_DATA_DIR"), config.data_dir.clone()));
    env.push((String::from_str("ORATIO_HOST"), config.host.clone()));
    env.push((String::from_str("ORATIO_PORT"), port_text));

    CommandPlan {
        program: String::from_str(interpreter),
        args,
        env,
        cwd: config.project_root.clone(),
        data_dir: config.data_dir.clone(),
    }
}

} // verus!
