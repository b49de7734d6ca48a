//! One launch attempt, end to end: locate the script, derive the project
//! root, locate an interpreter, derive the environment, and lay out the
//! child's invocation.  The caller supplies the raw outside values — the
//! current directory, the shell-supplied directories, the environment
//! overrides — and performs the plan; everything decided here is checked.

use vstd::prelude::*;
use crate::command::{build_command, plan_matches, CommandPlan};
use crate::config::{build_config, data_dir_spec, host_spec, port_spec};
use crate::errors::StartupError;
use crate::paths::{find_project_root, project_root_spec, view_opt};
use crate::resolve::{resolve_interpreter, resolve_script, script_candidates_spec};

verus! {

/// Whether `p` launches `script` correctly: the project root is the
/// script's grandparent, the plan runs there, and host, port, data
/// directory and exported environment all follow from the overrides and
/// the data-directory hint.  The program is whatever interpreter the
/// probes found.
pub open spec fn plan_for_script(
    p: CommandPlan,
    script: Seq<char>,
    app_data_dir: Option<Seq<char>>,
    host_var: Option<Seq<char>>,
    port_var: Option<Seq<char>>,
) -> bool {
    match project_root_spec(script) {
        Some(root) => plan_matches(
            p,
            p.program@,
            script,
            host_spec(host_var),
            port_spec(port_var),
            data_dir_spec(root, app_data_dir),
            root,
        ),
        None => false,
    }
}

/// Whether `p` is an acceptable outcome of a launch attempt with the given
/// outside values: it launches one of the candidate script locations.
pub open spec fn plan_acceptable(
    p: CommandPlan,
    cwd: Option<Seq<char>>,
    resource_dir: Option<Seq<char>>,
    app_data_dir: Option<Seq<char>>,
    host_var: Option<Seq<char>>,
    port_var: Option<Seq<char>>,
) -> bool {
    exists|i: int|
        0 <= i < script_candidates_spec(cwd, resource_dir).len() && plan_for_script(
            p,
            script_candidates_spec(cwd, resource_dir)[i],
            app_data_dir,
            host_var,
            port_var,
        )
}

/// Plans one launch: resolves the script among the candidate locations,
/// derives the project root, resolves an interpreter, and builds the
/// invocation.  Every plan returned launches one of the candidates with
/// the configuration the inputs determine; a failure is `ScriptNotFound`
/// or `InterpreterNotFound`, and the attempt spawns nothing.
pub fn plan_launch(
    cwd: &Option<String>,
    resource_dir: &Option<String>,
    app_data_dir: Option<String>,
    host_var: Option<String>,
    port_var: Option<String>,
) -> (r: Result<CommandPlan, StartupError>)
    ensures
        r matches Ok(p) ==> plan_acceptable(
            p,
            view_opt(*cwd),
            view_opt(*resource_dir),
            view_opt(app_data_dir),
            view_opt(host_var),
            view_opt(port_var),
        ),
        r matches Err(e) ==> (e == StartupError::ScriptNotFound || e
            == StartupError::InterpreterNotFound),
{
    let script = match resolve_script(cwd, resource_dir) {
        Ok(s) => s,
        Err(e) => {
            return Err(e);
        },
    };
    proof {
        let ghost cands = script_candidates_spec(view_opt(*cwd), view_opt(*resource_dir));
        let i = choose|i: int| 0 <= i < cands.len() && script@ == cands[i];
        crate::resolve::lemma_candidates_have_roots(view_opt(*cwd), view_opt(*resource_dir), i);
    }
    let root = match find_project_root(script.as_str()) {
        Some(r) => r,
        None => {
            // A resolved script is always a candidate, and every candidate
            // has a grandparent.
            proof {
                assert(false);
            }
            return Err(StartupError::ScriptNotFound);
        },
    };
    let interpreter = match resolve_interpreter(root.as_str()) {
        Ok(p) => p,
        Err(e) => {
            return Err(e);
        },
    };
    let config = build_config(root.as_str(), app_data_dir, host_var, port_var);
    let plan = build_command(interpreter.as_str(), script.as_str(), &config);
    proof {
        let ghost cands = script_candidates_spec(view_opt(*cwd), view_opt(*resource_dir));
        let i = choose|i: int| 0 <= i < cands.len() && script@ == cands[i];
        assert(plan_for_script(
            plan,
            cands[i],
            view_opt(app_data_dir),
            view_opt(host_var),
            view_opt(port_var),
        ));
    }
    Ok(plan)
}

} // verus!
