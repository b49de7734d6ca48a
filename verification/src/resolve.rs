//! Locating the backend entry script and a usable interpreter.
//!
//! The candidate lists and the priority among them are decided here over
//! plain strings; only the two probes at the bottom — does a path exist,
//! does the search path hold an executable — touch the outside world.

use vstd::prelude::*;
use crate::errors::StartupError;
use crate::paths::{join, join_spec, view_opt};

verus! {

/// Relies on std::path::Path::exists: whether the path points at an entity
/// on disk.  The answer depends on the state of the filesystem at the
/// moment of the call, so nothing is promised of it.
#[verifier::external_body]
fn path_exists(p: &str) -> bool {
    std::path::Path::new(p).exists()
}

/// Relies on which::which: searches the process search path for an
/// executable file with the given name and returns its path.  The answer
/// depends on the environment and the filesystem, so nothing is promised
/// of it.
#[verifier::external_body]
fn which_lookup(name: &str) -> Option<String> {
    match which::which(name) {
        Ok(p) => Some(p.to_string_lossy().into_owned()),
        Err(_) => None,
    }
}

/// The entry script's fixed location relative to a base directory.
pub open spec fn script_rel_spec(base: Seq<char>) -> Seq<char> {
    join_spec(join_spec(base, "backend"@), "server.py"@)
}

/// The ordered candidate locations of the entry script: under the current
/// working directory, under its parent, and under the shell-supplied
/// bundled-resources directory — in that order, so that a development
/// checkout wins over an installed bundle.  A candidate whose base the
/// caller could not supply is absent from the list.
pub open spec fn script_candidates_spec(
    cwd: Option<Seq<char>>,
    resource_dir: Option<Seq<char>>,
) -> Seq<Seq<char>> {
    let from_cwd = match cwd {
        Some(c) => seq![script_rel_spec(c), script_rel_spec(join_spec(c, ".."@))],
        None => Seq::<Seq<char>>::empty(),
    };
    match resource_dir {
        Some(r) => from_cwd.push(script_rel_spec(r)),
        None => from_cwd,
    }
}

/// A candidate script location always implies a project root, and that
/// root is exactly the base directory the candidate was built from: the
/// script's grandparent undoes the two fixed components of the candidate.
pub proof fn lemma_script_rel_root(base: Seq<char>)
    ensures
        crate::paths::project_root_spec(script_rel_spec(base)) == Some(base),
{
    reveal_strlit("backend");
    reveal_strlit("server.py");
    assert(forall|j: int| 0 <= j < "backend"@.len() ==> "backend"@[j] != '/');
    assert(forall|j: int| 0 <= j < "server.py"@.len() ==> "server.py"@[j] != '/');
    crate::paths::lemma_parent_of_join(join_spec(base, "backend"@), "server.py"@);
    crate::paths::lemma_parent_of_join(base, "backend"@);
}

/// Every entry of the candidate list has a project root: resolving the
/// script, wherever it is found, never leaves the launch without a
/// working directory.
pub proof fn lemma_candidates_have_roots(
    cwd: Option<Seq<char>>,
    resource_dir: Option<Seq<char>>,
    i: int,
)
    requires
        0 <= i < script_candidates_spec(cwd, resource_dir).len(),
    ensures
        crate::paths::project_root_spec(script_candidates_spec(cwd, resource_dir)[i]) is Some,
{
    let cands = script_candidates_spec(cwd, resource_dir);
    match cwd {
        Some(c) => {
            if i == 0 {
                lemma_script_rel_root(c);
            } else if i == 1 {
                lemma_script_rel_root(join_spec(c, ".."@));
            } else {
                match resource_dir {
                    Some(r) => {
                        lemma_script_rel_root(r);
                    },
                    None => {},
                }
            }
        },
        None => {
            match resource_dir {
                Some(r) => {
                    lemma_script_rel_root(r);
                },
                None => {},
            }
        },
    }
}

fn script_rel(base: &str) -> (r: String)
    ensures
        r@ == script_rel_spec(base@),
{
    let b = join(base, "backend");
    join(b.as_str(), "server.py")
}

/// Builds the ordered candidate list of `script_candidates_spec`.
pub fn script_candidates(cwd: &Option<String>, resource_dir: &Option<String>) -> (cands: Vec<
    String,
>)
    ensures
        cands@.len() == script_candidates_spec(view_opt(*cwd), view_opt(*resource_dir)).len(),
        forall|i: int|
            0 <= i < cands@.len() ==> cands@[i]@ == script_candidates_spec(
                view_opt(*cwd),
                view_opt(*resource_dir),
            )[i],
{
    let ghost spec_cands = script_candidates_spec(view_opt(*cwd), view_opt(*resource_dir));
    let mut cands: Vec<String> = Vec::new();
    match cwd {
        Some(c) => {
            cands.push(script_rel(c.as_str()));
            let parent_base = join(c.as_str(), "..");
            cands.push(script_rel(parent_base.as_str()));
        },
        None => {},
    }
    match resource_dir {
        Some(r) => {
            cands.push(script_rel(r.as_str()));
        },
        None => {},
    }
    cands
}

/// Returns the first candidate marked present, in list order: `present[i]`
/// says whether `cands[i]` exists.  `None` exactly when no candidate is
/// present — the selection never invents a path and never skips an
/// earlier present candidate for a later one.
pub fn select_first_existing(cands: &Vec<String>, present: &Vec<bool>) -> (r: Option<String>)
    requires
        cands@.len() == present@.len(),
    ensures
        match r {
            Some(p) => exists|i: int|
                0 <= i < cands@.len() && p@ == cands@[i]@ && present@[i] && (forall|j: int|
                    0 <= j < i ==> !present@[j]),
            None => forall|j: int| 0 <= j < present@.len() ==> !present@[j],
        },
{
    let mut i: usize = 0;
    while i < cands.len()
        invariant
            i <= cands@.len(),
            cands@.len() == present@.len(),
            forall|j: int| 0 <= j < i ==> !present@[j],
        decreases cands@.len() - i,
    {
        if present[i] {
            return Some(cands[i].clone());
        }
        i = i + 1;
    }
    None
}

/// Locates the entry script: probes each candidate location in priority
/// order and returns the first that exists on disk.  The result, when
/// there is one, is always drawn from the candidate list; when no
/// candidate exists the attempt fails with `ScriptNotFound`.
pub fn resolve_script(cwd: &Option<String>, resource_dir: &Option<String>) -> (r: Result<
    String,
    StartupError,
>)
    ensures
        r matches Ok(p) ==> exists|i: int|
            0 <= i < script_candidates_spec(view_opt(*cwd), view_opt(*resource_dir)).len() && p@
                == script_candidates_spec(view_opt(*cwd), view_opt(*resource_dir))[i],
        r matches Err(e) ==> e == StartupError::ScriptNotFound,
{
    let cands = script_candidates(cwd, resource_dir);
    let mut present: Vec<bool> = Vec::new();
    let mut i: usize = 0;
    while i < cands.len()
        invariant
            i <= cands@.len(),
            present@.len() == i,
        decreases cands@.len() - i,
    {
        present.push(path_exists(cands[i].as_str()));
        i = i + 1;
    }
    match select_first_existing(&cands, &present) {
        Some(p) => {
            proof {
                let ghost spec_cands = script_candidates_spec(
                    view_opt(*cwd),
                    view_opt(*resource_dir),
                );
                let k = choose|k: int|
                    0 <= k < cands@.len() && p@ == cands@[k]@ && present@[k] && (forall|j: int|
                        0 <= j < k ==> !present@[j]);
                assert(p@ == spec_cands[k]);
            }
            Ok(p)
        },
        None => Err(StartupError::ScriptNotFound),
    }
}

/// The Windows venv interpreter location under a project root.
pub open spec fn venv_windows_spec(root: Seq<char>) -> Seq<char> {
    join_spec(join_spec(join_spec(root, ".venv"@), "Scripts"@), "python.exe"@)
}

/// The Unix venv interpreter location under a project root.
pub open spec fn venv_unix_spec(root: Seq<char>) -> Seq<char> {
    join_spec(join_spec(join_spec(root, ".venv"@), "bin"@), "python"@)
}

/// The interpreter that a set of findings determines: the Windows venv
/// layout first, then the Unix venv layout, then `python` and `python3`
/// from the search path — the first finding that is present wins.
pub open spec fn pick_spec(
    venv_windows: Option<Seq<char>>,
    venv_unix: Option<Seq<char>>,
    system_python: Option<Seq<char>>,
    system_python3: Option<Seq<char>>,
) -> Option<Seq<char>> {
    if venv_windows is Some {
        venv_windows
    } else if venv_unix is Some {
        venv_unix
    } else if system_python is Some {
        system_python
    } else {
        system_python3
    }
}

/// Chooses the interpreter among the findings of the four probes, in the
/// fixed priority order of `pick_spec`.  Fails with `InterpreterNotFound`
/// exactly when every finding is absent.
pub fn pick_interpreter(
    venv_windows: Option<String>,
    venv_unix: Option<String>,
    system_python: Option<String>,
    system_python3: Option<String>,
) -> (r: Result<String, StartupError>)
    ensures
        r matches Ok(p) ==> pick_spec(
            view_opt(venv_windows),
            view_opt(venv_unix),
            view_opt(system_python),
            view_opt(system_python3),
        ) == Some(p@),
        r matches Err(e) ==> e == StartupError::InterpreterNotFound && pick_spec(
            view_opt(venv_windows),
            view_opt(venv_unix),
            view_opt(system_python),
            view_opt(system_python3),
        ) is None,
{
    match venv_windows {
        Some(p) => Ok(p),
        None => match venv_unix {
            Some(p) => Ok(p),
            None => match system_python {
                Some(p) => Ok(p),
                None => match system_python3 {
                    Some(p) => Ok(p),
                    None => Err(StartupError::InterpreterNotFound),
                },
            },
        },
    }
}

/// A present venv interpreter settles the choice: whatever the search
/// path would have answered, the picked interpreter is the venv one — the
/// choice never falls through to a search-path finding.
pub proof fn lemma_venv_shadows_search(
    venv_windows: Option<Seq<char>>,
    venv_unix: Option<Seq<char>>,
    search_a: Option<Seq<char>>,
    search3_a: Option<Seq<char>>,
    search_b: Option<Seq<char>>,
    search3_b: Option<Seq<char>>,
)
    requires
        venv_windows is Some || venv_unix is Some,
    ensures
        pick_spec(venv_windows, venv_unix, search_a, search3_a) == pick_spec(
            venv_windows,
            venv_unix,
            search_b,
            search3_b,
        ),
        pick_spec(venv_windows, venv_unix, search_a, search3_a) == (if venv_windows is Some {
            venv_windows
        } else {
            venv_unix
        }),
{
}

/// Locates an interpreter for the project at `root`: first the two venv
/// layouts under the root, probed on disk in fixed order; only when
/// neither exists, `python` and then `python3` on the search path.  Fails
/// only with `InterpreterNotFound`.
pub fn resolve_interpreter(root: &str) -> (r: Result<String, StartupError>)
    ensures
        r matches Err(e) ==> e == StartupError::InterpreterNotFound,
{
    let windows_cand = venv_windows_path(root);
    let venv_windows: Option<String> = if path_exists(windows_cand.as_str()) {
        Some(windows_cand)
    } else {
        None
    };
    let venv_unix: Option<String> = match &venv_windows {
        Some(_) => None,
        None => {
            let unix_cand = venv_unix_path(root);
            if path_exists(unix_cand.as_str()) {
                Some(unix_cand)
            } else {
                None
            }
        },
    };
    let have_venv = match (&venv_windows, &venv_unix) {
        (None, None) => false,
        _ => true,
    };
    let system_python: Option<String> = if have_venv {
        None
    } else {
        which_lookup("python")
    };
    let system_python3: Option<String> = match (&system_python, have_venv) {
        (None, false) => which_lookup("python3"),
        _ => None,
    };
    pick_interpreter(venv_windows, venv_unix, system_python, system_python3)
}

/// Builds the Windows venv candidate path under `root`.
pub fn venv_windows_path(root: &str) -> (r: String)
    ensures
        r@ == venv_windows_spec(root@),
{
    let a = join(root, ".venv");
    let b = join(a.as_str(), "Scripts");
    join(b.as_str(), "python.exe")
}

/// Builds the Unix venv candidate path under `root`.
pub fn venv_unix_path(root: &str) -> (r: String)
    ensures
        r@ == venv_unix_spec(root@),
{
    let a = join(root, ".venv");
    let b = join(a.as_str(), "bin");
    join(b.as_str(), "python")
}

} // verus!
