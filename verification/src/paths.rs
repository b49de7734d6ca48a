//! A plain-string model of filesystem paths.
//!
//! Paths are strings whose components are separated by `/`.  The library
//! never touches the filesystem through this module; it only builds and
//! decomposes path strings.

use vstd::prelude::*;

verus! {

/// The view of an optional owned string, as an optional character sequence.
pub open spec fn view_opt(o: Option<String>) -> Option<Seq<char>> {
    match o {
        Some(s) => Some(s@),
        None => None,
    }
}

/// `base` extended with one more component `name`.
pub open spec fn join_spec(base: Seq<char>, name: Seq<char>) -> Seq<char> {
    base + seq!['/'] + name
}

/// Appends `/name` to `base`.
pub fn join(base: &str, name: &str) -> (r: String)
    ensures
        r@ == join_spec(base@, name@),
{
    proof {
        reveal_strlit("/");
        assert(("/")@ =~= seq!['/']);
    }
    let r = String::from_str(base).concat("/").concat(name);
    proof {
        assert(r@ =~= join_spec(base@, name@));
    }
    r
}

/// The index of the last separator in `s`, if `s` holds one.
pub open spec fn last_sep(s: Seq<char>) -> Option<int>
    decreases s.len(),
{
    if s.len() == 0 {
        None
    } else if s[s.len() - 1] == '/' {
        Some(s.len() - 1)
    } else {
        last_sep(s.drop_last())
    }
}

/// The parent directory of `s`: everything before the last separator.
/// A path with no separator has no parent in this model.
pub open spec fn parent_spec(s: Seq<char>) -> Option<Seq<char>> {
    match last_sep(s) {
        Some(i) => Some(s.subrange(0, i)),
        None => None,
    }
}

/// The grandparent directory of `script`: the project root that the entry
/// script's location structurally implies.
pub open spec fn project_root_spec(script: Seq<char>) -> Option<Seq<char>> {
    match parent_spec(script) {
        Some(p) => parent_spec(p),
        None => None,
    }
}

proof fn lemma_last_sep_none(s: Seq<char>)
    requires
        forall|j: int| 0 <= j < s.len() ==> s[j] != '/',
    ensures
        last_sep(s) is None,
    decreases s.len(),
{
    if s.len() > 0 {
        lemma_last_sep_none(s.drop_last());
    }
}

proof fn lemma_last_sep_at(s: Seq<char>, k: int)
    requires
        0 <= k < s.len(),
        s[k] == '/',
        forall|j: int| k < j < s.len() ==> s[j] != '/',
    ensures
        last_sep(s) == Some(k),
    decreases s.len(),
{
    if k < s.len() - 1 {
        lemma_last_sep_at(s.drop_last(), k);
    }
}

/// Appending one separator-free component and taking the parent gives the
/// base back: joining and parent decomposition are inverses.
pub proof fn lemma_parent_of_join(base: Seq<char>, name: Seq<char>)
    requires
        forall|j: int| 0 <= j < name.len() ==> name[j] != '/',
    ensures
        parent_spec(join_spec(base, name)) == Some(base),
{
    let s = join_spec(base, name);
    assert(s[base.len() as int] == '/');
    assert forall|j: int| base.len() < j < s.len() implies s[j] != '/' by {
        assert(s[j] == name[j - base.len() - 1]);
    }
    lemma_last_sep_at(s, base.len() as int);
    assert(s.subrange(0, base.len() as int) =~= base);
}

/// The parent directory of `path`, or `None` when `path` has no separator.
pub fn parent_of(path: &str) -> (r: Option<String>)
    ensures
        view_opt(r) == parent_spec(path@),
{
    let len = path.unicode_len();
    let mut i = len;
    while i > 0
        invariant
            i <= len,
            len == path@.len(),
            forall|j: int| i <= j < len ==> path@[j] != '/',
        decreases i,
    {
        let c = path.get_char(i - 1);
        if c == '/' {
            let p = path.substring_char(0, i - 1);
            proof {
                lemma_last_sep_at(path@, i - 1);
            }
            return Some(String::from_str(p));
        }
        i = i - 1;
    }
    proof {
        lemma_last_sep_none(path@);
    }
    None
}

/// The project root implied by the location of the entry script: the
/// script's grandparent directory.  Purely structural; nothing on disk is
/// consulted or validated.
pub fn find_project_root(script: &str) -> (r: Option<String>)
    ensures
        view_opt(r) == project_root_spec(script@),
{
    match parent_of(script) {
        Some(p) => parent_of(p.as_str()),
        None => None,
    }
}

} // verus!
