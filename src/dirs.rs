use vstd::prelude::*;

verus! {

/// Why a directory could not be resolved.
#[derive(Debug, Clone, Copy, PartialEq, Eq, Structural)]
pub enum DirError {
    /// The variable that locates the home directory is unset or empty.
    MissingHomeEnvironment,
}

/// `base` joined with the relative segment `seg`, with one `/` between them.
pub open spec fn joined(base: Seq<char>, seg: Seq<char>) -> Seq<char> {
    if base.len() == 0 {
        seg
    } else if base.last() == '/' {
        base + seg
    } else {
        base + seq!['/'] + seg
    }
}

/// The home directory given the value of its variable.
pub open spec fn home_spec(var: Option<Seq<char>>) -> Result<Seq<char>, DirError> {
    match var {
        Some(v) => if v.len() > 0 { Ok(v) } else { Err(DirError::MissingHomeEnvironment) },
        None => Err(DirError::MissingHomeEnvironment),
    }
}

/// An override, or a path under the home directory, then the application's segment.
pub open spec fn resolved(
    over: Option<Seq<char>>,
    home: Option<Seq<char>>,
    under_home: Seq<char>,
) -> Result<Seq<char>, DirError> {
    match over {
        Some(v) => Ok(joined(v, "atuin"@)),
        None => match home_spec(home) {
            Ok(h) => Ok(joined(joined(h, under_home), "atuin"@)),
            Err(e) => Err(e),
        },
    }
}

pub open spec fn opt_view(o: Option<&str>) -> Option<Seq<char>> {
    match o {
        Some(s) => Some(s@),
        None => None,
    }
}

/// Joins the relative segment `seg` onto `base` as a path. The separator is always `/`,
/// which Windows accepts too; a separator already ending `base` is kept as it is.
pub fn path_join(base: &str, seg: &str) -> (r: String)
    ensures
        r@ == joined(base@, seg@),
{
    let n = base.unicode_len();
    let mut r = String::from_str(base);
    if n > 0 && base.get_char(n - 1) != '/' {
        r.append("/");
        proof { reveal_strlit("/"); }
    }
    r.append(seg);
    assert(r@ =~= joined(base@, seg@));
    r
}

/// The home directory from the value of `HOME` (or `USERPROFILE` on Windows).
pub fn home_dir(var: Option<&str>) -> (r: Result<String, DirError>)
    ensures
        match (r, home_spec(opt_view(var))) {
            (Ok(p), Ok(q)) => p@ == q,
            (Err(e), Err(f)) => e == f,
            _ => false,
        },
{
    match var {
        Some(v) => {
            if v.unicode_len() > 0 {
                Ok(String::from_str(v))
            } else {
                Err(DirError::MissingHomeEnvironment)
            }
        },
        None => Err(DirError::MissingHomeEnvironment),
    }
}

fn resolve(over: Option<&str>, home: Option<&str>, under_home: &str) -> (r: Result<String, DirError>)
    ensures
        match (r, resolved(opt_view(over), opt_view(home), under_home@)) {
            (Ok(p), Ok(q)) => p@ == q,
            (Err(e), Err(f)) => e == f,
            _ => false,
        },
{
    let base = match over {
        Some(v) => String::from_str(v),
        None => match home_dir(home) {
            Ok(h) => path_join(h.as_str(), under_home),
            Err(e) => return Err(e),
        },
    };
    Ok(path_join(base.as_str(), "atuin"))
}

/// The configuration directory, from `XDG_CONFIG_HOME` and the home variable.
pub fn config_dir(xdg_config_home: Option<&str>, home: Option<&str>) -> (r: Result<String, DirError>)
    ensures
        match (r, resolved(opt_view(xdg_config_home), opt_view(home), ".config"@)) {
            (Ok(p), Ok(q)) => p@ == q,
            (Err(e), Err(f)) => e == f,
            _ => false,
        },
{
    resolve(xdg_config_home, home, ".config")
}

/// The data directory, from `XDG_DATA_HOME` and the home variable.
pub fn data_dir(xdg_data_home: Option<&str>, home: Option<&str>) -> (r: Result<String, DirError>)
    ensures
        match (r, resolved(opt_view(xdg_data_home), opt_view(home), ".local/share"@)) {
            (Ok(p), Ok(q)) => p@ == q,
            (Err(e), Err(f)) => e == f,
            _ => false,
        },
{
    resolve(xdg_data_home, home, ".local/share")
}

/// The current directory: `PWD` where set, else the process's working directory, else empty.
pub fn get_current_dir(pwd: Option<&str>, cwd: Option<&str>) -> (r: String)
    ensures
        r@ == match (pwd, cwd) {
            (Some(p), _) => p@,
            (None, Some(c)) => c@,
            (None, None) => Seq::<char>::empty(),
        },
{
    match pwd {
        Some(p) => String::from_str(p),
        None => match cwd {
            Some(c) => String::from_str(c),
            None => String::new(),
        },
    }
}

/// Relies on std::path::Path::exists: whether the path names something on disk now.
#[verifier::external_body]
fn path_exists(p: &str) -> bool {
    std::path::Path::new(p).exists()
}

/// What std's `Path::parent` gives for a path: the path without its final component,
/// or nothing where the path is empty or ends in a root or prefix.
pub uninterp spec fn parent_path(p: Seq<char>) -> Option<Seq<char>>;

pub open spec fn opt_string_view(o: Option<String>) -> Option<Seq<char>> {
    match o {
        Some(s) => Some(s@),
        None => None,
    }
}

/// Relies on std::path::Path::parent: the path without its final component, so a strictly
/// shorter prefix of it; nothing for the empty path and for the root.
#[verifier::external_body]
fn parent_of(p: &str) -> (r: Option<String>)
    ensures
        opt_string_view(r) == parent_path(p@),
        match r {
            Some(q) => q@.len() < p@.len() && q@ == p@.subrange(0, q@.len() as int),
            None => true,
        },
        p@.len() == 0 ==> r is None,
        p@ == seq!['/'] ==> r is None,
{
    std::path::Path::new(p).parent().and_then(|q| q.to_str()).map(|q| q.to_string())
}

/// The `k`-th ancestor of `p`: `p` itself for `k == 0`, then each parent in turn.
pub open spec fn ancestor(p: Seq<char>, k: nat) -> Option<Seq<char>>
    decreases k,
{
    if k == 0 {
        Some(p)
    } else {
        match ancestor(p, (k - 1) as nat) {
            Some(a) => parent_path(a),
            None => None,
        }
    }
}

/// The entry whose presence marks `path` as a repository.
pub fn git_dir_path(path: &str) -> (r: String)
    ensures
        r@ == joined(path@, ".git"@),
{
    path_join(path, ".git")
}

/// One step of the walk from a directory towards the root.
#[derive(Debug, PartialEq, Eq)]
pub enum Walk {
    /// The directory has no parent: it is a root, and no repository was found.
    NotFound,
    /// The directory holds `.git` and is not a root.
    Found(String),
    /// The directory holds no `.git`: go on with its parent.
    Up(String),
}

/// Decides the walk at directory `cur`, given its parent and whether it holds `.git`.
/// A root is never reported, whatever it holds.
pub fn git_walk_step(cur: &str, parent: Option<&str>, git_here: bool) -> (r: Walk)
    ensures
        match parent {
            None => r is NotFound,
            Some(p) => if git_here {
                r matches Walk::Found(d) && d@ == cur@
            } else {
                r matches Walk::Up(q) && q@ == p@
            },
        },
{
    match parent {
        None => Walk::NotFound,
        Some(p) => if git_here {
            Walk::Found(String::from_str(cur))
        } else {
            Walk::Up(String::from_str(p))
        },
    }
}

/// Walks from `path` towards the root and returns the first directory on the way that
/// holds `.git`; a root is never returned.
pub fn in_git_repo(path: &str) -> (r: Option<String>)
    ensures
        match r {
            Some(d) => {
                &&& exists|k: nat| ancestor(path@, k) == Some(d@)
                &&& parent_path(d@) is Some
                &&& d@.len() <= path@.len()
                &&& d@ == path@.subrange(0, d@.len() as int)
            },
            None => true,
        },
        path@.len() == 0 || path@ == seq!['/'] ==> r is None,
{
    let mut cur = String::from_str(path);
    let ghost mut k: nat = 0;
    loop
        invariant
            ancestor(path@, k) == Some(cur@),
            cur@.len() <= path@.len(),
            cur@ == path@.subrange(0, cur@.len() as int),
            k == 0 ==> cur@ == path@,
            path@.len() == 0 || path@ == seq!['/'] ==> k == 0,
        decreases cur@.len(),
    {
        let parent = parent_of(cur.as_str());
        let git_here = match &parent {
            Some(_) => {
                let g = git_dir_path(cur.as_str());
                path_exists(g.as_str())
            },
            None => false,
        };
        let up = match &parent {
            Some(p) => Some(p.as_str()),
            None => None,
        };
        match git_walk_step(cur.as_str(), up, git_here) {
            Walk::NotFound => return None,
            Walk::Found(d) => return Some(d),
            Walk::Up(p) => {
                assert(p@ == path@.subrange(0, p@.len() as int));
                proof {
                    assert(ancestor(path@, k + 1) == parent_path(cur@));
                    k = k + 1;
                }
                cur = p;
            },
        }
    }
}

/// `p` and `p` with a trailing `/` name the same `.git` entry.
pub proof fn lemma_git_dir_trailing_slash(p: Seq<char>)
    requires
        p.len() > 0,
        p.last() != '/',
    ensures
        joined(p, ".git"@) == joined(p.push('/'), ".git"@),
{
    let q = p.push('/');
    assert(q.last() == '/');
    assert(p + seq!['/'] + ".git"@ =~= q + ".git"@);
}

/// An override `v` that does not end in `/` gives `v/atuin`, whatever the home variable holds.
pub proof fn lemma_override_joins_segment(v: Seq<char>, home: Option<Seq<char>>, under_home: Seq<char>)
    requires
        v.len() > 0,
        v.last() != '/',
    ensures
        resolved(Some(v), home, under_home) == Ok::<Seq<char>, DirError>(v + "/atuin"@),
{
    reveal_strlit("/atuin");
    reveal_strlit("atuin");
    assert(v + seq!['/'] + "atuin"@ =~= v + "/atuin"@);
}

/// A set override always wins over the home directory, existing on disk or not: whatever the
/// home variable holds, or if it is unset, the result is the override joined with `atuin`.
pub proof fn lemma_override_precedence(v: Seq<char>, h1: Option<Seq<char>>, h2: Option<Seq<char>>, under_home: Seq<char>)
    ensures
        resolved(Some(v), h1, under_home) == resolved(Some(v), h2, under_home),
        resolved(Some(v), h1, under_home) == Ok::<Seq<char>, DirError>(joined(v, "atuin"@)),
{
}

/// Without an override and without a home variable, resolution fails with the missing-home error.
pub proof fn lemma_missing_home(under_home: Seq<char>)
    ensures
        home_spec(None) == Err::<Seq<char>, DirError>(DirError::MissingHomeEnvironment),
        resolved(None, None, under_home) == Err::<Seq<char>, DirError>(DirError::MissingHomeEnvironment),
{
}

} // verus!
