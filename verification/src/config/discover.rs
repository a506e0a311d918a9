//! Where a configuration file is looked for, and which of the found files a
//! run takes. The file system is probed by the caller; these functions decide.
use vstd::prelude::*;
use vstd::string::StringExecFns;
use crate::config::error::{ConfigError, ConfigErrorView};
use crate::config::model::{CliOverrides, RunConfig, RunConfigView};
use crate::config::resolve::{build_run_config, resolved, ConfigInput};
use crate::config::validate::{first_where, is_first_where, lemma_first_where_is, lemma_first_where_none};
use crate::text::str_eq;
use crate::tokens::views;

verus! {

/// `dir` joined with the relative name `name`, as `Path::join` joins them: no
/// separator after an empty directory or one that already ends in `/`.
pub open spec fn joined(dir: Seq<char>, name: Seq<char>) -> Seq<char> {
    if dir.len() == 0 {
        name
    } else if dir.last() == '/' {
        dir + name
    } else {
        dir + seq!['/'] + name
    }
}

/// Joins a directory and a relative name, as `joined`.
pub fn join_path(dir: &str, name: &str) -> (r: String)
    ensures
        r@ == joined(dir@, name@),
{
    let n = dir.unicode_len();
    if n == 0 {
        return String::from_str(name);
    }
    let mut r = String::from_str(dir);
    if dir.get_char(n - 1) != '/' {
        r.append("/");
        proof {
            reveal_strlit("/");
            assert("/"@ =~= seq!['/']);
        }
    }
    r.append(name);
    r
}

/// The files looked for in one directory, in order: `sentinel.toml`,
/// `.sentinel.toml`, then `.config/sentinel.toml`.
pub open spec fn candidates_in(dir: Seq<char>) -> Seq<Seq<char>> {
    seq![
        joined(dir, "sentinel.toml"@),
        joined(dir, ".sentinel.toml"@),
        joined(joined(dir, ".config"@), "sentinel.toml"@),
    ]
}

/// The files looked for in each of `dirs`, nearest directory first.
pub open spec fn candidates_in_all(dirs: Seq<Seq<char>>) -> Seq<Seq<char>>
    decreases dirs.len(),
{
    if dirs.len() == 0 {
        Seq::empty()
    } else {
        candidates_in_all(dirs.drop_last()) + candidates_in(dirs.last())
    }
}

/// Each directory contributes three candidates.
pub proof fn lemma_candidates_len(dirs: Seq<Seq<char>>)
    ensures
        candidates_in_all(dirs).len() == 3 * dirs.len(),
    decreases dirs.len(),
{
    if dirs.len() > 0 {
        lemma_candidates_len(dirs.drop_last());
    }
}

/// The files a search from a start directory looks at, given the start
/// directory and its ancestors, nearest first.
pub fn discovery_candidates(ancestors: &Vec<String>) -> (r: Vec<String>)
    ensures
        views(r@) == candidates_in_all(views(ancestors@)),
{
    let mut r: Vec<String> = Vec::new();
    let mut i: usize = 0;
    proof {
        assert(views(ancestors@).take(0) =~= Seq::<Seq<char>>::empty());
        assert(views(r@) =~= Seq::<Seq<char>>::empty());
    }
    while i < ancestors.len()
        invariant
            i <= ancestors.len(),
            views(r@) == candidates_in_all(views(ancestors@).take(i as int)),
        decreases ancestors.len() - i,
    {
        let dir = ancestors[i].as_str();
        let a = join_path(dir, "sentinel.toml");
        let b = join_path(dir, ".sentinel.toml");
        let c0 = join_path(dir, ".config");
        let c = join_path(c0.as_str(), "sentinel.toml");
        let ghost before = r@;
        r.push(a);
        r.push(b);
        r.push(c);
        proof {
            let d = views(ancestors@);
            assert(d.take(i + 1).drop_last() =~= d.take(i as int));
            assert(d.take(i + 1).last() == ancestors@[i as int]@);
            assert(views(r@) =~= views(before) + candidates_in(ancestors@[i as int]@));
        }
        i = i + 1;
    }
    proof {
        assert(views(ancestors@).take(ancestors@.len() as int) =~= views(ancestors@));
    }
    r
}

/// The user-level configuration files, in the order they are tried:
/// `$XDG_CONFIG_HOME/sentinel.toml`, then `$HOME/.config/sentinel/sentinel.toml`.
pub open spec fn user_candidates(xdg: Option<Seq<char>>, home: Option<Seq<char>>) -> Seq<Seq<char>> {
    let a: Seq<Seq<char>> = match xdg {
        Some(x) => seq![joined(x, "sentinel.toml"@)],
        None => Seq::empty(),
    };
    let b: Seq<Seq<char>> = match home {
        Some(h) => seq![joined(joined(joined(h, ".config"@), "sentinel"@), "sentinel.toml"@)],
        None => Seq::empty(),
    };
    a + b
}

/// The user-level configuration files for the given environment values.
pub fn user_config_candidates(xdg: Option<&str>, home: Option<&str>) -> (r: Vec<String>)
    ensures
        views(r@) == user_candidates(
            match xdg { Some(x) => Some(x@), None => None },
            match home { Some(h) => Some(h@), None => None },
        ),
{
    let mut r: Vec<String> = Vec::new();
    if let Some(x) = xdg {
        let a = join_path(x, "sentinel.toml");
        r.push(a);
    }
    if let Some(h) = home {
        let a = join_path(h, ".config");
        let b = join_path(a.as_str(), "sentinel");
        let c = join_path(b.as_str(), "sentinel.toml");
        let ghost before = r@;
        r.push(c);
        proof {
            assert(views(r@) =~= views(before).push(c@));
        }
    }
    proof {
        assert(views(r@) =~= user_candidates(
            match xdg { Some(x) => Some(x@), None => None },
            match home { Some(h) => Some(h@), None => None },
        ));
    }
    r
}

/// Holds of a present file.
pub open spec fn present() -> spec_fn(bool) -> bool {
    |b: bool| b
}

/// The first candidate that is present, where `found[i]` says whether
/// `candidates[i]` is a file.
pub open spec fn first_present(candidates: Seq<Seq<char>>, found: Seq<bool>) -> Option<Seq<char>> {
    match first_where(found, present()) {
        Some(i) => Some(candidates[i]),
        None => None,
    }
}

/// The first of `candidates` that is present.
pub fn first_existing(candidates: &Vec<String>, found: &Vec<bool>) -> (r: Option<String>)
    requires
        candidates.len() == found.len(),
    ensures
        match r {
            Some(p) => first_present(views(candidates@), found@) == Some(p@),
            None => first_present(views(candidates@), found@) is None,
        },
{
    let mut i: usize = 0;
    while i < found.len()
        invariant
            i <= found.len(),
            candidates.len() == found.len(),
            forall|j: int| 0 <= j < i ==> !present()(#[trigger] found@[j]),
        decreases found.len() - i,
    {
        if found[i] {
            proof {
                assert(is_first_where(found@, present(), i as int));
                lemma_first_where_is(found@, present(), i as int);
            }
            return Some(candidates[i].clone());
        }
        i = i + 1;
    }
    proof {
        lemma_first_where_none(found@, present());
    }
    None
}

/// A path made absolute by the file system, or the error of reading it.
pub fn canonicalize(path: &str, outcome: Result<String, String>) -> (r: Result<String, ConfigError>)
    ensures
        match outcome {
            Ok(c) => r matches Ok(c2) && c2@ == c@,
            Err(m) => r matches Err(e) && e@ == ConfigErrorView::IoError { path: path@, message: m@ },
        },
{
    match outcome {
        Ok(c) => Ok(c),
        Err(m) => Err(ConfigError::IoError { path: String::from_str(path), message: m }),
    }
}

/// The file that `--config <path>` names: its canonical form when it exists,
/// else the error that it was not found.
pub fn explicit_config(path: &str, exists: bool, canonical: Result<String, String>) -> (r: Result<Option<String>, ConfigError>)
    ensures
        !exists ==> (r matches Err(e) && e@ == ConfigErrorView::ConfigurationNotFound(path@)),
        exists ==> match canonical {
            Ok(c) => r matches Ok(Some(c2)) && c2@ == c@,
            Err(m) => r matches Err(e) && e@ == ConfigErrorView::IoError { path: path@, message: m@ },
        },
{
    if !exists {
        return Err(ConfigError::ConfigurationNotFound(String::from_str(path)));
    }
    match canonicalize(path, canonical) {
        Ok(c) => Ok(Some(c)),
        Err(e) => Err(e),
    }
}

/// Whether `path` is the user-level configuration file.
pub fn is_user_config_path(path: &str, user_config: Option<&str>) -> (r: bool)
    ensures
        r == (user_config matches Some(u) && u@ == path@),
{
    match user_config {
        Some(u) => str_eq(path, u),
        None => false,
    }
}

/// `r` is the outcome `v` describes.
pub open spec fn outcome_is(r: Result<RunConfig, ConfigError>, v: Result<RunConfigView, ConfigErrorView>) -> bool {
    match r {
        Ok(rc) => v == Ok::<RunConfigView, ConfigErrorView>(rc@),
        Err(e) => v == Err::<RunConfigView, ConfigErrorView>(e@),
    }
}

/// The project file among the discovered one: the discovered file unless it
/// is the user-level file itself.
pub open spec fn project_part(found: Option<ConfigInput>, user: Option<ConfigInput>) -> Option<ConfigInput> {
    match found {
        Some(p) => if user matches Some(u) && u.path@ == p.path@ {
            None
        } else {
            Some(p)
        },
        None => None,
    }
}

/// The settings of a run, given the file that discovery found and the
/// user-level file, both already read: the user file is applied over the
/// defaults, the discovered file (unless it is the user file) over that, and
/// the command line last.
pub open spec fn loaded(
    cli: CliOverrides,
    discovered: Result<Option<ConfigInput>, ConfigError>,
    user: Option<ConfigInput>,
) -> Result<RunConfigView, ConfigErrorView> {
    match discovered {
        Err(e) => Err(e@),
        Ok(found) => resolved(cli, project_part(found, user), user),
    }
}

/// Loads the user and project configurations and merges them with the
/// command line: the settings of a run from the discovered file, the
/// user-level file (if one exists) and the overrides.
pub fn load_config(
    cli: &CliOverrides,
    discovered: Result<Option<ConfigInput>, ConfigError>,
    user: Option<ConfigInput>,
) -> (r: Result<RunConfig, ConfigError>)
    ensures
        outcome_is(r, loaded(*cli, discovered, user)),
{
    match discovered {
        Err(e) => Err(e),
        Ok(found) => {
            let project = match found {
                Some(p) => {
                    let same = match &user {
                        Some(u) => is_user_config_path(p.path.as_str(), Some(u.path.as_str())),
                        None => false,
                    };
                    if same {
                        None
                    } else {
                        Some(p)
                    }
                },
                None => None,
            };
            build_run_config(cli, project, user)
        },
    }
}

} // verus!
