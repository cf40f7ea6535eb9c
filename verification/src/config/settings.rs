//! The data directory and the files in it.
use vstd::prelude::*;
use crate::errors::ApixError;
use crate::text::{concat3, concat2, to_chars};

verus! {

broadcast use vstd::string::group_string_axioms;

/// `base` joined with the relative path `name`, with one `/` between them.
pub open spec fn join_path(base: Seq<char>, name: Seq<char>) -> Seq<char> {
    if base.len() == 0 {
        name
    } else if base.last() == '/' {
        base + name
    } else {
        base + "/"@ + name
    }
}

/// Joins a relative path onto a directory.
pub fn join(base: &str, name: &str) -> (r: String)
    ensures
        r@ == join_path(base@, name@),
{
    let v = to_chars(base);
    if v.len() == 0 {
        name.to_string()
    } else if v[v.len() - 1] == '/' {
        concat2(base, name)
    } else {
        concat3(base, "/", name)
    }
}

/// The home directory: `$HOME`, else `$USERPROFILE`, else the current
/// directory.
pub open spec fn home_choice(home: Option<Seq<char>>, userprofile: Option<Seq<char>>) -> Seq<char> {
    match home {
        Some(h) => h,
        None => match userprofile {
            Some(u) => u,
            None => "."@,
        },
    }
}

/// Picks the home directory from the values of `HOME` and `USERPROFILE`.
pub fn home_dir(home: Option<String>, userprofile: Option<String>) -> (r: String)
    ensures
        r@ == home_choice(crate::models::opt_view(home), crate::models::opt_view(userprofile)),
{
    match home {
        Some(h) => h,
        None => match userprofile {
            Some(u) => u,
            None => ".".to_string(),
        },
    }
}

/// The data directory `~/.apix` and the three files kept in it.
#[derive(Debug, Clone)]
pub struct Settings {
    pub apix_dir: String,
    pub history_file: String,
    pub collections_file: String,
    pub environments_file: String,
}

impl Settings {
    /// The paths under the home directory `home`.
    pub fn new(home: String) -> (r: Result<Settings, ApixError>)
        ensures
            r matches Ok(s) && s.apix_dir@ == join_path(home@, ".apix"@) && s.history_file@
                == join_path(s.apix_dir@, "history.json"@) && s.collections_file@ == join_path(
                s.apix_dir@,
                "collections.json"@,
            ) && s.environments_file@ == join_path(s.apix_dir@, "environments.json"@),
    {
        let apix_dir = join(home.as_str(), ".apix");
        let history_file = join(apix_dir.as_str(), "history.json");
        let collections_file = join(apix_dir.as_str(), "collections.json");
        let environments_file = join(apix_dir.as_str(), "environments.json");
        Ok(Settings { apix_dir, history_file, collections_file, environments_file })
    }
}

} // verus!
