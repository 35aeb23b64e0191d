//! Where a configuration file is looked for.

use vstd::prelude::*;
use crate::config::{Config, text_view};
use crate::paths::{join_path, joined};
use crate::stage::texts;

verus! {

/// The places where a configuration file is looked for, in order of
/// precedence: two files in the working directory, then the file
/// `paddi/config.toml` in the user's configuration directory, if the
/// user has one.
pub open spec fn search_list(config_dir: Option<Seq<char>>) -> Seq<Seq<char>> {
    let local = seq!["paddi.toml"@, ".paddi.toml"@];
    match config_dir {
        Some(dir) => local.push(joined(joined(dir, "paddi"@), "config.toml"@)),
        None => local,
    }
}

/// `dirs::config_dir`: the user's configuration directory, which depends
/// on the platform and on the environment, so nothing is claimed of it.
/// A directory whose name is not Unicode text counts as none.
#[verifier::external_body]
fn user_config_dir() -> (r: Option<String>)
{
    match dirs::config_dir() {
        Some(dir) => dir.into_os_string().into_string().ok(),
        None => None,
    }
}

impl Config {
    /// The places where a configuration file is looked for, given the
    /// user's configuration directory.
    pub fn search_paths_in(config_dir: Option<String>) -> (r: Vec<String>)
        ensures
            texts(r) == search_list(text_view(config_dir)),
    {
        let mut paths: Vec<String> = Vec::new();
        paths.push("paddi.toml".to_owned());
        paths.push(".paddi.toml".to_owned());
        match &config_dir {
            Some(dir) => {
                let home = join_path(dir.as_str(), "paddi");
                paths.push(join_path(home.as_str(), "config.toml"));
            },
            None => {},
        }
        assert(texts(paths) =~= search_list(text_view(config_dir)));
        paths
    }

    /// The places where a configuration file is looked for on this
    /// machine, for this user.
    pub fn search_paths() -> (r: Vec<String>)
        ensures
            exists|config_dir: Option<Seq<char>>| texts(r) == search_list(config_dir),
    {
        let config_dir = user_config_dir();
        Config::search_paths_in(config_dir)
    }
}

} // verus!
