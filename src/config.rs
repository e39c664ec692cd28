use vstd::prelude::*;
use crate::paths::{join_path, path_join, strip_leading_slash, without_leading_separators};

verus! {

/// The string that a TOML document holds under a top-level key, where the document parses
/// and that value is a string.
pub uninterp spec fn toml_string_field(doc: Seq<char>, key: Seq<char>) -> Option<Seq<char>>;

/// Relies on `toml::from_str` into a `toml::Table`, `toml::map::Map::get` and
/// `toml::Value::as_str`: parses the document, looks the key up at the top level, and
/// keeps its value where that is a string. Any parse error gives `None`.
#[verifier::external_body]
fn toml_lookup_str(doc: &str, key: &str) -> (r: Option<String>)
    ensures
        r.deep_view() == toml_string_field(doc@, key@),
{
    let table: toml::Table = toml::from_str(doc).ok()?;
    table.get(key).and_then(|v| v.as_str()).map(|s| s.to_string())
}

/// The effective settings of one invocation.
#[derive(Clone, Debug, PartialEq, Eq)]
pub struct Config {
    /// The subfolder of the system temp root that temp mode allocates in, if any.
    pub tmpdir: Option<String>,
}

/// The subfolder named by a config file's contents.
pub open spec fn spec_file_tmpdir(doc: Seq<char>) -> Option<Seq<char>> {
    toml_string_field(doc, "tmpdir"@)
}

/// The effective subfolder: the environment override wins over the config file, whether or
/// not the file could be read.
pub open spec fn spec_resolved_tmpdir(file: Option<Seq<char>>, env: Option<Seq<char>>) -> Option<
    Seq<char>,
> {
    match env {
        Some(e) => Some(e),
        None => match file {
            Some(doc) => spec_file_tmpdir(doc),
            None => None,
        },
    }
}

/// Where the config file is: under `$XDG_CONFIG_HOME` if set, else under `<home>/.config`.
pub open spec fn spec_config_file(xdg: Option<Seq<char>>, home: Option<Seq<char>>) -> Option<
    Seq<char>,
> {
    let dir = match xdg {
        Some(x) => Some(x),
        None => match home {
            Some(h) => Some(path_join(h, ".config"@)),
            None => None,
        },
    };
    match dir {
        Some(d) => Some(path_join(path_join(d, "fig"@), "config.toml"@)),
        None => None,
    }
}

/// The directory that temp mode allocates in: the configured subfolder (without its leading
/// separators) under the temp root, or `None` for the temp root's own default.
pub open spec fn spec_temp_location(tmpdir: Option<Seq<char>>, root: Seq<char>) -> Option<
    Seq<char>,
> {
    match tmpdir {
        Some(t) => Some(path_join(root, without_leading_separators(t))),
        None => None,
    }
}

impl Default for Config {
    fn default() -> (r: Config)
        ensures
            r.tmpdir is None,
    {
        Config { tmpdir: None }
    }
}

impl Config {
    /// The settings that a config file's contents give; anything unreadable gives none.
    pub fn from_toml(contents: &str) -> (r: Config)
        ensures
            r.tmpdir.deep_view() == spec_file_tmpdir(contents@),
    {
        Config { tmpdir: toml_lookup_str(contents, "tmpdir") }
    }

    /// The effective settings from the config file's contents, if it could be read, and
    /// the environment override, if set.
    pub fn resolve(file_contents: &Option<String>, env_tmpdir: &Option<String>) -> (r: Config)
        ensures
            r.tmpdir.deep_view() == spec_resolved_tmpdir(
                file_contents.deep_view(),
                env_tmpdir.deep_view(),
            ),
    {
        match env_tmpdir {
            Some(e) => Config { tmpdir: Some(e.clone()) },
            None => match file_contents {
                Some(doc) => Config::from_toml(doc.as_str()),
                None => Config::default(),
            },
        }
    }

    /// The directory that temp mode allocates in, under the system temp root `root`.
    pub fn temp_location(&self, root: &str) -> (r: Option<String>)
        ensures
            r.deep_view() == spec_temp_location(self.tmpdir.deep_view(), root@),
    {
        match &self.tmpdir {
            Some(t) => Some(join_path(root, strip_leading_slash(t.as_str()))),
            None => None,
        }
    }
}

/// The path of the config file, from `$XDG_CONFIG_HOME` and the home directory.
pub fn config_file_path(xdg: &Option<String>, home: &Option<String>) -> (r: Option<String>)
    ensures
        r.deep_view() == spec_config_file(xdg.deep_view(), home.deep_view()),
{
    let dir = match xdg {
        Some(x) => Some(x.clone()),
        None => match home {
            Some(h) => Some(join_path(h.as_str(), ".config")),
            None => None,
        },
    };
    match dir {
        Some(d) => {
            let app = join_path(d.as_str(), "fig");
            Some(join_path(app.as_str(), "config.toml"))
        },
        None => None,
    }
}

/// The environment override of the temp subfolder wins over the config file, whatever the
/// file holds and whether or not it could be read: the temp directory is then allocated in
/// the override, less its leading separators, under the temp root.
pub proof fn lemma_env_overrides_file(file: Option<Seq<char>>, env: Seq<char>, root: Seq<char>)
    ensures
        spec_resolved_tmpdir(file, Some(env)) == Some(env),
        spec_temp_location(spec_resolved_tmpdir(file, Some(env)), root) == Some(
            path_join(root, without_leading_separators(env)),
        ),
{
}

} // verus!
