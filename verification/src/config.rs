//! Where the posts and the project live.

use vstd::prelude::*;
use vstd::string::StringExecFns;

verus! {

/// The locations that the store and the synchronisation work on. It is made
/// once, when the process starts, and handed to whatever needs it.
#[derive(Debug, Clone, PartialEq, Eq)]
pub struct Config {
    /// The directory that holds the post files.
    pub content_path: String,
    /// The directory in which version control is run.
    pub project_root: String,
}

/// The content directory that is used where none is configured.
pub open spec fn default_content_path() -> Seq<char> {
    "../blog/src/content/blog"@
}

/// The project root that is used where none is configured.
pub open spec fn default_project_root() -> Seq<char> {
    ".."@
}

/// A configured location, or the default for it.
pub open spec fn configured_or(configured: Option<String>, default: Seq<char>) -> Seq<char> {
    match configured {
        Some(path) => path@,
        None => default,
    }
}

impl Config {
    /// The configuration that the given settings amount to, each replaced by
    /// its default where it is not set.
    pub fn resolve(content_path: Option<String>, project_root: Option<String>) -> (config: Config)
        ensures
            config.content_path@ == configured_or(content_path, default_content_path()),
            config.project_root@ == configured_or(project_root, default_project_root()),
    {
        Config {
            content_path: get_content_path(content_path),
            project_root: get_project_root(project_root),
        }
    }
}

/// The content directory: the configured one, or `../blog/src/content/blog`.
pub fn get_content_path(configured: Option<String>) -> (path: String)
    ensures
        path@ == configured_or(configured, default_content_path()),
{
    match configured {
        Some(path) => path,
        None => String::from_str("../blog/src/content/blog"),
    }
}

/// The project root: the configured one, or the parent directory.
pub fn get_project_root(configured: Option<String>) -> (path: String)
    ensures
        path@ == configured_or(configured, default_project_root()),
{
    match configured {
        Some(path) => path,
        None => String::from_str(".."),
    }
}

} // verus!
