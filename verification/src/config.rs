//! The launch configuration: where the stylesheet and the markup document
//! are read from.
//!
//! Both paths are optional on the command line; the defaults are part of the
//! overlay's contract, so they are decided here rather than in the
//! argument-parsing shell. The configuration is immutable after
//! construction and lives for the whole process.

use vstd::prelude::*;
use vstd::string::StringExecFns;

verus! {

/// The two input paths the process runs on, fixed at launch.
#[derive(Clone, Debug)]
pub struct LaunchConfig {
    pub style_path: String,
    pub content_path: String,
}

impl LaunchConfig {
    /// Resolve the optional command-line paths: an omitted stylesheet path
    /// defaults to `style.css`, an omitted document path to
    /// `cheatsheet.pango`; a given path is taken verbatim.
    pub fn new(style: Option<String>, file: Option<String>) -> (config: Self)
        ensures
            style matches Some(path) ==> config.style_path@ == path@,
            style is None ==> config.style_path@ == "style.css"@,
            file matches Some(path) ==> config.content_path@ == path@,
            file is None ==> config.content_path@ == "cheatsheet.pango"@,
    {
        let style_path = match style {
            Some(path) => path,
            None => String::from_str("style.css"),
        };
        let content_path = match file {
            Some(path) => path,
            None => String::from_str("cheatsheet.pango"),
        };
        LaunchConfig { style_path, content_path }
    }
}

} // verus!
