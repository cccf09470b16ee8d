//! The site settings read from the configuration file.

use vstd::prelude::*;
use vstd::string::StringExecFns;

use crate::theme::{theme_of, Theme};

verus! {

/// The site title and the theme identifier.
#[derive(Clone, Debug)]
pub struct Config {
    pub blog_title: String,
    pub theme: String,
}

impl Default for Config {
    fn default() -> (r: Self)
        ensures
            r.blog_title@ == "Dodge SSG"@,
            r.theme@ == "hacker"@,
    {
        Config { blog_title: String::from_str("Dodge SSG"), theme: String::from_str("hacker") }
    }
}

/// The theme that a configured identifier selects: the one it names, letter
/// case aside, else the hacker theme.
pub open spec fn configured_theme(id: Seq<char>) -> Theme {
    match theme_of(id) {
        Ok(t) => t,
        Err(_) => Theme::Hacker,
    }
}

impl Config {
    /// The theme to build with.
    pub fn resolved_theme(&self) -> (r: Theme)
        ensures
            r == configured_theme(self.theme@),
    {
        match Theme::parse(self.theme.as_str()) {
            Ok(t) => t,
            Err(_) => Theme::Hacker,
        }
    }
}

} // verus!
