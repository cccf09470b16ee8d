//! The two themes: their names, CSS and where the stylesheet goes.

use vstd::prelude::*;
use vstd::string::StringExecFns;

use crate::text::{chars_eq, chars_of};

verus! {

/// What `str::to_lowercase` makes of a text: full Unicode lowercase mapping.
pub uninterp spec fn lower_of(s: Seq<char>) -> Seq<char>;

/// Every character is an ASCII lowercase letter.
pub open spec fn is_lower_ascii(s: Seq<char>) -> bool {
    forall|i: int| 0 <= i < s.len() ==> 'a' <= #[trigger] s[i] && s[i] <= 'z'
}

/// Relies on `str::to_lowercase`: the result depends on the characters alone,
/// and ASCII lowercase letters are their own lowercase.
#[verifier::external_body]
fn to_lowercase(s: &str) -> (r: String)
    ensures
        r@ == lower_of(s@),
        is_lower_ascii(s@) ==> r@ == s@,
{
    s.to_lowercase()
}

#[derive(Clone, Copy, Debug, PartialEq, Eq, Structural)]
pub enum Theme {
    Vercel,
    Hacker,
}

/// The identifier of a theme.
pub open spec fn theme_name(t: Theme) -> Seq<char> {
    match t {
        Theme::Vercel => "vercel"@,
        Theme::Hacker => "hacker"@,
    }
}

/// The CSS class that a page of a theme carries.
pub open spec fn theme_class(t: Theme) -> Seq<char> {
    match t {
        Theme::Vercel => "theme-vercel"@,
        Theme::Hacker => "theme-hacker"@,
    }
}

/// The message of a theme identifier that names no theme.
pub open spec fn unknown_theme_message(s: Seq<char>) -> Seq<char> {
    "Unknown theme: "@ + s + ". Available themes: vercel, hacker"@
}

/// The theme that an already lowercased identifier names, or the message for
/// the identifier `s` as it was given.
pub open spec fn theme_of_lowercase(lower: Seq<char>, s: Seq<char>) -> Result<Theme, Seq<char>> {
    if lower == "vercel"@ {
        Ok(Theme::Vercel)
    } else if lower == "hacker"@ {
        Ok(Theme::Hacker)
    } else {
        Err(unknown_theme_message(s))
    }
}

/// The theme that an identifier names, letter case aside.
pub open spec fn theme_of(s: Seq<char>) -> Result<Theme, Seq<char>> {
    theme_of_lowercase(lower_of(s), s)
}

pub open spec fn result_view(r: Result<Theme, String>) -> Result<Theme, Seq<char>> {
    match r {
        Ok(t) => Ok(t),
        Err(e) => Err(e@),
    }
}

impl Theme {
    /// Parses a theme identifier, ignoring letter case. A theme's own
    /// identifier gives that theme back.
    pub fn parse(s: &str) -> (r: Result<Theme, String>)
        ensures
            result_view(r) == theme_of(s@),
            forall|t: Theme| s@ == #[trigger] theme_name(t) ==> r == Ok::<Theme, String>(t),
    {
        let lower = to_lowercase(s);
        proof {
            reveal_strlit("vercel");
            reveal_strlit("hacker");
            if s@ == theme_name(Theme::Vercel) || s@ == theme_name(Theme::Hacker) {
                assert(is_lower_ascii(s@));
            }
            assert("vercel"@ != "hacker"@) by {
                assert("vercel"@[0] != "hacker"@[0]);
            }
        }
        let r = Self::parse_lowercased(lower.as_str(), s);
        proof {
            assert forall|t: Theme| s@ == #[trigger] theme_name(t) implies r == Ok::<Theme, String>(t) by {
                match r {
                    Ok(u) => {},
                    Err(_) => {},
                }
            }
        }
        r
    }

    /// The theme that `lower`, the lowercased form of `s`, names; else the
    /// message for `s`.
    pub fn parse_lowercased(lower: &str, s: &str) -> (r: Result<Theme, String>)
        ensures
            result_view(r) == theme_of_lowercase(lower@, s@),
    {
        let l = chars_of(lower);
        let vercel = chars_of("vercel");
        let hacker = chars_of("hacker");
        if chars_eq(&l, &vercel) {
            Ok(Theme::Vercel)
        } else if chars_eq(&l, &hacker) {
            Ok(Theme::Hacker)
        } else {
            let mut m = String::from_str("Unknown theme: ");
            m.append(s);
            m.append(". Available themes: vercel, hacker");
            Err(m)
        }
    }

    /// The identifier of the theme.
    pub fn name(&self) -> (r: &'static str)
        ensures
            r@ == theme_name(*self),
    {
        match self {
            Theme::Vercel => "vercel",
            Theme::Hacker => "hacker",
        }
    }

    /// The CSS class of the theme's pages.
    pub fn css_class(&self) -> (r: &'static str)
        ensures
            r@ == theme_class(*self),
    {
        match self {
            Theme::Vercel => "theme-vercel",
            Theme::Hacker => "theme-hacker",
        }
    }
}

impl std::str::FromStr for Theme {
    type Err = String;

    fn from_str(s: &str) -> (r: Result<Self, Self::Err>)
        ensures
            result_view(r) == theme_of(s@),
            forall|t: Theme| s@ == #[trigger] theme_name(t) ==> r == Ok::<Theme, String>(t),
    {
        Theme::parse(s)
    }
}

/// The stylesheet of a theme.
pub open spec fn theme_css(t: Theme) -> Seq<char> {
    match t {
        Theme::Vercel => "/* theme: vercel */\n"@ + VERCEL_CSS_TEXT@,
        Theme::Hacker => "/* theme: hacker */\n"@ + HACKER_CSS_TEXT@,
    }
}

/// Where the stylesheet goes under an output directory.
pub open spec fn css_path(output_dir: Seq<char>) -> Seq<char> {
    output_dir + "/assets/style.css"@
}

/// The directory of the stylesheet under an output directory.
pub open spec fn assets_dir(output_dir: Seq<char>) -> Seq<char> {
    output_dir + "/assets"@
}

pub struct ThemeAssets;

impl ThemeAssets {
    /// The stylesheet of a theme.
    pub fn get_theme_css(theme: &Theme) -> (r: String)
        ensures
            r@ == theme_css(*theme),
    {
        match theme {
            Theme::Vercel => {
                let mut r = String::from_str("/* theme: vercel */\n");
                r.append(VERCEL_CSS_TEXT);
                r
            },
            Theme::Hacker => {
                let mut r = String::from_str("/* theme: hacker */\n");
                r.append(HACKER_CSS_TEXT);
                r
            },
        }
    }

    /// The directory that holds the stylesheet.
    pub fn assets_dir(output_dir: &str) -> (r: String)
        ensures
            r@ == assets_dir(output_dir@),
    {
        let mut r = String::from_str(output_dir);
        r.append("/assets");
        r
    }

    /// The path of the stylesheet.
    pub fn css_path(output_dir: &str) -> (r: String)
        ensures
            r@ == css_path(output_dir@),
    {
        let mut r = String::from_str(output_dir);
        r.append("/assets/style.css");
        r
    }
}

pub const VERCEL_CSS_TEXT: &'static str = ":root { --fg: #111111; --bg: #ffffff; --muted: #666666; --accent: #0070f3; }
html, body { margin: 0; padding: 0; background: var(--bg); color: var(--fg); }
body { font-family: -apple-system, BlinkMacSystemFont, \"Segoe UI\", Helvetica, Arial, sans-serif; line-height: 1.6; }
.site-header { border-bottom: 1px solid #eaeaea; padding: 1.5rem 1rem; text-align: center; }
.site-title { margin: 0; font-size: 1.75rem; font-weight: 700; letter-spacing: -0.02em; }
.container { max-width: 720px; margin: 0 auto; padding: 2rem 1rem; }
a { color: var(--accent); text-decoration: none; }
a:hover { text-decoration: underline; }
pre, code { font-family: Menlo, Monaco, monospace; background: #f6f6f6; border-radius: 4px; }
pre { padding: 1rem; overflow-x: auto; }
";

pub const HACKER_CSS_TEXT: &'static str = ":root { --fg: #33ff66; --bg: #0a0a0a; --dim: #1f7a3a; }
html, body { margin: 0; padding: 0; background: var(--bg); color: var(--fg); }
body { font-family: \"Fira Code\", \"JetBrains Mono\", Menlo, monospace; line-height: 1.5; }
.ascii-header-container { overflow-x: auto; padding: 1rem; border-bottom: 1px dashed var(--dim); }
.ascii-header { white-space: pre; font-size: 0.6rem; line-height: 1.1; text-align: center; }
.container { max-width: 800px; margin: 0 auto; padding: 2rem 1rem; }
a { color: var(--fg); text-decoration: underline dotted; }
a:hover { background: var(--fg); color: var(--bg); }
pre, code { background: #111111; border: 1px solid var(--dim); }
pre { padding: 1rem; overflow-x: auto; }
";

} // verus!
