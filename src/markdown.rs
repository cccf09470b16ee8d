//! Markdown rendering and title extraction.

use vstd::prelude::*;

use crate::text::{
    chars_of, is_whitespace, is_ws, starts_with, string_of, string_of_range, trim, trim_bounds,
};

verus! {

/// The HTML fragment that the Markdown engine makes of a text under its
/// default options.
pub uninterp spec fn markdown_html(md: Seq<char>) -> Seq<char>;

/// The file name of a path without its extension, as `Path::file_stem` gives
/// it; `None` where the path has no file name.
pub uninterp spec fn file_stem_of(path: Seq<char>) -> Option<Seq<char>>;

/// Relies on `comrak::markdown_to_html` with default options: it accepts any
/// text and its output depends on the text alone.
#[verifier::external_body]
fn comrak_html(md: &str) -> (r: String)
    ensures
        r@ == markdown_html(md@),
{
    comrak::markdown_to_html(md, &comrak::Options::default())
}

/// A non-empty path segment with no dot, and no character that some platform
/// reads as a separator or a drive prefix.
pub open spec fn plain_segment(s: Seq<char>) -> bool {
    s.len() > 0 && forall|i: int|
        0 <= i < s.len() ==> #[trigger] s[i] != '/' && s[i] != '\\' && s[i] != '.' && s[i] != ':'
}

/// `path` ends in a file named `stem`, a dot and a plain extension, after a
/// `/` or at its start, and holds no `\\` or `:` anywhere.
pub open spec fn names_file(path: Seq<char>, stem: Seq<char>) -> bool {
    &&& plain_segment(stem)
    &&& forall|i: int| 0 <= i < path.len() ==> #[trigger] path[i] != '\\' && path[i] != ':'
    &&& exists|k: int|
        0 <= k && k + stem.len() + 1 < path.len() && #[trigger] path.subrange(k, k + stem.len()) == stem
            && path[k + stem.len()] == '.' && plain_segment(
            path.subrange(k + stem.len() + 1, path.len() as int),
        ) && (k == 0 || path[k - 1] == '/')
}

/// Relies on `Path::file_stem` (and `OsStr::to_str`, which cannot fail on a
/// path made from a `str`). As its documentation says, the stem is the final
/// component without the part from its last `.` on.
#[verifier::external_body]
pub(crate) fn file_stem(path: &str) -> (r: Option<String>)
    ensures
        match r {
            Some(s) => file_stem_of(path@) == Some(s@),
            None => file_stem_of(path@) == None::<Seq<char>>,
        },
        forall|stem: Seq<char>| #[trigger] names_file(path@, stem) ==> r.is_some() && r.unwrap()@ == stem,
{
    std::path::Path::new(path).file_stem().and_then(|s| s.to_str()).map(|s| s.to_string())
}

/// A character that separates the words of a file name.
pub open spec fn is_word_sep(c: char) -> bool {
    c == '-' || is_ws(c)
}

/// `c` with an ASCII lowercase letter made uppercase.
pub open spec fn ascii_upper(c: char) -> char {
    if 'a' <= c && c <= 'z' {
        ((c as u8) - 32) as char
    } else {
        c
    }
}

/// The words of `s[i..]` (split at hyphens and whitespace), each with its first
/// letter made uppercase, joined by single spaces. `in_word` says whether
/// position `i` continues a word, `any` whether a word came before it.
pub open spec fn title_case_from(s: Seq<char>, i: int, in_word: bool, any: bool) -> Seq<char>
    decreases s.len() - i,
{
    if i < 0 || i >= s.len() {
        Seq::empty()
    } else if is_word_sep(s[i]) {
        title_case_from(s, i + 1, false, any)
    } else if in_word {
        seq![s[i]] + title_case_from(s, i + 1, true, any)
    } else {
        (if any {
            seq![' ']
        } else {
            Seq::empty()
        }) + seq![ascii_upper(s[i])] + title_case_from(s, i + 1, true, true)
    }
}

/// The words of `s`, title-cased and joined by single spaces.
pub open spec fn title_case(s: Seq<char>) -> Seq<char> {
    title_case_from(s, 0, false, false)
}

/// Whether a file stem starts with a `YYYY-MM-DD-` date.
pub open spec fn has_date_prefix(s: Seq<char>) -> bool {
    s.len() > 11 && s[4] == '-' && s[7] == '-'
}

/// The title that a file stem gives: its date prefix dropped, then title-cased.
pub open spec fn stem_title(s: Seq<char>) -> Seq<char> {
    if has_date_prefix(s) {
        title_case(s.subrange(11, s.len() as int))
    } else {
        title_case(s)
    }
}

/// The title that a path gives through its file stem, `Untitled` without one.
pub open spec fn path_title(stem: Option<Seq<char>>) -> Seq<char> {
    match stem {
        Some(s) => stem_title(s),
        None => stem_title("Untitled"@),
    }
}

/// The index of the first newline at or after `i`, or the length of `s`.
pub open spec fn line_end(s: Seq<char>, i: int) -> int
    decreases s.len() - i,
{
    if i < 0 || i >= s.len() {
        s.len() as int
    } else if s[i] == '\n' {
        i
    } else {
        line_end(s, i + 1)
    }
}

/// Whether a line, trimmed, is a level-one heading.
pub open spec fn is_heading(line: Seq<char>) -> bool {
    starts_with(trim(line), "# "@)
}

/// The text of a heading line: what follows its `# `, trimmed.
pub open spec fn heading_text(line: Seq<char>) -> Seq<char> {
    trim(trim(line).subrange(2, trim(line).len() as int))
}

/// Whether a line starts at position `i` of `s`.
pub open spec fn is_line_start(s: Seq<char>, i: int) -> bool {
    i == 0 || (0 < i <= s.len() && s[i - 1] == '\n')
}

/// The text of the first heading line that starts at or after `i`.
pub open spec fn heading_from(s: Seq<char>, i: int) -> Option<Seq<char>>
    decreases s.len() + 1 - i,
{
    if i < 0 || i > s.len() {
        None
    } else if is_line_start(s, i) && is_heading(s.subrange(i, line_end(s, i))) {
        Some(heading_text(s.subrange(i, line_end(s, i))))
    } else {
        heading_from(s, i + 1)
    }
}

/// The text of the first level-one heading of a document.
pub open spec fn first_heading(md: Seq<char>) -> Option<Seq<char>> {
    heading_from(md, 0)
}

/// A page's title: its first heading, else the title of its path.
pub open spec fn page_title(md: Seq<char>, path: Seq<char>) -> Seq<char> {
    match first_heading(md) {
        Some(t) => t,
        None => path_title(file_stem_of(path)),
    }
}

pub proof fn lemma_line_end_bounds(s: Seq<char>, i: int)
    requires
        0 <= i <= s.len(),
    ensures
        i <= line_end(s, i) <= s.len(),
        forall|k: int| i <= k < line_end(s, i) ==> s[k] != '\n',
    decreases s.len() - i,
{
    if i < s.len() && s[i] != '\n' {
        lemma_line_end_bounds(s, i + 1);
    }
}

fn upper_ascii(c: char) -> (r: char)
    ensures
        r == ascii_upper(c),
{
    if 'a' <= c && c <= 'z' {
        ((c as u8) - 32) as char
    } else {
        c
    }
}

pub(crate) fn find_line_end(v: &Vec<char>, i: usize) -> (r: usize)
    requires
        i <= v@.len(),
    ensures
        r == line_end(v@, i as int),
{
    let mut k = i;
    while k < v.len() && v[k] != '\n'
        invariant
            i <= k <= v@.len(),
            line_end(v@, i as int) == line_end(v@, k as int),
        decreases v@.len() - k,
    {
        k += 1;
    }
    k
}

pub struct MarkdownProcessor;

impl MarkdownProcessor {
    /// Renders Markdown to an HTML fragment. Every text is accepted.
    pub fn to_html(markdown: &str) -> (r: String)
        ensures
            r@ == markdown_html(markdown@),
    {
        comrak_html(markdown)
    }

    /// The first level-one heading of the document, if it has one.
    pub fn first_heading(markdown_content: &str) -> (r: Option<String>)
        ensures
            match r {
                Some(t) => first_heading(markdown_content@) == Some(t@),
                None => first_heading(markdown_content@) == None::<Seq<char>>,
            },
    {
        let v = chars_of(markdown_content);
        proof {
            reveal_strlit("# ");
            assert("# "@ =~= seq!['#', ' ']);
        }
        let n = v.len();
        let mut i: usize = 0;
        while i <= n
            invariant
                n == v@.len(),
                v@ == markdown_content@,
                "# "@ == seq!['#', ' '],
                heading_from(v@, 0) == heading_from(v@, i as int),
            decreases n + 1 - i,
        {
            if i == 0 || v[i - 1] == '\n' {
                let e = find_line_end(&v, i);
                proof {
                    lemma_line_end_bounds(v@, i as int);
                }
                let (a, b) = trim_bounds(&v, i, e);
                if b - a >= 2 && v[a] == '#' && v[a + 1] == ' ' {
                    assert(v@.subrange(a as int, b as int).subrange(0, 2) =~= "# "@);
                    let (x, y) = trim_bounds(&v, a + 2, b);
                    assert(v@.subrange(a as int, b as int).subrange(2, b - a) =~= v@.subrange(
                        a + 2,
                        b as int,
                    ));
                    return Some(string_of_range(&v, x, y));
                }
                proof {
                    if starts_with(v@.subrange(a as int, b as int), "# "@) {
                        assert(v@.subrange(a as int, b as int).subrange(0, 2)[0] == '#');
                        assert(v@.subrange(a as int, b as int).subrange(0, 2)[1] == ' ');
                    }
                }
            }
            if i == n {
                assert(heading_from(v@, n + 1) == None::<Seq<char>>);
                return None;
            }
            i += 1;
        }
        None
    }

    /// The title of a page: the text after the `# ` of its first level-one
    /// heading, trimmed, else the title derived from its path.
    pub fn extract_title(markdown_content: &str, fallback_path: &str) -> (r: String)
        ensures
            r@ == page_title(markdown_content@, fallback_path@),
    {
        match Self::first_heading(markdown_content) {
            Some(t) => t,
            None => Self::extract_title_from_path(fallback_path),
        }
    }

    /// The title derived from a path's file stem.
    pub fn extract_title_from_path(path: &str) -> (r: String)
        ensures
            r@ == path_title(file_stem_of(path@)),
            forall|stem: Seq<char>| #[trigger] names_file(path@, stem) ==> r@ == stem_title(stem),
    {
        match file_stem(path) {
            Some(s) => Self::title_from_stem(s.as_str()),
            None => Self::title_from_stem("Untitled"),
        }
    }

    /// The title that a file stem gives: a leading `YYYY-MM-DD-` dropped,
    /// hyphens read as spaces, each word's first letter made uppercase, the
    /// words joined by single spaces.
    pub fn title_from_stem(stem: &str) -> (r: String)
        ensures
            r@ == stem_title(stem@),
    {
        let v = chars_of(stem);
        let n = v.len();
        let start: usize = if n > 11 && v[4] == '-' && v[7] == '-' {
            11
        } else {
            0
        };
        let ghost base = if has_date_prefix(v@) {
            v@.subrange(11, n as int)
        } else {
            v@
        };
        let mut out: Vec<char> = Vec::new();
        let mut in_word = false;
        let mut any = false;
        let mut i = start;
        while i < n
            invariant
                n == v@.len(),
                v@ == stem@,
                start <= i <= n,
                base == v@.subrange(start as int, n as int),
                out@ + title_case_from(base, i - start, in_word, any) == title_case(base),
            decreases n - i,
        {
            let c = v[i];
            assert(base[i - start] == c);
            let ghost before = out@;
            let ghost w0 = in_word;
            let ghost a0 = any;
            if c == '-' || is_whitespace(c) {
                in_word = false;
            } else if in_word {
                out.push(c);
            } else {
                if any {
                    out.push(' ');
                }
                out.push(upper_ascii(c));
                in_word = true;
                any = true;
            }
            assert(out@ + title_case_from(base, i + 1 - start, in_word, any) =~= before
                + title_case_from(base, i - start, w0, a0));
            i += 1;
        }
        string_of(&out)
    }
}

} // verus!
