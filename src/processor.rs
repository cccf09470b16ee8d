//! Where documents are found and where their pages go.

use vstd::prelude::*;
use vstd::string::StringExecFns;

use crate::order::{sort_paths, sorted_ascending};
use crate::text::{chars_of, ends_with, replace_all, replace_chars, string_of};

verus! {

/// `s` with a final `.md` made `.html`; unchanged without one.
pub open spec fn swap_extension(s: Seq<char>) -> Seq<char> {
    if ends_with(s, ".md"@) {
        s.subrange(0, s.len() - 3) + ".html"@
    } else {
        s
    }
}

/// The page path of a source path: the input root replaced by the output root
/// wherever it occurs, then the `.md` suffix swapped for `.html`.
pub open spec fn output_path(input_path: Seq<char>, input_dir: Seq<char>, output_dir: Seq<char>) -> Seq<
    char,
> {
    swap_extension(replace_all(input_path, input_dir, output_dir))
}

/// The glob pattern of the Markdown files under a directory.
pub open spec fn discovery_pattern(input_dir: Seq<char>) -> Seq<char> {
    input_dir + "/**/*.md"@
}

/// `v` with a final `.md` made `.html`.
pub fn swap_extension_chars(v: Vec<char>) -> (r: Vec<char>)
    ensures
        r@ == swap_extension(v@),
{
    let n = v.len();
    proof {
        reveal_strlit(".md");
        reveal_strlit(".html");
    }
    if n >= 3 && v[n - 3] == '.' && v[n - 2] == 'm' && v[n - 1] == 'd' {
        assert(v@.subrange(n - 3, n as int) =~= ".md"@);
        let mut r: Vec<char> = Vec::new();
        let mut i: usize = 0;
        while i < n - 3
            invariant
                n == v@.len(),
                n >= 3,
                i <= n - 3,
                r@ == v@.subrange(0, i as int),
            decreases n - 3 - i,
        {
            r.push(v[i]);
            assert(r@ =~= v@.subrange(0, i + 1));
            i += 1;
        }
        r.push('.');
        r.push('h');
        r.push('t');
        r.push('m');
        r.push('l');
        assert(r@ =~= v@.subrange(0, n - 3) + ".html"@);
        r
    } else {
        proof {
            if ends_with(v@, ".md"@) {
                assert(v@.subrange(n - 3, n as int)[0] == v@[n - 3]);
                assert(v@.subrange(n - 3, n as int)[1] == v@[n - 2]);
                assert(v@.subrange(n - 3, n as int)[2] == v@[n - 1]);
            }
        }
        v
    }
}

pub struct ContentProcessor;

impl ContentProcessor {
    /// The glob pattern that finds every Markdown file under `input_dir`.
    pub fn discovery_pattern(input_dir: &str) -> (r: String)
        ensures
            r@ == discovery_pattern(input_dir@),
    {
        let mut r = String::from_str(input_dir);
        r.append("/**/*.md");
        r
    }

    /// The discovered documents in the order a build handles them: ascending
    /// by path.
    pub fn collect_posts(found: Vec<String>) -> (r: Vec<String>)
        ensures
            sorted_ascending(r@),
            r@.to_multiset() == found@.to_multiset(),
    {
        sort_paths(found)
    }

    /// The path of the page made from `input_path`.
    pub fn get_output_path(input_path: &str, input_dir: &str, output_dir: &str) -> (r: String)
        ensures
            r@ == output_path(input_path@, input_dir@, output_dir@),
    {
        let replaced = replace_chars(&chars_of(input_path), &chars_of(input_dir), &chars_of(output_dir));
        string_of(&swap_extension_chars(replaced))
    }
}

} // verus!
