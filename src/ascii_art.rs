//! Block-letter ASCII art for the site title of the hacker theme.

use vstd::prelude::*;

use crate::text::{chars_of, is_whitespace, push_all, string_of, trim_end};

verus! {

/// What `str::to_uppercase` makes of a text: full Unicode uppercase mapping.
pub uninterp spec fn upper_of(s: Seq<char>) -> Seq<char>;

/// Relies on `str::to_uppercase`: the result depends on the characters alone.
#[verifier::external_body]
fn to_uppercase(s: &str) -> (r: String)
    ensures
        r@ == upper_of(s@),
{
    s.to_uppercase()
}

/// The six rows of the block letter for `c`: A to Z, the period and the space
/// have their own, every other character shares one placeholder.
pub open spec fn glyph(c: char) -> Seq<Seq<char>> {
    match c {
        'A' => seq!["██████╗ "@, "██╔══██╗"@, "███████║"@, "██╔══██║"@, "██║  ██║"@, "╚═╝  ╚═╝"@],
        'B' => seq!["██████╗ "@, "██╔══██╗"@, "██████╔╝"@, "██╔══██╗"@, "██████╔╝"@, "╚═════╝ "@],
        'C' => seq!["██████╗ "@, "██╔════╝"@, "██║     "@, "██║     "@, "╚██████╗"@, " ╚═════╝"@],
        'D' => seq!["██████╗ "@, "██╔══██╗"@, "██║  ██║"@, "██║  ██║"@, "██████╔╝"@, "╚═════╝ "@],
        'E' => seq!["███████╗"@, "██╔════╝"@, "█████╗  "@, "██╔══╝  "@, "███████╗"@, "╚══════╝"@],
        'F' => seq!["███████╗"@, "██╔════╝"@, "█████╗  "@, "██╔══╝  "@, "██║     "@, "╚═╝     "@],
        'G' => seq!["██████╗ "@, "██╔════╝"@, "██║  ███╗"@, "██║   ██║"@, "╚██████╔╝"@, " ╚═════╝ "@],
        'H' => seq!["██╗  ██╗"@, "██║  ██║"@, "███████║"@, "██╔══██║"@, "██║  ██║"@, "╚═╝  ╚═╝"@],
        'I' => seq!["██╗"@, "██║"@, "██║"@, "██║"@, "██║"@, "╚═╝"@],
        'J' => seq!["     ██╗"@, "     ██║"@, "     ██║"@, "██   ██║"@, "╚█████╔╝"@, " ╚════╝ "@],
        'K' => seq!["██╗  ██╗"@, "██║ ██╔╝"@, "█████╔╝ "@, "██╔═██╗ "@, "██║  ██╗"@, "╚═╝  ╚═╝"@],
        'L' => seq!["██╗     "@, "██║     "@, "██║     "@, "██║     "@, "███████╗"@, "╚══════╝"@],
        'M' => seq!["███╗   ███╗"@, "████╗ ████║"@, "██╔████╔██║"@, "██║╚██╔╝██║"@, "██║ ╚═╝ ██║"@, "╚═╝     ╚═╝"@],
        'N' => seq!["███╗   ██╗"@, "████╗  ██║"@, "██╔██╗ ██║"@, "██║╚██╗██║"@, "██║ ╚████║"@, "╚═╝  ╚═══╝"@],
        'O' => seq!["██████╗ "@, "██╔══██╗"@, "██║  ██║"@, "██║  ██║"@, "╚█████╔╝"@, " ╚════╝ "@],
        'P' => seq!["██████╗ "@, "██╔══██╗"@, "██████╔╝"@, "██╔═══╝ "@, "██║     "@, "╚═╝     "@],
        'Q' => seq!["██████╗ "@, "██╔══██╗"@, "██║  ██║"@, "██║ ▄██║"@, "╚██████╔╝"@, " ╚═════╝ "@],
        'R' => seq!["██████╗ "@, "██╔══██╗"@, "██████╔╝"@, "██╔══██╗"@, "██║  ██║"@, "╚═╝  ╚═╝"@],
        'S' => seq!["███████╗"@, "██╔════╝"@, "███████╗"@, "╚════██║"@, "███████║"@, "╚══════╝"@],
        'T' => seq!["████████╗"@, "╚══██╔══╝"@, "   ██║   "@, "   ██║   "@, "   ██║   "@, "   ╚═╝   "@],
        'U' => seq!["██╗   ██╗"@, "██║   ██║"@, "██║   ██║"@, "██║   ██║"@, "╚██████╔╝"@, " ╚═════╝ "@],
        'V' => seq!["██╗   ██╗"@, "██║   ██║"@, "██║   ██║"@, "╚██╗ ██╔╝"@, " ╚████╔╝ "@, "  ╚═══╝  "@],
        'W' => seq!["██╗    ██╗"@, "██║    ██║"@, "██║ █╗ ██║"@, "██║███╗██║"@, "╚███╔███╔╝"@, " ╚══╝╚══╝ "@],
        'X' => seq!["██╗  ██╗"@, "╚██╗██╔╝"@, " ╚███╔╝ "@, " ██╔██╗ "@, "██╔╝ ██╗"@, "╚═╝  ╚═╝"@],
        'Y' => seq!["██╗   ██╗"@, "╚██╗ ██╔╝"@, " ╚████╔╝ "@, "  ╚██╔╝  "@, "   ██║   "@, "   ╚═╝   "@],
        'Z' => seq!["███████╗"@, "╚══███╔╝"@, "  ███╔╝ "@, " ███╔╝  "@, "███████╗"@, "╚══════╝"@],
        '.' => seq!["   "@, "   "@, "   "@, "   "@, "██╗"@, "╚═╝"@],
        ' ' => seq!["    "@, "    "@, "    "@, "    "@, "    "@, "    "@],
        _ => seq!["███╗"@, "██╔╝"@, "██║ "@, "██║ "@, "███╗"@, "╚══╝"@],
    }
}

/// Row `r` of the block letters of `t`, each letter followed by one space.
pub open spec fn row_raw(t: Seq<char>, r: int) -> Seq<char>
    decreases t.len(),
{
    if t.len() == 0 {
        Seq::empty()
    } else {
        row_raw(t.drop_last(), r) + glyph(t.last())[r] + seq![' ']
    }
}

/// The first `k` rows of the art of `t`, each without trailing whitespace and
/// ended by a newline.
pub open spec fn art_rows(t: Seq<char>, k: int) -> Seq<char>
    decreases k,
{
    if k <= 0 {
        Seq::empty()
    } else {
        art_rows(t, k - 1) + trim_end(row_raw(t, k - 1)) + seq!['\n']
    }
}

/// The block-letter art of an already uppercased text: a newline, then the six
/// rows, each ended by a newline.
pub open spec fn block_art(t: Seq<char>) -> Seq<char> {
    seq!['\n'] + art_rows(t, 6)
}

pub struct AsciiArtGenerator;

impl AsciiArtGenerator {
    /// The six rows of the block letter for `ch`.
    pub fn get_block_letter(ch: char) -> (r: Vec<&'static str>)
        ensures
            r@.len() == 6,
            forall|i: int| 0 <= i < 6 ==> #[trigger] r@[i]@ == glyph(ch)[i],
    {
        let r = match ch {
        'A' => vec!["██████╗ ", "██╔══██╗", "███████║", "██╔══██║", "██║  ██║", "╚═╝  ╚═╝"],
        'B' => vec!["██████╗ ", "██╔══██╗", "██████╔╝", "██╔══██╗", "██████╔╝", "╚═════╝ "],
        'C' => vec!["██████╗ ", "██╔════╝", "██║     ", "██║     ", "╚██████╗", " ╚═════╝"],
        'D' => vec!["██████╗ ", "██╔══██╗", "██║  ██║", "██║  ██║", "██████╔╝", "╚═════╝ "],
        'E' => vec!["███████╗", "██╔════╝", "█████╗  ", "██╔══╝  ", "███████╗", "╚══════╝"],
        'F' => vec!["███████╗", "██╔════╝", "█████╗  ", "██╔══╝  ", "██║     ", "╚═╝     "],
        'G' => vec!["██████╗ ", "██╔════╝", "██║  ███╗", "██║   ██║", "╚██████╔╝", " ╚═════╝ "],
        'H' => vec!["██╗  ██╗", "██║  ██║", "███████║", "██╔══██║", "██║  ██║", "╚═╝  ╚═╝"],
        'I' => vec!["██╗", "██║", "██║", "██║", "██║", "╚═╝"],
        'J' => vec!["     ██╗", "     ██║", "     ██║", "██   ██║", "╚█████╔╝", " ╚════╝ "],
        'K' => vec!["██╗  ██╗", "██║ ██╔╝", "█████╔╝ ", "██╔═██╗ ", "██║  ██╗", "╚═╝  ╚═╝"],
        'L' => vec!["██╗     ", "██║     ", "██║     ", "██║     ", "███████╗", "╚══════╝"],
        'M' => vec!["███╗   ███╗", "████╗ ████║", "██╔████╔██║", "██║╚██╔╝██║", "██║ ╚═╝ ██║", "╚═╝     ╚═╝"],
        'N' => vec!["███╗   ██╗", "████╗  ██║", "██╔██╗ ██║", "██║╚██╗██║", "██║ ╚████║", "╚═╝  ╚═══╝"],
        'O' => vec!["██████╗ ", "██╔══██╗", "██║  ██║", "██║  ██║", "╚█████╔╝", " ╚════╝ "],
        'P' => vec!["██████╗ ", "██╔══██╗", "██████╔╝", "██╔═══╝ ", "██║     ", "╚═╝     "],
        'Q' => vec!["██████╗ ", "██╔══██╗", "██║  ██║", "██║ ▄██║", "╚██████╔╝", " ╚═════╝ "],
        'R' => vec!["██████╗ ", "██╔══██╗", "██████╔╝", "██╔══██╗", "██║  ██║", "╚═╝  ╚═╝"],
        'S' => vec!["███████╗", "██╔════╝", "███████╗", "╚════██║", "███████║", "╚══════╝"],
        'T' => vec!["████████╗", "╚══██╔══╝", "   ██║   ", "   ██║   ", "   ██║   ", "   ╚═╝   "],
        'U' => vec!["██╗   ██╗", "██║   ██║", "██║   ██║", "██║   ██║", "╚██████╔╝", " ╚═════╝ "],
        'V' => vec!["██╗   ██╗", "██║   ██║", "██║   ██║", "╚██╗ ██╔╝", " ╚████╔╝ ", "  ╚═══╝  "],
        'W' => vec!["██╗    ██╗", "██║    ██║", "██║ █╗ ██║", "██║███╗██║", "╚███╔███╔╝", " ╚══╝╚══╝ "],
        'X' => vec!["██╗  ██╗", "╚██╗██╔╝", " ╚███╔╝ ", " ██╔██╗ ", "██╔╝ ██╗", "╚═╝  ╚═╝"],
        'Y' => vec!["██╗   ██╗", "╚██╗ ██╔╝", " ╚████╔╝ ", "  ╚██╔╝  ", "   ██║   ", "   ╚═╝   "],
        'Z' => vec!["███████╗", "╚══███╔╝", "  ███╔╝ ", " ███╔╝  ", "███████╗", "╚══════╝"],
        '.' => vec!["   ", "   ", "   ", "   ", "██╗", "╚═╝"],
        ' ' => vec!["    ", "    ", "    ", "    ", "    ", "    "],
        _ => vec!["███╗", "██╔╝", "██║ ", "██║ ", "███╗", "╚══╝"],
        };
        r
    }

    /// Block-letter art of a title, uppercased first.
    pub fn generate_ascii_art(title: &str) -> (r: String)
        ensures
            r@ == block_art(upper_of(title@)),
    {
        let upper = to_uppercase(title);
        Self::block_letters_of_upper(upper.as_str())
    }

    /// Block-letter art of a text taken as it is (no uppercasing): row by row,
    /// each letter's row and a space, trailing whitespace removed, rows joined
    /// by newlines, with a newline before and after.
    pub fn block_letters_of_upper(text: &str) -> (r: String)
        ensures
            r@ == block_art(text@),
    {
        let t = chars_of(text);
        let mut out: Vec<char> = Vec::new();
        out.push('\n');
        let mut k: usize = 0;
        while k < 6
            invariant
                k <= 6,
                t@ == text@,
                out@ == seq!['\n'] + art_rows(t@, k as int),
            decreases 6 - k,
        {
            let row = Self::block_row(&t, k);
            let len = trim_end_len(&row);
            let ghost before = out@;
            let mut j: usize = 0;
            while j < len
                invariant
                    len <= row@.len(),
                    j <= len,
                    out@ == before + row@.subrange(0, j as int),
                decreases len - j,
            {
                out.push(row[j]);
                assert(row@.subrange(0, j + 1) =~= row@.subrange(0, j as int).push(row@[j as int]));
                j += 1;
            }
            out.push('\n');
            assert(out@ =~= seq!['\n'] + art_rows(t@, k + 1));
            k += 1;
        }
        string_of(&out)
    }

    /// Row `r` of the block letters of `t`, before trimming.
    fn block_row(t: &Vec<char>, r: usize) -> (row: Vec<char>)
        requires
            r < 6,
        ensures
            row@ == row_raw(t@, r as int),
    {
        let mut row: Vec<char> = Vec::new();
        let mut i: usize = 0;
        while i < t.len()
            invariant
                r < 6,
                i <= t@.len(),
                row@ == row_raw(t@.subrange(0, i as int), r as int),
            decreases t@.len() - i,
        {
            let letter = Self::get_block_letter(t[i]);
            let piece = chars_of(letter[r]);
            push_all(&mut row, &piece);
            row.push(' ');
            assert(t@.subrange(0, i + 1).drop_last() =~= t@.subrange(0, i as int));
            i += 1;
        }
        assert(t@.subrange(0, t@.len() as int) =~= t@);
        row
    }
}

/// The length of `v` once trailing whitespace is taken off.
fn trim_end_len(v: &Vec<char>) -> (r: usize)
    ensures
        r <= v@.len(),
        v@.subrange(0, r as int) == trim_end(v@),
{
    let mut b = v.len();
    assert(v@.subrange(0, b as int) =~= v@);
    while b > 0 && is_whitespace(v[b - 1])
        invariant
            b <= v@.len(),
            trim_end(v@) == trim_end(v@.subrange(0, b as int)),
        decreases b,
    {
        assert(v@.subrange(0, b as int).drop_last() =~= v@.subrange(0, b - 1));
        b -= 1;
    }
    b
}

} // verus!
