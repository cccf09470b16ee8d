//! The RSS feed: which documents are posts, what each item says, in which
//! order the items come.

use vstd::prelude::*;
use vstd::seq_lib::group_to_multiset_ensures;
use vstd::string::StringExecFns;

use crate::markdown::{
    file_stem, file_stem_of, names_file, find_line_end, lemma_line_end_bounds, line_end, markdown_html,
    path_title, MarkdownProcessor,
};
use crate::order::{chars_lt, lemma_insert_multiset, lemma_lt_irreflexive, lemma_lt_transitive, seq_lt};
use crate::processor::{swap_extension, swap_extension_chars};
use crate::text::{
    chars_of, contains, contains_chars, replace_all, replace_chars, starts_with, string_of,
    string_of_range, strip_prefixes, strip_prefixes_from,
};

verus! {

/// One entry of the feed.
#[derive(Clone, Debug)]
pub struct FeedItem {
    pub title: String,
    pub link: String,
    pub description: String,
    pub pub_date: String,
}

/// A feed item as four texts: title, link, description, publication date.
pub type ItemView = (Seq<char>, Seq<char>, Seq<char>, Seq<char>);

impl FeedItem {
    pub open spec fn view(&self) -> ItemView {
        (self.title@, self.link@, self.description@, self.pub_date@)
    }
}

/// A Markdown source: its path and its text.
#[derive(Clone, Debug)]
pub struct SourceDocument {
    pub path: String,
    pub content: String,
}

/// The XML document that the RSS library writes for a channel with these
/// fields and items.
pub uninterp spec fn rss_channel_xml(
    title: Seq<char>,
    link: Seq<char>,
    description: Seq<char>,
    language: Seq<char>,
    items: Seq<ItemView>,
) -> Seq<char>;

pub open spec fn item_views(items: Seq<FeedItem>) -> Seq<ItemView> {
    items.map_values(|i: FeedItem| i.view())
}

/// Relies on the `rss` crate: a `Channel` built from these fields and items,
/// written out through its `Display` impl. The text depends on its inputs alone.
#[verifier::external_body]
fn channel_xml(title: &str, link: &str, description: &str, language: &str, items: &Vec<FeedItem>) -> (r: String)
    ensures
        r@ == rss_channel_xml(title@, link@, description@, language@, item_views(items@)),
{
    let items: Vec<rss::Item> = items.iter().map(|i| rss::ItemBuilder::default().title(Some(i.title.clone()))
        .link(Some(i.link.clone())).description(Some(i.description.clone()))
        .pub_date(Some(i.pub_date.clone())).build()).collect();
    rss::ChannelBuilder::default().title(title).link(link).description(description)
        .language(Some(language.to_string())).items(items).build().to_string()
}

/// A post is a document whose path has a `/posts/` segment.
pub open spec fn is_post(path: Seq<char>) -> bool {
    contains(path, "/posts/"@)
}

/// The first line of a text, without its line ending.
pub open spec fn first_line(s: Seq<char>) -> Seq<char> {
    let e = line_end(s, 0);
    if e < s.len() && e > 0 && s[e - 1] == '\r' {
        s.subrange(0, e - 1)
    } else {
        s.subrange(0, e)
    }
}

/// An item's title: the first line when the text opens with `# ` (every
/// leading `# ` removed), else the title of the path.
pub open spec fn item_title(content: Seq<char>, path: Seq<char>) -> Seq<char> {
    if starts_with(content, "# "@) {
        strip_prefixes(first_line(content), "# "@)
    } else {
        path_title(file_stem_of(path))
    }
}

/// The date that a file stem carries: its first ten characters when they
/// have `-` at offsets 4 and 7, else the fallback date.
pub open spec fn stem_date(stem: Seq<char>) -> Seq<char> {
    if stem.len() >= 10 && stem[4] == '-' && stem[7] == '-' {
        stem.subrange(0, 10)
    } else {
        "2025-01-01"@
    }
}

/// An item's publication date.
pub open spec fn item_date(path: Seq<char>) -> Seq<char> {
    let stem = match file_stem_of(path) {
        Some(s) => s,
        None => Seq::empty(),
    };
    stem_date(stem) + " 00:00:00 +0000"@
}

/// An item's link: the input root taken out, leading slashes dropped, the
/// `.md` suffix swapped for `.html`, rooted at `/`.
pub open spec fn item_link(path: Seq<char>, input_dir: Seq<char>) -> Seq<char> {
    "/"@ + swap_extension(strip_prefixes(replace_all(path, input_dir, Seq::empty()), "/"@))
}

/// The item of a post.
pub open spec fn item_of(input_dir: Seq<char>, doc: SourceDocument) -> ItemView {
    (
        item_title(doc.content@, doc.path@),
        item_link(doc.path@, input_dir),
        markdown_html(doc.content@),
        item_date(doc.path@),
    )
}

/// The items of the posts among `docs`, in the order of `docs`.
pub open spec fn post_items(input_dir: Seq<char>, docs: Seq<SourceDocument>) -> Seq<ItemView>
    decreases docs.len(),
{
    if docs.len() == 0 {
        Seq::empty()
    } else if is_post(docs.last().path@) {
        post_items(input_dir, docs.drop_last()).push(item_of(input_dir, docs.last()))
    } else {
        post_items(input_dir, docs.drop_last())
    }
}

/// Items with the newest publication date first.
pub open spec fn newest_first(s: Seq<ItemView>) -> bool {
    forall|i: int, j: int| 0 <= i < j < s.len() ==> !seq_lt(#[trigger] s[i].3, #[trigger] s[j].3)
}

/// `x` placed into `s` before the first item with an older date: after every
/// item at least as new, which keeps items of equal date in arrival order.
pub open spec fn insert_newest(s: Seq<ItemView>, x: ItemView) -> Seq<ItemView>
    decreases s.len(),
{
    if s.len() == 0 {
        seq![x]
    } else if seq_lt(s[0].3, x.3) {
        seq![x] + s
    } else {
        seq![s[0]] + insert_newest(s.drop_first(), x)
    }
}

/// The stable sort of items by publication date, newest first.
pub open spec fn sort_newest_first(s: Seq<ItemView>) -> Seq<ItemView>
    decreases s.len(),
{
    if s.len() == 0 {
        s
    } else {
        insert_newest(sort_newest_first(s.drop_last()), s.last())
    }
}

proof fn lemma_insert_newest_at(s: Seq<ItemView>, x: ItemView, p: int)
    requires
        0 <= p <= s.len(),
        forall|i: int| 0 <= i < p ==> !seq_lt(#[trigger] s[i].3, x.3),
        p == s.len() || seq_lt(s[p].3, x.3),
    ensures
        insert_newest(s, x) == s.insert(p, x),
    decreases s.len(),
{
    if s.len() == 0 {
        assert(s.insert(p, x) =~= seq![x]);
    } else if p == 0 {
        assert(s.insert(p, x) =~= seq![x] + s);
    } else {
        let t = s.drop_first();
        assert forall|i: int| 0 <= i < p - 1 implies !seq_lt(#[trigger] t[i].3, x.3) by {
            assert(t[i] == s[i + 1]);
        }
        if p < s.len() {
            assert(t[p - 1] == s[p]);
        }
        lemma_insert_newest_at(t, x, p - 1);
        assert(s.insert(p, x) =~= seq![s[0]] + t.insert(p - 1, x));
    }
}

/// The feed document of a build.
pub open spec fn feed_xml(input_dir: Seq<char>, docs: Seq<SourceDocument>) -> Seq<char> {
    rss_channel_xml(
        "My Blog"@,
        "http://localhost:3000"@,
        "A blog powered by Dodge SSG"@,
        "en-us"@,
        sort_newest_first(post_items(input_dir, docs)),
    )
}

pub struct RssGenerator;

impl RssGenerator {
    /// Whether a document belongs to the feed.
    pub fn is_post(path: &str) -> (r: bool)
        ensures
            r == is_post(path@),
    {
        contains_chars(&chars_of(path), &chars_of("/posts/"))
    }

    /// The title of a post's item.
    pub fn item_title(content: &str, path: &str) -> (r: String)
        ensures
            r@ == item_title(content@, path@),
    {
        let v = chars_of(content);
        let hash = chars_of("# ");
        proof {
            reveal_strlit("# ");
        }
        if v.len() >= 2 && v[0] == '#' && v[1] == ' ' {
            assert(v@.subrange(0, 2) =~= "# "@);
            let e = find_line_end(&v, 0);
            proof {
                lemma_line_end_bounds(v@, 0);
            }
            let end = if e < v.len() && e > 0 && v[e - 1] == '\r' {
                e - 1
            } else {
                e
            };
            assert(first_line(v@) == v@.subrange(0, end as int));
            let c = strip_prefixes_from(&v, 0, end, &hash);
            string_of_range(&v, c, end)
        } else {
            proof {
                if starts_with(v@, "# "@) {
                    assert(v@.subrange(0, 2)[0] == v@[0]);
                    assert(v@.subrange(0, 2)[1] == v@[1]);
                }
            }
            MarkdownProcessor::extract_title_from_path(path)
        }
    }

    /// The publication date of a post's item, as `YYYY-MM-DD 00:00:00 +0000`.
    pub fn item_date(path: &str) -> (r: String)
        ensures
            r@ == item_date(path@),
            forall|stem: Seq<char>| #[trigger] names_file(path@, stem) ==> r@ == stem_date(stem)
                + " 00:00:00 +0000"@,
    {
        let stem = match file_stem(path) {
            Some(s) => s,
            None => String::new(),
        };
        let mut r = Self::date_of_stem(stem.as_str());
        r.append(" 00:00:00 +0000");
        r
    }

    /// The date that a file stem carries, or the fallback date.
    pub fn date_of_stem(stem: &str) -> (r: String)
        ensures
            r@ == stem_date(stem@),
    {
        let v = chars_of(stem);
        if v.len() >= 10 && v[4] == '-' && v[7] == '-' {
            string_of_range(&v, 0, 10)
        } else {
            String::from_str("2025-01-01")
        }
    }

    /// The link of a post's item.
    pub fn item_link(path: &str, input_dir: &str) -> (r: String)
        ensures
            r@ == item_link(path@, input_dir@),
    {
        let empty: Vec<char> = Vec::new();
        let removed = replace_chars(&chars_of(path), &chars_of(input_dir), &empty);
        let slash = chars_of("/");
        proof {
            reveal_strlit("/");
        }
        let start = strip_prefixes_from(&removed, 0, removed.len(), &slash);
        assert(removed@.subrange(0, removed@.len() as int) =~= removed@);
        let rest = chars_of(string_of_range(&removed, start, removed.len()).as_str());
        let swapped = swap_extension_chars(rest);
        let mut r = String::from_str("/");
        r.append(string_of(&swapped).as_str());
        assert(empty@ =~= Seq::<char>::empty());
        r
    }

    /// The item of a post.
    pub fn item_of(input_dir: &str, doc: &SourceDocument) -> (r: FeedItem)
        ensures
            r.view() == item_of(input_dir@, *doc),
    {
        FeedItem {
            title: Self::item_title(doc.content.as_str(), doc.path.as_str()),
            link: Self::item_link(doc.path.as_str(), input_dir),
            description: MarkdownProcessor::to_html(doc.content.as_str()),
            pub_date: Self::item_date(doc.path.as_str()),
        }
    }

    /// The feed's items: one for each post among `docs`, newest first, posts
    /// of the same date in the order of `docs`.
    pub fn feed_items(input_dir: &str, docs: &Vec<SourceDocument>) -> (r: Vec<FeedItem>)
        ensures
            item_views(r@) == sort_newest_first(post_items(input_dir@, docs@)),
            newest_first(item_views(r@)),
            item_views(r@).to_multiset() == post_items(input_dir@, docs@).to_multiset(),
    {
        let mut res: Vec<FeedItem> = Vec::new();
        let mut k: usize = 0;
        proof {
            broadcast use group_to_multiset_ensures;
            assert(docs@.subrange(0, 0) =~= Seq::<SourceDocument>::empty());
            assert(sort_newest_first(Seq::<ItemView>::empty()) =~= Seq::<ItemView>::empty());
            assert(item_views(res@) =~= Seq::<ItemView>::empty());
        }
        while k < docs.len()
            invariant
                k <= docs@.len(),
                newest_first(item_views(res@)),
                item_views(res@).to_multiset() == post_items(input_dir@, docs@.subrange(0, k as int)).to_multiset(),
                item_views(res@) == sort_newest_first(post_items(input_dir@, docs@.subrange(0, k as int))),
            decreases docs@.len() - k,
        {
            let ghost done = docs@.subrange(0, k as int);
            assert(docs@.subrange(0, k + 1).drop_last() =~= done);
            if Self::is_post(docs[k].path.as_str()) {
                let x = Self::item_of(input_dir, &docs[k]);
                let xd = chars_of(x.pub_date.as_str());
                let mut p: usize = 0;
                while p < res.len() && !chars_lt(&chars_of(res[p].pub_date.as_str()), &xd)
                    invariant
                        k < docs@.len(),
                        newest_first(item_views(res@)),
                        item_views(res@).to_multiset() == post_items(input_dir@, docs@.subrange(0, k as int)).to_multiset(),
                        item_views(res@) == sort_newest_first(post_items(input_dir@, docs@.subrange(0, k as int))),
                        xd@ == x.pub_date@,
                        p <= res@.len(),
                        forall|i: int| 0 <= i < p ==> !seq_lt(#[trigger] res@[i].pub_date@, x.pub_date@),
                    decreases res@.len() - p,
                {
                    p += 1;
                }
                let ghost old_res = res@;
                res.insert(p, x);
                proof {
                    broadcast use group_to_multiset_ensures;
                    old_res.insert_ensures(p as int, x);
                    assert(item_views(res@) =~= item_views(old_res).insert(p as int, x.view()));
                    lemma_insert_multiset(item_views(old_res), p as int, x.view());
                    lemma_insert_newest_at(item_views(old_res), x.view(), p as int);
                    let prev = post_items(input_dir@, done);
                    let next = post_items(input_dir@, docs@.subrange(0, k + 1));
                    assert(docs@.subrange(0, k + 1).last() == docs@[k as int]);
                    assert(next == prev.push(x.view()));
                    assert(next.drop_last() =~= prev);
                    assert(next.last() == x.view());
                    let rv = item_views(res@);
                    let ov = item_views(old_res);
                    assert forall|i: int, j: int| 0 <= i < j < rv.len() implies !seq_lt(
                        #[trigger] rv[i].3,
                        #[trigger] rv[j].3,
                    ) by {
                        if i < p && j == p {
                            assert(rv[i] == ov[i]);
                        } else if i == p && j > p {
                            assert(rv[j] == ov[j - 1]);
                            if seq_lt(x.pub_date@, ov[j - 1].3) {
                                lemma_lt_transitive(ov[p as int].3, x.pub_date@, ov[j - 1].3);
                                lemma_lt_irreflexive(ov[p as int].3);
                            }
                        } else if i < p && j > p {
                            assert(rv[i] == ov[i]);
                            assert(rv[j] == ov[j - 1]);
                        } else if j < p {
                            assert(rv[i] == ov[i]);
                            assert(rv[j] == ov[j]);
                        } else {
                            assert(rv[i] == ov[i - 1]);
                            assert(rv[j] == ov[j - 1]);
                        }
                    }
                }
            }
            k += 1;
        }
        assert(docs@.subrange(0, docs@.len() as int) =~= docs@);
        res
    }

    /// The feed's RSS document for the documents of a build: a channel with
    /// the blog's fixed title, link, description and language, holding the
    /// items of the posts, newest first.
    pub fn generate_rss_feed(input_dir: &str, docs: &Vec<SourceDocument>) -> (r: String)
        ensures
            r@ == feed_xml(input_dir@, docs@),
    {
        let items = Self::feed_items(input_dir, docs);
        channel_xml("My Blog", "http://localhost:3000", "A blog powered by Dodge SSG", "en-us", &items)
    }

    /// Where the feed goes under an output directory.
    pub fn feed_path(output_dir: &str) -> (r: String)
        ensures
            r@ == output_dir@ + "/rss.xml"@,
    {
        let mut r = String::from_str(output_dir);
        r.append("/rss.xml");
        r
    }
}

/// Exactly the posts reach the feed: every document with a `/posts/` segment
/// gives an item, and every item comes from such a document.
pub proof fn law_feed_holds_posts(input_dir: Seq<char>, docs: Seq<SourceDocument>)
    ensures
        forall|i: int|
            0 <= i < docs.len() && is_post(#[trigger] docs[i].path@) ==> post_items(input_dir, docs).contains(
                item_of(input_dir, docs[i]),
            ),
        forall|k: int|
            #![trigger post_items(input_dir, docs)[k]]
            0 <= k < post_items(input_dir, docs).len() ==> exists|i: int|
                0 <= i < docs.len() && is_post(docs[i].path@) && post_items(input_dir, docs)[k]
                    == #[trigger] item_of(input_dir, docs[i]),
    decreases docs.len(),
{
    if docs.len() == 0 {
        assert(post_items(input_dir, docs).len() == 0);
    } else {
        let init = docs.drop_last();
        law_feed_holds_posts(input_dir, init);
        let pi = post_items(input_dir, init);
        let all = post_items(input_dir, docs);
        if is_post(docs.last().path@) {
            assert(all == pi.push(item_of(input_dir, docs.last())));
        } else {
            assert(all == pi);
        }
        assert forall|i: int|
            0 <= i < docs.len() && is_post(#[trigger] docs[i].path@) implies all.contains(
                item_of(input_dir, docs[i]),
            ) by {
            if i < docs.len() - 1 {
                assert(init[i] == docs[i]);
                let w = choose|k: int| 0 <= k < pi.len() && pi[k] == item_of(input_dir, init[i]);
                assert(all[w] == pi[w]);
            } else {
                assert(all[all.len() - 1] == item_of(input_dir, docs[i]));
            }
        }
        assert forall|k: int| #![trigger all[k]] 0 <= k < all.len() implies exists|i: int|
            0 <= i < docs.len() && is_post(docs[i].path@) && all[k] == #[trigger] item_of(
                input_dir,
                docs[i],
            ) by {
            if k < pi.len() {
                assert(all[k] == pi[k]);
                let i = choose|i: int|
                    0 <= i < init.len() && is_post(init[i].path@) && pi[k] == #[trigger] item_of(
                        input_dir,
                        init[i],
                    );
                assert(init[i] == docs[i]);
                assert(all[k] == item_of(input_dir, docs[i]));
            } else {
                let i = docs.len() - 1;
                assert(docs[i] == docs.last());
                assert(all[k] == item_of(input_dir, docs[i]));
                assert(is_post(docs[i].path@));
            }
        }
    }
}

} // verus!
