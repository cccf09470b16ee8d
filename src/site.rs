//! Page rendering and the build pipeline, from sources in memory to the files
//! of a site.

use vstd::prelude::*;
use vstd::string::StringExecFns;

use crate::ascii_art::{block_art, upper_of, AsciiArtGenerator};
use crate::feed::{feed_xml, RssGenerator, SourceDocument};
use crate::markdown::{markdown_html, page_title, MarkdownProcessor};
use crate::processor::{output_path, ContentProcessor};
use crate::text::contains;
use crate::theme::{css_path, theme_class, theme_css, Theme, ThemeAssets};

verus! {

/// The header of a page: the site title in block letters over the page title
/// for the hacker theme, a plain heading for the vercel theme.
pub open spec fn header_html(theme: Theme, blog_title: Seq<char>, title: Seq<char>) -> Seq<char> {
    match theme {
        Theme::Hacker => "<div class=\"ascii-header-container\">"@ + "<div class=\"ascii-header\">"@
            + block_art(upper_of(blog_title)) + "<br><br>>>> "@ + title + " <<<</div></div>"@,
        Theme::Vercel => "<header class=\"site-header\">\n                        "@
            + "<h1 class=\"site-title\">"@ + blog_title + "</h1>"@ + "\n                    </header>"@,
    }
}

/// The part of a page that follows its body.
pub open spec fn page_tail() -> Seq<char> {
    "\n    </main>\n</body>\n</html>"@
}

/// The part of a page that comes before its header.
pub open spec fn page_start(theme: Theme, title: Seq<char>) -> Seq<char> {
    "<!DOCTYPE html>\n<html lang=\"en\" class=\""@ + theme_class(theme)
        + "\">\n<head>\n    <meta charset=\"UTF-8\">\n    <meta name=\"viewport\" content=\"width=device-width, initial-scale=1.0\">\n    <title>"@
        + title + "</title>\n    <link rel=\"stylesheet\" href=\"/assets/style.css\">\n</head>\n<body>\n    "@
}

/// The part of a page that comes before its body.
pub open spec fn page_head(theme: Theme, title: Seq<char>, header: Seq<char>) -> Seq<char> {
    page_start(theme, title) + header + "\n    <main class=\"container\">\n        "@
}

/// A complete HTML document around a body fragment.
pub open spec fn page_html(theme: Theme, title: Seq<char>, blog_title: Seq<char>, body: Seq<char>) -> Seq<char> {
    page_head(theme, title, header_html(theme, blog_title, title)) + body + page_tail()
}

/// The page of a Markdown source.
pub open spec fn site_page(theme: Theme, markdown: Seq<char>, path: Seq<char>, blog_title: Seq<char>) -> Seq<char> {
    page_html(theme, page_title(markdown, path), blog_title, markdown_html(markdown))
}

/// One generated page: where it goes and what it holds.
#[derive(Clone, Debug)]
pub struct RenderedPage {
    pub output_path: String,
    pub html: String,
}

/// Everything a build writes: the stylesheet, the pages, the feed.
#[derive(Clone, Debug)]
pub struct SiteBuild {
    pub css_path: String,
    pub css: String,
    pub pages: Vec<RenderedPage>,
    pub feed_path: String,
    pub feed: String,
}

pub struct SiteGenerator {
    pub input_dir: String,
    pub output_dir: String,
}

impl SiteGenerator {
    pub fn new(input_dir: String, output_dir: String) -> (r: Self)
        ensures
            r.input_dir == input_dir,
            r.output_dir == output_dir,
    {
        Self { input_dir, output_dir }
    }

    /// A complete page around an HTML body.
    pub fn render_page_html(theme: &Theme, title: &str, blog_title: &str, body: &str) -> (r: String)
        ensures
            r@ == page_html(*theme, title@, blog_title@, body@),
    {
        let mut r = String::from_str("<!DOCTYPE html>\n<html lang=\"en\" class=\"");
        r.append(theme.css_class());
        r.append(
            "\">\n<head>\n    <meta charset=\"UTF-8\">\n    <meta name=\"viewport\" content=\"width=device-width, initial-scale=1.0\">\n    <title>",
        );
        r.append(title);
        r.append("</title>\n    <link rel=\"stylesheet\" href=\"/assets/style.css\">\n</head>\n<body>\n    ");
        match theme {
            Theme::Hacker => {
                let art = AsciiArtGenerator::generate_ascii_art(blog_title);
                r.append("<div class=\"ascii-header-container\">");
                r.append("<div class=\"ascii-header\">");
                r.append(art.as_str());
                r.append("<br><br>>>> ");
                r.append(title);
                r.append(" <<<</div></div>");
            },
            Theme::Vercel => {
                r.append("<header class=\"site-header\">\n                        ");
                r.append("<h1 class=\"site-title\">");
                r.append(blog_title);
                r.append("</h1>");
                r.append("\n                    </header>");
            },
        }
        r.append("\n    <main class=\"container\">\n        ");
        r.append(body);
        r.append("\n    </main>\n</body>\n</html>");
        r
    }

    /// The page for a source: `content` is its rendered body, the title comes
    /// from its Markdown or its path.
    pub fn wrap_with_template(
        &self,
        content: &str,
        theme: &Theme,
        input_path: &str,
        markdown_content: &str,
        blog_title: &str,
    ) -> (r: String)
        ensures
            r@ == page_html(*theme, page_title(markdown_content@, input_path@), blog_title@, content@),
    {
        let title = MarkdownProcessor::extract_title(markdown_content, input_path);
        Self::render_page_html(theme, title.as_str(), blog_title, content)
    }

    /// The page of one source: its path under the output root and its HTML.
    pub fn render_page(&self, doc: &SourceDocument, theme: &Theme, blog_title: &str) -> (r: RenderedPage)
        ensures
            r.output_path@ == output_path(doc.path@, self.input_dir@, self.output_dir@),
            r.html@ == site_page(*theme, doc.content@, doc.path@, blog_title@),
    {
        let body = MarkdownProcessor::to_html(doc.content.as_str());
        let html = self.wrap_with_template(
            body.as_str(),
            theme,
            doc.path.as_str(),
            doc.content.as_str(),
            blog_title,
        );
        let output_path = ContentProcessor::get_output_path(
            doc.path.as_str(),
            self.input_dir.as_str(),
            self.output_dir.as_str(),
        );
        RenderedPage { output_path, html }
    }

    /// The whole site for the discovered sources, in their order: the theme's
    /// stylesheet, one page per source, and the feed of the posts.
    pub fn build_with_config(&self, blog_title: &str, theme: &Theme, docs: &Vec<SourceDocument>) -> (r: SiteBuild)
        ensures
            site_built(*self, blog_title@, *theme, docs@, r),
    {
        let mut pages: Vec<RenderedPage> = Vec::new();
        let mut k: usize = 0;
        while k < docs.len()
            invariant
                k <= docs@.len(),
                pages@.len() == k,
                forall|i: int| 0 <= i < k ==> page_built(*self, *theme, blog_title@, #[trigger] docs@[i], pages@[i]),
            decreases docs@.len() - k,
        {
            let page = self.render_page(&docs[k], theme, blog_title);
            pages.push(page);
            k += 1;
        }
        SiteBuild {
            css_path: ThemeAssets::css_path(self.output_dir.as_str()),
            css: ThemeAssets::get_theme_css(theme),
            pages,
            feed_path: RssGenerator::feed_path(self.output_dir.as_str()),
            feed: RssGenerator::generate_rss_feed(self.input_dir.as_str(), docs),
        }
    }

    /// The site under a theme, with the default site title.
    pub fn build_with_theme(&self, theme: &Theme, docs: &Vec<SourceDocument>) -> (r: SiteBuild)
        ensures
            site_built(*self, "My Blog"@, *theme, docs@, r),
    {
        self.build_with_config("My Blog", theme, docs)
    }

    /// The site under the vercel theme, with the default site title.
    pub fn build(&self, docs: &Vec<SourceDocument>) -> (r: SiteBuild)
        ensures
            site_built(*self, "My Blog"@, Theme::Vercel, docs@, r),
    {
        self.build_with_theme(&Theme::Vercel, docs)
    }
}

/// `page` is the page of `doc`.
pub open spec fn page_built(g: SiteGenerator, theme: Theme, blog_title: Seq<char>, doc: SourceDocument, page: RenderedPage) -> bool {
    &&& page.output_path@ == output_path(doc.path@, g.input_dir@, g.output_dir@)
    &&& page.html@ == site_page(theme, doc.content@, doc.path@, blog_title)
}

/// `r` is what a build of `docs` writes.
pub open spec fn site_built(
    g: SiteGenerator,
    blog_title: Seq<char>,
    theme: Theme,
    docs: Seq<SourceDocument>,
    r: SiteBuild,
) -> bool {
    &&& r.css_path@ == css_path(g.output_dir@)
    &&& r.css@ == theme_css(theme)
    &&& r.pages@.len() == docs.len()
    &&& forall|i: int| 0 <= i < docs.len() ==> page_built(g, theme, blog_title, #[trigger] docs[i], r.pages@[i])
    &&& r.feed_path@ == g.output_dir@ + "/rss.xml"@
    &&& r.feed@ == feed_xml(g.input_dir@, docs)
}

/// Building twice from the same sources gives the same files, byte for byte:
/// the same stylesheet, the same feed, and for every source the same page at the same path.
pub proof fn law_build_deterministic(
    g: SiteGenerator,
    blog_title: Seq<char>,
    theme: Theme,
    docs: Seq<SourceDocument>,
    first: SiteBuild,
    second: SiteBuild,
)
    requires
        site_built(g, blog_title, theme, docs, first),
        site_built(g, blog_title, theme, docs, second),
    ensures
        first.css_path@ == second.css_path@,
        first.css@ == second.css@,
        first.feed@ == second.feed@,
        first.pages@.len() == second.pages@.len(),
        forall|i: int|
            0 <= i < first.pages@.len() ==> (#[trigger] first.pages@[i]).html@ == second.pages@[i].html@
                && first.pages@[i].output_path@ == second.pages@[i].output_path@,
{
    assert forall|i: int| 0 <= i < first.pages@.len() implies (#[trigger] first.pages@[i]).html@
        == second.pages@[i].html@ && first.pages@[i].output_path@ == second.pages@[i].output_path@ by {
        assert(page_built(g, theme, blog_title, docs[i], first.pages@[i]));
        assert(page_built(g, theme, blog_title, docs[i], second.pages@[i]));
    }
}

/// The same source under the two themes: the headers differ, the stylesheets
/// differ, and both pages hold the same body fragment in the same frame.
pub proof fn law_theme_switch(markdown: Seq<char>, path: Seq<char>, blog_title: Seq<char>)
    ensures
        header_html(Theme::Vercel, blog_title, page_title(markdown, path)) != header_html(
            Theme::Hacker,
            blog_title,
            page_title(markdown, path),
        ),
        theme_css(Theme::Vercel) != theme_css(Theme::Hacker),
        contains(
            site_page(Theme::Vercel, markdown, path, blog_title),
            "<h1 class=\"site-title\">"@ + blog_title + "</h1>"@,
        ),
        contains(site_page(Theme::Hacker, markdown, path, blog_title), "<div class=\"ascii-header\">"@),
        site_page(Theme::Vercel, markdown, path, blog_title) == page_head(
            Theme::Vercel,
            page_title(markdown, path),
            header_html(Theme::Vercel, blog_title, page_title(markdown, path)),
        ) + markdown_html(markdown) + page_tail(),
        site_page(Theme::Hacker, markdown, path, blog_title) == page_head(
            Theme::Hacker,
            page_title(markdown, path),
            header_html(Theme::Hacker, blog_title, page_title(markdown, path)),
        ) + markdown_html(markdown) + page_tail(),
{
    let t = page_title(markdown, path);
    reveal_strlit("<div class=\"ascii-header-container\">");
    reveal_strlit("<header class=\"site-header\">\n                        ");
    reveal_strlit("/* theme: vercel */\n");
    reveal_strlit("/* theme: hacker */\n");
    let v = header_html(Theme::Vercel, blog_title, t);
    let h = header_html(Theme::Hacker, blog_title, t);
    assert(v[1] == 'h');
    assert(h[1] == 'd');
    assert(theme_css(Theme::Vercel)[10] == 'v');
    assert(theme_css(Theme::Hacker)[10] == 'h');
    let body_rest = "\n    <main class=\"container\">\n        "@ + markdown_html(markdown) + page_tail();
    let vt = "<h1 class=\"site-title\">"@ + blog_title + "</h1>"@;
    let vpre = page_start(Theme::Vercel, t) + "<header class=\"site-header\">\n                        "@;
    let vpage = site_page(Theme::Vercel, markdown, path, blog_title);
    assert(vpage =~= vpre + vt + "\n                    </header>"@ + body_rest);
    assert(vpage.subrange(vpre.len() as int, (vpre.len() + vt.len()) as int) =~= vt);
    let ht = "<div class=\"ascii-header\">"@;
    let hpre = page_start(Theme::Hacker, t) + "<div class=\"ascii-header-container\">"@;
    let hpage = site_page(Theme::Hacker, markdown, path, blog_title);
    let hrest = block_art(upper_of(blog_title)) + "<br><br>>>> "@ + t + " <<<</div></div>"@ + body_rest;
    assert(hpage =~= hpre + ht + hrest);
    assert(hpage.subrange(hpre.len() as int, (hpre.len() + ht.len()) as int) =~= ht);
}

} // verus!
