use dodge::{
    AsciiArtGenerator, Config, ContentProcessor, DevServer, MarkdownProcessor, RssGenerator,
    SiteGenerator, SourceDocument, Theme, ThemeAssets,
};

fn doc(path: &str, content: &str) -> SourceDocument {
    SourceDocument { path: path.to_string(), content: content.to_string() }
}

#[test]
fn render_accepts_malformed_markdown() {
    for md in ["**unclosed", "[link](", "<div>", "```\nno end", "", "#", "|a|\n|-"] {
        let _ = MarkdownProcessor::to_html(md);
    }
}

#[test]
fn render_makes_html() {
    let html = MarkdownProcessor::to_html("# Hi\n\nsome *text*");
    assert!(html.contains("<h1>Hi</h1>"));
    assert!(html.contains("<em>text</em>"));
}

#[test]
fn output_path_swaps_root_and_extension() {
    assert_eq!(
        ContentProcessor::get_output_path("content/posts/a.md", "content", "public"),
        "public/posts/a.html"
    );
}

#[test]
fn output_path_without_root_keeps_it() {
    assert_eq!(ContentProcessor::get_output_path("notes/a.md", "content", "public"), "notes/a.html");
}

#[test]
fn output_path_replaces_every_occurrence_of_root() {
    assert_eq!(ContentProcessor::get_output_path("c/x/c.md", "c", "out"), "out/x/out.html");
}

#[test]
fn output_path_only_swaps_final_extension() {
    assert_eq!(ContentProcessor::get_output_path("in/a.mdx/b.md", "in", "out"), "out/a.mdx/b.html");
    assert_eq!(ContentProcessor::get_output_path("in/readme.txt", "in", "out"), "out/readme.txt");
}

#[test]
fn title_from_dated_path() {
    assert_eq!(MarkdownProcessor::extract_title_from_path("2024-05-01-hello-world.md"), "Hello World");
}

#[test]
fn title_from_plain_path() {
    assert_eq!(MarkdownProcessor::extract_title_from_path("about.md"), "About");
}

#[test]
fn title_from_nested_path() {
    assert_eq!(MarkdownProcessor::extract_title_from_path("content/posts/my-first-post.md"), "My First Post");
}

#[test]
fn title_from_stem_edge_cases() {
    assert_eq!(MarkdownProcessor::title_from_stem(""), "");
    assert_eq!(MarkdownProcessor::title_from_stem("2024-05-01-"), "2024 05 01");
    assert_eq!(MarkdownProcessor::title_from_stem("2024-05-01-x"), "X");
    assert_eq!(MarkdownProcessor::title_from_stem("a--b  c"), "A B C");
    assert_eq!(MarkdownProcessor::title_from_stem("hELLO"), "HELLO");
    assert_eq!(MarkdownProcessor::title_from_stem("éclair"), "éclair");
}

#[test]
fn title_from_heading() {
    assert_eq!(MarkdownProcessor::extract_title("# My Post\nbody", "any/path.md"), "My Post");
}

#[test]
fn title_from_later_indented_heading() {
    assert_eq!(MarkdownProcessor::extract_title("intro\n   #  Spaced  \r\nrest", "x.md"), "Spaced");
    assert_eq!(MarkdownProcessor::extract_title("# # Double", "x.md"), "# Double");
    assert_eq!(MarkdownProcessor::extract_title("  #   Padded  ", "x.md"), "Padded");
}

#[test]
fn title_falls_back_to_path() {
    assert_eq!(MarkdownProcessor::extract_title("## Sub\n#nospace\ntext", "posts/2024-01-02-a-b.md"), "A B");
    assert_eq!(MarkdownProcessor::first_heading("no heading"), None);
}

#[test]
fn theme_parse_ignores_case() {
    assert_eq!(Theme::parse("vercel"), Ok(Theme::Vercel));
    assert_eq!(Theme::parse("VeRcEl"), Ok(Theme::Vercel));
    assert_eq!(Theme::parse("HACKER"), Ok(Theme::Hacker));
    assert_eq!("hacker".parse::<Theme>(), Ok(Theme::Hacker));
    assert_eq!("VERCEL".parse::<Theme>(), Ok(Theme::Vercel));
    assert!("neon".parse::<Theme>().is_err());
}

#[test]
fn theme_name_parses_back() {
    for t in [Theme::Vercel, Theme::Hacker] {
        assert_eq!(t.name().parse::<Theme>(), Ok(t));
        assert_eq!(Theme::parse(t.name()), Ok(t));
    }
}

#[test]
fn theme_parse_rejects_unknown() {
    assert_eq!(
        Theme::parse("Solarized"),
        Err("Unknown theme: Solarized. Available themes: vercel, hacker".to_string())
    );
    assert_eq!(Theme::parse_lowercased("vercel", "VERCEL"), Ok(Theme::Vercel));
}

#[test]
fn theme_names_and_classes() {
    assert_eq!(Theme::Vercel.name(), "vercel");
    assert_eq!(Theme::Hacker.name(), "hacker");
    assert_eq!(Theme::Vercel.css_class(), "theme-vercel");
    assert_eq!(Theme::Hacker.css_class(), "theme-hacker");
}

#[test]
fn config_defaults_and_theme_fallback() {
    let c = Config::default();
    assert_eq!(c.blog_title, "Dodge SSG");
    assert_eq!(c.theme, "hacker");
    assert_eq!(c.resolved_theme(), Theme::Hacker);
    let v = Config { blog_title: "B".to_string(), theme: "Vercel".to_string() };
    assert_eq!(v.resolved_theme(), Theme::Vercel);
    let u = Config { blog_title: "B".to_string(), theme: "neon".to_string() };
    assert_eq!(u.resolved_theme(), Theme::Hacker);
}

#[test]
fn theme_assets_paths_and_css() {
    assert_eq!(ThemeAssets::css_path("public"), "public/assets/style.css");
    assert_eq!(ThemeAssets::assets_dir("public"), "public/assets");
    let v = ThemeAssets::get_theme_css(&Theme::Vercel);
    let h = ThemeAssets::get_theme_css(&Theme::Hacker);
    assert_ne!(v, h);
    assert!(v.starts_with("/* theme: vercel */"));
    assert!(h.starts_with("/* theme: hacker */"));
}

#[test]
fn block_letters_of_one_letter() {
    let art = AsciiArtGenerator::block_letters_of_upper("I");
    assert_eq!(art, "\n██╗\n██║\n██║\n██║\n██║\n╚═╝\n");
}

#[test]
fn block_letters_trim_and_fallback() {
    let art = AsciiArtGenerator::block_letters_of_upper("I.");
    assert_eq!(art, "\n██╗\n██║\n██║\n██║\n██║ ██╗\n╚═╝ ╚═╝\n");
    let unknown = AsciiArtGenerator::block_letters_of_upper("1");
    assert_eq!(unknown, "\n███╗\n██╔╝\n██║\n██║\n███╗\n╚══╝\n");
    assert_eq!(AsciiArtGenerator::block_letters_of_upper(""), "\n\n\n\n\n\n\n");
}

#[test]
fn ascii_art_uppercases_first() {
    assert_eq!(
        AsciiArtGenerator::generate_ascii_art("dodge ssg"),
        AsciiArtGenerator::block_letters_of_upper("DODGE SSG")
    );
    assert_ne!(
        AsciiArtGenerator::generate_ascii_art("i"),
        AsciiArtGenerator::block_letters_of_upper("i")
    );
}

#[test]
fn block_letter_table() {
    let a = AsciiArtGenerator::get_block_letter('A');
    assert_eq!(a.len(), 6);
    assert_eq!(a[5], "╚═╝  ╚═╝");
    assert_eq!(AsciiArtGenerator::get_block_letter(' '), vec!["    "; 6]);
    assert_eq!(AsciiArtGenerator::get_block_letter('7'), AsciiArtGenerator::get_block_letter('a'));
}

#[test]
fn feed_filters_posts() {
    assert!(!RssGenerator::is_post("content/index.md"));
    assert!(RssGenerator::is_post("content/posts/2024-01-01-a.md"));
    let docs = vec![doc("content/index.md", "# Home"), doc("content/posts/2024-01-01-a.md", "# A")];
    let items = RssGenerator::feed_items("content", &docs);
    assert_eq!(items.len(), 1);
    assert_eq!(items[0].link, "/posts/2024-01-01-a.html");
    assert_eq!(items[0].title, "A");
}

#[test]
fn feed_orders_newest_first() {
    let docs = vec![
        doc("content/posts/2024-01-01-old.md", "old"),
        doc("content/posts/2024-03-01-new.md", "new"),
        doc("content/posts/undated.md", "x"),
    ];
    let items = RssGenerator::feed_items("content", &docs);
    let dates: Vec<&str> = items.iter().map(|i| i.pub_date.as_str()).collect();
    assert_eq!(
        dates,
        vec!["2025-01-01 00:00:00 +0000", "2024-03-01 00:00:00 +0000", "2024-01-01 00:00:00 +0000"]
    );
    assert_eq!(items[1].title, "New");
}

#[test]
fn feed_item_fields() {
    assert_eq!(RssGenerator::item_date("posts/2024-05-01-x.md"), "2024-05-01 00:00:00 +0000");
    assert_eq!(RssGenerator::item_date("posts/hello.md"), "2025-01-01 00:00:00 +0000");
    assert_eq!(RssGenerator::date_of_stem("2024-0501"), "2025-01-01");
    assert_eq!(RssGenerator::item_link("content/posts/a.md", "content"), "/posts/a.html");
    assert_eq!(RssGenerator::item_link("//x/posts/b.md", ""), "/x/posts/b.html");
    assert_eq!(RssGenerator::item_title("# # Title\r\nbody", "p.md"), "Title");
    assert_eq!(RssGenerator::item_title("intro\n# Later", "posts/2024-01-01-some-post.md"), "Some Post");
    let item = RssGenerator::item_of("content", &doc("content/posts/z.md", "*hi*"));
    assert!(item.description.contains("<em>hi</em>"));
}

#[test]
fn feed_document_lists_items() {
    let docs = vec![doc("content/posts/2024-03-01-b.md", "# Bee"), doc("content/about.md", "# About")];
    let xml = RssGenerator::generate_rss_feed("content", &docs);
    assert!(xml.contains("<rss"));
    assert!(xml.contains("<title>My Blog</title>"));
    assert!(xml.contains("<title>Bee</title>"));
    assert!(xml.contains("/posts/2024-03-01-b.html"));
    assert!(!xml.contains("About"));
    assert_eq!(RssGenerator::feed_path("public"), "public/rss.xml");
}

#[test]
fn discovery_pattern_and_order() {
    assert_eq!(ContentProcessor::discovery_pattern("content"), "content/**/*.md");
    let found = vec!["c/b.md".to_string(), "c/a/z.md".to_string(), "c/a.md".to_string()];
    assert_eq!(ContentProcessor::collect_posts(found), vec!["c/a.md", "c/a/z.md", "c/b.md"]);
}

#[test]
fn page_under_vercel_theme() {
    let g = SiteGenerator::new("content".to_string(), "public".to_string());
    let html = g.wrap_with_template("<p>x</p>", &Theme::Vercel, "content/a.md", "# T\nx", "Site");
    assert!(html.starts_with("<!DOCTYPE html>\n<html lang=\"en\" class=\"theme-vercel\">"));
    assert!(html.contains("<title>T</title>"));
    assert!(html.contains("<h1 class=\"site-title\">Site</h1>"));
    assert!(html.ends_with("<p>x</p>\n    </main>\n</body>\n</html>"));
}

#[test]
fn page_under_hacker_theme() {
    let html = SiteGenerator::render_page_html(&Theme::Hacker, "T", "i", "<p>x</p>");
    assert!(html.contains("class=\"theme-hacker\""));
    assert!(html.contains("<div class=\"ascii-header\">\n██╗\n"));
    assert!(html.contains("<br><br>>>> T <<<</div></div>"));
}

#[test]
fn theme_switch_keeps_body() {
    let g = SiteGenerator::new("content".to_string(), "public".to_string());
    let docs = vec![doc("content/a.md", "# A\n\nbody text")];
    let v = g.build_with_config("Blog", &Theme::Vercel, &docs);
    let h = g.build_with_config("Blog", &Theme::Hacker, &docs);
    assert_ne!(v.css, h.css);
    assert_ne!(v.pages[0].html, h.pages[0].html);
    let body = MarkdownProcessor::to_html("# A\n\nbody text");
    assert!(v.pages[0].html.contains(&body));
    assert!(h.pages[0].html.contains(&body));
}

#[test]
fn build_is_deterministic() {
    let g = SiteGenerator::new("content".to_string(), "public".to_string());
    let docs = vec![doc("content/posts/2024-01-01-a.md", "# A"), doc("content/index.md", "home")];
    let first = g.build(&docs);
    let second = g.build(&docs);
    assert_eq!(first.pages.len(), 2);
    for (a, b) in first.pages.iter().zip(second.pages.iter()) {
        assert_eq!(a.html, b.html);
        assert_eq!(a.output_path, b.output_path);
    }
    assert_eq!(first.feed, second.feed);
    assert_eq!(first.css_path, "public/assets/style.css");
    assert_eq!(first.feed_path, "public/rss.xml");
    assert_eq!(first.pages[1].output_path, "public/index.html");
    assert!(first.pages[1].html.contains("<title>Index</title>"));
}

#[test]
fn dev_server_settings() {
    let s = DevServer::new("public".to_string(), 3000, "127.0.0.1".to_string());
    assert_eq!(s.static_dir, "public");
    assert_eq!(s.port, 3000);
    assert_eq!(s.host, "127.0.0.1");
}
