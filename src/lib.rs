//! A static site generator: Markdown documents in, themed HTML pages and an
//! RSS feed out. The library holds the build pipeline as pure functions; the
//! program around it walks directories, reads and writes files and serves them.

pub mod ascii_art;
pub mod cli;
pub mod config;
pub mod feed;
pub mod markdown;
pub mod order;
pub mod processor;
pub mod server;
pub mod site;
pub mod text;
pub mod theme;

pub use ascii_art::AsciiArtGenerator;
pub use cli::{Cli, CommandHandler, Commands};
pub use config::Config;
pub use feed::{FeedItem, RssGenerator, SourceDocument};
pub use markdown::MarkdownProcessor;
pub use processor::ContentProcessor;
pub use server::DevServer;
pub use site::{RenderedPage, SiteBuild, SiteGenerator};
pub use theme::{Theme, ThemeAssets};
