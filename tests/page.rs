use bearcove::markup::{push_escaped, render_document};
use bearcove::model::{Document, Fragment, Link, ListBlock, ListFamily, ListStyle, RichText};
use bearcove::site::{head_links, site_document};

fn page() -> String {
    render_document(&site_document())
}

fn count(hay: &str, needle: &str) -> usize {
    hay.matches(needle).count()
}

#[test]
fn rendering_twice_gives_identical_markup() {
    assert_eq!(page(), page());
    assert_eq!(page().as_bytes(), render_document(&site_document()).as_bytes());
}

#[test]
fn every_link_has_url_and_label() {
    let html = page();
    let mut links = 0;
    for piece in html.split("<a href=\"").skip(1) {
        let url_end = piece.find('"').unwrap();
        assert!(url_end > 0, "empty url in {}", piece);
        let body_start = piece.find('>').unwrap() + 1;
        let body_end = piece.find("</a>").unwrap();
        let label = piece[body_start..body_end].replace("<strong>", "").replace("</strong>", "");
        assert!(!label.is_empty(), "empty label in {}", piece);
        links += 1;
    }
    assert_eq!(links, 19);
}

#[test]
fn inactive_list_has_its_own_class() {
    let html = page();
    assert_eq!(count(&html, "<ul class=\"project-list inactive\">"), 1);
    assert_eq!(count(&html, "<ul class=\"project-list\">"), 2);
    assert_eq!(count(&html, "<ul class=\"content-list\">"), 3);
    let inactive = html.find("<ul class=\"project-list inactive\">").unwrap();
    let loona = html.find("https://github.com/bearcove/loona").unwrap();
    let merde = html.find("https://github.com/bearcove/merde").unwrap();
    let facet = html.find("https://facet.rs").unwrap();
    assert!(inactive < loona && inactive < merde);
    assert!(facet < inactive);
}

#[test]
fn section_headings_in_order() {
    let html = page();
    let a = html.find("<h2>Open source</h2>").unwrap();
    let b = html.find("<h2>Content creation</h2>").unwrap();
    let c = html.find("<h2>Legal / Mentions légales</h2>").unwrap();
    assert!(a < b && b < c);
    assert_eq!(count(&html, "<h2>"), 3);
    assert!(html.contains("<section class=\"section legal\"><h2>Legal"));
}

#[test]
fn address_is_five_lines() {
    let html = page();
    let start = html.find("<blockquote class=\"address\">").unwrap() + "<blockquote class=\"address\">".len();
    let end = html.find("</blockquote>").unwrap();
    let lines: Vec<&str> = html[start..end].split("<br/>").collect();
    assert_eq!(lines, vec!["bearcove SARL", "4 Quai Jean Moulin", "c/o La Cordée SAS", "69001 Lyon", "France"]);
}

#[test]
fn page_structure() {
    let html = page();
    assert!(html.starts_with("<div class=\"container\"><header class=\"header\"><div class=\"logo-section\"><h1 class=\"logo\">bearcove</h1>"));
    assert!(html.contains("<p class=\"tagline\">Teaching Rust, making videos, maintaining open-source software</p>"));
    assert!(html.contains("<section class=\"hero\"><p class=\"hero-text\"><strong>bearcove</strong> was founded by <a href=\"https://fasterthanli.me\" target=\"_blank\">@fasterthanlime</a>"));
    assert!(html.contains("<iframe width=\"100%\" height=\"315\" src=\"https://www.youtube.com/embed/zo6yZisg7N0\" title=\"YouTube video player\""));
    assert!(html.contains("<li><a href=\"https://facet.rs\" target=\"_blank\"><strong>facet</strong></a> — a take on reflection in Rust, allows a ton of nice use cases</li>"));
    assert!(html.contains("<a href=\"mailto:admin@bearcove.eu\">admin@bearcove.eu</a>"));
    assert!(html.ends_with("<footer class=\"footer\"><p>© 2024 bearcove SARL. All rights reserved.</p></footer></div>"));
}

#[test]
fn text_is_escaped() {
    let html = page();
    assert!(html.contains("enables &quot;impl&quot; and &quot;consumer&quot; crates"));
    assert!(html.contains("capital of 10&#39;000€"));
    let mut out = String::from("x");
    push_escaped(&mut out, "a<b>&\"c'd é");
    assert_eq!(out, "xa&lt;b&gt;&amp;&quot;c&#39;d é");
    let mut empty = String::new();
    push_escaped(&mut empty, "");
    assert_eq!(empty, "");
}

#[test]
fn custom_document_renders() {
    let site = site_document();
    let doc = Document {
        header: site.header,
        hero: site.hero,
        sections: vec![],
        footer: RichText {
            fragments: vec![
                Fragment::Text("a & b ".to_string()),
                Fragment::Link(Link { label: "x".to_string(), url: "/?q=1&r=2".to_string(), new_tab: false, strong: true }),
            ],
        },
    };
    let html = render_document(&doc);
    assert!(html.contains("<main class=\"main-content\"><section class=\"hero\">"));
    assert!(html.contains("</section></main>"));
    assert!(html.contains("<p>a &amp; b <a href=\"/?q=1&amp;r=2\"><strong>x</strong></a></p>"));
    let _ = ListBlock { family: ListFamily::Content, style: ListStyle::Inactive, items: vec![] };
}

#[test]
fn head_links_are_font_and_icon() {
    let links = head_links();
    assert_eq!(links.len(), 2);
    assert_eq!(links[0].rel, "stylesheet");
    assert!(links[0].href.starts_with("https://fonts.googleapis.com/css2?family=Inter"));
    assert_eq!(links[0].media_type, None);
    assert_eq!(links[1].rel, "icon");
    assert_eq!(links[1].href, "/favicon.jxl");
    assert_eq!(links[1].media_type.as_deref(), Some("image/jxl"));
}
