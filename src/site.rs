use vstd::prelude::*;
use crate::markup::{escape, lines_markup, list_class};
use crate::model::{
    document_links_filled, headings, views, Block, BlockView, Document, DocumentView, Fragment,
    FragmentView, Header, HeaderView, Hero, HeroView, Link, LinkView, ListBlock, ListBlockView,
    ListFamily, ListStyle, RichText, Section, SectionStyle, SectionView, Video, VideoView,
};
use crate::style::{
    rule_for, size_at, FontRule, FontRuleView, Typography, PHONE_MAX_WIDTH, TABLET_MAX_WIDTH,
};

verus! {

pub open spec fn plain(s: Seq<char>) -> FragmentView {
    FragmentView::Text(s)
}

pub open spec fn bold(s: Seq<char>) -> FragmentView {
    FragmentView::Strong(s)
}

/// A link that opens in a new tab.
pub open spec fn outbound(label: Seq<char>, url: Seq<char>) -> FragmentView {
    FragmentView::Link(LinkView { label, url, new_tab: true, strong: false })
}

/// A link to a project, opening in a new tab, with the project's name in bold.
pub open spec fn project(label: Seq<char>, url: Seq<char>) -> FragmentView {
    FragmentView::Link(LinkView { label, url, new_tab: true, strong: true })
}

/// A link that opens in the same tab.
pub open spec fn same_tab(label: Seq<char>, url: Seq<char>) -> FragmentView {
    FragmentView::Link(LinkView { label, url, new_tab: false, strong: false })
}

fn text(s: &str) -> (f: Fragment)
    ensures
        f@ == plain(s@),
{
    Fragment::Text(s.to_owned())
}

fn strong(s: &str) -> (f: Fragment)
    ensures
        f@ == bold(s@),
{
    Fragment::Strong(s.to_owned())
}

fn make_link(label: &str, url: &str, new_tab: bool, strong: bool) -> (f: Fragment)
    ensures
        f@ == FragmentView::Link(LinkView { label: label@, url: url@, new_tab, strong }),
{
    Fragment::Link(Link { label: label.to_owned(), url: url.to_owned(), new_tab, strong })
}

fn outbound_link(label: &str, url: &str) -> (f: Fragment)
    ensures
        f@ == outbound(label@, url@),
{
    make_link(label, url, true, false)
}

fn project_link(label: &str, url: &str) -> (f: Fragment)
    ensures
        f@ == project(label@, url@),
{
    make_link(label, url, true, true)
}

fn inline_link(label: &str, url: &str) -> (f: Fragment)
    ensures
        f@ == same_tab(label@, url@),
{
    make_link(label, url, false, false)
}

fn rich(fragments: Vec<Fragment>) -> (r: RichText)
    ensures
        r@ == views(fragments@),
{
    RichText { fragments }
}

/// A paragraph of plain text.
fn para(s: &str) -> (b: Block)
    ensures
        b@ == BlockView::Paragraph(seq![plain(s@)]),
{
    let fragments = vec![text(s)];
    assert(views(fragments@) =~= seq![plain(s@)]);
    Block::Paragraph(RichText { fragments })
}

/// A list entry: a project's name, linked, then a short description.
fn project_item(name: &str, url: &str, blurb: &str) -> (r: RichText)
    ensures
        r@ == seq![project(name@, url@), plain(blurb@)],
{
    let fragments = vec![project_link(name, url), text(blurb)];
    assert(views(fragments@) =~= seq![project(name@, url@), plain(blurb@)]);
    RichText { fragments }
}

fn list(family: ListFamily, style: ListStyle, items: Vec<RichText>) -> (b: Block)
    ensures
        b@ == BlockView::List(ListBlockView { family, style, items: views(items@) }),
{
    Block::List(ListBlock { family, style, items })
}

pub open spec fn header_model() -> HeaderView {
    HeaderView {
        name: "bearcove"@,
        tagline: "Teaching Rust, making videos, maintaining open-source software"@,
    }
}

pub open spec fn hero_model() -> HeroView {
    HeroView {
        text: seq![
            bold("bearcove"@),
            plain(" was founded by "@),
            outbound("@fasterthanlime"@, "https://fasterthanli.me"@),
            plain(
                " in late 2024 to keep doing what they do best: teach Rust, make videos, and maintain open-source software."@,
            ),
        ],
        video: VideoView {
            src: "https://www.youtube.com/embed/zo6yZisg7N0"@,
            title: "YouTube video player"@,
        },
    }
}

pub open spec fn big_projects() -> Seq<Seq<FragmentView>> {
    seq![
        seq![
            project("facet"@, "https://facet.rs"@),
            plain(" — a take on reflection in Rust, allows a ton of nice use cases"@),
        ],
        seq![
            project("home"@, "https://home.bearcove.eu"@),
            plain(" — the CMS that powers this website and several others"@),
        ],
    ]
}

pub open spec fn small_crates() -> Seq<Seq<FragmentView>> {
    seq![
        seq![
            project("rubicon"@, "https://github.com/bearcove/rubicon"@),
            plain(" — macros to make dangerous dynamic linking pattern in Rust a little safer"@),
        ],
        seq![
            project("dylo"@, "https://github.com/bearcove/dylo"@),
            plain(" — enables \"impl\" and \"consumer\" crates when doing dynamic linking"@),
        ],
        seq![
            project("rc-zip"@, "https://github.com/bearcove/rc-zip"@),
            plain(" — a sans-io ZIP implementation in Rust focused on compatibility"@),
        ],
        seq![
            project("timelord"@, "https://github.com/fasterthanlime/timelord"@),
            plain(
                " — restores timestamps between builds to let cargo and Rust build scripts see that the build is clean"@,
            ),
        ],
    ]
}

pub open spec fn inactive_projects() -> Seq<Seq<FragmentView>> {
    seq![
        seq![
            project("loona"@, "https://github.com/bearcove/loona"@),
            plain(" — an HTTP/1+2 implementation on top of io_uring, with kTLS support (on hold)"@),
        ],
        seq![
            project("merde"@, "https://github.com/bearcove/merde"@),
            plain(
                " — another take on serialization with declarative macros and \"metastack\" support (superseded by facet)"@,
            ),
        ],
    ]
}

pub open spec fn open_source_model() -> SectionView {
    SectionView {
        heading: "Open source"@,
        style: SectionStyle::Plain,
        blocks: seq![
            BlockView::Paragraph(seq![plain("bearcove maintains big Rust projects:"@)]),
            BlockView::List(
                ListBlockView {
                    family: ListFamily::Project,
                    style: ListStyle::Normal,
                    items: big_projects(),
                },
            ),
            BlockView::Paragraph(seq![plain("Some smaller crates:"@)]),
            BlockView::List(
                ListBlockView {
                    family: ListFamily::Project,
                    style: ListStyle::Normal,
                    items: small_crates(),
                },
            ),
            BlockView::Paragraph(seq![plain("The following are not actively being maintained:"@)]),
            BlockView::List(
                ListBlockView {
                    family: ListFamily::Project,
                    style: ListStyle::Inactive,
                    items: inactive_projects(),
                },
            ),
        ],
    }
}

pub open spec fn operated() -> Seq<Seq<FragmentView>> {
    seq![
        seq![
            outbound("fasterthanli.me"@, "https://fasterthanli.me"@),
            plain(" with long-form Rust content"@),
        ],
        seq![
            outbound("YouTube @fasterthanlime"@, "https://youtube.com/@fasterthanlime"@),
            plain(" with a variety of tech videos"@),
        ],
    ]
}

pub open spec fn funding() -> Seq<Seq<FragmentView>> {
    seq![
        seq![outbound("GitHub Sponsors"@, "https://github.com/sponsors/fasterthanlime"@)],
        seq![outbound("Patreon"@, "https://patreon.com/fasterthanlime"@)],
    ]
}

pub open spec fn cooperation() -> Seq<FragmentView> {
    seq![
        plain("Additionally, bearcove cooperates with "@),
        outbound("OneVariable UG"@, "https://onevariable.com"@),
        plain(" to produce:"@),
    ]
}

pub open spec fn productions() -> Seq<Seq<FragmentView>> {
    seq![
        seq![
            plain("the "@),
            outbound("Self-Directed Research"@, "https://sdr-podcast.com"@),
            plain(" podcast"@),
        ],
    ]
}

pub open spec fn content_model() -> SectionView {
    SectionView {
        heading: "Content creation"@,
        style: SectionStyle::Plain,
        blocks: seq![
            BlockView::Paragraph(seq![plain("bearcove operates:"@)]),
            BlockView::List(
                ListBlockView {
                    family: ListFamily::Content,
                    style: ListStyle::Normal,
                    items: operated(),
                },
            ),
            BlockView::Paragraph(seq![plain("That content receives funding through:"@)]),
            BlockView::List(
                ListBlockView {
                    family: ListFamily::Content,
                    style: ListStyle::Normal,
                    items: funding(),
                },
            ),
            BlockView::Paragraph(cooperation()),
            BlockView::List(
                ListBlockView {
                    family: ListFamily::Content,
                    style: ListStyle::Normal,
                    items: productions(),
                },
            ),
        ],
    }
}

pub open spec fn identity() -> Seq<FragmentView> {
    seq![
        bold("bearcove SARL"@),
        plain(
            " is a company with a capital of 10'000€, registered with the RCS (registre du commerce et des sociétés) of Lyon under the number "@,
        ),
        bold("934 149 618"@),
        plain("."@),
    ]
}

/// The registered address, one entry per line.
pub open spec fn address_lines() -> Seq<Seq<char>> {
    seq!["bearcove SARL"@, "4 Quai Jean Moulin"@, "c/o La Cordée SAS"@, "69001 Lyon"@, "France"@]
}

pub open spec fn vat() -> Seq<FragmentView> {
    seq![
        plain("And its VAT number is "@),
        bold("FR41 934 149 618"@),
        plain(" (see the symmetry?)."@),
    ]
}

pub open spec fn owner() -> Seq<FragmentView> {
    seq![
        plain("The owner and manager of bearcove is Amos Wenger, you can reach them at "@),
        same_tab("admin@bearcove.eu"@, "mailto:admin@bearcove.eu"@),
        plain("."@),
    ]
}

pub open spec fn hosting() -> Seq<FragmentView> {
    seq![
        plain("This website and other bearcove properties like "@),
        outbound("fasterthanli.me"@, "https://fasterthanli.me"@),
        plain(" are hosted on "@),
        outbound("Hetzner"@, "https://hetzner.com"@),
        plain(", whereas DNS is handled by "@),
        outbound("gcore"@, "https://gcore.com"@),
        plain("."@),
    ]
}

pub open spec fn legal_model() -> SectionView {
    SectionView {
        heading: "Legal / Mentions légales"@,
        style: SectionStyle::Legal,
        blocks: seq![
            BlockView::Paragraph(identity()),
            BlockView::Paragraph(seq![plain("Its address is:"@)]),
            BlockView::Address(address_lines()),
            BlockView::Paragraph(vat()),
            BlockView::Paragraph(owner()),
            BlockView::Paragraph(hosting()),
        ],
    }
}

pub open spec fn footer_model() -> Seq<FragmentView> {
    seq![plain("© 2024 bearcove SARL. All rights reserved."@)]
}

/// The bearcove page.
pub open spec fn site_model() -> DocumentView {
    DocumentView {
        header: header_model(),
        hero: hero_model(),
        sections: seq![open_source_model(), content_model(), legal_model()],
        footer: footer_model(),
    }
}

fn header() -> (h: Header)
    ensures
        h@ == header_model(),
{
    Header {
        name: "bearcove".to_owned(),
        tagline: "Teaching Rust, making videos, maintaining open-source software".to_owned(),
    }
}

fn hero() -> (h: Hero)
    ensures
        h@ == hero_model(),
{
    let fragments = vec![
        strong("bearcove"),
        text(" was founded by "),
        outbound_link("@fasterthanlime", "https://fasterthanli.me"),
        text(
            " in late 2024 to keep doing what they do best: teach Rust, make videos, and maintain open-source software.",
        ),
    ];
    assert(views(fragments@) =~= hero_model().text);
    let video = Video {
        src: "https://www.youtube.com/embed/zo6yZisg7N0".to_owned(),
        title: "YouTube video player".to_owned(),
    };
    Hero { text: RichText { fragments }, video }
}

fn open_source_section() -> (s: Section)
    ensures
        s@ == open_source_model(),
{
    let big = vec![
        project_item(
            "facet",
            "https://facet.rs",
            " — a take on reflection in Rust, allows a ton of nice use cases",
        ),
        project_item(
            "home",
            "https://home.bearcove.eu",
            " — the CMS that powers this website and several others",
        ),
    ];
    assert(views(big@) =~= big_projects());
    let small = vec![
        project_item(
            "rubicon",
            "https://github.com/bearcove/rubicon",
            " — macros to make dangerous dynamic linking pattern in Rust a little safer",
        ),
        project_item(
            "dylo",
            "https://github.com/bearcove/dylo",
            " — enables \"impl\" and \"consumer\" crates when doing dynamic linking",
        ),
        project_item(
            "rc-zip",
            "https://github.com/bearcove/rc-zip",
            " — a sans-io ZIP implementation in Rust focused on compatibility",
        ),
        project_item(
            "timelord",
            "https://github.com/fasterthanlime/timelord",
            " — restores timestamps between builds to let cargo and Rust build scripts see that the build is clean",
        ),
    ];
    assert(views(small@) =~= small_crates());
    let inactive = vec![
        project_item(
            "loona",
            "https://github.com/bearcove/loona",
            " — an HTTP/1+2 implementation on top of io_uring, with kTLS support (on hold)",
        ),
        project_item(
            "merde",
            "https://github.com/bearcove/merde",
            " — another take on serialization with declarative macros and \"metastack\" support (superseded by facet)",
        ),
    ];
    assert(views(inactive@) =~= inactive_projects());
    let blocks = vec![
        para("bearcove maintains big Rust projects:"),
        list(ListFamily::Project, ListStyle::Normal, big),
        para("Some smaller crates:"),
        list(ListFamily::Project, ListStyle::Normal, small),
        para("The following are not actively being maintained:"),
        list(ListFamily::Project, ListStyle::Inactive, inactive),
    ];
    assert(views(blocks@) =~= open_source_model().blocks);
    Section { heading: "Open source".to_owned(), style: SectionStyle::Plain, blocks }
}

fn content_section() -> (s: Section)
    ensures
        s@ == content_model(),
{
    let first = vec![
        outbound_link("fasterthanli.me", "https://fasterthanli.me"),
        text(" with long-form Rust content"),
    ];
    let second = vec![
        outbound_link("YouTube @fasterthanlime", "https://youtube.com/@fasterthanlime"),
        text(" with a variety of tech videos"),
    ];
    assert(views(first@) =~= operated()[0]);
    assert(views(second@) =~= operated()[1]);
    let ops = vec![rich(first), rich(second)];
    assert(views(ops@) =~= operated());
    let sponsors = vec![
        outbound_link("GitHub Sponsors", "https://github.com/sponsors/fasterthanlime"),
    ];
    let patreon = vec![outbound_link("Patreon", "https://patreon.com/fasterthanlime")];
    assert(views(sponsors@) =~= funding()[0]);
    assert(views(patreon@) =~= funding()[1]);
    let funds = vec![rich(sponsors), rich(patreon)];
    assert(views(funds@) =~= funding());
    let coop = vec![
        text("Additionally, bearcove cooperates with "),
        outbound_link("OneVariable UG", "https://onevariable.com"),
        text(" to produce:"),
    ];
    assert(views(coop@) =~= cooperation());
    let podcast = vec![
        text("the "),
        outbound_link("Self-Directed Research", "https://sdr-podcast.com"),
        text(" podcast"),
    ];
    assert(views(podcast@) =~= productions()[0]);
    let made = vec![rich(podcast)];
    assert(views(made@) =~= productions());
    let blocks = vec![
        para("bearcove operates:"),
        list(ListFamily::Content, ListStyle::Normal, ops),
        para("That content receives funding through:"),
        list(ListFamily::Content, ListStyle::Normal, funds),
        Block::Paragraph(rich(coop)),
        list(ListFamily::Content, ListStyle::Normal, made),
    ];
    assert(views(blocks@) =~= content_model().blocks);
    Section { heading: "Content creation".to_owned(), style: SectionStyle::Plain, blocks }
}

fn legal_section() -> (s: Section)
    ensures
        s@ == legal_model(),
{
    let ident = vec![
        strong("bearcove SARL"),
        text(
            " is a company with a capital of 10'000€, registered with the RCS (registre du commerce et des sociétés) of Lyon under the number ",
        ),
        strong("934 149 618"),
        text("."),
    ];
    assert(views(ident@) =~= identity());
    let lines = vec![
        "bearcove SARL".to_owned(),
        "4 Quai Jean Moulin".to_owned(),
        "c/o La Cordée SAS".to_owned(),
        "69001 Lyon".to_owned(),
        "France".to_owned(),
    ];
    assert(views(lines@) =~= address_lines());
    let tax = vec![
        text("And its VAT number is "),
        strong("FR41 934 149 618"),
        text(" (see the symmetry?)."),
    ];
    assert(views(tax@) =~= vat());
    let contact = vec![
        text("The owner and manager of bearcove is Amos Wenger, you can reach them at "),
        inline_link("admin@bearcove.eu", "mailto:admin@bearcove.eu"),
        text("."),
    ];
    assert(views(contact@) =~= owner());
    let hosts = vec![
        text("This website and other bearcove properties like "),
        outbound_link("fasterthanli.me", "https://fasterthanli.me"),
        text(" are hosted on "),
        outbound_link("Hetzner", "https://hetzner.com"),
        text(", whereas DNS is handled by "),
        outbound_link("gcore", "https://gcore.com"),
        text("."),
    ];
    assert(views(hosts@) =~= hosting());
    let blocks = vec![
        Block::Paragraph(rich(ident)),
        para("Its address is:"),
        Block::Address(lines),
        Block::Paragraph(rich(tax)),
        Block::Paragraph(rich(contact)),
        Block::Paragraph(rich(hosts)),
    ];
    assert(views(blocks@) =~= legal_model().blocks);
    Section {
        heading: "Legal / Mentions légales".to_owned(),
        style: SectionStyle::Legal,
        blocks,
    }
}

/// The bearcove page: banner, introduction, the open-source, content and
/// legal sections, and a copyright line.
pub fn site_document() -> (d: Document)
    ensures
        d@ == site_model(),
{
    let sections = vec![open_source_section(), content_section(), legal_section()];
    assert(views(sections@) =~= site_model().sections);
    let footer = vec![text("© 2024 bearcove SARL. All rights reserved.")];
    assert(views(footer@) =~= footer_model());
    Document { header: header(), hero: hero(), sections, footer: RichText { fragments: footer } }
}

/// The bearcove type scale, in hundredths of a rem.
pub open spec fn site_type_model() -> Seq<FontRuleView> {
    seq![
        FontRuleView { selector: ".logo"@, desktop: 300, tablet: Some(250), phone: Some(200) },
        FontRuleView { selector: ".tagline"@, desktop: 110, tablet: None, phone: Some(100) },
        FontRuleView { selector: ".hero-text"@, desktop: 120, tablet: Some(110), phone: Some(100) },
        FontRuleView {
            selector: ".section h2"@,
            desktop: 200,
            tablet: Some(175),
            phone: Some(150),
        },
        FontRuleView { selector: ".section p"@, desktop: 105, tablet: None, phone: None },
        FontRuleView { selector: ".footer"@, desktop: 90, tablet: None, phone: None },
    ]
}

fn font_rule(selector: &str, desktop: u32, tablet: Option<u32>, phone: Option<u32>) -> (r: FontRule)
    ensures
        r@ == (FontRuleView { selector: selector@, desktop, tablet, phone }),
{
    FontRule { selector: selector.to_owned(), desktop, tablet, phone }
}

/// The bearcove type scale.
pub fn site_typography() -> (t: Typography)
    ensures
        t@ == site_type_model(),
{
    let rules = vec![
        font_rule(".logo", 300, Some(250), Some(200)),
        font_rule(".tagline", 110, None, Some(100)),
        font_rule(".hero-text", 120, Some(110), Some(100)),
        font_rule(".section h2", 200, Some(175), Some(150)),
        font_rule(".section p", 105, None, None),
        font_rule(".footer", 90, None, None),
    ];
    assert(views(rules@) =~= site_type_model());
    Typography { rules }
}

/// A resource that the page links from its head.
pub struct HeadLink {
    pub rel: String,
    pub href: String,
    /// The media type, where the link states one.
    pub media_type: Option<String>,
}

pub struct HeadLinkView {
    pub rel: Seq<char>,
    pub href: Seq<char>,
    pub media_type: Option<Seq<char>>,
}

impl View for HeadLink {
    type V = HeadLinkView;

    open spec fn view(&self) -> HeadLinkView {
        HeadLinkView {
            rel: self.rel@,
            href: self.href@,
            media_type: match self.media_type {
                Some(t) => Some(t@),
                None => None,
            },
        }
    }
}

pub open spec fn head_links_model() -> Seq<HeadLinkView> {
    seq![
        HeadLinkView {
            rel: "stylesheet"@,
            href: "https://fonts.googleapis.com/css2?family=Inter:wght@300;400;500;600;700&display=swap"@,
            media_type: None,
        },
        HeadLinkView { rel: "icon"@, href: "/favicon.jxl"@, media_type: Some("image/jxl"@) },
    ]
}

/// The web font stylesheet and the icon that the page's head links to.
pub fn head_links() -> (r: Vec<HeadLink>)
    ensures
        views(r@) == head_links_model(),
{
    let font = HeadLink {
        rel: "stylesheet".to_owned(),
        href: "https://fonts.googleapis.com/css2?family=Inter:wght@300;400;500;600;700&display=swap".to_owned(),
        media_type: None,
    };
    let icon = HeadLink {
        rel: "icon".to_owned(),
        href: "/favicon.jxl".to_owned(),
        media_type: Some("image/jxl".to_owned()),
    };
    let r = vec![font, icon];
    assert(views(r@) =~= head_links_model());
    r
}

/// Every link on the bearcove page has a non-empty label and a non-empty target.
pub proof fn lemma_site_links_filled()
    ensures
        document_links_filled(site_model()),
{
    reveal_strlit("@fasterthanlime");
    reveal_strlit("https://fasterthanli.me");
    reveal_strlit("facet");
    reveal_strlit("https://facet.rs");
    reveal_strlit("home");
    reveal_strlit("https://home.bearcove.eu");
    reveal_strlit("rubicon");
    reveal_strlit("https://github.com/bearcove/rubicon");
    reveal_strlit("dylo");
    reveal_strlit("https://github.com/bearcove/dylo");
    reveal_strlit("rc-zip");
    reveal_strlit("https://github.com/bearcove/rc-zip");
    reveal_strlit("timelord");
    reveal_strlit("https://github.com/fasterthanlime/timelord");
    reveal_strlit("loona");
    reveal_strlit("https://github.com/bearcove/loona");
    reveal_strlit("merde");
    reveal_strlit("https://github.com/bearcove/merde");
    reveal_strlit("fasterthanli.me");
    reveal_strlit("YouTube @fasterthanlime");
    reveal_strlit("https://youtube.com/@fasterthanlime");
    reveal_strlit("GitHub Sponsors");
    reveal_strlit("https://github.com/sponsors/fasterthanlime");
    reveal_strlit("Patreon");
    reveal_strlit("https://patreon.com/fasterthanlime");
    reveal_strlit("OneVariable UG");
    reveal_strlit("https://onevariable.com");
    reveal_strlit("Self-Directed Research");
    reveal_strlit("https://sdr-podcast.com");
    reveal_strlit("admin@bearcove.eu");
    reveal_strlit("mailto:admin@bearcove.eu");
    reveal_strlit("Hetzner");
    reveal_strlit("https://hetzner.com");
    reveal_strlit("gcore");
    reveal_strlit("https://gcore.com");
    let d = site_model();
    assert(document_links_filled(d));
}

/// The bearcove page's sections come in the order open source, content
/// creation, legal.
pub proof fn lemma_site_heading_order()
    ensures
        headings(site_model()) == seq!["Open source"@, "Content creation"@, "Legal / Mentions légales"@],
{
    assert(headings(site_model()) =~= seq![
        "Open source"@,
        "Content creation"@,
        "Legal / Mentions légales"@,
    ]);
}

/// The legal section holds the address block, whose markup is exactly five
/// lines: company name, street, care-of line, postal code and city, country.
pub proof fn lemma_site_address_lines()
    ensures
        site_model().sections[2].style == SectionStyle::Legal,
        site_model().sections[2].blocks[2] == BlockView::Address(address_lines()),
        address_lines().len() == 5,
        lines_markup(address_lines()) == escape("bearcove SARL"@) + "<br/>"@ + escape(
            "4 Quai Jean Moulin"@,
        ) + "<br/>"@ + escape("c/o La Cordée SAS"@) + "<br/>"@ + escape("69001 Lyon"@) + "<br/>"@
            + escape("France"@),
{
    let ls = address_lines();
    let l1 = seq![ls[0]];
    let l2 = seq![ls[0], ls[1]];
    let l3 = seq![ls[0], ls[1], ls[2]];
    let l4 = seq![ls[0], ls[1], ls[2], ls[3]];
    assert(lines_markup(l1) == escape(ls[0]));
    assert(l2.drop_last() =~= l1);
    assert(lines_markup(l2) == lines_markup(l1) + "<br/>"@ + escape(ls[1]));
    assert(l3.drop_last() =~= l2);
    assert(lines_markup(l3) == lines_markup(l2) + "<br/>"@ + escape(ls[2]));
    assert(l4.drop_last() =~= l3);
    assert(lines_markup(l4) == lines_markup(l3) + "<br/>"@ + escape(ls[3]));
    assert(ls.drop_last() =~= l4);
    assert(lines_markup(ls) == lines_markup(l4) + "<br/>"@ + escape(ls[4]));
}

/// In the open-source section the maintained lists and the inactive list
/// carry different classes.
pub proof fn lemma_site_inactive_list_marked()
    ensures
        site_model().sections[0].blocks[1] matches BlockView::List(l) && l.style == ListStyle::Normal,
        site_model().sections[0].blocks[3] matches BlockView::List(l) && l.style == ListStyle::Normal,
        site_model().sections[0].blocks[5] matches BlockView::List(l) && l.style
            == ListStyle::Inactive,
        list_class(ListFamily::Project, ListStyle::Inactive) != list_class(
            ListFamily::Project,
            ListStyle::Normal,
        ),
{
    crate::markup::lemma_inactive_class_distinct(ListFamily::Project, ListFamily::Project);
}

/// Whether the rule for `selector` sets a smaller size at a viewport `width`
/// pixels wide than on the desktop.
pub open spec fn shrinks_at(rules: Seq<FontRuleView>, selector: Seq<char>, width: nat) -> bool {
    rule_for(rules, selector) matches Some(r) && size_at(r, width) < size_at(
        r,
        TABLET_MAX_WIDTH as nat + 1,
    )
}

/// Up to the tablet breakpoint the logo and the section headings are set
/// smaller than on the desktop, and up to the phone breakpoint smaller
/// still than on a tablet.
pub proof fn lemma_site_headings_shrink(width: nat)
    requires
        width <= TABLET_MAX_WIDTH,
    ensures
        shrinks_at(site_type_model(), ".logo"@, width),
        shrinks_at(site_type_model(), ".section h2"@, width),
        width <= PHONE_MAX_WIDTH ==> size_at(site_type_model()[0], width) < size_at(
            site_type_model()[0],
            TABLET_MAX_WIDTH as nat,
        ),
        width <= PHONE_MAX_WIDTH ==> size_at(site_type_model()[3], width) < size_at(
            site_type_model()[3],
            TABLET_MAX_WIDTH as nat,
        ),
{
    reveal_strlit(".logo");
    reveal_strlit(".tagline");
    reveal_strlit(".hero-text");
    reveal_strlit(".section h2");
    reveal_strlit(".section p");
    reveal_strlit(".footer");
    let t = site_type_model();
    assert(t.drop_last() =~= t.take(5));
    assert(t.take(5).drop_last() =~= t.take(4));
    assert(t.take(4).drop_last() =~= t.take(3));
    assert(t.take(3).drop_last() =~= t.take(2));
    assert(t.take(2).drop_last() =~= t.take(1));
    assert(t[5].selector.len() != ".logo"@.len());
    assert(t[4].selector.len() != ".logo"@.len());
    assert(t[3].selector.len() != ".logo"@.len());
    assert(t[2].selector.len() != ".logo"@.len());
    assert(t[1].selector.len() != ".logo"@.len());
    assert(t[5].selector.len() != ".section h2"@.len());
    assert(t[4].selector.len() != ".section h2"@.len());
    assert(t.take(5).last() == t[4]);
    assert(t.take(4).last() == t[3]);
    assert(t.take(3).last() == t[2]);
    assert(t.take(2).last() == t[1]);
    assert(t.take(1).last() == t[0]);
    assert(rule_for(t, ".section h2"@) == rule_for(t.take(5), ".section h2"@));
    assert(rule_for(t.take(5), ".section h2"@) == rule_for(t.take(4), ".section h2"@));
    assert(rule_for(t, ".section h2"@) == Some(t[3]));
    assert(rule_for(t, ".logo"@) == rule_for(t.take(5), ".logo"@));
    assert(rule_for(t.take(5), ".logo"@) == rule_for(t.take(4), ".logo"@));
    assert(rule_for(t.take(4), ".logo"@) == rule_for(t.take(3), ".logo"@));
    assert(rule_for(t.take(3), ".logo"@) == rule_for(t.take(2), ".logo"@));
    assert(rule_for(t.take(2), ".logo"@) == rule_for(t.take(1), ".logo"@));
    assert(rule_for(t, ".logo"@) == Some(t[0]));
}

} // verus!
