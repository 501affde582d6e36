use vstd::prelude::*;
use crate::model::{
    views, Block, BlockView, Document, DocumentView, Fragment, FragmentView, Header, HeaderView, Hero,
    HeroView, Link, LinkView, ListBlock, ListBlockView, ListFamily, ListStyle, RichText, Section,
    SectionStyle, SectionView, Video, VideoView,
};

verus! {

/// The characters that stand for `c` in HTML text or a quoted attribute value.
pub open spec fn escape_char(c: char) -> Seq<char> {
    if c == '&' {
        "&amp;"@
    } else if c == '<' {
        "&lt;"@
    } else if c == '>' {
        "&gt;"@
    } else if c == '"' {
        "&quot;"@
    } else if c == '\'' {
        "&#39;"@
    } else {
        seq![c]
    }
}

/// `s` with every character escaped.
pub open spec fn escape(s: Seq<char>) -> Seq<char>
    decreases s.len(),
{
    if s.len() == 0 {
        Seq::empty()
    } else {
        escape(s.drop_last()) + escape_char(s.last())
    }
}

/// Appends `s`, escaped, to `out`.
pub fn push_escaped(out: &mut String, s: &str)
    ensures
        final(out)@ == old(out)@ + escape(s@),
{
    let n = s.unicode_len();
    let ghost start = out@;
    let mut i: usize = 0;
    while i < n
        invariant
            n == s@.len(),
            i <= n,
            out@ == start + escape(s@.take(i as int)),
        decreases n - i,
    {
        let c = s.get_char(i);
        if c == '&' {
            out.append("&amp;");
        } else if c == '<' {
            out.append("&lt;");
        } else if c == '>' {
            out.append("&gt;");
        } else if c == '"' {
            out.append("&quot;");
        } else if c == '\'' {
            out.append("&#39;");
        } else {
            out.append(s.substring_char(i, i + 1));
        }
        proof {
            assert(s@.take(i + 1).drop_last() =~= s@.take(i as int));
            assert(s@.subrange(i as int, i + 1) =~= seq![c]);
        }
        i = i + 1;
    }
    proof {
        assert(s@.take(n as int) =~= s@);
    }
}

/// An anchor element for `l`.
pub open spec fn link_markup(l: LinkView) -> Seq<char> {
    "<a href=\""@ + escape(l.url) + "\""@ + (if l.new_tab {
        " target=\"_blank\""@
    } else {
        Seq::empty()
    }) + ">"@ + (if l.strong {
        "<strong>"@ + escape(l.label) + "</strong>"@
    } else {
        escape(l.label)
    }) + "</a>"@
}

pub open spec fn fragment_markup(f: FragmentView) -> Seq<char> {
    match f {
        FragmentView::Text(t) => escape(t),
        FragmentView::Strong(t) => "<strong>"@ + escape(t) + "</strong>"@,
        FragmentView::Link(l) => link_markup(l),
    }
}

/// The fragments' markup, one after the other.
pub open spec fn rich_markup(r: Seq<FragmentView>) -> Seq<char>
    decreases r.len(),
{
    if r.len() == 0 {
        Seq::empty()
    } else {
        rich_markup(r.drop_last()) + fragment_markup(r.last())
    }
}

/// The class attribute of a list; inactive lists carry an extra class.
pub open spec fn list_class(family: ListFamily, style: ListStyle) -> Seq<char> {
    match (family, style) {
        (ListFamily::Project, ListStyle::Normal) => "project-list"@,
        (ListFamily::Project, ListStyle::Inactive) => "project-list inactive"@,
        (ListFamily::Content, ListStyle::Normal) => "content-list"@,
        (ListFamily::Content, ListStyle::Inactive) => "content-list inactive"@,
    }
}

pub open spec fn items_markup(items: Seq<Seq<FragmentView>>) -> Seq<char>
    decreases items.len(),
{
    if items.len() == 0 {
        Seq::empty()
    } else {
        items_markup(items.drop_last()) + "<li>"@ + rich_markup(items.last()) + "</li>"@
    }
}

pub open spec fn list_markup(l: ListBlockView) -> Seq<char> {
    "<ul class=\""@ + list_class(l.family, l.style) + "\">"@ + items_markup(l.items) + "</ul>"@
}

/// The lines, escaped, with a line break between each two.
pub open spec fn lines_markup(lines: Seq<Seq<char>>) -> Seq<char>
    decreases lines.len(),
{
    if lines.len() == 0 {
        Seq::empty()
    } else if lines.len() == 1 {
        escape(lines[0])
    } else {
        lines_markup(lines.drop_last()) + "<br/>"@ + escape(lines.last())
    }
}

pub open spec fn video_markup(v: VideoView) -> Seq<char> {
    "<div class=\"video-container\"><iframe width=\"100%\" height=\"315\" src=\""@ + escape(v.src)
        + "\" title=\""@ + escape(v.title) + "\" frameborder=\"0\" allow=\""@ + VIDEO_ALLOW@
        + "\" allowfullscreen></iframe></div>"@
}

pub open spec fn block_markup(b: BlockView) -> Seq<char> {
    match b {
        BlockView::Paragraph(r) => "<p>"@ + rich_markup(r) + "</p>"@,
        BlockView::List(l) => list_markup(l),
        BlockView::Address(lines) => "<blockquote class=\"address\">"@ + lines_markup(lines)
            + "</blockquote>"@,
        BlockView::Video(v) => video_markup(v),
    }
}

pub open spec fn blocks_markup(bs: Seq<BlockView>) -> Seq<char>
    decreases bs.len(),
{
    if bs.len() == 0 {
        Seq::empty()
    } else {
        blocks_markup(bs.drop_last()) + block_markup(bs.last())
    }
}

pub open spec fn section_class(style: SectionStyle) -> Seq<char> {
    match style {
        SectionStyle::Plain => "section"@,
        SectionStyle::Legal => "section legal"@,
    }
}

pub open spec fn section_markup(s: SectionView) -> Seq<char> {
    "<section class=\""@ + section_class(s.style) + "\"><h2>"@ + escape(s.heading) + "</h2>"@
        + blocks_markup(s.blocks) + "</section>"@
}

pub open spec fn sections_markup(ss: Seq<SectionView>) -> Seq<char>
    decreases ss.len(),
{
    if ss.len() == 0 {
        Seq::empty()
    } else {
        sections_markup(ss.drop_last()) + section_markup(ss.last())
    }
}

pub open spec fn header_markup(h: HeaderView) -> Seq<char> {
    "<header class=\"header\"><div class=\"logo-section\"><h1 class=\"logo\">"@ + escape(h.name)
        + "</h1><p class=\"tagline\">"@ + escape(h.tagline) + "</p></div></header>"@
}

pub open spec fn hero_markup(h: HeroView) -> Seq<char> {
    "<section class=\"hero\"><p class=\"hero-text\">"@ + rich_markup(h.text) + "</p>"@
        + video_markup(h.video) + "</section>"@
}

/// The markup of a whole page.
pub open spec fn document_markup(d: DocumentView) -> Seq<char> {
    "<div class=\"container\">"@ + header_markup(d.header) + "<main class=\"main-content\">"@
        + hero_markup(d.hero) + sections_markup(d.sections) + "</main><footer class=\"footer\"><p>"@
        + rich_markup(d.footer) + "</p></footer></div>"@
}

/// The markup is a function of the document's content alone: equal
/// documents render to the same characters.
pub proof fn lemma_render_deterministic(a: DocumentView, b: DocumentView)
    requires
        a == b,
    ensures
        document_markup(a) == document_markup(b),
{
}

/// An inactive list never carries the class of an active one.
pub proof fn lemma_inactive_class_distinct(inactive: ListFamily, active: ListFamily)
    ensures
        list_class(inactive, ListStyle::Inactive) != list_class(active, ListStyle::Normal),
{
    reveal_strlit("project-list");
    reveal_strlit("project-list inactive");
    reveal_strlit("content-list");
    reveal_strlit("content-list inactive");
    assert(list_class(inactive, ListStyle::Inactive).len() != list_class(
        active,
        ListStyle::Normal,
    ).len());
}

/// The features that the embedded player is allowed to use.
pub const VIDEO_ALLOW: &'static str =
    "accelerometer; autoplay; clipboard-write; encrypted-media; gyroscope; picture-in-picture; web-share";

pub fn push_link(out: &mut String, l: &Link)
    ensures
        final(out)@ == old(out)@ + link_markup(l@),
{
    let ghost start = out@;
    out.append("<a href=\"");
    push_escaped(out, l.url.as_str());
    out.append("\"");
    let ghost mid = out@;
    if l.new_tab {
        out.append(" target=\"_blank\"");
    }
    assert(out@ =~= mid + (if l.new_tab { " target=\"_blank\""@ } else { Seq::empty() }));
    out.append(">");
    let ghost mid2 = out@;
    if l.strong {
        out.append("<strong>");
        push_escaped(out, l.label.as_str());
        out.append("</strong>");
    } else {
        push_escaped(out, l.label.as_str());
    }
    assert(out@ =~= mid2 + (if l.strong {
        "<strong>"@ + escape(l.label@) + "</strong>"@
    } else {
        escape(l.label@)
    }));
    out.append("</a>");
    assert(out@ =~= start + link_markup(l@));
}

pub fn push_fragment(out: &mut String, f: &Fragment)
    ensures
        final(out)@ == old(out)@ + fragment_markup(f@),
{
    let ghost start = out@;
    match f {
        Fragment::Text(t) => push_escaped(out, t.as_str()),
        Fragment::Strong(t) => {
            out.append("<strong>");
            push_escaped(out, t.as_str());
            out.append("</strong>");
            assert(out@ =~= start + fragment_markup(f@));
        },
        Fragment::Link(l) => push_link(out, l),
    }
}

pub fn push_rich(out: &mut String, r: &RichText)
    ensures
        final(out)@ == old(out)@ + rich_markup(r@),
{
    let ghost start = out@;
    let mut i: usize = 0;
    while i < r.fragments.len()
        invariant
            i <= r.fragments@.len(),
            out@ == start + rich_markup(r@.take(i as int)),
        decreases r.fragments@.len() - i,
    {
        push_fragment(out, &r.fragments[i]);
        proof {
            assert(r@.take(i + 1).drop_last() =~= r@.take(i as int));
            assert(out@ =~= start + rich_markup(r@.take(i + 1)));
        }
        i = i + 1;
    }
    assert(r@.take(i as int) =~= r@);
}

pub fn push_list(out: &mut String, l: &ListBlock)
    ensures
        final(out)@ == old(out)@ + list_markup(l@),
{
    let ghost start = out@;
    out.append("<ul class=\"");
    match (l.family, l.style) {
        (ListFamily::Project, ListStyle::Normal) => out.append("project-list"),
        (ListFamily::Project, ListStyle::Inactive) => out.append("project-list inactive"),
        (ListFamily::Content, ListStyle::Normal) => out.append("content-list"),
        (ListFamily::Content, ListStyle::Inactive) => out.append("content-list inactive"),
    }
    out.append("\">");
    let ghost mid = out@;
    let ghost items = l@.items;
    let mut i: usize = 0;
    while i < l.items.len()
        invariant
            i <= l.items@.len(),
            items == l@.items,
            out@ == mid + items_markup(items.take(i as int)),
        decreases l.items@.len() - i,
    {
        out.append("<li>");
        push_rich(out, &l.items[i]);
        out.append("</li>");
        proof {
            assert(items.take(i + 1).drop_last() =~= items.take(i as int));
            assert(out@ =~= mid + items_markup(items.take(i + 1)));
        }
        i = i + 1;
    }
    assert(items.take(i as int) =~= items);
    out.append("</ul>");
    assert(out@ =~= start + list_markup(l@));
}

pub fn push_lines(out: &mut String, lines: &Vec<String>)
    ensures
        final(out)@ == old(out)@ + lines_markup(views(lines@)),
{
    let ghost start = out@;
    let ghost ls = views(lines@);
    let mut i: usize = 0;
    while i < lines.len()
        invariant
            i <= lines@.len(),
            ls == views(lines@),
            out@ == start + lines_markup(ls.take(i as int)),
        decreases lines@.len() - i,
    {
        if i > 0 {
            out.append("<br/>");
        }
        push_escaped(out, lines[i].as_str());
        proof {
            assert(ls.take(i + 1).drop_last() =~= ls.take(i as int));
            assert(out@ =~= start + lines_markup(ls.take(i + 1)));
        }
        i = i + 1;
    }
    assert(ls.take(i as int) =~= ls);
}

pub fn push_video(out: &mut String, v: &Video)
    ensures
        final(out)@ == old(out)@ + video_markup(v@),
{
    let ghost start = out@;
    out.append("<div class=\"video-container\"><iframe width=\"100%\" height=\"315\" src=\"");
    push_escaped(out, v.src.as_str());
    out.append("\" title=\"");
    push_escaped(out, v.title.as_str());
    out.append("\" frameborder=\"0\" allow=\"");
    out.append(VIDEO_ALLOW);
    out.append("\" allowfullscreen></iframe></div>");
    assert(out@ =~= start + video_markup(v@));
}

pub fn push_block(out: &mut String, b: &Block)
    ensures
        final(out)@ == old(out)@ + block_markup(b@),
{
    let ghost start = out@;
    match b {
        Block::Paragraph(r) => {
            out.append("<p>");
            push_rich(out, r);
            out.append("</p>");
            assert(out@ =~= start + block_markup(b@));
        },
        Block::List(l) => push_list(out, l),
        Block::Address(lines) => {
            out.append("<blockquote class=\"address\">");
            push_lines(out, lines);
            out.append("</blockquote>");
            assert(out@ =~= start + block_markup(b@));
        },
        Block::Video(v) => push_video(out, v),
    }
}

pub fn push_section(out: &mut String, s: &Section)
    ensures
        final(out)@ == old(out)@ + section_markup(s@),
{
    let ghost start = out@;
    out.append("<section class=\"");
    match s.style {
        SectionStyle::Plain => out.append("section"),
        SectionStyle::Legal => out.append("section legal"),
    }
    out.append("\"><h2>");
    push_escaped(out, s.heading.as_str());
    out.append("</h2>");
    let ghost mid = out@;
    let ghost bs = s@.blocks;
    let mut i: usize = 0;
    while i < s.blocks.len()
        invariant
            i <= s.blocks@.len(),
            bs == s@.blocks,
            out@ == mid + blocks_markup(bs.take(i as int)),
        decreases s.blocks@.len() - i,
    {
        push_block(out, &s.blocks[i]);
        proof {
            assert(bs.take(i + 1).drop_last() =~= bs.take(i as int));
            assert(out@ =~= mid + blocks_markup(bs.take(i + 1)));
        }
        i = i + 1;
    }
    assert(bs.take(i as int) =~= bs);
    out.append("</section>");
    assert(out@ =~= start + section_markup(s@));
}

pub fn push_header(out: &mut String, h: &Header)
    ensures
        final(out)@ == old(out)@ + header_markup(h@),
{
    let ghost start = out@;
    out.append("<header class=\"header\"><div class=\"logo-section\"><h1 class=\"logo\">");
    push_escaped(out, h.name.as_str());
    out.append("</h1><p class=\"tagline\">");
    push_escaped(out, h.tagline.as_str());
    out.append("</p></div></header>");
    assert(out@ =~= start + header_markup(h@));
}

pub fn push_hero(out: &mut String, h: &Hero)
    ensures
        final(out)@ == old(out)@ + hero_markup(h@),
{
    let ghost start = out@;
    out.append("<section class=\"hero\"><p class=\"hero-text\">");
    push_rich(out, &h.text);
    out.append("</p>");
    push_video(out, &h.video);
    out.append("</section>");
    assert(out@ =~= start + hero_markup(h@));
}

/// The page's markup. It depends on the document alone.
pub fn render_document(d: &Document) -> (r: String)
    ensures
        r@ == document_markup(d@),
{
    let mut out = String::new();
    out.append("<div class=\"container\">");
    push_header(&mut out, &d.header);
    out.append("<main class=\"main-content\">");
    push_hero(&mut out, &d.hero);
    let ghost mid = out@;
    let ghost ss = d@.sections;
    let mut i: usize = 0;
    while i < d.sections.len()
        invariant
            i <= d.sections@.len(),
            ss == d@.sections,
            out@ == mid + sections_markup(ss.take(i as int)),
        decreases d.sections@.len() - i,
    {
        push_section(&mut out, &d.sections[i]);
        proof {
            assert(ss.take(i + 1).drop_last() =~= ss.take(i as int));
            assert(out@ =~= mid + sections_markup(ss.take(i + 1)));
        }
        i = i + 1;
    }
    assert(ss.take(i as int) =~= ss);
    out.append("</main><footer class=\"footer\"><p>");
    push_rich(&mut out, &d.footer);
    out.append("</p></footer></div>");
    assert(out@ =~= document_markup(d@));
    out
}

} // verus!
