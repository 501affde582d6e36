use vstd::prelude::*;

verus! {

/// The abstract value of each element of a sequence.
pub open spec fn views<T: View>(s: Seq<T>) -> Seq<T::V> {
    s.map_values(|x: T| x@)
}

/// An outbound hyperlink.
pub struct Link {
    pub label: String,
    pub url: String,
    /// Whether the link opens in a new browsing context.
    pub new_tab: bool,
    /// Whether the label is set in bold.
    pub strong: bool,
}

pub struct LinkView {
    pub label: Seq<char>,
    pub url: Seq<char>,
    pub new_tab: bool,
    pub strong: bool,
}

impl View for Link {
    type V = LinkView;

    open spec fn view(&self) -> LinkView {
        LinkView { label: self.label@, url: self.url@, new_tab: self.new_tab, strong: self.strong }
    }
}

/// One piece of running text.
pub enum Fragment {
    Text(String),
    Strong(String),
    Link(Link),
}

pub enum FragmentView {
    Text(Seq<char>),
    Strong(Seq<char>),
    Link(LinkView),
}

impl View for Fragment {
    type V = FragmentView;

    open spec fn view(&self) -> FragmentView {
        match self {
            Fragment::Text(t) => FragmentView::Text(t@),
            Fragment::Strong(t) => FragmentView::Strong(t@),
            Fragment::Link(l) => FragmentView::Link(l@),
        }
    }
}

/// A paragraph or list item: text and links in order.
pub struct RichText {
    pub fragments: Vec<Fragment>,
}

impl View for RichText {
    type V = Seq<FragmentView>;

    open spec fn view(&self) -> Seq<FragmentView> {
        views(self.fragments@)
    }
}

/// Which kind of list a block is, which picks its bullet styling.
#[derive(Clone, Copy, PartialEq, Eq, Structural)]
pub enum ListFamily {
    Project,
    Content,
}

/// Whether the entries of a list are current or no longer maintained.
#[derive(Clone, Copy, PartialEq, Eq, Structural)]
pub enum ListStyle {
    Normal,
    Inactive,
}

pub struct ListBlock {
    pub family: ListFamily,
    pub style: ListStyle,
    pub items: Vec<RichText>,
}

pub struct ListBlockView {
    pub family: ListFamily,
    pub style: ListStyle,
    pub items: Seq<Seq<FragmentView>>,
}

impl View for ListBlock {
    type V = ListBlockView;

    open spec fn view(&self) -> ListBlockView {
        ListBlockView { family: self.family, style: self.style, items: views(self.items@) }
    }
}

/// An embedded video player.
pub struct Video {
    pub src: String,
    pub title: String,
}

pub struct VideoView {
    pub src: Seq<char>,
    pub title: Seq<char>,
}

impl View for Video {
    type V = VideoView;

    open spec fn view(&self) -> VideoView {
        VideoView { src: self.src@, title: self.title@ }
    }
}

/// One block of a section's body.
pub enum Block {
    Paragraph(RichText),
    List(ListBlock),
    /// A postal address, one entry per line.
    Address(Vec<String>),
    Video(Video),
}

pub enum BlockView {
    Paragraph(Seq<FragmentView>),
    List(ListBlockView),
    Address(Seq<Seq<char>>),
    Video(VideoView),
}

impl View for Block {
    type V = BlockView;

    open spec fn view(&self) -> BlockView {
        match self {
            Block::Paragraph(r) => BlockView::Paragraph(r@),
            Block::List(l) => BlockView::List(l@),
            Block::Address(lines) => BlockView::Address(views(lines@)),
            Block::Video(v) => BlockView::Video(v@),
        }
    }
}

/// Legal sections are set apart from the others by their styling.
#[derive(Clone, Copy, PartialEq, Eq, Structural)]
pub enum SectionStyle {
    Plain,
    Legal,
}

pub struct Section {
    pub heading: String,
    pub style: SectionStyle,
    pub blocks: Vec<Block>,
}

pub struct SectionView {
    pub heading: Seq<char>,
    pub style: SectionStyle,
    pub blocks: Seq<BlockView>,
}

impl View for Section {
    type V = SectionView;

    open spec fn view(&self) -> SectionView {
        SectionView { heading: self.heading@, style: self.style, blocks: views(self.blocks@) }
    }
}

/// The page banner: the site's name and a one-line tagline.
pub struct Header {
    pub name: String,
    pub tagline: String,
}

pub struct HeaderView {
    pub name: Seq<char>,
    pub tagline: Seq<char>,
}

impl View for Header {
    type V = HeaderView;

    open spec fn view(&self) -> HeaderView {
        HeaderView { name: self.name@, tagline: self.tagline@ }
    }
}

/// The introduction: a short bio followed by a video.
pub struct Hero {
    pub text: RichText,
    pub video: Video,
}

pub struct HeroView {
    pub text: Seq<FragmentView>,
    pub video: VideoView,
}

impl View for Hero {
    type V = HeroView;

    open spec fn view(&self) -> HeroView {
        HeroView { text: self.text@, video: self.video@ }
    }
}

/// The whole page.
pub struct Document {
    pub header: Header,
    pub hero: Hero,
    pub sections: Vec<Section>,
    pub footer: RichText,
}

pub struct DocumentView {
    pub header: HeaderView,
    pub hero: HeroView,
    pub sections: Seq<SectionView>,
    pub footer: Seq<FragmentView>,
}

impl View for Document {
    type V = DocumentView;

    open spec fn view(&self) -> DocumentView {
        DocumentView {
            header: self.header@,
            hero: self.hero@,
            sections: views(self.sections@),
            footer: self.footer@,
        }
    }
}

/// Every link of a run of text has a non-empty label and a non-empty target.
pub open spec fn rich_links_filled(r: Seq<FragmentView>) -> bool {
    forall|i: int|
        0 <= i < r.len() ==> (#[trigger] r[i] matches FragmentView::Link(l) ==> l.label.len() > 0
            && l.url.len() > 0)
}

pub open spec fn block_links_filled(b: BlockView) -> bool {
    match b {
        BlockView::Paragraph(r) => rich_links_filled(r),
        BlockView::List(l) => forall|j: int|
            0 <= j < l.items.len() ==> rich_links_filled(#[trigger] l.items[j]),
        _ => true,
    }
}

pub open spec fn section_links_filled(s: SectionView) -> bool {
    forall|k: int| 0 <= k < s.blocks.len() ==> block_links_filled(#[trigger] s.blocks[k])
}

/// Every link anywhere in the document has a non-empty label and target.
pub open spec fn document_links_filled(d: DocumentView) -> bool {
    &&& rich_links_filled(d.hero.text)
    &&& rich_links_filled(d.footer)
    &&& forall|k: int| 0 <= k < d.sections.len() ==> section_links_filled(#[trigger] d.sections[k])
}

/// The headings of the document's sections, in order.
pub open spec fn headings(d: DocumentView) -> Seq<Seq<char>> {
    d.sections.map_values(|s: SectionView| s.heading)
}

} // verus!
