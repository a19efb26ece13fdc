//! The composed visual output. Rendering is a pure function from the static
//! content and the current viewport to a flat list of placed elements:
//! bordered panels, paragraphs of styled lines, and hyperlink placements,
//! each with the region it occupies. Painting the elements onto a terminal
//! surface — border glyphs, word-wrapping, click handling — is the job of
//! the embedding program and its rendering library.

use crate::content::{
    App, AppModel, Experience, ExperienceModel, Experiences, ExperiencesModel, FunStuff,
    FunStuffModel, FunStuffs, FunStuffsModel, LineModel, Span, SpanModel, StyledLine, Summary,
};
use crate::geometry::{
    inner_region, inner_spec, split_heights, split_top, split_top_spec, split_vertical,
    stacked_spec, Region,
};
use crate::laws::lemma_app_scene_within;
use crate::style::{
    accent_style_spec, highlight_style_spec, plain_spec, title_style_spec, ColorName, TextStyle,
};
use vstd::prelude::*;

verus! {

/// A bordered, optionally rounded panel with a styled caption.
#[derive(Debug, Clone, PartialEq, Eq)]
pub struct PanelElem {
    pub region: Region,
    pub title: Span,
    pub title_centered: bool,
    pub rounded: bool,
    pub bg: ColorName,
}

/// A block of styled lines, word-wrapped to its region when `wrap_trim` is
/// set; `bordered` panels carry their caption in `title`.
#[derive(Debug, Clone, PartialEq, Eq)]
pub struct ParagraphElem {
    pub region: Region,
    pub bordered: bool,
    pub title: Option<String>,
    pub lines: Vec<StyledLine>,
    pub fg: ColorName,
    pub bg: ColorName,
    pub wrap_trim: bool,
}

/// A clickable address placed in its region.
#[derive(Debug, Clone, PartialEq, Eq)]
pub struct LinkElem {
    pub region: Region,
    pub url: String,
}

/// One placed element of the composed output.
#[derive(Debug, Clone, PartialEq, Eq)]
pub enum Element {
    Panel(PanelElem),
    Paragraph(ParagraphElem),
    Link(LinkElem),
}

#[verifier::ext_equal]
pub struct PanelModel {
    pub region: Region,
    pub title: SpanModel,
    pub title_centered: bool,
    pub rounded: bool,
    pub bg: ColorName,
}

#[verifier::ext_equal]
pub struct ParagraphModel {
    pub region: Region,
    pub bordered: bool,
    pub title: Option<Seq<char>>,
    pub lines: Seq<LineModel>,
    pub fg: ColorName,
    pub bg: ColorName,
    pub wrap_trim: bool,
}

#[verifier::ext_equal]
pub struct LinkModel {
    pub region: Region,
    pub url: Seq<char>,
}

#[verifier::ext_equal]
pub enum ElemModel {
    Panel(PanelModel),
    Paragraph(ParagraphModel),
    Link(LinkModel),
}

impl View for PanelElem {
    type V = PanelModel;

    open spec fn view(&self) -> PanelModel {
        PanelModel {
            region: self.region,
            title: self.title@,
            title_centered: self.title_centered,
            rounded: self.rounded,
            bg: self.bg,
        }
    }
}

impl View for ParagraphElem {
    type V = ParagraphModel;

    open spec fn view(&self) -> ParagraphModel {
        ParagraphModel {
            region: self.region,
            bordered: self.bordered,
            title: match self.title {
                Some(t) => Some(t@),
                None => None,
            },
            lines: self.lines@.map_values(|l: StyledLine| l@),
            fg: self.fg,
            bg: self.bg,
            wrap_trim: self.wrap_trim,
        }
    }
}

impl View for LinkElem {
    type V = LinkModel;

    open spec fn view(&self) -> LinkModel {
        LinkModel { region: self.region, url: self.url@ }
    }
}

impl View for Element {
    type V = ElemModel;

    open spec fn view(&self) -> ElemModel {
        match self {
            Element::Panel(p) => ElemModel::Panel(p@),
            Element::Paragraph(p) => ElemModel::Paragraph(p@),
            Element::Link(l) => ElemModel::Link(l@),
        }
    }
}

/// The region an element occupies.
pub open spec fn region_of(e: ElemModel) -> Region {
    match e {
        ElemModel::Panel(p) => p.region,
        ElemModel::Paragraph(p) => p.region,
        ElemModel::Link(l) => l.region,
    }
}

/// The models of a list of elements.
pub open spec fn views(s: Seq<Element>) -> Seq<ElemModel> {
    s.map_values(|e: Element| e@)
}

fn copy_string(s: &String) -> (r: String)
    ensures
        r@ == s@,
{
    String::from_str(s.as_str())
}

pub open spec fn bullet_span_model() -> SpanModel {
    SpanModel { text: "• "@, style: plain_spec() }
}

/// A line with the bullet glyph prepended as a new, plainly-styled first
/// segment; the original segments follow unchanged.
pub open spec fn bulleted_model(l: LineModel) -> LineModel {
    LineModel { spans: seq![bullet_span_model()] + l.spans }
}

/// Prepends the bullet glyph "• " to a line. The bullet becomes the first
/// segment, carries no styling of its own, and every original segment keeps
/// its text and emphasis, in order.
pub fn bulleted(l: &StyledLine) -> (r: StyledLine)
    ensures
        r@ == bulleted_model(l@),
{
    let mut spans: Vec<Span> = Vec::new();
    spans.push(Span { text: String::from_str("• "), style: TextStyle::plain() });
    let mut k: usize = 0;
    while k < l.spans.len()
        invariant
            k <= l.spans@.len(),
            spans@.len() == 1 + k,
            spans@[0]@ == bullet_span_model(),
            forall|j: int| 0 <= j < k ==> (#[trigger] spans@[j + 1])@ == l.spans@[j]@,
        decreases l.spans@.len() - k,
    {
        let sp = &l.spans[k];
        spans.push(Span { text: copy_string(&sp.text), style: sp.style });
        k = k + 1;
    }
    let r = StyledLine { spans };
    proof {
        let bm = bulleted_model(l@);
        assert forall|i: int| 0 <= i < spans@.len() implies (#[trigger] spans@[i])@
            == bm.spans[i] by {
            if i >= 1 {
                assert(spans@[(i - 1) + 1]@ == l.spans@[i - 1]@);
            }
        }
        assert(r@.spans =~~= bm.spans);
    }
    r
}

/// A bordered box titled "Summary" holding one wrapped paragraph of plain
/// text, white on black.
pub open spec fn summary_model(text: Seq<char>, region: Region) -> ElemModel {
    ElemModel::Paragraph(
        ParagraphModel {
            region,
            bordered: true,
            title: Some("Summary"@),
            lines: seq![LineModel { spans: seq![SpanModel { text, style: plain_spec() }] }],
            fg: ColorName::White,
            bg: ColorName::Black,
            wrap_trim: true,
        },
    )
}

impl Summary {
    /// Renders the summary paragraph into its band.
    pub fn render(&self, region: Region) -> (e: Element)
        ensures
            e@ == summary_model(self.text@, region),
    {
        let mut spans: Vec<Span> = Vec::new();
        spans.push(Span { text: copy_string(&self.text), style: TextStyle::plain() });
        let mut lines: Vec<StyledLine> = Vec::new();
        lines.push(StyledLine { spans });
        let e = Element::Paragraph(
            ParagraphElem {
                region,
                bordered: true,
                title: Some(String::from_str("Summary")),
                lines,
                fg: ColorName::White,
                bg: ColorName::Black,
                wrap_trim: true,
            },
        );
        proof {
            assert(e@ =~~= summary_model(self.text@, region));
        }
        e
    }
}

/// A job title line: one segment, bold and underlined.
pub open spec fn title_line_model(title: Seq<char>) -> LineModel {
    LineModel { spans: seq![SpanModel { text: title, style: title_style_spec() }] }
}

/// One job's paragraph: the title line followed by one bulleted line per
/// achievement, wrapped to the band, white on black.
pub open spec fn experience_para_model(e: ExperienceModel, region: Region) -> ElemModel {
    ElemModel::Paragraph(
        ParagraphModel {
            region,
            bordered: false,
            title: None,
            lines: seq![title_line_model(e.title)] + e.achievements.map_values(
                |l: LineModel| bulleted_model(l),
            ),
            fg: ColorName::White,
            bg: ColorName::Black,
            wrap_trim: true,
        },
    )
}

impl Experience {
    /// Renders one job entry into its band.
    pub fn render(&self, region: Region) -> (e: Element)
        ensures
            e@ == experience_para_model(self@, region),
    {
        let mut title_spans: Vec<Span> = Vec::new();
        title_spans.push(Span { text: copy_string(&self.title), style: TextStyle::title() });
        let mut lines: Vec<StyledLine> = Vec::new();
        lines.push(StyledLine { spans: title_spans });
        proof {
            assert(lines@[0]@ =~~= title_line_model(self.title@));
        }
        let mut k: usize = 0;
        while k < self.achievements.len()
            invariant
                k <= self.achievements@.len(),
                lines@.len() == 1 + k,
                lines@[0]@ == title_line_model(self.title@),
                forall|j: int|
                    0 <= j < k ==> (#[trigger] lines@[j + 1])@ == bulleted_model(
                        self.achievements@[j]@,
                    ),
            decreases self.achievements@.len() - k,
        {
            lines.push(bulleted(&self.achievements[k]));
            k = k + 1;
        }
        let e = Element::Paragraph(
            ParagraphElem {
                region,
                bordered: false,
                title: None,
                lines,
                fg: ColorName::White,
                bg: ColorName::Black,
                wrap_trim: true,
            },
        );
        proof {
            let m = experience_para_model(self@, region);
            let ml = m->Paragraph_0.lines;
            assert forall|i: int| 0 <= i < lines@.len() implies (#[trigger] lines@[i])@
                == ml[i] by {
                if i >= 1 {
                    assert(lines@[(i - 1) + 1]@ == bulleted_model(self.achievements@[i - 1]@));
                    assert(self@.achievements[i - 1] == self.achievements@[i - 1]@);
                }
            }
            assert(e@->Paragraph_0.lines =~~= ml);
            assert(e@ =~~= m);
        }
        e
    }
}

/// A bordered panel with a styled caption.
pub open spec fn panel_model(
    region: Region,
    title: SpanModel,
    centered: bool,
    rounded: bool,
    bg: ColorName,
) -> ElemModel {
    ElemModel::Panel(PanelModel { region, title, title_centered: centered, rounded, bg })
}

/// The three bands, proportioned 50/25/25, that the experience panel's
/// interior is split into — one per job entry.
pub open spec fn experience_regions(region: Region) -> Seq<Region> {
    let interior = inner_spec(region);
    stacked_spec(interior, split_heights(interior.height as int, seq![50u16, 25u16, 25u16]))
}

/// The experience section: a rounded panel captioned "Experience", then one
/// paragraph per job entry in its 50/25/25 band.
pub open spec fn experiences_scene(m: ExperiencesModel, region: Region) -> Seq<ElemModel> {
    seq![
        panel_model(
            region,
            SpanModel { text: "Experience"@, style: plain_spec() },
            false,
            true,
            ColorName::Reset,
        ),
    ] + Seq::new(m.jobs.len(), |i: int| experience_para_model(m.jobs[i], experience_regions(region)[i]))
}

impl Experiences {
    /// Renders the experience section: the panel, then each job entry in
    /// its own band of the panel's interior.
    pub fn render(&self, region: Region) -> (out: Vec<Element>)
        requires
            self.wf(),
            region.wf(),
        ensures
            views(out@) == experiences_scene(self@, region),
    {
        let mut out: Vec<Element> = Vec::new();
        out.push(
            Element::Panel(
                PanelElem {
                    region,
                    title: Span { text: String::from_str("Experience"), style: TextStyle::plain() },
                    title_centered: false,
                    rounded: true,
                    bg: ColorName::Reset,
                },
            ),
        );
        let interior = inner_region(region);
        let mut ps: Vec<u16> = Vec::new();
        ps.push(50);
        ps.push(25);
        ps.push(25);
        proof {
            assert(ps@ =~= seq![50u16, 25u16, 25u16]);
        }
        let regions = split_vertical(interior, &ps);
        let mut k: usize = 0;
        while k < self.jobs.len()
            invariant
                self.wf(),
                region.wf(),
                k <= 3,
                self.jobs@.len() == 3,
                regions@ == experience_regions(region),
                regions@.len() == 3,
                out@.len() == 1 + k,
                out@[0]@ == experiences_scene(self@, region)[0],
                forall|j: int|
                    0 <= j < k ==> (#[trigger] out@[j + 1])@ == experience_para_model(
                        self@.jobs[j],
                        regions@[j],
                    ),
            decreases 3 - k,
        {
            let e = (&self.jobs[k]).render(regions[k]);
            out.push(e);
            k = k + 1;
        }
        proof {
            assert(views(out@) =~= experiences_scene(self@, region));
        }
        out
    }
}

/// One project's two equal halves: the styled caption above, the hyperlink
/// placement below.
pub open spec fn fun_stuff_scene(f: FunStuffModel, region: Region) -> Seq<ElemModel> {
    let halves = stacked_spec(region, split_heights(region.height as int, seq![50u16, 50u16]));
    seq![
        ElemModel::Paragraph(
            ParagraphModel {
                region: halves[0],
                bordered: false,
                title: None,
                lines: seq![
                    LineModel { spans: seq![SpanModel { text: f.title, style: highlight_style_spec() }] },
                ],
                fg: ColorName::Reset,
                bg: ColorName::Reset,
                wrap_trim: false,
            },
        ),
        ElemModel::Link(LinkModel { region: halves[1], url: f.url }),
    ]
}

impl FunStuff {
    /// Renders one project: caption in the upper half, link in the lower.
    pub fn render(&self, region: Region) -> (out: Vec<Element>)
        requires
            region.wf(),
        ensures
            views(out@) == fun_stuff_scene(self@, region),
    {
        let mut ps: Vec<u16> = Vec::new();
        ps.push(50);
        ps.push(50);
        proof {
            assert(ps@ =~= seq![50u16, 50u16]);
        }
        let halves = split_vertical(region, &ps);
        let mut spans: Vec<Span> = Vec::new();
        spans.push(Span { text: copy_string(&self.title), style: TextStyle::highlight() });
        let mut lines: Vec<StyledLine> = Vec::new();
        lines.push(StyledLine { spans });
        let mut out: Vec<Element> = Vec::new();
        out.push(
            Element::Paragraph(
                ParagraphElem {
                    region: halves[0],
                    bordered: false,
                    title: None,
                    lines,
                    fg: ColorName::Reset,
                    bg: ColorName::Reset,
                    wrap_trim: false,
                },
            ),
        );
        out.push(Element::Link(LinkElem { region: halves[1], url: copy_string(&self.url) }));
        proof {
            assert(views(out@) =~~= fun_stuff_scene(self@, region));
        }
        out
    }
}

/// The two equal bands, one per project, that the fun-stuff panel's
/// interior is split into.
pub open spec fn fun_stuff_regions(region: Region) -> Seq<Region> {
    let interior = inner_spec(region);
    stacked_spec(interior, split_heights(interior.height as int, seq![50u16, 50u16]))
}

/// The fun-stuff section: a rounded panel captioned "Fun Stuffs" in light
/// magenta, then each project's pair of elements in its own band.
pub open spec fn fun_stuffs_scene(m: FunStuffsModel, region: Region) -> Seq<ElemModel> {
    seq![
        panel_model(
            region,
            SpanModel { text: "Fun Stuffs"@, style: accent_style_spec() },
            false,
            true,
            ColorName::Reset,
        ),
    ] + fun_stuff_scene(m.stuffs[0], fun_stuff_regions(region)[0]) + fun_stuff_scene(
        m.stuffs[1],
        fun_stuff_regions(region)[1],
    )
}

impl FunStuffs {
    /// Renders the fun-stuff section: the panel, then each project in its
    /// own band of the panel's interior.
    pub fn render(&self, region: Region) -> (out: Vec<Element>)
        requires
            self.wf(),
            region.wf(),
        ensures
            views(out@) == fun_stuffs_scene(self@, region),
    {
        let mut out: Vec<Element> = Vec::new();
        out.push(
            Element::Panel(
                PanelElem {
                    region,
                    title: Span { text: String::from_str("Fun Stuffs"), style: TextStyle::accent() },
                    title_centered: false,
                    rounded: true,
                    bg: ColorName::Reset,
                },
            ),
        );
        let interior = inner_region(region);
        let mut ps: Vec<u16> = Vec::new();
        ps.push(50);
        ps.push(50);
        proof {
            assert(ps@ =~= seq![50u16, 50u16]);
        }
        let bands = split_vertical(interior, &ps);
        let mut first = (&self.stuffs[0]).render(bands[0]);
        let ghost g_first = first@;
        out.append(&mut first);
        let mut second = (&self.stuffs[1]).render(bands[1]);
        let ghost g_second = second@;
        out.append(&mut second);
        proof {
            assert(bands@ == fun_stuff_regions(region));
            let m = fun_stuffs_scene(self@, region);
            assert(views(out@).len() == m.len());
            assert forall|k: int| 0 <= k < m.len() implies views(out@)[k] == m[k] by {
                assert(views(g_first) == fun_stuff_scene(self@.stuffs[0], bands@[0]));
                assert(views(g_second) == fun_stuff_scene(self@.stuffs[1], bands@[1]));
                if 1 <= k < 3 {
                    assert(out@[k] == g_first[k - 1]);
                    assert(m[k] == fun_stuff_scene(self@.stuffs[0], bands@[0])[k - 1]);
                } else if 3 <= k {
                    assert(out@[k] == g_second[k - 3]);
                    assert(m[k] == fun_stuff_scene(self@.stuffs[1], bands@[1])[k - 3]);
                }
            }
            assert(views(out@) =~= m);
        }
        out
    }
}

/// The content band: everything below the fixed, unused band of height 3 at
/// the top of the viewport.
pub open spec fn content_band(vp: Region) -> Region {
    split_top_spec(vp, 3).1
}

/// The three bands, proportioned 10/20/70, that the outer frame's interior
/// is split into: Summary, Fun Stuffs, Experience.
pub open spec fn section_regions(vp: Region) -> Seq<Region> {
    let interior = inner_spec(content_band(vp));
    stacked_spec(interior, split_heights(interior.height as int, seq![10u16, 20u16, 70u16]))
}

/// The full composition for one paint: the outer frame captioned with the
/// page owner's name on the content band, then the three sections in their
/// 10/20/70 bands of the frame's interior.
pub open spec fn app_scene(m: AppModel, vp: Region) -> Seq<ElemModel> {
    seq![
        panel_model(
            content_band(vp),
            SpanModel { text: m.name, style: plain_spec() },
            true,
            true,
            ColorName::Black,
        ),
    ] + seq![summary_model(m.summary, section_regions(vp)[0])] + fun_stuffs_scene(
        m.fun_stuffs,
        section_regions(vp)[1],
    ) + experiences_scene(m.experiences, section_regions(vp)[2])
}

impl App {
    /// Produces the full visual composition for the current viewport. The
    /// composition is rebuilt from the same immutable content on every call,
    /// and every element's region lies within the viewport.
    pub fn render(&self, viewport: Region) -> (out: Vec<Element>)
        requires
            self.wf(),
            viewport.wf(),
        ensures
            views(out@) == app_scene(self@, viewport),
            forall|k: int|
                0 <= k < out@.len() ==> viewport.contains(region_of(#[trigger] views(out@)[k])),
    {
        let split = split_top(viewport, 3);
        let content = split.1;
        let mut out: Vec<Element> = Vec::new();
        out.push(
            Element::Panel(
                PanelElem {
                    region: content,
                    title: Span { text: copy_string(&self.name), style: TextStyle::plain() },
                    title_centered: true,
                    rounded: true,
                    bg: ColorName::Black,
                },
            ),
        );
        let interior = inner_region(content);
        let mut ps: Vec<u16> = Vec::new();
        ps.push(10);
        ps.push(20);
        ps.push(70);
        proof {
            assert(ps@ =~= seq![10u16, 20u16, 70u16]);
        }
        let bands = split_vertical(interior, &ps);
        out.push(self.summary.render(bands[0]));
        let mut fun = self.fun_stuffs.render(bands[1]);
        let ghost g_fun = fun@;
        out.append(&mut fun);
        let mut exp = self.experiences.render(bands[2]);
        let ghost g_exp = exp@;
        out.append(&mut exp);
        proof {
            assert(bands@ == section_regions(viewport));
            let m = app_scene(self@, viewport);
            assert(views(g_fun).len() == 5);
            assert(views(g_exp).len() == 4);
            assert(views(out@).len() == m.len());
            assert forall|k: int| 0 <= k < m.len() implies views(out@)[k] == m[k] by {
                assert(views(g_fun) == fun_stuffs_scene(self@.fun_stuffs, bands@[1]));
                assert(views(g_exp) == experiences_scene(self@.experiences, bands@[2]));
                if 2 <= k < 7 {
                    assert(out@[k] == g_fun[k - 2]);
                    assert(m[k] == fun_stuffs_scene(self@.fun_stuffs, bands@[1])[k - 2]);
                } else if 7 <= k {
                    assert(out@[k] == g_exp[k - 7]);
                    assert(m[k] == experiences_scene(self@.experiences, bands@[2])[k - 7]);
                }
            }
            assert(views(out@) =~= m);
            lemma_app_scene_within(self@, viewport);
        }
        out
    }
}

} // verus!
