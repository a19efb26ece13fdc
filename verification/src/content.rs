//! The portfolio's content model: styled text lines, job entries with their
//! achievements, side-project links, and the application root that owns all
//! of it. Counts are tied to the fixed layout splits and checked eagerly at
//! construction.

use crate::style::TextStyle;
use vstd::prelude::*;

verus! {

/// A text fragment with its presentation attributes.
#[derive(Debug, Clone, PartialEq, Eq)]
pub struct Span {
    pub text: String,
    pub style: TextStyle,
}

/// What a `Span` is mathematically: its characters and style.
#[verifier::ext_equal]
pub struct SpanModel {
    pub text: Seq<char>,
    pub style: TextStyle,
}

impl View for Span {
    type V = SpanModel;

    open spec fn view(&self) -> SpanModel {
        SpanModel { text: self.text@, style: self.style }
    }
}

/// One line of styled text: an ordered sequence of spans.
#[derive(Debug, Clone, PartialEq, Eq)]
pub struct StyledLine {
    pub spans: Vec<Span>,
}

#[verifier::ext_equal]
pub struct LineModel {
    pub spans: Seq<SpanModel>,
}

impl View for StyledLine {
    type V = LineModel;

    open spec fn view(&self) -> LineModel {
        LineModel { spans: self.spans@.map_values(|s: Span| s@) }
    }
}

/// The fixed paragraph of the summary panel.
#[derive(Debug, Clone, PartialEq, Eq)]
pub struct Summary {
    pub text: String,
}

/// One job entry: a title and its bullet-pointed achievement lines.
#[derive(Debug, Clone, PartialEq, Eq)]
pub struct Experience {
    pub title: String,
    pub achievements: Vec<StyledLine>,
}

#[verifier::ext_equal]
pub struct ExperienceModel {
    pub title: Seq<char>,
    pub achievements: Seq<LineModel>,
}

impl View for Experience {
    type V = ExperienceModel;

    open spec fn view(&self) -> ExperienceModel {
        ExperienceModel {
            title: self.title@,
            achievements: self.achievements@.map_values(|l: StyledLine| l@),
        }
    }
}

/// The number of job entries the experience layout is split for.
pub const JOB_COUNT: usize = 3;

/// The number of side projects the fun-stuff layout is split for.
pub const PROJECT_COUNT: usize = 2;

/// The job list; the layout splits its section into exactly [`JOB_COUNT`]
/// bands, so a well-formed list holds exactly that many entries.
#[derive(Debug, Clone, PartialEq, Eq)]
pub struct Experiences {
    pub jobs: Vec<Experience>,
}

#[verifier::ext_equal]
pub struct ExperiencesModel {
    pub jobs: Seq<ExperienceModel>,
}

impl View for Experiences {
    type V = ExperiencesModel;

    open spec fn view(&self) -> ExperiencesModel {
        ExperiencesModel { jobs: self.jobs@.map_values(|e: Experience| e@) }
    }
}

impl Experiences {
    pub open spec fn wf(self) -> bool {
        self.jobs@.len() == JOB_COUNT
    }
}

impl ExperiencesModel {
    pub open spec fn wf(self) -> bool {
        self.jobs.len() == JOB_COUNT
    }
}

/// One side project: a caption and the address it links to.
#[derive(Debug, Clone, PartialEq, Eq)]
pub struct FunStuff {
    pub title: String,
    pub url: String,
}

#[verifier::ext_equal]
pub struct FunStuffModel {
    pub title: Seq<char>,
    pub url: Seq<char>,
}

impl View for FunStuff {
    type V = FunStuffModel;

    open spec fn view(&self) -> FunStuffModel {
        FunStuffModel { title: self.title@, url: self.url@ }
    }
}

/// The side-project list; the layout splits its section into exactly
/// [`PROJECT_COUNT`] bands.
#[derive(Debug, Clone, PartialEq, Eq)]
pub struct FunStuffs {
    pub stuffs: Vec<FunStuff>,
}

#[verifier::ext_equal]
pub struct FunStuffsModel {
    pub stuffs: Seq<FunStuffModel>,
}

impl View for FunStuffs {
    type V = FunStuffsModel;

    open spec fn view(&self) -> FunStuffsModel {
        FunStuffsModel { stuffs: self.stuffs@.map_values(|f: FunStuff| f@) }
    }
}

impl FunStuffs {
    pub open spec fn wf(self) -> bool {
        self.stuffs@.len() == PROJECT_COUNT
    }
}

impl FunStuffsModel {
    pub open spec fn wf(self) -> bool {
        self.stuffs.len() == PROJECT_COUNT
    }
}

/// Why construction of the application was refused.
#[derive(Clone, Copy, PartialEq, Eq, Structural, Debug)]
pub enum ContentError {
    /// The job list does not hold exactly [`JOB_COUNT`] entries.
    WrongJobCount,
    /// The project list does not hold exactly [`PROJECT_COUNT`] entries.
    WrongProjectCount,
}

/// The application root: owns the static content and renders it on demand.
#[derive(Debug, Clone, PartialEq, Eq)]
pub struct App {
    pub name: String,
    pub summary: Summary,
    pub experiences: Experiences,
    pub fun_stuffs: FunStuffs,
}

#[verifier::ext_equal]
pub struct AppModel {
    pub name: Seq<char>,
    pub summary: Seq<char>,
    pub experiences: ExperiencesModel,
    pub fun_stuffs: FunStuffsModel,
}

impl View for App {
    type V = AppModel;

    open spec fn view(&self) -> AppModel {
        AppModel {
            name: self.name@,
            summary: self.summary.text@,
            experiences: self.experiences@,
            fun_stuffs: self.fun_stuffs@,
        }
    }
}

impl App {
    pub open spec fn wf(self) -> bool {
        self.experiences.wf() && self.fun_stuffs.wf()
    }
}

impl AppModel {
    pub open spec fn wf(self) -> bool {
        self.experiences.wf() && self.fun_stuffs.wf()
    }
}

/// A line of a single plainly-styled segment.
pub fn plain_line(text: &str) -> (r: StyledLine)
    ensures
        r@ == (LineModel { spans: seq![SpanModel { text: text@, style: crate::style::plain_spec() }] }),
{
    let mut spans: Vec<Span> = Vec::new();
    spans.push(Span { text: String::from_str(text), style: TextStyle::plain() });
    let r = StyledLine { spans };
    proof {
        assert(r@.spans =~~= seq![SpanModel { text: text@, style: crate::style::plain_spec() }]);
    }
    r
}

/// A line whose lead segment is highlighted and whose rest is plain.
pub fn lead_line(lead: &str, rest: &str) -> (r: StyledLine)
    ensures
        r@ == (LineModel {
            spans: seq![
                SpanModel { text: lead@, style: crate::style::highlight_style_spec() },
                SpanModel { text: rest@, style: crate::style::plain_spec() },
            ],
        }),
{
    let mut spans: Vec<Span> = Vec::new();
    spans.push(Span { text: String::from_str(lead), style: TextStyle::highlight() });
    spans.push(Span { text: String::from_str(rest), style: TextStyle::plain() });
    let r = StyledLine { spans };
    proof {
        assert(r@.spans =~~= seq![
            SpanModel { text: lead@, style: crate::style::highlight_style_spec() },
            SpanModel { text: rest@, style: crate::style::plain_spec() },
        ]);
    }
    r
}

impl Experiences {
    /// Accepts the job list only when its count matches the fixed three-way
    /// layout split.
    pub fn new(jobs: Vec<Experience>) -> (r: Result<Experiences, ContentError>)
        ensures
            r is Ok <==> jobs@.len() == JOB_COUNT,
            r is Ok ==> r->Ok_0 == (Experiences { jobs }),
            r is Err ==> r->Err_0 == ContentError::WrongJobCount,
    {
        if jobs.len() == JOB_COUNT {
            Ok(Experiences { jobs })
        } else {
            Err(ContentError::WrongJobCount)
        }
    }
}

impl FunStuffs {
    /// Accepts the project list only when its count matches the fixed
    /// two-way layout split.
    pub fn new(stuffs: Vec<FunStuff>) -> (r: Result<FunStuffs, ContentError>)
        ensures
            r is Ok <==> stuffs@.len() == PROJECT_COUNT,
            r is Ok ==> r->Ok_0 == (FunStuffs { stuffs }),
            r is Err ==> r->Err_0 == ContentError::WrongProjectCount,
    {
        if stuffs.len() == PROJECT_COUNT {
            Ok(FunStuffs { stuffs })
        } else {
            Err(ContentError::WrongProjectCount)
        }
    }
}

impl App {
    /// Builds the application root, validating the content counts against
    /// the fixed layout splits eagerly; a mismatch is rejected, never
    /// silently tolerated or truncated.
    pub fn new(name: String, summary: Summary, jobs: Vec<Experience>, stuffs: Vec<FunStuff>) -> (r:
        Result<App, ContentError>)
        ensures
            r is Ok <==> jobs@.len() == JOB_COUNT && stuffs@.len() == PROJECT_COUNT,
            r is Ok ==> r->Ok_0 == (App {
                name,
                summary,
                experiences: Experiences { jobs },
                fun_stuffs: FunStuffs { stuffs },
            }),
            r is Ok ==> r->Ok_0.wf(),
            r is Err ==> (r->Err_0 == ContentError::WrongJobCount <==> jobs@.len() != JOB_COUNT),
            r is Err ==> (r->Err_0 == ContentError::WrongProjectCount <==> jobs@.len() == JOB_COUNT
                && stuffs@.len() != PROJECT_COUNT),
    {
        if jobs.len() != JOB_COUNT {
            Err(ContentError::WrongJobCount)
        } else if stuffs.len() != PROJECT_COUNT {
            Err(ContentError::WrongProjectCount)
        } else {
            Ok(App { name, summary, experiences: Experiences { jobs }, fun_stuffs: FunStuffs { stuffs } })
        }
    }
}

impl Default for App {
    /// The portfolio's fixed content: the page owner's name, the summary
    /// paragraph, three job entries with their achievements, and two side
    /// projects with their addresses.
    fn default() -> (r: App)
        ensures
            r.wf(),
            r@.name == "Yew Jung"@,
            r@.experiences.jobs[0].title == "Backend Engineer @ BigPay"@,
            r@.experiences.jobs[0].achievements.len() == 7,
            r@.experiences.jobs[1].title == "Senior Software Engineer @ Theta Service Partner"@,
            r@.experiences.jobs[1].achievements.len() == 3,
            r@.experiences.jobs[2].title == "Software Engineer @ Theta Service Partner"@,
            r@.experiences.jobs[2].achievements.len() == 2,
            r@.fun_stuffs.stuffs[0].title == "Multiplayer Poker Game"@,
            r@.fun_stuffs.stuffs[0].url == "https://www.github.com/yewjung/poker-rust"@,
            r@.fun_stuffs.stuffs[1].title == "Deck API"@,
            r@.fun_stuffs.stuffs[1].url == "https://www.github.com/yewjung/deck"@,
    {
        let mut first: Vec<StyledLine> = Vec::new();
        first.push(lead_line(
            "Led the architecture and implementation ",
            "of credit and debit card top-ups, enabling seamless funding of user wallets at scale",
        ));
        first.push(lead_line(
            "Designed and built ",
            "a new in-person onboarding flow, significantly streamlining the signup process for face-to-face customer interactions",
        ));
        first.push(lead_line(
            "Led the development ",
            "of a feature enabling users to make charity donations through the app, integrating with external partners to ensure secure, user-friendly transactions.",
        ));
        first.push(lead_line(
            "Redesigned a core transaction storage system ",
            "improving performance, reliability, and maintainability while reducing system complexity.",
        ));
        first.push(lead_line(
            "Architected and delivered ",
            "a budget tracking service that empowers users to set and monitor overall and category-specific spending limits.",
        ));
        first.push(lead_line(
            "Built a real-time monitoring and alerting infrastructure ",
            "using Grafana and Prometheus to detect unusual user behaviours and potential malicious activities.",
        ));
        first.push(lead_line(
            "Integrated Singpass",
            ", Singapore’s digital identity service, into the signup flow for Singaporean users, ensuring seamless onboarding experience.",
        ));
        let mut second: Vec<StyledLine> = Vec::new();
        second.push(lead_line(
            "Led and design and implementation ",
            "of an internal backend framework to streamline workflows and improve engineering efficiency.",
        ));
        second.push(lead_line(
            "Optimized loan system performance ",
            "for financial clients achieving a 10x reduction in response time.",
        ));
        second.push(lead_line(
            "Mentored and onboarded ",
            "new engineers, helping them ramp up quickly and contribute effectively to client projects.",
        ));
        let mut third: Vec<StyledLine> = Vec::new();
        third.push(plain_line("Created internal tools, optimising team workflows and productivity"));
        third.push(plain_line(
            "Provided support to UK-based client projects and managed server deployment for seamless system operations",
        ));
        let mut jobs: Vec<Experience> = Vec::new();
        jobs.push(Experience {
            title: String::from_str("Backend Engineer @ BigPay"),
            achievements: first,
        });
        jobs.push(Experience {
            title: String::from_str("Senior Software Engineer @ Theta Service Partner"),
            achievements: second,
        });
        jobs.push(Experience {
            title: String::from_str("Software Engineer @ Theta Service Partner"),
            achievements: third,
        });
        let mut stuffs: Vec<FunStuff> = Vec::new();
        stuffs.push(FunStuff {
            title: String::from_str("Multiplayer Poker Game"),
            url: String::from_str("https://www.github.com/yewjung/poker-rust"),
        });
        stuffs.push(FunStuff {
            title: String::from_str("Deck API"),
            url: String::from_str("https://www.github.com/yewjung/deck"),
        });
        App {
            name: String::from_str("Yew Jung"),
            summary: Summary {
                text: String::from_str(
                    "Backend engineer with 5+ years of experience building scalable systems in fintech. Skilled in leading architecture, improving performance, and delivering product features end-to-end.",
                ),
            },
            experiences: Experiences { jobs },
            fun_stuffs: FunStuffs { stuffs },
        }
    }
}

} // verus!
