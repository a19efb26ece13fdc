use term_portfolio::content::{
    App, ContentError, Experience, Experiences, FunStuff, FunStuffs, Span, StyledLine, Summary,
};
use term_portfolio::scene::bulleted;
use term_portfolio::style::{ColorName, TextStyle};

fn job(title: &str) -> Experience {
    Experience { title: title.to_string(), achievements: vec![] }
}

fn project(title: &str, url: &str) -> FunStuff {
    FunStuff { title: title.to_string(), url: url.to_string() }
}

#[test]
fn construction_requires_exact_counts() {
    let ok = App::new(
        "A".to_string(),
        Summary { text: "s".to_string() },
        vec![job("a"), job("b"), job("c")],
        vec![project("p", "u"), project("q", "v")],
    );
    assert!(ok.is_ok());

    let too_few_jobs = App::new(
        "A".to_string(),
        Summary { text: "s".to_string() },
        vec![job("a"), job("b")],
        vec![project("p", "u"), project("q", "v")],
    );
    assert_eq!(too_few_jobs.unwrap_err(), ContentError::WrongJobCount);

    let too_many_projects = App::new(
        "A".to_string(),
        Summary { text: "s".to_string() },
        vec![job("a"), job("b"), job("c")],
        vec![project("p", "u"), project("q", "v"), project("r", "w")],
    );
    assert_eq!(too_many_projects.unwrap_err(), ContentError::WrongProjectCount);
}

#[test]
fn job_list_requires_three_entries() {
    assert!(Experiences::new(vec![job("a"), job("b"), job("c")]).is_ok());
    assert_eq!(
        Experiences::new(vec![]).unwrap_err(),
        ContentError::WrongJobCount
    );
    assert_eq!(
        Experiences::new(vec![job("a"), job("b"), job("c"), job("d")]).unwrap_err(),
        ContentError::WrongJobCount
    );
}

#[test]
fn project_list_requires_two_entries() {
    assert!(FunStuffs::new(vec![project("p", "u"), project("q", "v")]).is_ok());
    assert_eq!(
        FunStuffs::new(vec![project("p", "u")]).unwrap_err(),
        ContentError::WrongProjectCount
    );
}

#[test]
fn default_content_shape() {
    let app = App::default();
    assert_eq!(app.name, "Yew Jung");
    assert_eq!(app.experiences.jobs.len(), 3);
    assert_eq!(app.experiences.jobs[0].title, "Backend Engineer @ BigPay");
    assert_eq!(app.experiences.jobs[0].achievements.len(), 7);
    assert_eq!(
        app.experiences.jobs[1].title,
        "Senior Software Engineer @ Theta Service Partner"
    );
    assert_eq!(app.experiences.jobs[1].achievements.len(), 3);
    assert_eq!(app.experiences.jobs[2].title, "Software Engineer @ Theta Service Partner");
    assert_eq!(app.experiences.jobs[2].achievements.len(), 2);
    assert_eq!(app.fun_stuffs.stuffs.len(), 2);
    assert_eq!(app.fun_stuffs.stuffs[0].title, "Multiplayer Poker Game");
    assert_eq!(app.fun_stuffs.stuffs[0].url, "https://www.github.com/yewjung/poker-rust");
    assert_eq!(app.fun_stuffs.stuffs[1].title, "Deck API");
    assert_eq!(app.fun_stuffs.stuffs[1].url, "https://www.github.com/yewjung/deck");
    // Highlighted leads keep their emphasis in the stored content.
    let lead = &app.experiences.jobs[0].achievements[0].spans[0];
    assert_eq!(lead.style, TextStyle { fg: ColorName::LightGreen, bold: true, underlined: false });
}

#[test]
fn bullet_prefix_preserves_segments() {
    let line = StyledLine {
        spans: vec![
            Span {
                text: "Did a thing ".to_string(),
                style: TextStyle { fg: ColorName::LightGreen, bold: true, underlined: false },
            },
            Span {
                text: "quite well".to_string(),
                style: TextStyle { fg: ColorName::Reset, bold: false, underlined: false },
            },
        ],
    };
    let out = bulleted(&line);
    assert_eq!(out.spans.len(), 3);
    assert_eq!(out.spans[0].text, "• ");
    assert_eq!(
        out.spans[0].style,
        TextStyle { fg: ColorName::Reset, bold: false, underlined: false }
    );
    assert_eq!(out.spans[1], line.spans[0]);
    assert_eq!(out.spans[2], line.spans[1]);
}
