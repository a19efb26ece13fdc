use term_portfolio::content::App;
use term_portfolio::geometry::{split_vertical, Region};
use term_portfolio::scene::Element;
use term_portfolio::style::{ColorName, TextStyle};

fn rect(x: u16, y: u16, width: u16, height: u16) -> Region {
    Region { x, y, width, height }
}

fn elem_region(e: &Element) -> Region {
    match e {
        Element::Panel(p) => p.region,
        Element::Paragraph(p) => p.region,
        Element::Link(l) => l.region,
    }
}

fn within(outer: Region, inner: Region) -> bool {
    outer.x <= inner.x
        && outer.y <= inner.y
        && inner.x as u32 + inner.width as u32 <= outer.x as u32 + outer.width as u32
        && inner.y as u32 + inner.height as u32 <= outer.y as u32 + outer.height as u32
}

#[test]
fn scene_at_100_by_40() {
    let app = App::default();
    let scene = app.render(rect(0, 0, 100, 40));
    assert_eq!(scene.len(), 11);
    // The unused top band has height 3, so the outer frame gets the
    // remaining content band of height 37.
    assert_eq!(elem_region(&scene[0]), rect(0, 3, 100, 37));
    // The frame's interior (height 35) splits 10/20/70 into 3/7/25.
    assert_eq!(elem_region(&scene[1]), rect(1, 4, 98, 3));
    assert_eq!(elem_region(&scene[2]), rect(1, 7, 98, 7));
    assert_eq!(elem_region(&scene[7]), rect(1, 14, 98, 25));
    // The fun-stuff interior (height 5) splits 50/50 into bands of 2 and 3,
    // and each project band is halved again for caption and link.
    assert_eq!(elem_region(&scene[3]), rect(2, 8, 96, 1));
    assert_eq!(elem_region(&scene[4]), rect(2, 9, 96, 1));
    assert_eq!(elem_region(&scene[5]), rect(2, 10, 96, 1));
    assert_eq!(elem_region(&scene[6]), rect(2, 11, 96, 2));
    // The experience interior (height 23) splits 50/25/25 into 11/6/6.
    assert_eq!(elem_region(&scene[8]), rect(2, 15, 96, 11));
    assert_eq!(elem_region(&scene[9]), rect(2, 26, 96, 6));
    assert_eq!(elem_region(&scene[10]), rect(2, 32, 96, 6));
}

#[test]
fn percentage_split_rounding() {
    // The section proportions applied to a band of height 37: 10/20/70
    // rounds to 4/7/26.
    let bands = split_vertical(rect(0, 0, 100, 37), &vec![10, 20, 70]);
    let heights: Vec<u16> = bands.iter().map(|r| r.height).collect();
    assert_eq!(heights, vec![4, 7, 26]);
    // The experience proportions applied to a band of height 26: 50/25/25
    // rounds to 13/6/7.
    let bands = split_vertical(rect(0, 0, 100, 26), &vec![50, 25, 25]);
    let heights: Vec<u16> = bands.iter().map(|r| r.height).collect();
    assert_eq!(heights, vec![13, 6, 7]);
    // An odd height halves into two bands that differ by one.
    let bands = split_vertical(rect(0, 0, 10, 5), &vec![50, 50]);
    let heights: Vec<u16> = bands.iter().map(|r| r.height).collect();
    assert_eq!(heights, vec![2, 3]);
}

#[test]
fn rendering_stays_within_viewport() {
    let app = App::default();
    for (w, h) in [(0u16, 0u16), (1, 1), (2, 5), (7, 9), (80, 24), (100, 40), (500, 200), (65535, 65535)] {
        let vp = rect(0, 0, w, h);
        let scene = app.render(vp);
        assert_eq!(scene.len(), 11);
        for e in &scene {
            assert!(within(vp, elem_region(e)), "element outside {}x{} viewport", w, h);
        }
    }
}

#[test]
fn rendering_twice_is_identical() {
    let app = App::default();
    let vp = rect(0, 0, 120, 50);
    let first = app.render(vp);
    let second = app.render(vp);
    assert_eq!(first, second);
}

#[test]
fn achievement_lines_start_with_bullet() {
    let app = App::default();
    let scene = app.render(rect(0, 0, 100, 40));
    let plain = TextStyle { fg: ColorName::Reset, bold: false, underlined: false };
    for (i, job) in app.experiences.jobs.iter().enumerate() {
        let para = match &scene[8 + i] {
            Element::Paragraph(p) => p,
            other => panic!("expected a paragraph, got {:?}", other),
        };
        assert_eq!(para.lines.len(), 1 + job.achievements.len());
        // The title line: one bold, underlined segment.
        assert_eq!(para.lines[0].spans.len(), 1);
        assert_eq!(para.lines[0].spans[0].text, job.title);
        assert_eq!(
            para.lines[0].spans[0].style,
            TextStyle { fg: ColorName::Reset, bold: true, underlined: true }
        );
        for (j, achievement) in job.achievements.iter().enumerate() {
            let line = &para.lines[1 + j];
            assert_eq!(line.spans[0].text, "• ");
            assert_eq!(line.spans[0].style, plain);
            assert_eq!(line.spans.len(), 1 + achievement.spans.len());
            for (k, span) in achievement.spans.iter().enumerate() {
                assert_eq!(&line.spans[1 + k], span);
            }
        }
    }
}

#[test]
fn experience_bands_are_proportional() {
    let app = App::default();
    for (w, h) in [(10u16, 7u16), (40, 13), (80, 25), (98, 102), (30, 1000)] {
        let region = rect(0, 0, w, h);
        let scene = app.experiences.render(region);
        assert_eq!(scene.len(), 4);
        let interior_height: i64 = if h >= 2 { (h - 2) as i64 } else { 0 };
        let heights: Vec<i64> =
            (1..4).map(|k| elem_region(&scene[k]).height as i64).collect();
        assert_eq!(heights.iter().sum::<i64>(), interior_height);
        for (band, share) in heights.iter().zip([50i64, 25, 25]) {
            assert!(
                (100 * band - share * interior_height).abs() <= 100,
                "band {} far from {}% of {}",
                band,
                share,
                interior_height
            );
        }
    }
}

#[test]
fn fun_stuff_bands_are_equal() {
    let app = App::default();
    for (w, h) in [(10u16, 7u16), (40, 13), (80, 24), (98, 9)] {
        let region = rect(0, 0, w, h);
        let scene = app.fun_stuffs.render(region);
        assert_eq!(scene.len(), 5);
        let interior_height: i64 = if h >= 2 { (h - 2) as i64 } else { 0 };
        // Each project band is the caption half plus the link half.
        let first = (elem_region(&scene[1]).height + elem_region(&scene[2]).height) as i64;
        let second = (elem_region(&scene[3]).height + elem_region(&scene[4]).height) as i64;
        assert_eq!(first + second, interior_height);
        assert!((first - second).abs() <= 1);
    }
}

#[test]
fn summary_panel_shape() {
    let app = App::default();
    let scene = app.render(rect(0, 0, 100, 40));
    let para = match &scene[1] {
        Element::Paragraph(p) => p,
        other => panic!("expected a paragraph, got {:?}", other),
    };
    assert!(para.bordered);
    assert_eq!(para.title.as_deref(), Some("Summary"));
    assert!(para.wrap_trim);
    assert_eq!(para.fg, ColorName::White);
    assert_eq!(para.bg, ColorName::Black);
    assert_eq!(para.lines.len(), 1);
    assert_eq!(para.lines[0].spans[0].text, app.summary.text);
}

#[test]
fn link_elements_carry_project_urls() {
    let app = App::default();
    let scene = app.render(rect(0, 0, 100, 40));
    let first = match &scene[4] {
        Element::Link(l) => l,
        other => panic!("expected a link, got {:?}", other),
    };
    let second = match &scene[6] {
        Element::Link(l) => l,
        other => panic!("expected a link, got {:?}", other),
    };
    assert_eq!(first.url, app.fun_stuffs.stuffs[0].url);
    assert_eq!(second.url, app.fun_stuffs.stuffs[1].url);
}
