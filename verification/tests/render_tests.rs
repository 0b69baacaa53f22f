use example_plotters::config;
use example_plotters::data::{stub, ChildData, Dataset, ParentData};
use example_plotters::plan::{legend_swatch, plan, RenderPlan};

use plotters::chart::{ChartBuilder, LabelAreaPosition};
use plotters::coord::combinators::{BindKeyPoints, IntoLogRange};
use plotters::drawing::IntoDrawingArea;
use plotters::element::Rectangle;
use plotters::prelude::SVGBackend;
use plotters::series::LineSeries;
use plotters::style::colors::{BLACK, WHITE};
use plotters::style::{AsRelative, Color, IntoFont, RGBColor};

fn render_to_string(p: &RenderPlan) -> String {
    let mut buf = String::new();
    {
        let font = config::font_name();
        let root = SVGBackend::with_string(&mut buf, (p.width, p.height)).into_drawing_area();
        root.fill(&WHITE).unwrap();

        let (upper, lower) = root.split_vertically(p.split_y);
        lower
            .titled(
                config::title_text(),
                (font, p.title_font_size as i32)
                    .into_font()
                    .color(&BLACK.mix(p.title_color_mix_percent as f64 / 100.0)),
            )
            .unwrap();

        let mut chart = ChartBuilder::on(&upper)
            .caption(
                config::caption_text(),
                (font, (p.caption_height_percent as i32).percent_height()),
            )
            .set_label_area_size(
                LabelAreaPosition::Left,
                (p.left_label_percent as i32).percent(),
            )
            .set_label_area_size(
                LabelAreaPosition::Bottom,
                (p.bottom_label_percent as i32).percent(),
            )
            .margin((p.margin_percent as i32).percent())
            .build_cartesian_2d(
                (p.x_min..p.x_max)
                    .log_scale()
                    .with_key_points(p.x_key_points.clone()),
                (p.y_min..p.y_max).with_key_points(p.y_key_points.clone()),
            )
            .unwrap();

        chart
            .configure_mesh()
            .x_desc(config::x_desc_text())
            .y_desc(config::y_desc_text())
            .draw()
            .unwrap();

        for sp in &p.series {
            let color = RGBColor(sp.color.0, sp.color.1, sp.color.2)
                .mix(sp.color_mix_percent as f64 / 100.0);
            chart
                .draw_series(LineSeries::new(
                    sp.points.iter().cloned(),
                    color.stroke_width(sp.stroke_width),
                ))
                .unwrap()
                .label(sp.label.clone())
                .legend(move |(x, y)| {
                    assert!(x <= i32::MAX - 10 && y >= i32::MIN + 5 && y <= i32::MAX - 5);
                    let (c0, c1) = legend_swatch(x, y);
                    Rectangle::new([c0, c1], color.filled())
                });
        }

        chart
            .configure_series_labels()
            .border_style(&BLACK)
            .draw()
            .unwrap();

        root.present().unwrap();
    }
    buf
}

// A small structural XML scan, enough for the markup this backend emits:
// every element tag must nest properly and exactly one root element must
// span the whole document. Returns the root element's name.
fn parse_xml_structure(doc: &str) -> Result<String, String> {
    let mut stack: Vec<String> = Vec::new();
    let mut root: Option<String> = None;
    let mut rest = doc.trim();
    while !rest.is_empty() {
        let Some(open) = rest.find('<') else {
            break;
        };
        let tail = &rest[open + 1..];
        let close = tail.find('>').ok_or("unterminated tag")?;
        let tag = &tail[..close];
        rest = &tail[close + 1..];
        if tag.starts_with('?') || tag.starts_with('!') {
            continue;
        }
        if let Some(name) = tag.strip_prefix('/') {
            let top = stack.pop().ok_or("close tag without open tag")?;
            if top != name.trim() {
                return Err(format!("mismatched tags: {} closed by {}", top, name));
            }
            if stack.is_empty() && !rest.trim().is_empty() {
                return Err("content after the root element".to_string());
            }
        } else {
            let name = tag
                .split(|c: char| c.is_whitespace() || c == '/')
                .next()
                .unwrap_or("")
                .to_string();
            if name.is_empty() {
                return Err("empty tag name".to_string());
            }
            if stack.is_empty() {
                if root.is_some() {
                    return Err("more than one root element".to_string());
                }
                root = Some(name.clone());
            }
            if !tag.ends_with('/') {
                stack.push(name);
            }
        }
    }
    if !stack.is_empty() {
        return Err(format!("unclosed element: {}", stack.pop().unwrap()));
    }
    root.ok_or_else(|| "no root element".to_string())
}

#[test]
fn render_of_stub_parses_as_xml_with_svg_root() {
    let d = stub();
    let p = plan(&d).expect("the stub dataset is valid");
    let svg = render_to_string(&p);
    let root = parse_xml_structure(&svg).expect("output must be well-formed");
    assert_eq!(root, "svg");
}

#[test]
fn render_of_stub_is_nonempty_svg() {
    let d = stub();
    let p = plan(&d).expect("the stub dataset is valid");
    let svg = render_to_string(&p);
    assert!(!svg.is_empty());
    let trimmed = svg.trim();
    assert!(trimmed.starts_with("<?xml") || trimmed.starts_with("<svg"));
    assert!(trimmed.contains("<svg"));
    assert!(trimmed.ends_with("</svg>"));
}

#[test]
fn render_of_stub_has_two_legend_entries_and_colors() {
    let d = stub();
    let p = plan(&d).expect("the stub dataset is valid");
    let svg = render_to_string(&p);
    // The two legend labels are emitted as text elements.
    assert!(svg.contains("\nA\n</text>"));
    assert!(svg.contains("\nB\n</text>"));
    // The two series are stroked in the first two palette colors and in no
    // other palette color.
    assert!(svg.contains("#E6194B"));
    assert!(svg.contains("#3CB44B"));
    assert!(!svg.contains("#FFE119"));
    // The axis descriptions appear.
    assert!(svg.contains("freq [Hz]"));
    assert!(svg.contains("gain [dB]"));
    // The caption and the title appear.
    assert!(svg.contains("FREQUENCY RESPONSE"));
    assert!(svg.contains("log-scale sample"));
}

#[test]
fn render_twice_is_byte_identical() {
    let d = stub();
    let p = plan(&d).expect("the stub dataset is valid");
    let first = render_to_string(&p);
    let p_again = plan(&d).expect("the stub dataset is valid");
    let second = render_to_string(&p_again);
    assert_eq!(first, second);
}

#[test]
fn render_accepts_axis_boundary_frequencies() {
    let d = Dataset {
        entries: vec![(
            "edge".to_string(),
            ParentData { data: vec![ChildData::new(1, 0, 0), ChildData::new(10_000, 100, 0)] },
        )],
    };
    let p = plan(&d).expect("boundary frequencies lie on the axis");
    let svg = render_to_string(&p);
    assert!(svg.trim().ends_with("</svg>"));
}
