use histogram::chart::{data_max, ChartError, Histogram, Series};
use histogram::geometry::PlotArea;
use histogram::scene::{node_markup, SceneNode};

fn series(name: &str, color: &str, values: Vec<Option<u64>>) -> Series {
    Series { name: name.to_owned(), color: color.to_owned(), values }
}

fn demo() -> Histogram {
    Histogram::new(
        800,
        400,
        "Histogram Example".to_owned(),
        "Rewards Distribution".to_owned(),
        vec!["Jul 14".to_owned(), "Jul 21".to_owned()],
        vec![series("Staked", "#ffaa88", vec![Some(35129025), Some(42437593)])],
    )
}

fn attr_of(n: &SceneNode, name: &str) -> Option<String> {
    match n {
        SceneNode::Element { attrs, .. } => attrs
            .iter()
            .find(|a| a.name == name)
            .map(|a| a.value.clone()),
        SceneNode::Text(_) => None,
    }
}

fn children_of(n: &SceneNode) -> &[SceneNode] {
    match n {
        SceneNode::Element { children, .. } => children,
        SceneNode::Text(_) => &[],
    }
}

fn text_content(n: &SceneNode) -> String {
    match n {
        SceneNode::Text(s) => s.clone(),
        SceneNode::Element { children, .. } => {
            let mut out = String::new();
            for c in children {
                out.push_str(&text_content(c));
            }
            out
        }
    }
}

fn find_group<'a>(root: &'a SceneNode, class: &str) -> Option<&'a SceneNode> {
    for c in children_of(root) {
        if attr_of(c, "class").as_deref() == Some(class) {
            return Some(c);
        }
    }
    None
}

#[test]
fn render_end_to_end_example() {
    let scene = demo().render().unwrap();
    assert_eq!(attr_of(&scene, "viewBox").unwrap(), "0 0 800 400");
    assert_eq!(
        attr_of(&scene, "xmlns").unwrap(),
        "http://www.w3.org/2000/svg"
    );
    let x_axis = find_group(&scene, "x-axis").unwrap();
    let labels = children_of(x_axis);
    assert_eq!(labels.len(), 2);
    assert_eq!(text_content(&labels[0]), "Jul 14");
    assert_eq!(text_content(&labels[1]), "Jul 21");
    let x0: i64 = attr_of(&labels[0], "x").unwrap().parse().unwrap();
    let x1: i64 = attr_of(&labels[1], "x").unwrap().parse().unwrap();
    assert!(x0 < x1);
    let caption = children_of(&scene).last().unwrap();
    assert_eq!(text_content(caption), "Rewards Distribution");
}

#[test]
fn render_end_to_end_markup() {
    let markup = demo().render_markup().unwrap();
    assert!(markup.starts_with("<svg viewBox=\"0 0 800 400\" xmlns=\"http://www.w3.org/2000/svg\">"));
    assert!(markup.contains("<text y=\"390\" x=\"80\">Jul 14</text>"));
    assert!(markup.contains("<text y=\"390\" x=\"442\">Jul 21</text>"));
    assert!(markup.contains(">Rewards Distribution</text>"));
    assert!(markup.contains("<desc>Histogram Example</desc>"));
    assert!(markup.ends_with("</svg>"));
}

#[test]
fn render_twice_is_byte_identical() {
    let chart = demo();
    let first = chart.render_markup().unwrap();
    let second = chart.render_markup().unwrap();
    assert_eq!(first, second);
}

#[test]
fn render_rejects_series_length_mismatch() {
    let chart = Histogram::new(
        800,
        400,
        "d".to_owned(),
        "".to_owned(),
        vec!["a".to_owned(), "b".to_owned(), "c".to_owned()],
        vec![series("s", "#fff", vec![Some(1), Some(2)])],
    );
    assert_eq!(chart.render().unwrap_err(), ChartError::SeriesLengthMismatch);
    assert_eq!(
        chart.render_markup().unwrap_err(),
        ChartError::SeriesLengthMismatch
    );
}

#[test]
fn render_rejects_empty_categories() {
    let chart = Histogram::new(
        800,
        400,
        "d".to_owned(),
        "".to_owned(),
        vec![],
        vec![series("s", "#fff", vec![])],
    );
    assert_eq!(chart.render().unwrap_err(), ChartError::EmptyCategories);
}

#[test]
fn render_rejects_canvas_smaller_than_padding() {
    let chart = Histogram::new(
        50,
        50,
        "d".to_owned(),
        "".to_owned(),
        vec!["a".to_owned()],
        vec![series("s", "#fff", vec![Some(1)])],
    );
    assert_eq!(chart.render().unwrap_err(), ChartError::InvalidPlotArea);
}

#[test]
fn caption_node_only_when_caption_nonempty() {
    let with = demo();
    assert_eq!(children_of(&with.render().unwrap()).len(), 7);
    let mut without = demo();
    without.caption = String::new();
    let scene = without.render().unwrap();
    assert_eq!(children_of(&scene).len(), 6);
    assert!(without.caption().is_none());
}

#[test]
fn missing_values_render_without_marks_or_zeros() {
    let chart = Histogram::new(
        800,
        400,
        "d".to_owned(),
        "".to_owned(),
        vec!["a".to_owned(), "b".to_owned()],
        vec![series("s", "#fff", vec![None, Some(5)])],
    );
    let markup = chart.render_markup().unwrap();
    // the missing slot contributes nothing; in particular no zero mark
    let scene = chart.render().unwrap();
    let x_axis = find_group(&scene, "x-axis").unwrap();
    assert_eq!(children_of(x_axis).len(), 2);
    assert!(!markup.contains(">5<"));
}

#[test]
fn data_max_skips_missing_values() {
    let s = vec![series("s", "#fff", vec![None, Some(5), None])];
    assert_eq!(data_max(&s), Some(5));
}

#[test]
fn data_max_of_all_missing_is_absent_not_zero() {
    let s = vec![series("s", "#fff", vec![None, None])];
    assert_eq!(data_max(&s), None);
    assert_eq!(data_max(&vec![]), None);
}

#[test]
fn data_max_across_series() {
    let s = vec![
        series("a", "#fff", vec![Some(3), None]),
        series("b", "#000", vec![Some(9), Some(1)]),
    ];
    assert_eq!(data_max(&s), Some(9));
}

#[test]
fn border_markup_exact() {
    let chart = demo();
    let plot = PlotArea { left: 60, top: 45, width: 725, height: 330 };
    let markup = node_markup(&chart.border(&plot));
    assert_eq!(
        markup,
        "<rect x=\"60\" y=\"45\" width=\"725\" height=\"330\" \
         style=\"fill: url(#pattern-2); fill-opacity: 0.2; stroke: rgb(105, 105, 104);\"></rect>"
    );
}

#[test]
fn y_axis_has_fixed_tick_ladder() {
    let chart = demo();
    let y_axis = chart.y_axis();
    let ticks = children_of(&y_axis);
    assert_eq!(ticks.len(), 9);
    assert_eq!(text_content(&ticks[0]), "0.00%");
    assert_eq!(attr_of(&ticks[0], "y").unwrap(), "420");
    assert_eq!(text_content(&ticks[8]), "0.016%");
    assert_eq!(attr_of(&ticks[8], "y").unwrap(), "60");
}

#[test]
fn text_is_escaped_in_markup() {
    let chart = Histogram::new(
        800,
        400,
        "a<b>&\"c".to_owned(),
        "".to_owned(),
        vec!["x&y".to_owned()],
        vec![series("s", "#fff", vec![Some(1)])],
    );
    let markup = chart.render_markup().unwrap();
    assert!(markup.contains("<desc>a&lt;b&gt;&amp;&quot;c</desc>"));
    assert!(markup.contains(">x&amp;y</text>"));
}
