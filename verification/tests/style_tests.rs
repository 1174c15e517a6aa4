use histogram::chart::Histogram;
use histogram::style::{build_stylesheet, stylesheet_text};

fn expected_css() -> String {
    let mut css = String::new();
    css.push_str("text {\n  font-family: arial, monospace;\n}\n");
    css.push_str(".y-axis text, .x-axis text {\n  text-anchor: middle;\n  fill: rgb(103, 102, 102);\n  font-size: 12px;\n}\n");
    css.push_str(".label-variant-a {\n  white-space: pre;\n  font-size: 15px;\n  fill: rgb(253, 200, 39);\n  text-anchor: end;\n  word-spacing: 0;\n}\n");
    css.push_str(".label-variant-b {\n  white-space: pre;\n  font-size: 15px;\n  fill: rgb(33, 125, 245);\n  text-anchor: end;\n  word-spacing: 0;\n}\n");
    css.push_str("@media (max-width: 500px) {\n");
    css.push_str(".x-axis text:nth-of-type(2n), .y-axis text:nth-of-type(2n) {\n  transition: opacity 1s ease-in-out;\n  opacity: 0;\n}\n");
    css.push_str(".label-variant-a, .label-variant-b {\n  font-size: 170%;\n}\n");
    css.push_str(".y-axis text {\n  font-size: 120%;\n}\n");
    css.push_str(".x-axis text {\n  font-size: 120%;\n}\n");
    css.push_str("}\n");
    css
}

#[test]
fn stylesheet_text_is_exact_and_order_stable() {
    let sheet = build_stylesheet();
    assert_eq!(stylesheet_text(&sheet), expected_css());
}

#[test]
fn styles_method_matches_builder_output() {
    let chart = Histogram::new(
        800,
        400,
        "d".to_owned(),
        "".to_owned(),
        vec!["a".to_owned()],
        vec![],
    );
    assert_eq!(chart.styles(), expected_css());
    // building twice gives the same text: the stylesheet is a pure
    // function of fixed design constants
    assert_eq!(stylesheet_text(&build_stylesheet()), chart.styles());
}

#[test]
fn stylesheet_structure_has_base_and_media_rules() {
    let sheet = build_stylesheet();
    assert_eq!(sheet.rules.len(), 4);
    assert_eq!(sheet.media_condition, "(max-width: 500px)");
    assert_eq!(sheet.media_rules.len(), 4);
    assert_eq!(sheet.rules[0].selector, "text");
    assert_eq!(sheet.rules[0].props[0].name, "font-family");
    assert_eq!(sheet.rules[0].props[0].value, "arial, monospace");
}
