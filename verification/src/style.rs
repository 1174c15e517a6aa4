//! The stylesheet: a structured mapping from selectors to property
//! maps, one responsive block, and its deterministic serialization.
//! All of it is derived from fixed design constants.

use crate::scene::Attr;
use crate::scene::attr_views;
use vstd::prelude::*;
use vstd::string::*;

verus! {

/// One stylesheet rule: a selector and its properties, in order.
#[derive(Debug)]
pub struct StyleRule {
    pub selector: String,
    pub props: Vec<Attr>,
}

/// The whole stylesheet: the base rules, then one responsive block
/// whose rules apply under the given media condition.
#[derive(Debug)]
pub struct Stylesheet {
    pub rules: Vec<StyleRule>,
    pub media_condition: String,
    pub media_rules: Vec<StyleRule>,
}

/// The model of one rule: its selector and its properties as character
/// sequences.
pub open spec fn rule_view(r: StyleRule) -> (Seq<char>, Seq<(Seq<char>, Seq<char>)>) {
    (r.selector@, attr_views(r.props@))
}

/// The model of a rule list.
pub open spec fn rules_view(s: Seq<StyleRule>) -> Seq<(Seq<char>, Seq<(Seq<char>, Seq<char>)>)> {
    s.map_values(|r: StyleRule| rule_view(r))
}

/// How one property is written: two spaces, the name, `: `, the value,
/// and `;` with a line break.
pub open spec fn prop_markup(p: (Seq<char>, Seq<char>)) -> Seq<char> {
    seq![' ', ' '] + p.0 + seq![':', ' '] + p.1 + seq![';', '\n']
}

/// How a property list is written, in order.
pub open spec fn props_markup(s: Seq<(Seq<char>, Seq<char>)>) -> Seq<char>
    decreases s.len(),
{
    if s.len() == 0 {
        Seq::empty()
    } else {
        props_markup(s.drop_last()) + prop_markup(s.last())
    }
}

/// How one rule is written: the selector, an opening brace, the
/// properties, and a closing brace.
pub open spec fn rule_markup(r: (Seq<char>, Seq<(Seq<char>, Seq<char>)>)) -> Seq<char> {
    r.0 + seq![' ', '{', '\n'] + props_markup(r.1) + seq!['}', '\n']
}

/// How a rule list is written, in order.
pub open spec fn rules_markup(s: Seq<(Seq<char>, Seq<(Seq<char>, Seq<char>)>)>) -> Seq<char>
    decreases s.len(),
{
    if s.len() == 0 {
        Seq::empty()
    } else {
        rules_markup(s.drop_last()) + rule_markup(s.last())
    }
}

/// How the whole stylesheet is written: the base rules, then the
/// responsive block.
pub open spec fn sheet_markup(
    rules: Seq<(Seq<char>, Seq<(Seq<char>, Seq<char>)>)>,
    media_condition: Seq<char>,
    media_rules: Seq<(Seq<char>, Seq<(Seq<char>, Seq<char>)>)>,
) -> Seq<char> {
    rules_markup(rules) + "@media "@ + media_condition + seq![' ', '{', '\n'] + rules_markup(
        media_rules,
    ) + seq!['}', '\n']
}

/// The fixed base rules of the design: base typography, axis text
/// appearance, and the two label variants.
pub open spec fn design_rules() -> Seq<(Seq<char>, Seq<(Seq<char>, Seq<char>)>)> {
    seq![
        ("text"@, seq![("font-family"@, "arial, monospace"@)]),
        (
            ".y-axis text, .x-axis text"@,
            seq![
                ("text-anchor"@, "middle"@),
                ("fill"@, "rgb(103, 102, 102)"@),
                ("font-size"@, "12px"@),
            ],
        ),
        (
            ".label-variant-a"@,
            seq![
                ("white-space"@, "pre"@),
                ("font-size"@, "15px"@),
                ("fill"@, "rgb(253, 200, 39)"@),
                ("text-anchor"@, "end"@),
                ("word-spacing"@, "0"@),
            ],
        ),
        (
            ".label-variant-b"@,
            seq![
                ("white-space"@, "pre"@),
                ("font-size"@, "15px"@),
                ("fill"@, "rgb(33, 125, 245)"@),
                ("text-anchor"@, "end"@),
                ("word-spacing"@, "0"@),
            ],
        ),
    ]
}

/// The viewport condition under which the responsive rules apply.
pub open spec fn design_media_condition() -> Seq<char> {
    "(max-width: 500px)"@
}

/// The fixed responsive rules: every other axis tick fades out, and
/// label and tick text scales up by fixed percentages.
pub open spec fn design_media_rules() -> Seq<(Seq<char>, Seq<(Seq<char>, Seq<char>)>)> {
    seq![
        (
            ".x-axis text:nth-of-type(2n), .y-axis text:nth-of-type(2n)"@,
            seq![("transition"@, "opacity 1s ease-in-out"@), ("opacity"@, "0"@)],
        ),
        (".label-variant-a, .label-variant-b"@, seq![("font-size"@, "170%"@)]),
        (".y-axis text"@, seq![("font-size"@, "120%"@)]),
        (".x-axis text"@, seq![("font-size"@, "120%"@)]),
    ]
}

fn prop(name: &str, value: &str) -> (p: Attr)
    ensures
        p.name@ == name@,
        p.value@ == value@,
{
    crate::scene::attr(name, value)
}

fn rule(selector: &str, props: Vec<Attr>) -> (r: StyleRule)
    ensures
        rule_view(r) == (selector@, attr_views(props@)),
{
    StyleRule { selector: selector.to_owned(), props }
}

/// Builds the design stylesheet: a pure function of
/// fixed design constants.
pub fn build_stylesheet() -> (s: Stylesheet)
    ensures
        rules_view(s.rules@) == design_rules(),
        s.media_condition@ == design_media_condition(),
        rules_view(s.media_rules@) == design_media_rules(),
{
    let mut p1: Vec<Attr> = Vec::new();
    p1.push(prop("font-family", "arial, monospace"));
    let r1 = rule("text", p1);

    let mut p2: Vec<Attr> = Vec::new();
    p2.push(prop("text-anchor", "middle"));
    p2.push(prop("fill", "rgb(103, 102, 102)"));
    p2.push(prop("font-size", "12px"));
    let r2 = rule(".y-axis text, .x-axis text", p2);

    let mut p3: Vec<Attr> = Vec::new();
    p3.push(prop("white-space", "pre"));
    p3.push(prop("font-size", "15px"));
    p3.push(prop("fill", "rgb(253, 200, 39)"));
    p3.push(prop("text-anchor", "end"));
    p3.push(prop("word-spacing", "0"));
    let r3 = rule(".label-variant-a", p3);

    let mut p4: Vec<Attr> = Vec::new();
    p4.push(prop("white-space", "pre"));
    p4.push(prop("font-size", "15px"));
    p4.push(prop("fill", "rgb(33, 125, 245)"));
    p4.push(prop("text-anchor", "end"));
    p4.push(prop("word-spacing", "0"));
    let r4 = rule(".label-variant-b", p4);

    let mut rules: Vec<StyleRule> = Vec::new();
    rules.push(r1);
    rules.push(r2);
    rules.push(r3);
    rules.push(r4);

    let mut m1: Vec<Attr> = Vec::new();
    m1.push(prop("transition", "opacity 1s ease-in-out"));
    m1.push(prop("opacity", "0"));
    let mr1 = rule(".x-axis text:nth-of-type(2n), .y-axis text:nth-of-type(2n)", m1);

    let mut m2: Vec<Attr> = Vec::new();
    m2.push(prop("font-size", "170%"));
    let mr2 = rule(".label-variant-a, .label-variant-b", m2);

    let mut m3: Vec<Attr> = Vec::new();
    m3.push(prop("font-size", "120%"));
    let mr3 = rule(".y-axis text", m3);

    let mut m4: Vec<Attr> = Vec::new();
    m4.push(prop("font-size", "120%"));
    let mr4 = rule(".x-axis text", m4);

    let mut media_rules: Vec<StyleRule> = Vec::new();
    media_rules.push(mr1);
    media_rules.push(mr2);
    media_rules.push(mr3);
    media_rules.push(mr4);

    let s = Stylesheet {
        rules,
        media_condition: "(max-width: 500px)".to_owned(),
        media_rules,
    };
    proof {
        assert(rules_view(s.rules@) =~~= design_rules());
        assert(rules_view(s.media_rules@) =~~= design_media_rules());
    }
    s
}

/// The serialized text of the design stylesheet.
pub open spec fn styles_text() -> Seq<char> {
    sheet_markup(design_rules(), design_media_condition(), design_media_rules())
}

/// Appends the written form of a rule list.
#[verifier::loop_isolation(false)]
fn write_rules(out: &mut String, rules: &Vec<StyleRule>)
    ensures
        final(out)@ == old(out)@ + rules_markup(rules_view(rules@)),
{
    let ghost grules = rules_view(rules@);
    let mut i: usize = 0;
    while i < rules.len()
        invariant
            i <= rules.len(),
            out@ == old(out)@ + rules_markup(grules.take(i as int)),
        decreases rules.len() - i,
    {
        out.append(rules[i].selector.as_str());
        out.append(" {\n");
        proof {
            reveal_strlit(" {\n");
            assert(" {\n"@ =~= seq![' ', '{', '\n']);
        }
        let ghost gprops = attr_views(rules[i as int].props@);
        let ghost head = out@;
        let props = &rules[i].props;
        let mut j: usize = 0;
        while j < props.len()
            invariant
                j <= props.len(),
                gprops == attr_views(props@),
                out@ == head + props_markup(gprops.take(j as int)),
            decreases props.len() - j,
        {
            out.append("  ");
            out.append(props[j].name.as_str());
            out.append(": ");
            out.append(props[j].value.as_str());
            out.append(";\n");
            proof {
                reveal_strlit("  ");
                reveal_strlit(": ");
                reveal_strlit(";\n");
                assert(gprops.take(j + 1).drop_last() =~= gprops.take(j as int));
                assert(out@ =~= head + props_markup(gprops.take(j + 1)));
            }
            j = j + 1;
        }
        out.append("}\n");
        proof {
            reveal_strlit("}\n");
            assert(gprops.take(props@.len() as int) =~= gprops);
            assert(grules.take(i + 1).drop_last() =~= grules.take(i as int));
            assert(grules.take(i + 1).last() == rule_view(rules@[i as int]));
            assert(out@ =~= old(out)@ + rules_markup(grules.take(i + 1)));
        }
        i = i + 1;
    }
    proof {
        assert(grules.take(rules@.len() as int) =~= grules);
    }
}

/// Serializes the stylesheet to its deterministic, order-stable text.
pub fn stylesheet_text(s: &Stylesheet) -> (r: String)
    ensures
        r@ == sheet_markup(
            rules_view(s.rules@),
            s.media_condition@,
            rules_view(s.media_rules@),
        ),
{
    let mut out = String::new();
    write_rules(&mut out, &s.rules);
    out.append("@media ");
    out.append(s.media_condition.as_str());
    out.append(" {\n");
    write_rules(&mut out, &s.media_rules);
    out.append("}\n");
    proof {
        reveal_strlit(" {\n");
        reveal_strlit("}\n");
        assert(" {\n"@ =~= seq![' ', '{', '\n']);
        assert("}\n"@ =~= seq!['}', '\n']);
        assert(out@ =~= sheet_markup(
            rules_view(s.rules@),
            s.media_condition@,
            rules_view(s.media_rules@),
        ));
    }
    out
}

} // verus!
