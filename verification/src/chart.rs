//! The chart specification (the immutable input), its validation, and
//! the scene assembler that turns it into one root scene node.

use crate::geometry::DEFAULT_PAD_BOTTOM;
use crate::geometry::DEFAULT_PAD_LEFT;
use crate::geometry::DEFAULT_PAD_RIGHT;
use crate::geometry::DEFAULT_PAD_TOP;
use crate::geometry::PlotArea;
use crate::geometry::category_x;
use crate::geometry::compute_plot_area;
use crate::geometry::spec_category_x;
use crate::scene::Attr;
use crate::scene::GNode;
use crate::scene::SceneNode;
use crate::scene::attr;
use crate::scene::attr_string;
use crate::scene::elem;
use crate::scene::gmarkup;
use crate::scene::node_markup;
use crate::scene::node_view;
use crate::scene::nodes_view;
use crate::scene::push_node;
use crate::scene::text_node;
use crate::style::build_stylesheet;
use crate::style::styles_text;
use crate::style::stylesheet_text;
use crate::text::fmt_u64;
use crate::text::spec_dec;
use vstd::prelude::*;
use vstd::string::*;

verus! {

/// One named, colored, ordered sequence of optional values aligned to
/// the category labels.  A missing value means "no data for this
/// category"; it is never treated as zero.
#[derive(Clone, Debug)]
pub struct Series {
    pub name: String,
    pub color: String,
    pub values: Vec<Option<u64>>,
}

/// The model of a series.
pub struct SeriesV {
    pub name: Seq<char>,
    pub color: Seq<char>,
    pub values: Seq<Option<u64>>,
}

impl View for Series {
    type V = SeriesV;

    open spec fn view(&self) -> SeriesV {
        SeriesV { name: self.name@, color: self.color@, values: self.values@ }
    }
}

/// The chart specification: canvas size, descriptive text, category
/// labels, and the data series.  Immutable for the lifetime of a
/// render call.
#[derive(Clone, Debug)]
pub struct Histogram {
    pub w: i32,
    pub h: i32,
    pub description: String,
    pub caption: String,
    pub labels_x: Vec<String>,
    pub series: Vec<Series>,
}

/// The model of a chart specification.
pub struct ChartV {
    pub w: int,
    pub h: int,
    pub description: Seq<char>,
    pub caption: Seq<char>,
    pub labels: Seq<Seq<char>>,
    pub series: Seq<SeriesV>,
}

impl View for Histogram {
    type V = ChartV;

    open spec fn view(&self) -> ChartV {
        ChartV {
            w: self.w as int,
            h: self.h as int,
            description: self.description@,
            caption: self.caption@,
            labels: self.labels_x@.map_values(|l: String| l@),
            series: self.series@.map_values(|s: Series| s@),
        }
    }
}

/// A configuration error, reported before any scene node is emitted.
#[derive(Clone, Copy, PartialEq, Eq, Structural, Debug)]
pub enum ChartError {
    /// The category label list is empty.
    EmptyCategories,
    /// Some series has a value count different from the category count.
    SeriesLengthMismatch,
    /// The padding insets leave no positive plot area.
    InvalidPlotArea,
}

/// The plot rectangle that the default padding insets leave on this
/// canvas.
pub open spec fn default_plot_area(c: ChartV) -> PlotArea {
    PlotArea {
        left: DEFAULT_PAD_LEFT as i64,
        top: DEFAULT_PAD_TOP as i64,
        width: (c.w - DEFAULT_PAD_LEFT - DEFAULT_PAD_RIGHT) as i64,
        height: (c.h - DEFAULT_PAD_TOP - DEFAULT_PAD_BOTTOM) as i64,
    }
}

/// A chart is valid when it has at least one category, every series is
/// aligned to the categories, and the canvas leaves a positive plot
/// area.
pub open spec fn valid_chart(c: ChartV) -> bool {
    &&& c.labels.len() > 0
    &&& forall|i: int|
        0 <= i < c.series.len() ==> (#[trigger] c.series[i]).values.len() == c.labels.len()
    &&& c.w - DEFAULT_PAD_LEFT - DEFAULT_PAD_RIGHT > 0
    &&& c.h - DEFAULT_PAD_TOP - DEFAULT_PAD_BOTTOM > 0
}

/// The error an invalid chart is rejected with: validation of the
/// categories and series comes first, the plot-area check after it.
pub open spec fn chart_error(c: ChartV) -> ChartError {
    if c.labels.len() == 0 {
        ChartError::EmptyCategories
    } else if exists|i: int|
        0 <= i < c.series.len() && (#[trigger] c.series[i]).values.len() != c.labels.len() {
        ChartError::SeriesLengthMismatch
    } else {
        ChartError::InvalidPlotArea
    }
}

impl Histogram {
    /// Builds the chart specification from its parts.
    pub fn new(
        w: i32,
        h: i32,
        description: String,
        caption: String,
        labels_x: Vec<String>,
        series: Vec<Series>,
    ) -> (r: Histogram)
        ensures
            r@ == (ChartV {
                w: w as int,
                h: h as int,
                description: description@,
                caption: caption@,
                labels: labels_x@.map_values(|l: String| l@),
                series: series@.map_values(|s: Series| s@),
            }),
    {
        Histogram { w, h, description, caption, labels_x, series }
    }
}

fn y_tick(ypos: &str, label: &str) -> (n: SceneNode)
    ensures
        node_view(n) == g_y_tick(ypos@, label@),
{
    let mut attrs: Vec<Attr> = Vec::new();
    attrs.push(attr("y", ypos));
    attrs.push(attr("x", "40"));
    let mut children: Vec<SceneNode> = Vec::new();
    push_node(&mut children, text_node(label.to_owned()));
    let n = elem("text", attrs, children);
    proof {
        assert(node_view(n) =~~= g_y_tick(ypos@, label@));
    }
    n
}

impl Histogram {
    /// Emits the radial-gradient definition of the background, anchored
    /// relative to the canvas size.
    pub fn background_def(&self) -> (n: SceneNode)
        requires
            0 < self@.w,
            0 < self@.h,
        ensures
            node_view(n) == g_background_def(self@.w, self@.h),
    {
        let cx: i64 = self.w as i64 * 2 / 3;
        let cy: i64 = self.h as i64 / 2;
        let mut a1: Vec<Attr> = Vec::new();
        a1.push(attr("style", "stop-color: rgb(99, 84, 84);"));
        a1.push(attr("offset", "0"));
        let stop1 = elem("stop", a1, Vec::new());
        let ghost gstop1 = stop1;
        let mut a2: Vec<Attr> = Vec::new();
        a2.push(attr("style", "stop-color: rgb(19, 19, 19);"));
        a2.push(attr("offset", "1"));
        let stop2 = elem("stop", a2, Vec::new());
        let ghost gstop2 = stop2;
        let mut attrs: Vec<Attr> = Vec::new();
        attrs.push(attr("id", "gradient-1"));
        attrs.push(attr("gradientUnits", "userSpaceOnUse"));
        attrs.push(attr_string("cx", fmt_u64(cx as u64)));
        attrs.push(attr_string("cy", fmt_u64(cy as u64)));
        attrs.push(attr_string("r", fmt_u64(self.h as u64)));
        attrs.push(attr("gradientTransform", "matrix(0.8, 0, 0, 0.4642, 0, 130)"));
        let mut children: Vec<SceneNode> = Vec::new();
        push_node(&mut children, stop1);
        push_node(&mut children, stop2);
        let n = elem("radialGradient", attrs, children);
        proof {
            let gb = g_background_def(self@.w, self@.h);
            assert(node_view(gstop1) =~~= gb->Element_children[0]);
            assert(node_view(gstop2) =~~= gb->Element_children[1]);
            assert(nodes_view(children@) =~~= gb->Element_children);
            assert(node_view(n) =~~= gb);
        }
        n
    }

    /// Emits the background layer: a full-canvas rectangle painted with
    /// the gradient.
    pub fn background(&self) -> (n: SceneNode)
        requires
            0 < self@.w,
            0 < self@.h,
        ensures
            node_view(n) == g_background(self@.w, self@.h),
    {
        let mut attrs: Vec<Attr> = Vec::new();
        attrs.push(attr_string("width", fmt_u64(self.w as u64)));
        attrs.push(attr_string("height", fmt_u64(self.h as u64)));
        attrs.push(attr("style", "fill: url(#gradient-1);"));
        let ghost gattrs = attrs@;
        let rect = elem("rect", attrs, Vec::new());
        let ghost grect = rect;
        let mut children: Vec<SceneNode> = Vec::new();
        push_node(&mut children, rect);
        let n = elem("g", Vec::new(), children);
        proof {
            let gb = g_background(self@.w, self@.h);
            assert(crate::scene::attr_views(gattrs) =~~= gb->Element_children[0]->Element_attrs);
            assert(node_view(grect) =~~= gb->Element_children[0]);
            assert(nodes_view(children@) =~~= gb->Element_children);
            assert(node_view(n) =~~= g_background(self@.w, self@.h));
        }
        n
    }

    /// Emits the border layer: a rectangle exactly covering the plot
    /// area.
    pub fn border(&self, plot: &PlotArea) -> (n: SceneNode)
        requires
            plot.wf(),
        ensures
            node_view(n) == g_border(*plot),
    {
        let mut attrs: Vec<Attr> = Vec::new();
        attrs.push(attr_string("x", fmt_u64(plot.left as u64)));
        attrs.push(attr_string("y", fmt_u64(plot.top as u64)));
        attrs.push(attr_string("width", fmt_u64(plot.width as u64)));
        attrs.push(attr_string("height", fmt_u64(plot.height as u64)));
        attrs.push(attr("style", "fill: url(#pattern-2); fill-opacity: 0.2; stroke: rgb(105, 105, 104);"));
        let n = elem("rect", attrs, Vec::new());
        proof {
            assert(node_view(n) =~~= g_border(*plot));
        }
        n
    }

    /// The serialized stylesheet embedded in the scene.
    pub fn styles(&self) -> (r: String)
        ensures
            r@ == styles_text(),
    {
        let sheet = build_stylesheet();
        stylesheet_text(&sheet)
    }

    /// Emits the caption node when a caption is given; an empty caption
    /// means "no caption".
    pub fn caption(&self) -> (r: Option<SceneNode>)
        ensures
            self@.caption.len() > 0 <==> r is Some,
            r matches Some(n) ==> node_view(n) == g_caption(self@.caption),
    {
        let len = self.caption.as_str().unicode_len();
        if len > 0 {
            let mut attrs: Vec<Attr> = Vec::new();
            attrs.push(attr("x", "50%"));
            attrs.push(attr("y", "30"));
            attrs.push(attr(
                "style",
                "dominant-baseline: middle; text-anchor: middle; font-size: 16px; font-family: inherited; fill: rgb(251, 251, 251); word-spacing: 0px;",
            ));
            let mut children: Vec<SceneNode> = Vec::new();
            push_node(&mut children, text_node(self.caption.clone()));
            let n = elem("text", attrs, children);
            proof {
                assert(node_view(n) =~~= g_caption(self@.caption));
            }
            Some(n)
        } else {
            None
        }
    }

    /// Emits the y-axis group: the fixed ladder of percentage tick
    /// labels.
    pub fn y_axis(&self) -> (n: SceneNode)
        ensures
            node_view(n) == g_y_axis(),
    {
        let mut attrs: Vec<Attr> = Vec::new();
        attrs.push(attr("class", "y-axis"));
        let mut children: Vec<SceneNode> = Vec::new();
        push_node(&mut children, y_tick("420", "0.00%"));
        push_node(&mut children, y_tick("375", "0.02%"));
        push_node(&mut children, y_tick("330", "0.04%"));
        push_node(&mut children, y_tick("285", "0.06%"));
        push_node(&mut children, y_tick("240", "0.08%"));
        push_node(&mut children, y_tick("195", "0.010%"));
        push_node(&mut children, y_tick("150", "0.012%"));
        push_node(&mut children, y_tick("105", "0.014%"));
        push_node(&mut children, y_tick("60", "0.016%"));
        let n = elem("g", attrs, children);
        proof {
            let gy = g_y_axis();
            assert(nodes_view(children@) =~~= gy->Element_children);
            assert(node_view(n) =~~= gy);
        }
        n
    }

    /// Emits the x-axis label group: one text node per category label,
    /// centered at its slot and placed at a fixed offset below the plot
    /// area.
    #[verifier::loop_isolation(false)]
    pub fn x_axis_labels(&self, plot: &PlotArea) -> (n: SceneNode)
        requires
            plot.wf(),
            0 < self@.labels.len(),
            0 <= self@.h - DEFAULT_PAD_BOTTOM + 15 <= i32::MAX,
        ensures
            node_view(n) == g_x_axis(self@.labels, self@.h - DEFAULT_PAD_BOTTOM + 15, *plot),
    {
        let ghost yyg = self@.h - DEFAULT_PAD_BOTTOM + 15;
        let yy: i64 = self.h as i64 - DEFAULT_PAD_BOTTOM as i64 + 15;
        let ystr = fmt_u64(yy as u64);
        let count = self.labels_x.len();
        let ghost target = g_x_children(self@.labels, yyg, *plot);
        let mut children: Vec<SceneNode> = Vec::new();
        let mut i: usize = 0;
        while i < count
            invariant
                i <= count,
                nodes_view(children@) == target.take(i as int),
            decreases count - i,
        {
            let x = category_x(i, count, plot);
            let mut attrs: Vec<Attr> = Vec::new();
            attrs.push(attr_string("y", ystr.clone()));
            attrs.push(attr_string("x", fmt_u64(x as u64)));
            let mut tc: Vec<SceneNode> = Vec::new();
            push_node(&mut tc, text_node(self.labels_x[i].clone()));
            let t = elem("text", attrs, tc);
            proof {
                assert(node_view(t) =~~= target[i as int]);
            }
            push_node(&mut children, t);
            proof {
                assert(nodes_view(children@) =~= target.take(i + 1));
            }
            i = i + 1;
        }
        let mut attrs: Vec<Attr> = Vec::new();
        attrs.push(attr("class", "x-axis"));
        let n = elem("g", attrs, children);
        proof {
            assert(target.take(count as int) =~= target);
            assert(node_view(n) =~~= g_x_axis(self@.labels, yyg, *plot));
        }
        n
    }
}

/// The largest value present in any series, skipping missing values:
/// the data-driven scale hook.  `None` when no value is present at all;
/// a chart whose values are all missing has no maximum, rather than a
/// maximum of zero.
pub fn data_max(series: &Vec<Series>) -> (r: Option<u64>)
    ensures
        r is None <==> forall|i: int, j: int|
            0 <= i < series@.len() && 0 <= j < series@[i]@.values.len() ==> (#[trigger] series@[i]@.values[j]) is None,
        r matches Some(m) ==> (exists|i: int, j: int|
            0 <= i < series@.len() && 0 <= j < series@[i]@.values.len()
                && (#[trigger] series@[i]@.values[j]) == Some(m)),
        r matches Some(m) ==> (forall|i: int, j: int|
            0 <= i < series@.len() && 0 <= j < series@[i]@.values.len()
                && ((#[trigger] series@[i]@.values[j]) is Some) ==> series@[i]@.values[j]->0 <= m),
{
    let mut best: Option<u64> = None;
    let mut i: usize = 0;
    while i < series.len()
        invariant
            i <= series.len(),
            best is None <==> forall|a: int, b: int|
                0 <= a < i && 0 <= b < series@[a]@.values.len() ==> (#[trigger] series@[a]@.values[b]) is None,
            best matches Some(m) ==> (exists|a: int, b: int|
                0 <= a < i && 0 <= b < series@[a]@.values.len()
                    && (#[trigger] series@[a]@.values[b]) == Some(m)),
            best matches Some(m) ==> (forall|a: int, b: int|
                0 <= a < i && 0 <= b < series@[a]@.values.len()
                    && ((#[trigger] series@[a]@.values[b]) is Some) ==> series@[a]@.values[b]->0 <= m),
        decreases series.len() - i,
    {
        let vs = &series[i].values;
        let mut j: usize = 0;
        while j < vs.len()
            invariant
                j <= vs.len(),
                vs == &series@[i as int].values,
                i < series.len(),
                best is None <==> (forall|a: int, b: int|
                    0 <= a < i && 0 <= b < series@[a]@.values.len()
                        ==> (#[trigger] series@[a]@.values[b]) is None) && (forall|b: int|
                    0 <= b < j ==> (#[trigger] vs@[b]) is None),
                best matches Some(m) ==> ((exists|a: int, b: int|
                    0 <= a < i && 0 <= b < series@[a]@.values.len()
                        && (#[trigger] series@[a]@.values[b]) == Some(m)) || (exists|b: int|
                    0 <= b < j && #[trigger] vs@[b] == Some(m))),
                best matches Some(m) ==> (forall|a: int, b: int|
                    0 <= a < i && 0 <= b < series@[a]@.values.len()
                        && ((#[trigger] series@[a]@.values[b]) is Some) ==> series@[a]@.values[b]->0 <= m),
                best matches Some(m) ==> (forall|b: int|
                    0 <= b < j && (#[trigger] vs@[b]) is Some ==> vs@[b]->0 <= m),
            decreases vs.len() - j,
        {
            if let Some(v) = vs[j] {
                match best {
                    None => {
                        best = Some(v);
                    },
                    Some(m) => {
                        if v > m {
                            best = Some(v);
                        }
                    },
                }
            }
            j = j + 1;
        }
        proof {
            assert(forall|b: int|
                0 <= b < series@[i as int]@.values.len() ==> (#[trigger] series@[i as int]@.values[b])
                    == vs@[b]);
            match best {
                Some(m) => {
                    if exists|b: int| 0 <= b < vs@.len() && #[trigger] vs@[b] == Some(m) {
                        let b0 = choose|b: int| 0 <= b < vs@.len() && #[trigger] vs@[b] == Some(m);
                        assert(series@[i as int]@.values[b0] == Some(m));
                        assert(exists|a: int, b: int|
                            0 <= a < i + 1 && 0 <= b < series@[a]@.values.len() && (
                            #[trigger] series@[a]@.values[b]) == Some(m));
                    } else {
                        let (a0, b0) = choose|a: int, b: int|
                            0 <= a < i && 0 <= b < series@[a]@.values.len() && (
                            #[trigger] series@[a]@.values[b]) == Some(m);
                        assert(0 <= a0 < i + 1 && 0 <= b0 < series@[a0]@.values.len()
                            && series@[a0]@.values[b0] == Some(m));
                    }
                },
                None => {},
            }
        }
        i = i + 1;
    }
    best
}

impl Histogram {
    /// Renders the chart: validates the specification, computes the
    /// plot-area geometry, and assembles the scene tree.  Succeeds
    /// exactly on valid charts; an invalid one is rejected with its
    /// configuration error and no partial scene.
    pub fn render(&self) -> (r: Result<SceneNode, ChartError>)
        ensures
            r is Ok <==> valid_chart(self@),
            r matches Ok(n) ==> node_view(n) == g_scene(self@),
            r matches Err(e) ==> e == chart_error(self@),
    {
        if self.labels_x.len() == 0 {
            return Err(ChartError::EmptyCategories);
        }
        let mut si: usize = 0;
        while si < self.series.len()
            invariant
                si <= self.series@.len(),
                forall|a: int|
                    0 <= a < si ==> (#[trigger] self@.series[a]).values.len()
                        == self@.labels.len(),
                self@.labels.len() > 0,
            decreases self.series@.len() - si,
        {
            if self.series[si].values.len() != self.labels_x.len() {
                proof {
                    assert((self@.series[si as int]).values.len() != self@.labels.len());
                }
                return Err(ChartError::SeriesLengthMismatch);
            }
            si = si + 1;
        }
        match compute_plot_area(
            self.w,
            self.h,
            DEFAULT_PAD_LEFT,
            DEFAULT_PAD_RIGHT,
            DEFAULT_PAD_TOP,
            DEFAULT_PAD_BOTTOM,
        ) {
            Err(_) => Err(ChartError::InvalidPlotArea),
            Ok(plot) => {
                proof {
                    assert(plot == default_plot_area(self@));
                }
                let mut children: Vec<SceneNode> = Vec::new();
                let mut dc: Vec<SceneNode> = Vec::new();
                push_node(&mut dc, text_node(self.description.clone()));
                let desc_node = elem("desc", Vec::new(), dc);
                let ghost gdesc = desc_node;
                proof {
                    assert(node_view(gdesc) =~~= g_desc(self@.description));
                }
                push_node(&mut children, desc_node);

                let bgdef = self.background_def();
                let ghost gbgdef = bgdef;
                let mut stc: Vec<SceneNode> = Vec::new();
                push_node(&mut stc, text_node(self.styles()));
                let style_node = elem("style", Vec::new(), stc);
                let ghost gstyle = style_node;
                proof {
                    assert(node_view(gstyle) =~~= g_styles_elem());
                }
                let mut defs_children: Vec<SceneNode> = Vec::new();
                push_node(&mut defs_children, bgdef);
                push_node(&mut defs_children, style_node);
                let defs_node = elem("defs", Vec::new(), defs_children);
                let ghost gdefs = defs_node;
                proof {
                    let gd = g_defs(self@.w, self@.h);
                    assert(node_view(gbgdef) == gd->Element_children[0]);
                    assert(node_view(gstyle) =~~= gd->Element_children[1]);
                    assert(nodes_view(defs_children@) =~~= gd->Element_children);
                    assert(node_view(gdefs) =~~= gd);
                }
                push_node(&mut children, defs_node);
                push_node(&mut children, self.background());
                push_node(&mut children, self.border(&plot));
                push_node(&mut children, self.x_axis_labels(&plot));
                push_node(&mut children, self.y_axis());
                match self.caption() {
                    Some(c) => {
                        push_node(&mut children, c);
                    },
                    None => {},
                }
                let mut vb = String::new();
                vb.append("0 0 ");
                let ws = fmt_u64(self.w as u64);
                vb.append(ws.as_str());
                vb.append(" ");
                let hs = fmt_u64(self.h as u64);
                vb.append(hs.as_str());
                proof {
                    reveal_strlit(" ");
                    assert(" "@ =~= seq![' ']);
                    assert(vb@ =~= g_viewbox(self@.w, self@.h));
                }
                let mut attrs: Vec<Attr> = Vec::new();
                attrs.push(attr_string("viewBox", vb));
                attrs.push(attr("xmlns", "http://www.w3.org/2000/svg"));
                let root = elem("svg", attrs, children);
                proof {
                    let gsc = g_scene(self@);
                    assert(nodes_view(children@) =~~= gsc->Element_children);
                    assert(node_view(root) =~~= gsc);
                }
                Ok(root)
            },
        }
    }

    /// Renders the chart and serializes the scene to markup text: the
    /// output is a pure function of the chart's model, so equal
    /// specifications give byte-identical text.
    pub fn render_markup(&self) -> (r: Result<String, ChartError>)
        ensures
            r is Ok <==> valid_chart(self@),
            r matches Ok(s) ==> s@ == gmarkup(g_scene(self@)),
            r matches Err(e) ==> e == chart_error(self@),
    {
        match self.render() {
            Ok(n) => Ok(node_markup(&n)),
            Err(e) => Err(e),
        }
    }
}

/// Rendering is deterministic and repeatable: two chart values with
/// the same model render to the same scene and serialize to
/// byte-identical markup.
pub proof fn lemma_render_deterministic(a: Histogram, b: Histogram)
    requires
        a@ == b@,
    ensures
        g_scene(a@) == g_scene(b@),
        gmarkup(g_scene(a@)) == gmarkup(g_scene(b@)),
{
}

/// An element holding one piece of character data.
pub open spec fn g_text_elem(
    tag: Seq<char>,
    attrs: Seq<(Seq<char>, Seq<char>)>,
    content: Seq<char>,
) -> GNode {
    GNode::Element { tag, attrs, children: seq![GNode::Text(content)] }
}

/// The radial gradient of the background: centered at two thirds of
/// the width and half the height, with a radius of the canvas height
/// and a fixed non-uniform transform for an elliptical appearance.
pub open spec fn g_background_def(w: int, h: int) -> GNode {
    GNode::Element {
        tag: "radialGradient"@,
        attrs: seq![
            ("id"@, "gradient-1"@),
            ("gradientUnits"@, "userSpaceOnUse"@),
            ("cx"@, spec_dec((w * 2 / 3) as nat)),
            ("cy"@, spec_dec((h / 2) as nat)),
            ("r"@, spec_dec(h as nat)),
            ("gradientTransform"@, "matrix(0.8, 0, 0, 0.4642, 0, 130)"@),
        ],
        children: seq![
            GNode::Element {
                tag: "stop"@,
                attrs: seq![("style"@, "stop-color: rgb(99, 84, 84);"@), ("offset"@, "0"@)],
                children: seq![],
            },
            GNode::Element {
                tag: "stop"@,
                attrs: seq![("style"@, "stop-color: rgb(19, 19, 19);"@), ("offset"@, "1"@)],
                children: seq![],
            },
        ],
    }
}

/// The background layer: a full-canvas rectangle painted with the
/// gradient.
pub open spec fn g_background(w: int, h: int) -> GNode {
    GNode::Element {
        tag: "g"@,
        attrs: seq![],
        children: seq![
            GNode::Element {
                tag: "rect"@,
                attrs: seq![
                    ("width"@, spec_dec(w as nat)),
                    ("height"@, spec_dec(h as nat)),
                    ("style"@, "fill: url(#gradient-1);"@),
                ],
                children: seq![],
            },
        ],
    }
}

/// The border layer: a rectangle exactly covering the plot area,
/// filled with a textured pattern at low opacity and stroked gray.
pub open spec fn g_border(plot: PlotArea) -> GNode {
    GNode::Element {
        tag: "rect"@,
        attrs: seq![
            ("x"@, spec_dec(plot.left as nat)),
            ("y"@, spec_dec(plot.top as nat)),
            ("width"@, spec_dec(plot.width as nat)),
            ("height"@, spec_dec(plot.height as nat)),
            (
                "style"@,
                "fill: url(#pattern-2); fill-opacity: 0.2; stroke: rgb(105, 105, 104);"@,
            ),
        ],
        children: seq![],
    }
}

/// The embedded stylesheet element.
pub open spec fn g_styles_elem() -> GNode {
    g_text_elem("style"@, seq![], styles_text())
}

/// The defs block: the gradient definition and the stylesheet.
pub open spec fn g_defs(w: int, h: int) -> GNode {
    GNode::Element { tag: "defs"@, attrs: seq![], children: seq![g_background_def(w, h), g_styles_elem()] }
}

/// The accessible description node.
pub open spec fn g_desc(description: Seq<char>) -> GNode {
    g_text_elem("desc"@, seq![], description)
}

/// The caption node: centered at half the canvas width, near the top,
/// with a light fill and a larger font.
pub open spec fn g_caption(caption: Seq<char>) -> GNode {
    g_text_elem(
        "text"@,
        seq![
            ("x"@, "50%"@),
            ("y"@, "30"@),
            (
                "style"@,
                "dominant-baseline: middle; text-anchor: middle; font-size: 16px; font-family: inherited; fill: rgb(251, 251, 251); word-spacing: 0px;"@,
            ),
        ],
        caption,
    )
}

/// One y-axis tick label at a fixed row.
pub open spec fn g_y_tick(ypos: Seq<char>, label: Seq<char>) -> GNode {
    GNode::Element {
        tag: "text"@,
        attrs: seq![("y"@, ypos), ("x"@, "40"@)],
        children: seq![GNode::Text(label)],
    }
}

/// The y-axis group: the fixed ladder of percentage tick labels of the
/// design, kept as-is rather than derived from the data
/// range (the explicit fallback mode; `data_max` is the hook for a
/// data-driven scale).
pub open spec fn g_y_axis() -> GNode {
    GNode::Element {
        tag: "g"@,
        attrs: seq![("class"@, "y-axis"@)],
        children: seq![
            g_y_tick("420"@, "0.00%"@),
            g_y_tick("375"@, "0.02%"@),
            g_y_tick("330"@, "0.04%"@),
            g_y_tick("285"@, "0.06%"@),
            g_y_tick("240"@, "0.08%"@),
            g_y_tick("195"@, "0.010%"@),
            g_y_tick("150"@, "0.012%"@),
            g_y_tick("105"@, "0.014%"@),
            g_y_tick("60"@, "0.016%"@),
        ],
    }
}

/// One x-axis category label at its slot center.
pub open spec fn g_x_label(yy: int, xx: int, label: Seq<char>) -> GNode {
    GNode::Element {
        tag: "text"@,
        attrs: seq![("y"@, spec_dec(yy as nat)), ("x"@, spec_dec(xx as nat))],
        children: seq![GNode::Text(label)],
    }
}

/// The x-axis label nodes, one per category, at strictly spaced slot
/// centers.
pub open spec fn g_x_children(labels: Seq<Seq<char>>, yy: int, plot: PlotArea) -> Seq<GNode> {
    Seq::new(
        labels.len(),
        |i: int| g_x_label(yy, spec_category_x(i, labels.len() as int, plot), labels[i]),
    )
}

/// The x-axis label group.
pub open spec fn g_x_axis(labels: Seq<Seq<char>>, yy: int, plot: PlotArea) -> GNode {
    GNode::Element {
        tag: "g"@,
        attrs: seq![("class"@, "x-axis"@)],
        children: g_x_children(labels, yy, plot),
    }
}

/// The root viewbox text: `0 0 <width> <height>`.
pub open spec fn g_viewbox(w: int, h: int) -> Seq<char> {
    "0 0 "@ + spec_dec(w as nat) + seq![' '] + spec_dec(h as nat)
}

/// The full scene of a valid chart: description, defs, background,
/// border, x-axis, y-axis, and the caption when one is given, under a
/// root node carrying the viewbox and namespace.
pub open spec fn g_scene(c: ChartV) -> GNode {
    let plot = default_plot_area(c);
    let yy = c.h - DEFAULT_PAD_BOTTOM + 15;
    let base = seq![
        g_desc(c.description),
        g_defs(c.w, c.h),
        g_background(c.w, c.h),
        g_border(plot),
        g_x_axis(c.labels, yy, plot),
        g_y_axis(),
    ];
    let children = if c.caption.len() > 0 {
        base.push(g_caption(c.caption))
    } else {
        base
    };
    GNode::Element {
        tag: "svg"@,
        attrs: seq![("viewBox"@, g_viewbox(c.w, c.h)), ("xmlns"@, "http://www.w3.org/2000/svg"@)],
        children,
    }
}

} // verus!
