//! The scene tree: a renderable vector-graphics element tree, its
//! mathematical model, and its serialization to markup text.

use crate::text::escape_seq;
use crate::text::escape_str;
use vstd::prelude::*;
use vstd::string::*;

verus! {

/// A named attribute of a scene element.
#[derive(Clone, Debug)]
pub struct Attr {
    pub name: String,
    pub value: String,
}

/// A renderable vector-graphics element tree: an element with a tag,
/// attributes and children, or literal character data.
#[derive(Debug)]
pub enum SceneNode {
    Element { tag: String, attrs: Vec<Attr>, children: Vec<SceneNode> },
    Text(String),
}

/// The mathematical model of a scene node: the same tree over sequences
/// of characters.
#[verifier::ext_equal]
pub enum GNode {
    Element { tag: Seq<char>, attrs: Seq<(Seq<char>, Seq<char>)>, children: Seq<GNode> },
    Text(Seq<char>),
}

/// The model of one attribute: its name and value as character
/// sequences.
pub open spec fn attr_view(a: Attr) -> (Seq<char>, Seq<char>) {
    (a.name@, a.value@)
}

/// The model of an attribute list.
pub open spec fn attr_views(s: Seq<Attr>) -> Seq<(Seq<char>, Seq<char>)> {
    s.map_values(|a: Attr| attr_view(a))
}

/// The model of a scene node.
pub open spec fn node_view(n: SceneNode) -> GNode
    decreases n,
{
    match n {
        SceneNode::Text(s) => GNode::Text(s@),
        SceneNode::Element { tag, attrs, children } => GNode::Element {
            tag: tag@,
            attrs: attr_views(attrs@),
            children: nodes_view(children@),
        },
    }
}

/// The model of a list of scene nodes.
pub open spec fn nodes_view(s: Seq<SceneNode>) -> Seq<GNode>
    decreases s,
{
    if s.len() == 0 {
        Seq::empty()
    } else {
        nodes_view(s.drop_last()).push(node_view(s.last()))
    }
}

pub proof fn lemma_nodes_view_len(s: Seq<SceneNode>)
    ensures
        nodes_view(s).len() == s.len(),
    decreases s.len(),
{
    if s.len() > 0 {
        lemma_nodes_view_len(s.drop_last());
    }
}

pub proof fn lemma_nodes_view_index(s: Seq<SceneNode>, i: int)
    requires
        0 <= i < s.len(),
    ensures
        nodes_view(s).len() == s.len(),
        nodes_view(s)[i] == node_view(s[i]),
    decreases s.len(),
{
    lemma_nodes_view_len(s);
    if i < s.len() - 1 {
        lemma_nodes_view_index(s.drop_last(), i);
    }
}

pub proof fn lemma_nodes_view_push(s: Seq<SceneNode>, c: SceneNode)
    ensures
        nodes_view(s.push(c)) == nodes_view(s).push(node_view(c)),
{
    assert(s.push(c).drop_last() =~= s);
    assert(s.push(c).last() == c);
}

/// Appends a child node, tracking the model of the list.
pub fn push_node(children: &mut Vec<SceneNode>, n: SceneNode)
    ensures
        final(children)@ == old(children)@.push(n),
        nodes_view(final(children)@) == nodes_view(old(children)@).push(node_view(n)),
{
    let ghost pre = children@;
    let ghost g = n;
    children.push(n);
    proof {
        lemma_nodes_view_push(pre, g);
    }
}

/// Makes an attribute from two string slices.
pub fn attr(name: &str, value: &str) -> (a: Attr)
    ensures
        a.name@ == name@,
        a.value@ == value@,
{
    Attr { name: name.to_owned(), value: value.to_owned() }
}

/// Makes an attribute from a name and an owned value.
pub fn attr_string(name: &str, value: String) -> (a: Attr)
    ensures
        a.name@ == name@,
        a.value@ == value@,
{
    Attr { name: name.to_owned(), value }
}

/// Makes a character-data node.
pub fn text_node(content: String) -> (n: SceneNode)
    ensures
        node_view(n) == GNode::Text(content@),
{
    SceneNode::Text(content)
}

/// Makes an element node.
pub fn elem(tag: &str, attrs: Vec<Attr>, children: Vec<SceneNode>) -> (n: SceneNode)
    ensures
        node_view(n) == (GNode::Element {
            tag: tag@,
            attrs: attr_views(attrs@),
            children: nodes_view(children@),
        }),
{
    SceneNode::Element { tag: tag.to_owned(), attrs, children }
}

/// How one attribute is written: a space, the name, `="`, the escaped
/// value, and a closing quote.
pub open spec fn attr_markup(a: (Seq<char>, Seq<char>)) -> Seq<char> {
    seq![' '] + a.0 + seq!['=', '"'] + escape_seq(a.1) + seq!['"']
}

/// How an attribute list is written, in order.
pub open spec fn attrs_markup(s: Seq<(Seq<char>, Seq<char>)>) -> Seq<char>
    decreases s.len(),
{
    if s.len() == 0 {
        Seq::empty()
    } else {
        attrs_markup(s.drop_last()) + attr_markup(s.last())
    }
}

/// How a scene node is written: an open tag with its attributes, the
/// children in order, and a matching close tag; character data is
/// escaped.
pub open spec fn gmarkup(g: GNode) -> Seq<char>
    decreases g,
{
    match g {
        GNode::Text(s) => escape_seq(s),
        GNode::Element { tag, attrs, children } => seq!['<'] + tag + attrs_markup(attrs) + seq![
            '>',
        ] + gnodes_markup(children) + seq!['<', '/'] + tag + seq!['>'],
    }
}

/// How a list of scene nodes is written, in order.
pub open spec fn gnodes_markup(s: Seq<GNode>) -> Seq<char>
    decreases s,
{
    if s.len() == 0 {
        Seq::empty()
    } else {
        gnodes_markup(s.drop_last()) + gmarkup(s.last())
    }
}

/// Serializes a scene tree to markup text.
#[verifier::loop_isolation(false)]
pub fn node_markup(n: &SceneNode) -> (r: String)
    ensures
        r@ == gmarkup(node_view(*n)),
    decreases *n,
{
    match n {
        SceneNode::Text(s) => escape_str(s.as_str()),
        SceneNode::Element { tag, attrs, children } => {
            let mut out = String::new();
            out.append("<");
            out.append(tag.as_str());
            proof {
                reveal_strlit("<");
                assert(out@ =~= seq!['<'] + tag@);
            }
            let ghost gattrs = attr_views(attrs@);
            let mut i: usize = 0;
            while i < attrs.len()
                invariant
                    i <= attrs.len(),
                    gattrs == attr_views(attrs@),
                    gattrs.len() == attrs.len(),
                    out@ == seq!['<'] + tag@ + attrs_markup(gattrs.take(i as int)),
                decreases attrs.len() - i,
            {
                out.append(" ");
                out.append(attrs[i].name.as_str());
                out.append("=\"");
                let ev = escape_str(attrs[i].value.as_str());
                out.append(ev.as_str());
                out.append("\"");
                proof {
                    reveal_strlit(" ");
                    reveal_strlit("=\"");
                    reveal_strlit("\"");
                    assert(gattrs.take(i + 1).drop_last() =~= gattrs.take(i as int));
                    assert(gattrs.take(i + 1).last() == gattrs[i as int]);
                    assert(gattrs[i as int] == attr_view(attrs@[i as int]));
                    assert(out@ =~= seq!['<'] + tag@ + attrs_markup(gattrs.take(i + 1)));
                }
                i = i + 1;
            }
            out.append(">");
            proof {
                reveal_strlit(">");
                assert(gattrs.take(attrs@.len() as int) =~= gattrs);
                assert(out@ =~= seq!['<'] + tag@ + attrs_markup(gattrs) + seq!['>']);
            }
            let ghost head = out@;
            let ghost gchildren = nodes_view(children@);
            proof {
                lemma_nodes_view_len(children@);
                assert forall|k: int| 0 <= k < children@.len() implies gchildren[k] == node_view(
                    #[trigger] children@[k],
                ) by {
                    lemma_nodes_view_index(children@, k);
                }
            }
            let mut j: usize = 0;
            while j < children.len()
                invariant
                    j <= children.len(),
                    head == seq!['<'] + tag@ + attrs_markup(attr_views(attrs@)) + seq!['>'],
                    gchildren == nodes_view(children@),
                    gchildren.len() == children.len(),
                    forall|k: int|
                        0 <= k < children@.len() ==> gchildren[k] == node_view(
                            #[trigger] children@[k],
                        ),
                    out@ == head + gnodes_markup(gchildren.take(j as int)),
                decreases children.len() - j,
            {
                proof {
                    assert(decreases_to!(*n => *children));
                    assert(decreases_to!(*children => children[j as int]));
                }
                let cm = node_markup(&children[j]);
                out.append(cm.as_str());
                proof {
                    assert(gchildren.take(j + 1).drop_last() =~= gchildren.take(j as int));
                    assert(gchildren.take(j + 1).last() == gchildren[j as int]);
                    assert(out@ =~= head + gnodes_markup(gchildren.take(j + 1)));
                }
                j = j + 1;
            }
            out.append("</");
            out.append(tag.as_str());
            out.append(">");
            proof {
                reveal_strlit("</");
                reveal_strlit(">");
                lemma_nodes_view_len(children@);
                assert(gchildren.take(children@.len() as int) =~= gchildren);
                assert(out@ =~= gmarkup(node_view(*n)));
            }
            out
        },
    }
}

} // verus!
