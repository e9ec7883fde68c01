//! Reading pseudo-XML text as a wire message.

use vstd::prelude::*;
use crate::idl::pbbot::{
    as_map, distinct_keys, keep_last_by_key, lemma_kept_pairs_distinct, messages_wf, Message,
    MessageView,
};
use crate::util::text::{push_str, string_of};

verus! {

/// What a reader of XML reports, as far as the gateway looks at it.
#[derive(Clone, Debug, PartialEq, Eq)]
pub enum XmlNode {
    /// An opening tag: its local name and its attributes in order.
    Start { name: String, attributes: Vec<(String, String)> },
    /// Text between tags.
    Characters(String),
    /// Anything else the reader reports.
    Other,
    /// The reader gave up on the document.
    Failed,
}

/// What an `XmlNode` holds, as mathematical values.
pub enum XmlNodeView {
    Start { name: Seq<char>, attributes: Seq<(Seq<char>, Seq<char>)> },
    Characters(Seq<char>),
    Other,
    Failed,
}

impl DeepView for XmlNode {
    type V = XmlNodeView;

    open spec fn deep_view(&self) -> XmlNodeView {
        match *self {
            XmlNode::Start { name, attributes } => XmlNodeView::Start {
                name: name@,
                attributes: attributes.deep_view(),
            },
            XmlNode::Characters(s) => XmlNodeView::Characters(s@),
            XmlNode::Other => XmlNodeView::Other,
            XmlNode::Failed => XmlNodeView::Failed,
        }
    }
}

/// What the XML reader reports for the document `doc`, from its first
/// report to its last.
pub uninterp spec fn xml_events(doc: Seq<char>) -> Seq<XmlNodeView>;

/// `xml::reader::EventReader::from_str` and the iteration over it: the
/// reports of the reader for `doc`, in order, up to and including the end of
/// the document or the first failure. An opening tag is kept with its local
/// name and the local names and values of its attributes, character data
/// with its text; every other report is kept as `Other`, a failure as
/// `Failed`.
#[verifier::external_body]
fn read_xml(doc: &str) -> (nodes: Vec<XmlNode>)
    ensures
        nodes.deep_view() == xml_events(doc@),
{
    xml::reader::EventReader::from_str(doc).into_iter().map(|e| match e {
        Ok(xml::reader::XmlEvent::StartElement { name, attributes, .. }) => XmlNode::Start {
            name: name.local_name,
            attributes: attributes.into_iter().map(|a| (a.name.local_name, a.value)).collect(),
        },
        Ok(xml::reader::XmlEvent::Characters(s)) => XmlNode::Characters(s),
        Ok(_) => XmlNode::Other,
        Err(_) => XmlNode::Failed,
    }).collect()
}

/// The name of the tag that is wrapped around the text before it is read.
pub open spec fn wrapper_name() -> Seq<char> {
    seq!['a']
}

/// `text` inside the wrapping tag.
pub open spec fn wrapped(text: Seq<char>) -> Seq<char> {
    seq!['<', 'a', '>'] + text + seq!['<', '/', 'a', '>']
}

/// The element that one report of the reader stands for, if any: an opening
/// tag other than the wrapping one is an element of that type with the tag's
/// attributes, read as a map; character data is a `text` element.
pub open spec fn node_message(n: XmlNodeView) -> Option<MessageView> {
    match n {
        XmlNodeView::Start { name, attributes } => if name == wrapper_name() {
            None
        } else {
            Some(MessageView { kind: name, data: as_map(attributes) })
        },
        XmlNodeView::Characters(s) => Some(
            MessageView { kind: "text"@, data: seq![("text"@, s)] },
        ),
        _ => None,
    }
}

/// The elements that a run of reports stands for, in order.
pub open spec fn nodes_messages(nodes: Seq<XmlNodeView>) -> Seq<MessageView>
    decreases nodes.len(),
{
    if nodes.len() == 0 {
        Seq::empty()
    } else {
        match node_message(nodes.last()) {
            Some(m) => nodes_messages(nodes.drop_last()).push(m),
            None => nodes_messages(nodes.drop_last()),
        }
    }
}

/// No element that comes out of a run of reports is named like the
/// wrapping tag.
pub proof fn lemma_wrapper_never_appears(nodes: Seq<XmlNodeView>)
    ensures
        forall|i: int|
            0 <= i < nodes_messages(nodes).len() ==> (#[trigger] nodes_messages(nodes)[i]).kind
                != wrapper_name(),
    decreases nodes.len(),
{
    reveal_strlit("text");
    assert("text"@.len() != wrapper_name().len());
    if nodes.len() > 0 {
        lemma_wrapper_never_appears(nodes.drop_last());
        let before = nodes_messages(nodes.drop_last());
        let all = nodes_messages(nodes);
        assert forall|i: int| 0 <= i < all.len() implies (#[trigger] all[i]).kind
            != wrapper_name() by {
            if i < before.len() {
                assert(all[i] == before[i]);
            }
        }
    }
}

/// Every element that comes out of a run of reports is well formed.
pub proof fn lemma_nodes_messages_wf(nodes: Seq<XmlNodeView>)
    ensures
        messages_wf(nodes_messages(nodes)),
    decreases nodes.len(),
{
    if nodes.len() > 0 {
        lemma_nodes_messages_wf(nodes.drop_last());
        let before = nodes_messages(nodes.drop_last());
        let all = nodes_messages(nodes);
        match nodes.last() {
            XmlNodeView::Start { name, attributes } => {
                lemma_kept_pairs_distinct(attributes, attributes.len() as int);
            },
            _ => {},
        }
        assert forall|i: int| 0 <= i < all.len() implies distinct_keys((#[trigger] all[i]).data) by {
            if i < before.len() {
                assert(all[i] == before[i]);
            }
        }
    }
}

/// A `text` element that holds `content`.
pub fn text_message(content: String) -> (m: Message)
    ensures
        m@ == (MessageView { kind: "text"@, data: seq![("text"@, content@)] }),
        m.wf(),
{
    let mut data: Vec<(String, String)> = Vec::new();
    data.push(("text".to_string(), content));
    let m = Message { kind: "text".to_string(), data };
    assert(m@.data =~= seq![("text"@, content@)]);
    m
}

/// Turns the reports of an XML reader into a wire message: each opening tag
/// but the wrapping one becomes an element, each run of character data a
/// `text` element; everything else is passed over.
pub fn messages_of_nodes(nodes: Vec<XmlNode>) -> (out: Vec<Message>)
    ensures
        out.deep_view() == nodes_messages(nodes.deep_view()),
        messages_wf(out.deep_view()),
{
    proof {
        lemma_nodes_messages_wf(nodes.deep_view());
    }
    let ghost all = nodes.deep_view();
    let wrapper = "a".to_string();
    proof {
        reveal_strlit("a");
        assert("a"@ =~= wrapper_name());
        assert(all.take(0) =~= Seq::<XmlNodeView>::empty());
    }
    let mut out: Vec<Message> = Vec::new();
    let mut nodes = nodes;
    let mut rest: Vec<XmlNode> = Vec::new();
    // take the nodes out from the back, then walk them from the front
    while nodes.len() > 0
        invariant
            nodes.deep_view() + rest.deep_view().reverse() =~= all,
        decreases nodes@.len(),
    {
        let ghost before = nodes.deep_view();
        let ghost before_rest = rest.deep_view();
        let n = nodes.pop().unwrap();
        rest.push(n);
        proof {
            assert(nodes.deep_view() =~= before.drop_last());
            assert(rest.deep_view() =~= before_rest.push(before.last()));
            assert(rest.deep_view().reverse() =~= seq![before.last()] + before_rest.reverse());
        }
    }
    proof {
        assert(rest.deep_view().reverse() =~= all);
    }
    let ghost mut done: int = 0;
    while rest.len() > 0
        invariant
            0 <= done <= all.len(),
            wrapper@ == wrapper_name(),
            rest.deep_view().reverse() =~= all.skip(done),
            out.deep_view() == nodes_messages(all.take(done)),
        decreases rest@.len(),
    {
        let ghost before_rest = rest.deep_view();
        let ghost before_out = out.deep_view();
        let n = rest.pop().unwrap();
        proof {
            assert(rest.deep_view() =~= before_rest.drop_last());
            assert(before_rest.last() == n.deep_view());
            assert(before_rest.reverse()[0] == before_rest.last());
            assert(before_rest.len() > 0);
            assert(before_rest.reverse().len() == before_rest.len());
            assert(all.skip(done).len() == before_rest.len());
            assert(done < all.len());
            assert(all.skip(done)[0] == all[done]);
            assert(all[done] == n.deep_view());
            assert(before_rest.drop_last().reverse() =~= before_rest.reverse().skip(1));
            assert(all.skip(done).skip(1) =~= all.skip(done + 1));
            assert(rest.deep_view().reverse() =~= all.skip(done + 1));
            assert(all.take(done + 1).last() == all[done]);
            assert(all.take(done + 1).drop_last() =~= all.take(done));
        }
        match n {
            XmlNode::Start { name, attributes } => {
                if !(name == wrapper) {
                    out.push(Message { kind: name, data: keep_last_by_key(&attributes) });
                    assert(out.deep_view() =~= before_out.push(node_message(all[done])->Some_0));
                }
            },
            XmlNode::Characters(s) => {
                out.push(text_message(s));
                assert(out.deep_view() =~= before_out.push(node_message(all[done])->Some_0));
            },
            _ => {},
        }
        proof {
            done = done + 1;
        }
    }
    proof {
        assert(all.skip(done).len() == 0);
        assert(all.take(done) =~= all);
    }
    out
}

/// Reads `s` as a run of text and tags and gives the wire message it stands
/// for. The text is read inside a wrapping tag that does not itself appear
/// in the result.
pub fn xml_to_proto(s: String) -> (out: Vec<Message>)
    ensures
        out.deep_view() == nodes_messages(xml_events(wrapped(s@))),
        messages_wf(out.deep_view()),
{
    let mut doc: Vec<char> = Vec::new();
    doc.push('<');
    doc.push('a');
    doc.push('>');
    push_str(&mut doc, s.as_str());
    doc.push('<');
    doc.push('/');
    doc.push('a');
    doc.push('>');
    assert(doc@ =~= wrapped(s@));
    let doc = string_of(&doc);
    messages_of_nodes(read_xml(doc.as_str()))
}

} // verus!
