//! Rendering of a wire message as pseudo-XML text.

use vstd::prelude::*;
use crate::idl::pbbot::{attr_of, attr_or_empty, Message, MessageView};
use crate::util::text::{push_str, string_of};

verus! {

/// What stands for `c` inside an attribute value.
pub open spec fn escaped_char(c: char) -> Seq<char> {
    if c == '<' {
        seq!['&', 'l', 't', ';']
    } else if c == '>' {
        seq!['&', 'g', 't', ';']
    } else if c == '"' {
        seq!['&', 'q', 'u', 'o', 't', ';']
    } else if c == '\'' {
        seq!['&', 'a', 'p', 'o', 's', ';']
    } else if c == '&' {
        seq!['&', 'a', 'm', 'p', ';']
    } else if c == '\n' {
        seq!['&', '#', 'x', 'A', ';']
    } else if c == '\r' {
        seq!['&', '#', 'x', 'D', ';']
    } else {
        seq![c]
    }
}

/// `s` with every character that cannot stand in an attribute value
/// replaced by its entity.
pub open spec fn escaped_attribute(s: Seq<char>) -> Seq<char>
    decreases s.len(),
{
    if s.len() == 0 {
        Seq::empty()
    } else {
        escaped_char(s[0]) + escaped_attribute(s.skip(1))
    }
}

/// `xml::escape::escape_str_attribute`: each of `<`, `>`, `"`, `'`, `&`,
/// line feed and carriage return is replaced by its entity (`&lt;`, `&gt;`,
/// `&quot;`, `&apos;`, `&amp;`, `&#xA;`, `&#xD;`); every other character
/// stays as it is.
#[verifier::external_body]
fn escape_str_attribute(s: &str) -> (r: String)
    ensures
        r@ == escaped_attribute(s@),
{
    xml::escape::escape_str_attribute(s).into_owned()
}

/// One attribute: `key="value"`, the value escaped.
pub open spec fn attribute_xml(kv: (Seq<char>, Seq<char>)) -> Seq<char> {
    kv.0 + seq!['=', '"'] + escaped_attribute(kv.1) + seq!['"']
}

/// The attributes in order, one space between two of them.
pub open spec fn attributes_xml(data: Seq<(Seq<char>, Seq<char>)>) -> Seq<char>
    decreases data.len(),
{
    if data.len() == 0 {
        Seq::empty()
    } else if data.len() == 1 {
        attribute_xml(data[0])
    } else {
        attributes_xml(data.drop_last()) + seq![' '] + attribute_xml(data.last())
    }
}

/// One element: a `text` element is its text as it is; any other is an empty
/// tag named after its type that carries its attributes.
pub open spec fn element_xml(m: MessageView) -> Seq<char> {
    if m.kind == "text"@ {
        attr_or_empty(m.data, "text"@)
    } else {
        seq!['<'] + m.kind + seq![' '] + attributes_xml(m.data) + seq!['/', '>']
    }
}

/// The elements in order, nothing between them.
pub open spec fn chain_xml(ms: Seq<MessageView>) -> Seq<char>
    decreases ms.len(),
{
    if ms.len() == 0 {
        Seq::empty()
    } else {
        chain_xml(ms.drop_last()) + element_xml(ms.last())
    }
}

/// The value under `key` in `data`, if there is one.
pub fn lookup(data: &Vec<(String, String)>, key: &str) -> (r: Option<String>)
    ensures
        match attr_of(data.deep_view(), key@) {
            Some(v) => r is Some && r->Some_0@ == v,
            None => r is None,
        },
{
    let wanted = key.to_string();
    let ghost all = data.deep_view();
    let mut i: usize = 0;
    proof {
        assert(all.skip(0) =~= all);
    }
    while i < data.len()
        invariant
            i <= data@.len(),
            all == data.deep_view(),
            wanted@ == key@,
            attr_of(all, key@) == attr_of(all.skip(i as int), key@),
        decreases data@.len() - i,
    {
        proof {
            assert(all.skip(i as int)[0] == all[i as int]);
            assert(all.skip(i as int).skip(1) =~= all.skip(i + 1));
        }
        if data[i].0 == wanted {
            return Some(data[i].1.clone());
        }
        i = i + 1;
    }
    None
}

/// The value under `key` in `data`, or the empty string.
pub fn lookup_or_empty(data: &Vec<(String, String)>, key: &str) -> (r: String)
    ensures
        r@ == attr_or_empty(data.deep_view(), key@),
{
    match lookup(data, key) {
        Some(v) => v,
        None => String::new(),
    }
}

fn push_attributes(out: &mut Vec<char>, data: &Vec<(String, String)>)
    ensures
        final(out)@ == old(out)@ + attributes_xml(data.deep_view()),
{
    let ghost all = data.deep_view();
    let mut i: usize = 0;
    proof {
        assert(all.take(0) =~= Seq::<(Seq<char>, Seq<char>)>::empty());
        assert(out@ =~= old(out)@ + attributes_xml(all.take(0)));
    }
    while i < data.len()
        invariant
            i <= data@.len(),
            all == data.deep_view(),
            out@ == old(out)@ + attributes_xml(all.take(i as int)),
        decreases data@.len() - i,
    {
        if i > 0 {
            out.push(' ');
        }
        push_str(out, data[i].0.as_str());
        out.push('=');
        out.push('"');
        let escaped = escape_str_attribute(data[i].1.as_str());
        push_str(out, escaped.as_str());
        out.push('"');
        proof {
            let next = all.take(i + 1);
            assert(next.last() == all[i as int]);
            assert(next.drop_last() =~= all.take(i as int));
            assert(out@ =~= old(out)@ + attributes_xml(next));
        }
        i = i + 1;
    }
    proof {
        assert(all.take(i as int) =~= all);
    }
}

fn push_element(out: &mut Vec<char>, m: &Message)
    ensures
        final(out)@ == old(out)@ + element_xml(m@),
{
    let text_kind = "text".to_string();
    if m.kind == text_kind {
        let text = lookup_or_empty(&m.data, "text");
        push_str(out, text.as_str());
    } else {
        out.push('<');
        push_str(out, m.kind.as_str());
        out.push(' ');
        push_attributes(out, &m.data);
        out.push('/');
        out.push('>');
        assert(out@ =~= old(out)@ + element_xml(m@));
    }
}

/// Renders a wire message as text: text elements as they are, every other
/// element as an empty tag with its attributes, in the order of the message.
pub fn proto_to_xml(s: Vec<Message>) -> (xml: String)
    ensures
        xml@ == chain_xml(s.deep_view()),
{
    let ghost all = s.deep_view();
    let mut out: Vec<char> = Vec::new();
    let mut i: usize = 0;
    proof {
        assert(all.take(0) =~= Seq::<MessageView>::empty());
    }
    while i < s.len()
        invariant
            i <= s@.len(),
            all == s.deep_view(),
            out@ == chain_xml(all.take(i as int)),
        decreases s@.len() - i,
    {
        push_element(&mut out, &s[i]);
        proof {
            let next = all.take(i + 1);
            assert(next.last() == s@[i as int]@);
            assert(next.drop_last() =~= all.take(i as int));
        }
        i = i + 1;
    }
    proof {
        assert(all.take(i as int) =~= all);
    }
    string_of(&out)
}

} // verus!
