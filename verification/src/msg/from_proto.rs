//! Translation of a wire message into a native message.

use vstd::prelude::*;
use crate::idl::pbbot::{attr_of, attr_or_empty, Message, MessageView};
use crate::msg::from_xml::{nodes_messages, wrapped, xml_events, xml_to_proto};
use crate::msg::to_xml::{lookup, lookup_or_empty};
use crate::native::{elem, ElemView, MessageChain, RQElem};
use crate::msg::to_proto::{chain_messages, elem_message};
use crate::util::text::{
    chars_of, decimal, digit_value, digits_number, lemma_parsed_i32_decimal,
    lemma_parsed_i64_decimal, parse_i32, parse_i64, parsed_i32, parsed_i64, push_decimal,
    push_str, string_of,
};

verus! {

/// Whom a message is for: a group, by its code, or a friend, by its account
/// number.
#[derive(Clone, Copy, Debug, PartialEq, Eq, Structural)]
pub enum Contact {
    Group(i64),
    Friend(i64),
}

/// The number that `s` spells, or 0.
pub open spec fn i64_or_zero(s: Seq<char>) -> i64 {
    match parsed_i64(s) {
        Some(v) => v,
        None => 0,
    }
}

/// The number that `s` spells, or 0.
pub open spec fn i32_or_zero(s: Seq<char>) -> i32 {
    match parsed_i32(s) {
        Some(v) => v,
        None => 0,
    }
}

/// The text element for the attributes `data`.
pub open spec fn text_elem(data: Seq<(Seq<char>, Seq<char>)>) -> ElemView {
    ElemView::Text { content: attr_or_empty(data, "text"@) }
}

/// The mention for the attributes `data`: its target is the number under
/// `qq`, or 0; it is shown as `@` and the text under `display`, or, where
/// that is absent or empty, `@` and the target.
pub open spec fn at_elem(data: Seq<(Seq<char>, Seq<char>)>) -> ElemView {
    let target = i64_or_zero(attr_or_empty(data, "qq"@));
    let shown = match attr_of(data, "display"@) {
        Some(d) => if d.len() > 0 {
            d
        } else {
            decimal(target as int)
        },
        None => decimal(target as int),
    };
    ElemView::At { target, display: seq!['@'] + shown }
}

/// The emoticon for the attributes `data`: the number under `id`, or 0.
pub open spec fn face_elem(data: Seq<(Seq<char>, Seq<char>)>) -> ElemView {
    ElemView::Face { index: i32_or_zero(attr_or_empty(data, "id"@)) }
}

/// The picture for the attributes `data`: to be fetched from what stands
/// under `url`.
pub open spec fn image_elem(data: Seq<(Seq<char>, Seq<char>)>, contact: Contact) -> ElemView {
    ElemView::Image { uri: attr_or_empty(data, "url"@), contact }
}

/// The video for the attributes `data`: to be fetched from what stands
/// under `url`, its cover from what stands under `cover`; a kept copy may
/// be used where `cache` is `1`.
pub open spec fn video_elem(data: Seq<(Seq<char>, Seq<char>)>, contact: Contact) -> ElemView {
    ElemView::Video {
        uri: attr_or_empty(data, "url"@),
        cover: attr_or_empty(data, "cover"@),
        cache: attr_or_empty(data, "cache"@) == "1"@,
        contact,
    }
}

/// The native element for a wire element that is taken as it stands; `None`
/// for a type that has no native form.
pub open spec fn plain_elem(m: MessageView, contact: Contact) -> Option<ElemView> {
    if m.kind == "text"@ {
        Some(text_elem(m.data))
    } else if m.kind == "at"@ {
        Some(at_elem(m.data))
    } else if m.kind == "face"@ {
        Some(face_elem(m.data))
    } else if m.kind == "image"@ {
        Some(image_elem(m.data, contact))
    } else if m.kind == "video"@ {
        Some(video_elem(m.data, contact))
    } else {
        None
    }
}

/// The native message for a wire message whose elements are taken as they
/// stand: one element for each that has a native form, in order.
pub open spec fn plain_chain(ms: Seq<MessageView>, contact: Contact) -> Seq<ElemView>
    decreases ms.len(),
{
    if ms.len() == 0 {
        Seq::empty()
    } else {
        match plain_elem(ms.last(), contact) {
            Some(e) => plain_chain(ms.drop_last(), contact).push(e),
            None => plain_chain(ms.drop_last(), contact),
        }
    }
}

/// The native elements for one wire element whose text is markup: the text
/// of a `text` element is read as a run of text and tags, and what comes out
/// is taken as it stands; an empty text gives nothing. Any other element is
/// taken as it stands.
pub open spec fn markup_elems(m: MessageView, contact: Contact) -> Seq<ElemView> {
    if m.kind == "text"@ {
        let text = attr_or_empty(m.data, "text"@);
        if text.len() == 0 {
            Seq::empty()
        } else {
            plain_chain(nodes_messages(xml_events(wrapped(text))), contact)
        }
    } else {
        match plain_elem(m, contact) {
            Some(e) => seq![e],
            None => Seq::empty(),
        }
    }
}

/// The native message for a wire message whose text is markup.
pub open spec fn markup_chain(ms: Seq<MessageView>, contact: Contact) -> Seq<ElemView>
    decreases ms.len(),
{
    if ms.len() == 0 {
        Seq::empty()
    } else {
        markup_chain(ms.drop_last(), contact) + markup_elems(ms.last(), contact)
    }
}

/// The native message for a wire message: with `auto_escape` its elements
/// are taken as they stand, without it the text of `text` elements is read
/// as markup.
pub open spec fn rq_chain(ms: Seq<MessageView>, contact: Contact, auto_escape: bool) -> Seq<
    ElemView,
> {
    if auto_escape {
        plain_chain(ms, contact)
    } else {
        markup_chain(ms, contact)
    }
}

/// Whether a native element is one that its wire form brings back as it
/// is: text, an emoticon, or a mention that is shown as `@` and its target.
pub open spec fn echoes(e: ElemView) -> bool {
    match e {
        ElemView::Text { .. } => true,
        ElemView::Face { .. } => true,
        ElemView::At { target, display } => display == seq!['@'] + decimal(target as int),
        _ => false,
    }
}

/// The wire form of an element that echoes, taken as it stands, is the
/// element again.
pub proof fn lemma_elem_round_trip(e: ElemView, contact: Contact)
    requires
        echoes(e),
    ensures
        elem_message(e) matches Some(m) && plain_elem(m, contact) == Some(e),
{
    reveal_strlit("text");
    reveal_strlit("at");
    reveal_strlit("face");
    reveal_strlit("qq");
    reveal_strlit("id");
    reveal_strlit("display");
    reveal_strlit("all");
    let m = elem_message(e)->Some_0;
    assert("text"@[0] == 't');
    assert("face"@[0] == 'f');
    assert("at"@.len() == 2);
    assert("qq"@.len() == 2);
    assert("display"@.len() == 7);
    let data = m.data;
    assert(data.len() == 1);
    assert(data.skip(1).len() == 0);
    match e {
        ElemView::Text { content } => {
            assert(attr_of(data, "text"@) == Some(content));
        },
        ElemView::Face { index } => {
            assert(attr_of(data, "id"@) == Some(decimal(index as int)));
            lemma_parsed_i32_decimal(index);
        },
        ElemView::At { target, display } => {
            assert(attr_of(data.skip(1), "display"@) is None);
            assert(attr_of(data, "display"@) is None);
            if target != 0 {
                assert(attr_of(data, "qq"@) == Some(decimal(target as int)));
                lemma_parsed_i64_decimal(target);
            } else {
                assert(attr_of(data, "qq"@) == Some("all"@));
                let all = "all"@;
                assert(all[0] == 'a');
                assert(all.skip(0) =~= all);
                assert(digit_value(all.last()) is None);
                assert(digits_number(all) is None);
                assert(parsed_i64(all) is None);
                assert(decimal(0) =~= seq!['0']);
            }
        },
        _ => {},
    }
}

/// A native message of elements that echo comes back as it is when its wire
/// form is taken as it stands.
pub proof fn lemma_chain_round_trip(es: Seq<ElemView>, contact: Contact)
    requires
        forall|i: int| 0 <= i < es.len() ==> echoes(#[trigger] es[i]),
    ensures
        plain_chain(chain_messages(es), contact) == es,
    decreases es.len(),
{
    if es.len() == 0 {
        assert(plain_chain(chain_messages(es), contact) =~= es);
    } else {
        let front = es.drop_last();
        lemma_chain_round_trip(front, contact);
        lemma_elem_round_trip(es.last(), contact);
        let m = elem_message(es.last())->Some_0;
        let ms = chain_messages(front).push(m);
        assert(chain_messages(es) == ms);
        assert(ms.drop_last() =~= chain_messages(front));
        assert(ms.last() == m);
        assert(plain_chain(ms, contact) == front.push(es.last()));
        assert(front.push(es.last()) =~= es);
    }
}

/// Appends a text element with the text under `text`.
pub fn append_text(chain: &mut MessageChain, data: &Vec<(String, String)>)
    ensures
        final(chain).0.deep_view() == old(chain).0.deep_view().push(text_elem(data.deep_view())),
{
    chain.push(RQElem::Text(elem::Text::new(lookup_or_empty(data, "text"))));
    assert(chain.0.deep_view() =~= old(chain).0.deep_view().push(text_elem(data.deep_view())));
}

/// Appends a mention of the account under `qq`.
pub fn append_at(chain: &mut MessageChain, data: &Vec<(String, String)>)
    ensures
        final(chain).0.deep_view() == old(chain).0.deep_view().push(at_elem(data.deep_view())),
{
    let qq = lookup_or_empty(data, "qq");
    let target: i64 = match parse_i64(&chars_of(qq.as_str())) {
        Some(v) => v,
        None => 0,
    };
    let mut display: Vec<char> = Vec::new();
    display.push('@');
    let mut named = false;
    match lookup(data, "display") {
        Some(d) => {
            if d.as_str().unicode_len() > 0 {
                push_str(&mut display, d.as_str());
                named = true;
            }
        },
        None => {},
    }
    if !named {
        push_decimal(&mut display, target);
    }
    let display = string_of(&display);
    chain.push(RQElem::At(elem::At { target, display }));
    assert(chain.0.deep_view() =~= old(chain).0.deep_view().push(at_elem(data.deep_view())));
}

/// Appends the emoticon whose number stands under `id`.
pub fn append_face(chain: &mut MessageChain, data: &Vec<(String, String)>)
    ensures
        final(chain).0.deep_view() == old(chain).0.deep_view().push(face_elem(data.deep_view())),
{
    let id = lookup_or_empty(data, "id");
    let index: i32 = match parse_i32(&chars_of(id.as_str())) {
        Some(v) => v,
        None => 0,
    };
    chain.push(RQElem::Face(elem::Face::new(index)));
    assert(chain.0.deep_view() =~= old(chain).0.deep_view().push(face_elem(data.deep_view())));
}

/// Appends the picture that is to be fetched from what stands under `url`.
pub fn append_image(chain: &mut MessageChain, data: &Vec<(String, String)>, contact: Contact)
    ensures
        final(chain).0.deep_view() == old(chain).0.deep_view().push(
            image_elem(data.deep_view(), contact),
        ),
{
    let uri = lookup_or_empty(data, "url");
    chain.push(RQElem::Image(elem::Image { uri, contact }));
    assert(chain.0.deep_view() =~= old(chain).0.deep_view().push(
        image_elem(data.deep_view(), contact),
    ));
}

/// Appends the video that is to be fetched from what stands under `url`.
pub fn append_video(chain: &mut MessageChain, data: &Vec<(String, String)>, contact: Contact)
    ensures
        final(chain).0.deep_view() == old(chain).0.deep_view().push(
            video_elem(data.deep_view(), contact),
        ),
{
    let uri = lookup_or_empty(data, "url");
    let cover = lookup_or_empty(data, "cover");
    let cache = lookup_or_empty(data, "cache") == "1".to_string();
    chain.push(RQElem::Video(elem::Video { uri, cover, cache, contact }));
    assert(chain.0.deep_view() =~= old(chain).0.deep_view().push(
        video_elem(data.deep_view(), contact),
    ));
}

/// Appends the native form of one wire element, taken as it stands, if it
/// has one.
fn append_plain(chain: &mut MessageChain, element: &Message, contact: Contact)
    ensures
        final(chain).0.deep_view() == match plain_elem(element@, contact) {
            Some(e) => old(chain).0.deep_view().push(e),
            None => old(chain).0.deep_view(),
        },
{
    if element.kind == "text".to_string() {
        append_text(chain, &element.data);
    } else if element.kind == "at".to_string() {
        append_at(chain, &element.data);
    } else if element.kind == "face".to_string() {
        append_face(chain, &element.data);
    } else if element.kind == "image".to_string() {
        append_image(chain, &element.data, contact);
    } else if element.kind == "video".to_string() {
        append_video(chain, &element.data, contact);
    }
}

/// Appends all elements of `more` to `chain`.
fn extend_chain(chain: &mut MessageChain, more: MessageChain)
    ensures
        final(chain).0.deep_view() == old(chain).0.deep_view() + more.0.deep_view(),
{
    let mut more = more;
    let ghost added = more.0.deep_view();
    let mut back: Vec<RQElem> = Vec::new();
    while more.0.len() > 0
        invariant
            more.0.deep_view() + back.deep_view().reverse() =~= added,
        decreases more.0@.len(),
    {
        let ghost m0 = more.0.deep_view();
        let ghost b0 = back.deep_view();
        let e = more.0.pop().unwrap();
        back.push(e);
        proof {
            assert(more.0.deep_view() =~= m0.drop_last());
            assert(back.deep_view() =~= b0.push(m0.last()));
            assert(back.deep_view().reverse() =~= seq![m0.last()] + b0.reverse());
        }
    }
    let ghost mut done: int = 0;
    while back.len() > 0
        invariant
            0 <= done <= added.len(),
            back.deep_view().reverse() =~= added.skip(done),
            chain.0.deep_view() == old(chain).0.deep_view() + added.take(done),
        decreases back@.len(),
    {
        let ghost b0 = back.deep_view();
        let ghost c0 = chain.0.deep_view();
        let e = back.pop().unwrap();
        proof {
            assert(back.deep_view() =~= b0.drop_last());
            assert(b0.last() == e.deep_view());
            assert(b0.len() > 0);
            assert(b0.reverse().len() == b0.len());
            assert(added.skip(done).len() == b0.len());
            assert(b0.reverse()[0] == b0.last());
            assert(added.skip(done)[0] == added[done]);
            assert(b0.drop_last().reverse() =~= b0.reverse().skip(1));
            assert(added.skip(done).skip(1) =~= added.skip(done + 1));
        }
        chain.push(e);
        proof {
            assert(chain.0.deep_view() =~= c0.push(added[done]));
            assert(chain.0.deep_view() =~= old(chain).0.deep_view() + added.take(done + 1));
            done = done + 1;
        }
    }
    proof {
        assert(added.skip(done).len() == 0);
        assert(added.take(done) =~= added);
    }
}

/// Translates a wire message into a native message.
///
/// With `auto_escape`, a `text` element is plain text. Without it, its text
/// is read as a run of text and tags, and each element found there is
/// translated as with `auto_escape`. Pictures and videos become elements
/// that are still to be fetched and uploaded for `contact`. Elements of
/// other types are dropped. The order of the elements is kept.
pub fn to_rq_chain(message: Vec<Message>, contact: Contact, auto_escape: bool) -> (chain:
    MessageChain)
    ensures
        chain.0.deep_view() == rq_chain(message.deep_view(), contact, auto_escape),
    decreases
            if auto_escape {
                0nat
            } else {
                1nat
            },
{
    let ghost all = message.deep_view();
    let mut chain = MessageChain(Vec::new());
    let mut i: usize = 0;
    proof {
        assert(all.take(0) =~= Seq::<MessageView>::empty());
        assert(chain.0.deep_view() =~= Seq::<ElemView>::empty());
    }
    while i < message.len()
        invariant
            i <= message@.len(),
            all == message.deep_view(),
            chain.0.deep_view() == rq_chain(all.take(i as int), contact, auto_escape),
        decreases message@.len() - i,
    {
        proof {
            let next = all.take(i + 1);
            assert(next.last() == message@[i as int]@);
            assert(next.drop_last() =~= all.take(i as int));
        }
        let element = &message[i];
        if !auto_escape && element.kind == "text".to_string() {
            let text = lookup_or_empty(&element.data, "text");
            if text.as_str().unicode_len() > 0 {
                let inner = to_rq_chain(xml_to_proto(text), contact, true);
                extend_chain(&mut chain, inner);
            } else {
                assert(chain.0.deep_view() + Seq::<ElemView>::empty() =~= chain.0.deep_view());
            }
        } else {
            let ghost c0 = chain.0.deep_view();
            append_plain(&mut chain, element, contact);
            proof {
                match plain_elem(element@, contact) {
                    Some(e) => {
                        assert(c0 + seq![e] =~= c0.push(e));
                    },
                    None => {
                        assert(c0 + Seq::<ElemView>::empty() =~= c0);
                    },
                }
            }
        }
        i = i + 1;
    }
    proof {
        assert(all.take(i as int) =~= all);
    }
    chain
}

} // verus!
