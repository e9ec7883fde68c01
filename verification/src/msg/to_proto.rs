//! Translation of a native message into a wire message.

use vstd::prelude::*;
use crate::idl::pbbot::{distinct_keys, messages_wf, Message, MessageView};
use crate::native::{elem, ElemView, MessageChain, RQElem};
use crate::util::text::{decimal, decimal_string};

verus! {

/// An element with the one attribute `key`.
pub open spec fn single(kind: Seq<char>, key: Seq<char>, value: Seq<char>) -> MessageView {
    MessageView { kind, data: seq![(key, value)] }
}

/// The wire element for a native one, where there is one: text keeps its
/// content, a mention names its target in decimal or `all` for target 0, an
/// emoticon names its number.
pub open spec fn elem_message(e: ElemView) -> Option<MessageView> {
    match e {
        ElemView::Text { content } => Some(single("text"@, "text"@, content)),
        ElemView::At { target, display } => Some(
            single(
                "at"@,
                "qq"@,
                if target != 0 {
                    decimal(target as int)
                } else {
                    "all"@
                },
            ),
        ),
        ElemView::Face { index } => Some(single("face"@, "id"@, decimal(index as int))),
        _ => None,
    }
}

/// The wire elements for a native message, in its order; elements without a
/// wire form are left out.
pub open spec fn chain_messages(es: Seq<ElemView>) -> Seq<MessageView>
    decreases es.len(),
{
    if es.len() == 0 {
        Seq::empty()
    } else {
        match elem_message(es.last()) {
            Some(m) => chain_messages(es.drop_last()).push(m),
            None => chain_messages(es.drop_last()),
        }
    }
}

/// Every element of the wire form of a native message is well formed.
pub proof fn lemma_chain_messages_wf(es: Seq<ElemView>)
    ensures
        messages_wf(chain_messages(es)),
    decreases es.len(),
{
    if es.len() > 0 {
        lemma_chain_messages_wf(es.drop_last());
        let before = chain_messages(es.drop_last());
        let all = chain_messages(es);
        assert forall|i: int| 0 <= i < all.len() implies distinct_keys((#[trigger] all[i]).data) by {
            if i < before.len() {
                assert(all[i] == before[i]);
            }
        }
    }
}

fn single_message(kind: &str, key: &str, value: String) -> (m: Message)
    ensures
        m@ == single(kind@, key@, value@),
{
    let mut data: Vec<(String, String)> = Vec::new();
    data.push((key.to_string(), value));
    let m = Message { kind: kind.to_string(), data };
    assert(m@.data =~= seq![(key@, value@)]);
    m
}

/// Appends the wire form of a text element.
pub fn append_text(chain: &mut Vec<Message>, element: elem::Text)
    ensures
        final(chain).deep_view() == old(chain).deep_view().push(
            single("text"@, "text"@, element.content@),
        ),
{
    chain.push(single_message("text", "text", element.content));
    assert(chain.deep_view() =~= old(chain).deep_view().push(
        single("text"@, "text"@, element.content@),
    ));
}

/// Appends the wire form of a mention.
pub fn append_at(chain: &mut Vec<Message>, element: elem::At)
    ensures
        final(chain).deep_view() == old(chain).deep_view().push(
            elem_message(RQElem::At(element)@)->Some_0,
        ),
{
    let qq = if element.target != 0 {
        decimal_string(element.target)
    } else {
        "all".to_string()
    };
    chain.push(single_message("at", "qq", qq));
    assert(chain.deep_view() =~= old(chain).deep_view().push(
        elem_message(RQElem::At(element)@)->Some_0,
    ));
}

/// Appends the wire form of an emoticon.
pub fn append_face(chain: &mut Vec<Message>, element: elem::Face)
    ensures
        final(chain).deep_view() == old(chain).deep_view().push(
            single("face"@, "id"@, decimal(element.index as int)),
        ),
{
    chain.push(single_message("face", "id", decimal_string(element.index as i64)));
    assert(chain.deep_view() =~= old(chain).deep_view().push(
        single("face"@, "id"@, decimal(element.index as int)),
    ));
}

/// Translates a native message into a wire message. Text, mentions and
/// emoticons are translated in order; every other element is dropped.
pub fn to_proto_chain(message: &MessageChain) -> (chain: Vec<Message>)
    ensures
        chain.deep_view() == chain_messages(message.0.deep_view()),
        messages_wf(chain.deep_view()),
{
    proof {
        lemma_chain_messages_wf(message.0.deep_view());
    }
    let ghost all = message.0.deep_view();
    let mut chain: Vec<Message> = Vec::new();
    let mut i: usize = 0;
    proof {
        assert(all.take(0) =~= Seq::<ElemView>::empty());
    }
    while i < message.0.len()
        invariant
            i <= message.0@.len(),
            all == message.0.deep_view(),
            chain.deep_view() == chain_messages(all.take(i as int)),
        decreases message.0@.len() - i,
    {
        proof {
            let next = all.take(i + 1);
            assert(next.last() == message.0@[i as int]@);
            assert(next.drop_last() =~= all.take(i as int));
        }
        match &message.0[i] {
            RQElem::At(element) => append_at(
                &mut chain,
                elem::At { target: element.target, display: element.display.clone() },
            ),
            RQElem::Text(element) => append_text(
                &mut chain,
                elem::Text { content: element.content.clone() },
            ),
            RQElem::Face(element) => append_face(&mut chain, elem::Face { index: element.index }),
            _ => {},
        }
        i = i + 1;
    }
    proof {
        assert(all.take(i as int) =~= all);
    }
    chain
}

} // verus!
