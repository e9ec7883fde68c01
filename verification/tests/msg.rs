use pbrq::idl::pbbot::{keep_last_by_key, Message};
use pbrq::msg::from_proto::{
    append_at, append_face, append_image, append_text, append_video, to_rq_chain, Contact,
};
use pbrq::msg::from_xml::{messages_of_nodes, text_message, xml_to_proto, XmlNode};
use pbrq::msg::to_proto::to_proto_chain;
use pbrq::msg::to_xml::{lookup, lookup_or_empty, proto_to_xml};
use pbrq::native::elem::{At, Face, Image, Text, Video};
use pbrq::native::{MessageChain, RQElem};

fn message(kind: &str, data: &[(&str, &str)]) -> Message {
    Message {
        kind: kind.to_string(),
        data: data.iter().map(|(k, v)| (k.to_string(), v.to_string())).collect(),
    }
}

fn text(s: &str) -> RQElem {
    RQElem::Text(Text { content: s.to_string() })
}

fn at(target: i64, display: &str) -> RQElem {
    RQElem::At(At { target, display: display.to_string() })
}

#[test]
fn test_xml_to_proto() {
    let msg = "<a>as d  <face id=\"1\"/></a>".to_string();
    let p = xml_to_proto(msg);
    println!("{:?}", p);
    assert_eq!(p, vec![message("text", &[("text", "as d  ")]), message("face", &[("id", "1")])]);
}

#[test]
fn test_proto_to_xml() {
    let p = vec![
        Message {
            kind: "text".into(),
            data: vec![("text".to_string(), "xxx".to_string())],
        },
        Message {
            kind: "at".into(),
            data: vec![("qq".to_string(), "123".to_string())],
        },
    ];
    let x = proto_to_xml(p);
    println!("{}", x);
    assert_eq!(x, "xxx<at qq=\"123\"/>");
}

#[test]
fn proto_to_xml_exact() {
    assert_eq!(proto_to_xml(vec![]), "");
    assert_eq!(proto_to_xml(vec![message("face", &[])]), "<face />");
    assert_eq!(
        proto_to_xml(vec![message("image", &[("url", "http://x/y"), ("cache", "1")])]),
        "<image url=\"http://x/y\" cache=\"1\"/>"
    );
    assert_eq!(proto_to_xml(vec![message("text", &[])]), "");
    assert_eq!(proto_to_xml(vec![message("text", &[("other", "x")])]), "");
    assert_eq!(proto_to_xml(vec![message("text", &[("text", "a<b")])]), "a<b");
}

#[test]
fn proto_to_xml_escapes_attribute_values() {
    assert_eq!(
        proto_to_xml(vec![message("at", &[("qq", "<>\"'&\n\r")])]),
        "<at qq=\"&lt;&gt;&quot;&apos;&amp;&#xA;&#xD;\"/>"
    );
    assert_eq!(proto_to_xml(vec![message("at", &[("qq", "é&é")])]), "<at qq=\"é&amp;é\"/>");
}

#[test]
fn xml_to_proto_exact() {
    assert_eq!(xml_to_proto("hello".to_string()), vec![message("text", &[("text", "hello")])]);
    assert_eq!(
        xml_to_proto("<at qq=\"123\"/>".to_string()),
        vec![message("at", &[("qq", "123")])]
    );
    assert_eq!(
        xml_to_proto("a<face id=\"1\"/>b<at qq=\"2\" display=\"x\"/>".to_string()),
        vec![
            message("text", &[("text", "a")]),
            message("face", &[("id", "1")]),
            message("text", &[("text", "b")]),
            message("at", &[("qq", "2"), ("display", "x")]),
        ]
    );
}

#[test]
fn xml_to_proto_leaves_the_wrapper_out() {
    let out = xml_to_proto("<b/>".to_string());
    assert_eq!(out, vec![message("b", &[])]);
    assert!(xml_to_proto(String::new()).is_empty());
}

#[test]
fn xml_to_proto_unescapes_attribute_values() {
    assert_eq!(
        xml_to_proto("<at qq=\"a&amp;b&lt;c\"/>".to_string()),
        vec![message("at", &[("qq", "a&b<c")])]
    );
}

#[test]
fn xml_to_proto_keeps_what_came_before_a_malformed_tag() {
    let out = xml_to_proto("hi<face id=1/>there".to_string());
    assert_eq!(out, vec![message("text", &[("text", "hi")])]);
}

#[test]
fn xml_round_trip_over_text_at_face() {
    for s in [
        "hi",
        "<at qq=\"123\"/>",
        "<face id=\"1\"/>",
        "hi<at qq=\"123\"/><face id=\"1\"/>there",
        "<at qq=\"a&amp;b\"/>",
        "<at qq=\"&lt;&gt;&quot;&apos;\"/>",
        "<at qq=\"1\" display=\"someone\"/>",
    ] {
        assert_eq!(proto_to_xml(xml_to_proto(s.to_string())), s);
    }
}

#[test]
fn messages_of_nodes_exact() {
    let nodes = vec![
        XmlNode::Other,
        XmlNode::Start { name: "a".to_string(), attributes: vec![] },
        XmlNode::Characters("x".to_string()),
        XmlNode::Start {
            name: "face".to_string(),
            attributes: vec![("id".to_string(), "3".to_string())],
        },
        XmlNode::Other,
        XmlNode::Failed,
    ];
    assert_eq!(
        messages_of_nodes(nodes),
        vec![message("text", &[("text", "x")]), message("face", &[("id", "3")])]
    );
    assert_eq!(messages_of_nodes(vec![]), vec![]);
    assert_eq!(text_message("t".to_string()), message("text", &[("text", "t")]));
}

#[test]
fn lookup_takes_the_first_pair() {
    let data = vec![
        ("a".to_string(), "1".to_string()),
        ("b".to_string(), "2".to_string()),
        ("a".to_string(), "3".to_string()),
    ];
    assert_eq!(lookup(&data, "a"), Some("1".to_string()));
    assert_eq!(lookup(&data, "b"), Some("2".to_string()));
    assert_eq!(lookup(&data, "c"), None);
    assert_eq!(lookup_or_empty(&data, "c"), "");
    assert_eq!(lookup_or_empty(&data, "b"), "2");
}

#[test]
fn to_proto_chain_exact() {
    let chain = MessageChain(vec![
        text("hi"),
        at(123, "@someone"),
        at(0, "@all"),
        RQElem::Face(Face { index: 14 }),
        RQElem::Other,
        RQElem::Image(Image { uri: "u".to_string(), contact: Contact::Friend(1) }),
        text(""),
    ]);
    assert_eq!(
        to_proto_chain(&chain),
        vec![
            message("text", &[("text", "hi")]),
            message("at", &[("qq", "123")]),
            message("at", &[("qq", "all")]),
            message("face", &[("id", "14")]),
            message("text", &[("text", "")]),
        ]
    );
    assert_eq!(to_proto_chain(&MessageChain(vec![])), vec![]);
}

#[test]
fn to_rq_chain_plain() {
    let out = to_rq_chain(
        vec![
            message("text", &[("text", "<face id=\"1\"/>")]),
            message("at", &[("qq", "100")]),
            message("at", &[("qq", "100"), ("display", "Bob")]),
            message("at", &[("qq", "100"), ("display", "")]),
            message("at", &[("qq", "all")]),
            message("at", &[]),
            message("face", &[("id", "7")]),
            message("face", &[("id", "x")]),
            message("image", &[("url", "http://x/p.png")]),
            message("video", &[("url", "http://x/v.mp4"), ("cover", "base64://aGk="), ("cache", "1")]),
            message("video", &[("url", "v")]),
            message("poke", &[("id", "1")]),
            message("text", &[]),
        ],
        Contact::Group(7),
        true,
    );
    assert_eq!(
        out,
        MessageChain(vec![
            text("<face id=\"1\"/>"),
            at(100, "@100"),
            at(100, "@Bob"),
            at(100, "@100"),
            at(0, "@0"),
            at(0, "@0"),
            RQElem::Face(Face { index: 7 }),
            RQElem::Face(Face { index: 0 }),
            RQElem::Image(Image { uri: "http://x/p.png".to_string(), contact: Contact::Group(7) }),
            RQElem::Video(Video {
                uri: "http://x/v.mp4".to_string(),
                cover: "base64://aGk=".to_string(),
                cache: true,
                contact: Contact::Group(7),
            }),
            RQElem::Video(Video {
                uri: "v".to_string(),
                cover: String::new(),
                cache: false,
                contact: Contact::Group(7),
            }),
            text(""),
        ])
    );
}

#[test]
fn to_rq_chain_reads_markup_in_text() {
    let out = to_rq_chain(
        vec![
            message("text", &[("text", "hi <at qq=\"5\"/><face id=\"2\"/> there")]),
            message("text", &[("text", "")]),
            message("face", &[("id", "9")]),
            message("text", &[("text", "<image url=\"u\"/>")]),
        ],
        Contact::Friend(3),
        false,
    );
    assert_eq!(
        out,
        MessageChain(vec![
            text("hi "),
            at(5, "@5"),
            RQElem::Face(Face { index: 2 }),
            text(" there"),
            RQElem::Face(Face { index: 9 }),
            RQElem::Image(Image { uri: "u".to_string(), contact: Contact::Friend(3) }),
        ])
    );
}

#[test]
fn to_rq_chain_of_nothing() {
    assert_eq!(to_rq_chain(vec![], Contact::Friend(1), true), MessageChain(vec![]));
    assert_eq!(to_rq_chain(vec![], Contact::Friend(1), false), MessageChain(vec![]));
}

#[test]
fn append_each_element() {
    let mut chain = MessageChain(vec![text("x")]);
    let data = vec![
        ("text".to_string(), "t".to_string()),
        ("qq".to_string(), "-4".to_string()),
        ("id".to_string(), "-2147483648".to_string()),
        ("url".to_string(), "file:///p".to_string()),
    ];
    append_text(&mut chain, &data);
    append_at(&mut chain, &data);
    append_face(&mut chain, &data);
    append_image(&mut chain, &data, Contact::Friend(2));
    append_video(&mut chain, &data, Contact::Friend(2));
    assert_eq!(
        chain,
        MessageChain(vec![
            text("x"),
            text("t"),
            at(-4, "@-4"),
            RQElem::Face(Face { index: i32::MIN }),
            RQElem::Image(Image { uri: "file:///p".to_string(), contact: Contact::Friend(2) }),
            RQElem::Video(Video {
                uri: "file:///p".to_string(),
                cover: String::new(),
                cache: false,
                contact: Contact::Friend(2),
            }),
        ])
    );
}

#[test]
fn native_to_wire_and_back_over_text_at_face() {
    let chain = MessageChain(vec![text("hello"), at(42, "@42"), RQElem::Face(Face { index: 3 })]);
    let wire = to_proto_chain(&chain);
    assert_eq!(to_rq_chain(wire, Contact::Friend(1), true), chain);
}

#[test]
fn mention_of_everyone_comes_back_as_target_zero() {
    let chain = MessageChain(vec![at(0, "@0")]);
    let wire = to_proto_chain(&chain);
    assert_eq!(wire, vec![message("at", &[("qq", "all")])]);
    assert_eq!(to_rq_chain(wire, Contact::Group(1), true), chain);
}

fn pairs(data: &[(&str, &str)]) -> Vec<(String, String)> {
    data.iter().map(|(k, v)| (k.to_string(), v.to_string())).collect()
}

#[test]
fn pairs_read_as_a_map_keep_the_last_of_each_key() {
    assert_eq!(
        keep_last_by_key(&pairs(&[("a", "1"), ("b", "2"), ("a", "3"), ("c", "4"), ("b", "5")])),
        pairs(&[("a", "3"), ("c", "4"), ("b", "5")])
    );
    assert_eq!(keep_last_by_key(&pairs(&[("a", "1"), ("b", "2")])), pairs(&[("a", "1"), ("b", "2")]));
    assert_eq!(keep_last_by_key(&pairs(&[("a", "1"), ("a", "1")])), pairs(&[("a", "1")]));
    assert_eq!(keep_last_by_key(&vec![]), vec![]);
}

#[test]
fn attributes_with_one_name_count_once() {
    let nodes = vec![XmlNode::Start {
        name: "at".to_string(),
        attributes: pairs(&[("qq", "1"), ("display", "x"), ("qq", "2")]),
    }];
    assert_eq!(
        messages_of_nodes(nodes),
        vec![message("at", &[("display", "x"), ("qq", "2")])]
    );
}
