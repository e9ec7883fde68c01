use pbrq::error::RCError;
use pbrq::plugin::pb_to_bytes::WireError;
use pbrq::util::uri_reader::{
    get_binary, video_cache_file, video_source, Binary, VideoSource,
};

#[test]
fn base64_uri_holds_its_bytes() {
    match get_binary("base64://aGVsbG8=") {
        Binary::Inline(Ok(bytes)) => assert_eq!(bytes, b"hello".to_vec()),
        other => panic!("{:?}", other),
    }
    match get_binary("base64://") {
        Binary::Inline(Ok(bytes)) => assert!(bytes.is_empty()),
        other => panic!("{:?}", other),
    }
}

#[test]
fn bad_base64_is_an_error() {
    match get_binary("base64://!!!") {
        Binary::Inline(Err(RCError::Base64Decode(e))) => {
            assert_eq!(e, base64::decode("!!!").unwrap_err())
        }
        other => panic!("{:?}", other),
    }
}

#[test]
fn file_uri_names_a_path() {
    match get_binary("file:///tmp/a.png") {
        Binary::File(path) => assert_eq!(path, "/tmp/a.png"),
        other => panic!("{:?}", other),
    }
    match get_binary("relative/a.png") {
        Binary::File(path) => assert_eq!(path, "relative/a.png"),
        other => panic!("{:?}", other),
    }
    match get_binary("") {
        Binary::File(path) => assert_eq!(path, ""),
        other => panic!("{:?}", other),
    }
}

#[test]
fn http_uri_is_fetched() {
    for uri in ["http://x/y", "https://x/y", "httpx"] {
        match get_binary(uri) {
            Binary::Http(address) => assert_eq!(address, uri),
            other => panic!("{:?}", other),
        }
    }
}

#[test]
fn status_codes() {
    assert_eq!(RCError::ClientNotFound.status_code(), 400);
    assert_eq!(RCError::ProtocolNotSupported.status_code(), 400);
    assert_eq!(RCError::Timeout.status_code(), 500);
    assert_eq!(RCError::Other("x".to_string()).status_code(), 500);
    assert_eq!(RCError::NoneField("group".to_string()).status_code(), 500);
    assert_eq!(RCError::IO("x".to_string()).status_code(), 500);
    assert_eq!(RCError::WS("x".to_string()).status_code(), 500);
    assert_eq!(RCError::RQ("x".to_string()).status_code(), 500);
    assert_eq!(RCError::Reqwest("x".to_string()).status_code(), 500);
    assert_eq!(RCError::TungsteniteHttp("x".to_string()).status_code(), 500);
    assert_eq!(
        RCError::PB(WireError::InvalidTag).status_code(),
        500
    );
    assert_eq!(RCError::Base64Decode(base64::decode("!").unwrap_err()).status_code(), 500);
}

#[test]
fn errors_in_words() {
    assert_eq!(RCError::Other("x y".to_string()).describe(), "other error x y");
    assert_eq!(RCError::NoneField("group".to_string()).describe(), "none error group");
    assert_eq!(RCError::Timeout.describe(), "timeout error");
    assert_eq!(RCError::ClientNotFound.describe(), "client_not_found error");
    assert_eq!(RCError::ProtocolNotSupported.describe(), "protocol_not_supported error");
    assert_eq!(RCError::IO("gone".to_string()).describe(), "io error, gone");
    assert_eq!(RCError::WS("reset".to_string()).describe(), "websocket error, reset");
    assert_eq!(RCError::PB(WireError::InvalidTag).describe(), "pb decode error, invalid tag value: 0");
    assert_eq!(RCError::RQ("busy".to_string()).describe(), "rq error, busy");
    assert_eq!(RCError::Reqwest("dns".to_string()).describe(), "reqwest error, dns");
    assert_eq!(
        RCError::TungsteniteHttp("bad".to_string()).describe(),
        "tungstenite http error, bad"
    );
    let e = base64::decode("!").unwrap_err();
    assert_eq!(
        RCError::Base64Decode(e.clone()).describe(),
        format!("base64 decode error, {}", e)
    );
    let e = "".parse::<tokio_tungstenite::tungstenite::http::Uri>().unwrap_err();
    let text = format!("invalid uri error, {}", e);
    assert_eq!(RCError::InvalidUri(e).describe(), text);
}

#[test]
fn wire_errors_in_words() {
    assert_eq!(WireError::InvalidVarint.describe(), "invalid varint");
    assert_eq!(WireError::InvalidKey.describe(), "invalid key value");
    assert_eq!(WireError::InvalidWireType.describe(), "invalid wire type value");
    assert_eq!(WireError::InvalidTag.describe(), "invalid tag value: 0");
    assert_eq!(WireError::WrongWireType.describe(), "invalid wire type");
    assert_eq!(WireError::BufferUnderflow.describe(), "buffer underflow");
    assert_eq!(WireError::UnexpectedEndGroup.describe(), "unexpected end group tag");
    assert_eq!(WireError::RecursionLimit.describe(), "recursion limit reached");
}

#[test]
fn video_cache_file_is_named_after_the_digest_of_the_uri() {
    assert_eq!(video_cache_file(""), "video/d41d8cd98f00b204e9800998ecf8427e.mp4");
    assert_eq!(video_cache_file("abc"), "video/900150983cd24fb0d6963f7d28e17f72.mp4");
    let uri = "http://example.com/v.mp4";
    assert_eq!(video_cache_file(uri), format!("video/{:x}.mp4", md5::compute(uri)));
}

#[test]
fn video_comes_from_the_kept_copy_only_if_allowed_and_there() {
    let uri = "http://example.com/v.mp4";
    let path = video_cache_file(uri);
    assert_eq!(video_source(uri, true, true), VideoSource::Kept { path: path.clone() });
    for (cache, kept) in [(true, false), (false, true), (false, false)] {
        assert_eq!(
            video_source(uri, cache, kept),
            VideoSource::Fetch { uri: uri.to_string(), keep_at: path.clone() }
        );
    }
}
