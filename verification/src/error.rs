//! The errors of the gateway.

use vstd::prelude::*;
use crate::plugin::pb_to_bytes::WireError;
use crate::util::text::{chars_of, has_prefix, push_str, string_of};

verus! {

/// `base64::DecodeError`, carried as it comes.
#[verifier::external_type_specification]
#[verifier::external_body]
pub struct ExBase64DecodeError(base64::DecodeError);

/// `http::uri::InvalidUri`, carried as it comes.
#[verifier::external_type_specification]
#[verifier::external_body]
pub struct ExInvalidUri(tokio_tungstenite::tungstenite::http::uri::InvalidUri);

/// What the gateway gives where it can fail.
pub type RCResult<T> = Result<T, RCError>;

/// What can go wrong in the gateway. Failures that arise outside this
/// library are carried by their description.
#[derive(Debug)]
pub enum RCError {
    Other(String),
    /// A value that was asked for does not exist; the payload names it.
    NoneField(String),
    Timeout,
    /// No pending login or bot stands under the given key.
    ClientNotFound,
    ProtocolNotSupported,
    IO(String),
    /// A WebSocket failure.
    WS(String),
    /// Bytes could not be decoded as a message.
    PB(WireError),
    /// The chat driver failed.
    RQ(String),
    /// An HTTP request failed.
    Reqwest(String),
    Base64Decode(base64::DecodeError),
    InvalidUri(tokio_tungstenite::tungstenite::http::uri::InvalidUri),
    /// An HTTP request could not be built.
    TungsteniteHttp(String),
}

/// `Display` of `base64::DecodeError`: the error in words.
#[verifier::external_body]
fn base64_error_text(e: &base64::DecodeError) -> String {
    format!("{}", e)
}

/// `Display` of `http::uri::InvalidUri`: the error in words.
#[verifier::external_body]
fn invalid_uri_text(e: &tokio_tungstenite::tungstenite::http::uri::InvalidUri) -> String {
    format!("{}", e)
}

fn with_detail(head: &str, detail: &str) -> (text: String)
    ensures
        text@ == head@ + detail@,
{
    let mut out = chars_of(head);
    push_str(&mut out, detail);
    string_of(&out)
}

/// The HTTP status for a request that cannot be served as it stands.
pub const STATUS_BAD_REQUEST: u16 = 400;

/// The HTTP status for a failure on the side of the gateway.
pub const STATUS_INTERNAL_SERVER_ERROR: u16 = 500;

impl RCError {
    /// The error in words. The words for a failure of decoding base64 or
    /// of reading a URI end with what the decoder or reader says about it.
    pub open spec fn described(&self, text: Seq<char>) -> bool {
        match self {
            RCError::Other(detail) => text == "other error "@ + detail@,
            RCError::NoneField(name) => text == "none error "@ + name@,
            RCError::Timeout => text == "timeout error"@,
            RCError::ClientNotFound => text == "client_not_found error"@,
            RCError::ProtocolNotSupported => text == "protocol_not_supported error"@,
            RCError::IO(detail) => text == "io error, "@ + detail@,
            RCError::WS(detail) => text == "websocket error, "@ + detail@,
            RCError::PB(e) => text == "pb decode error, "@ + e.spec_describe(),
            RCError::RQ(detail) => text == "rq error, "@ + detail@,
            RCError::Reqwest(detail) => text == "reqwest error, "@ + detail@,
            RCError::Base64Decode(_) => has_prefix(text, "base64 decode error, "@),
            RCError::InvalidUri(_) => has_prefix(text, "invalid uri error, "@),
            RCError::TungsteniteHttp(detail) => text == "tungstenite http error, "@ + detail@,
        }
    }

    /// The error in words.
    pub fn describe(&self) -> (text: String)
        ensures
            self.described(text@),
    {
        match self {
            RCError::Other(detail) => with_detail("other error ", detail.as_str()),
            RCError::NoneField(name) => with_detail("none error ", name.as_str()),
            RCError::Timeout => "timeout error".to_string(),
            RCError::ClientNotFound => "client_not_found error".to_string(),
            RCError::ProtocolNotSupported => "protocol_not_supported error".to_string(),
            RCError::IO(detail) => with_detail("io error, ", detail.as_str()),
            RCError::WS(detail) => with_detail("websocket error, ", detail.as_str()),
            RCError::PB(e) => with_detail("pb decode error, ", e.describe().as_str()),
            RCError::RQ(detail) => with_detail("rq error, ", detail.as_str()),
            RCError::Reqwest(detail) => with_detail("reqwest error, ", detail.as_str()),
            RCError::Base64Decode(e) => {
                let head = "base64 decode error, ";
                let text = with_detail(head, base64_error_text(e).as_str());
                assert(text@.take(head@.len() as int) =~= head@);
                text
            },
            RCError::InvalidUri(e) => {
                let head = "invalid uri error, ";
                let text = with_detail(head, invalid_uri_text(e).as_str());
                assert(text@.take(head@.len() as int) =~= head@);
                text
            },
            RCError::TungsteniteHttp(detail) => with_detail(
                "tungstenite http error, ",
                detail.as_str(),
            ),
        }
    }

    /// The HTTP status under which the error is reported to an
    /// administrator: 400 where the request named a client or a protocol that
    /// does not exist, 500 for everything else.
    pub open spec fn spec_status_code(&self) -> u16 {
        match self {
            RCError::ClientNotFound => STATUS_BAD_REQUEST,
            RCError::ProtocolNotSupported => STATUS_BAD_REQUEST,
            _ => STATUS_INTERNAL_SERVER_ERROR,
        }
    }

    /// The HTTP status under which the error is reported to an
    /// administrator.
    #[verifier::when_used_as_spec(spec_status_code)]
    pub fn status_code(&self) -> (code: u16)
        ensures
            code == self.spec_status_code(),
    {
        match self {
            RCError::ClientNotFound => STATUS_BAD_REQUEST,
            RCError::ProtocolNotSupported => STATUS_BAD_REQUEST,
            _ => STATUS_INTERNAL_SERVER_ERROR,
        }
    }
}

} // verus!
