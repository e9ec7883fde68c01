//! Where the bytes behind a URI come from.

use vstd::prelude::*;
use crate::error::{RCError, RCResult};
use crate::util::text::{chars_of, has_prefix, starts_with, string_of, tail_of};

verus! {

/// What the standard base64 alphabet with padding makes of `s`: the bytes it
/// stands for, or `None` where it is no valid encoding.
pub uninterp spec fn base64_decoded(s: Seq<char>) -> Option<Seq<u8>>;

/// `base64::decode`: decodes `s` in the standard alphabet with padding.
#[verifier::external_body]
fn base64_decode(s: &str) -> (r: Result<Vec<u8>, base64::DecodeError>)
    ensures
        match r {
            Ok(bytes) => base64_decoded(s@) == Some(bytes@),
            Err(_) => base64_decoded(s@) is None,
        },
{
    base64::decode(s)
}

/// Where to get the bytes behind a URI.
#[derive(Debug)]
pub enum Binary {
    /// The URI itself held them, or failed to.
    Inline(RCResult<Vec<u8>>),
    /// They are to be read from the file at this path.
    File(String),
    /// They are to be fetched from this address over HTTP.
    Http(String),
}

/// What a URI begins with that holds its content in base64.
pub open spec fn base64_scheme() -> Seq<char> {
    seq!['b', 'a', 's', 'e', '6', '4', ':', '/', '/']
}

/// What a URI begins with that names a file.
pub open spec fn file_scheme() -> Seq<char> {
    seq!['f', 'i', 'l', 'e', ':', '/', '/']
}

/// What a URI begins with that is fetched over HTTP.
pub open spec fn http_scheme() -> Seq<char> {
    seq!['h', 't', 't', 'p']
}

/// How `get_binary` reads `uri`: after `base64://` comes the content itself
/// in base64; after `file://` comes the path of a file; what begins with
/// `http` is fetched over HTTP; anything else is the path of a file.
pub open spec fn binary_source(uri: Seq<char>, b: Binary) -> bool {
    if has_prefix(uri, base64_scheme()) {
        let payload = uri.skip(base64_scheme().len() as int);
        match b {
            Binary::Inline(Ok(bytes)) => base64_decoded(payload) == Some(bytes@),
            Binary::Inline(Err(e)) => e is Base64Decode && base64_decoded(payload) is None,
            _ => false,
        }
    } else if has_prefix(uri, file_scheme()) {
        b matches Binary::File(path) && path@ == uri.skip(file_scheme().len() as int)
    } else if has_prefix(uri, http_scheme()) {
        b matches Binary::Http(address) && address@ == uri
    } else {
        b matches Binary::File(path) && path@ == uri
    }
}

/// Decides where the bytes behind `uri` come from, and decodes them where
/// the URI holds them itself.
pub fn get_binary(uri: &str) -> (b: Binary)
    ensures
        binary_source(uri@, b),
{
    let u = chars_of(uri);
    let base64_prefix = chars_of("base64://");
    let file_prefix = chars_of("file://");
    let http_prefix = chars_of("http");
    proof {
        reveal_strlit("base64://");
        reveal_strlit("file://");
        reveal_strlit("http");
        assert(base64_prefix@ =~= base64_scheme());
        assert(file_prefix@ =~= file_scheme());
        assert(http_prefix@ =~= http_scheme());
    }
    if starts_with(&u, &base64_prefix) {
        let payload = string_of(&tail_of(&u, base64_prefix.len()));
        match base64_decode(payload.as_str()) {
            Ok(bytes) => Binary::Inline(Ok(bytes)),
            Err(e) => Binary::Inline(Err(RCError::Base64Decode(e))),
        }
    } else if starts_with(&u, &file_prefix) {
        Binary::File(string_of(&tail_of(&u, file_prefix.len())))
    } else if starts_with(&u, &http_prefix) {
        Binary::Http(string_of(&u))
    } else {
        Binary::File(string_of(&u))
    }
}

/// The MD5 digest of the bytes of `s`, in lower-case hexadecimal digits.
pub uninterp spec fn md5_hex(s: Seq<char>) -> Seq<char>;

/// `md5::compute` and the `LowerHex` form of its digest: the MD5 digest
/// of `s` in 32 lower-case hexadecimal digits.
#[verifier::external_body]
fn md5_hex_string(s: &str) -> (r: String)
    ensures
        r@ == md5_hex(s@),
{
    format!("{:x}", md5::compute(s))
}

/// Where the video behind `uri` is kept once it was fetched: in the
/// directory `video`, under the digest of the URI.
pub open spec fn video_cache_path(uri: Seq<char>) -> Seq<char> {
    "video/"@ + md5_hex(uri) + ".mp4"@
}

/// Where the video behind `uri` is kept once it was fetched.
pub fn video_cache_file(uri: &str) -> (path: String)
    ensures
        path@ == video_cache_path(uri@),
{
    let mut out = chars_of("video/");
    let digest = md5_hex_string(uri);
    let mut i: usize = 0;
    let d = chars_of(digest.as_str());
    while i < d.len()
        invariant
            i <= d@.len(),
            out@ == "video/"@ + d@.take(i as int),
        decreases d@.len() - i,
    {
        out.push(d[i]);
        assert(out@ =~= "video/"@ + d@.take(i + 1));
        i = i + 1;
    }
    assert(d@.take(i as int) =~= d@);
    let tail = chars_of(".mp4");
    let mut j: usize = 0;
    while j < tail.len()
        invariant
            j <= tail@.len(),
            out@ == "video/"@ + d@ + tail@.take(j as int),
        decreases tail@.len() - j,
    {
        out.push(tail[j]);
        assert(out@ =~= "video/"@ + d@ + tail@.take(j + 1));
        j = j + 1;
    }
    assert(tail@.take(j as int) =~= tail@);
    string_of(&out)
}

/// Where to get a video from.
#[derive(Clone, Debug, PartialEq, Eq)]
pub enum VideoSource {
    /// From the copy that was kept at this path.
    Kept { path: String },
    /// From its URI; a copy is then to be kept at `keep_at`, if that works.
    Fetch { uri: String, keep_at: String },
}

/// Decides where to get the video behind `uri` from: from the copy that
/// was kept, where the sender allows that with `cache` and there is one, as
/// `kept` says; otherwise from the URI.
pub fn video_source(uri: &str, cache: bool, kept: bool) -> (source: VideoSource)
    ensures
        if cache && kept {
            source matches VideoSource::Kept { path } && path@ == video_cache_path(uri@)
        } else {
            source matches VideoSource::Fetch { uri: from, keep_at } && from@ == uri@ && keep_at@
                == video_cache_path(uri@)
        },
{
    let path = video_cache_file(uri);
    if cache && kept {
        VideoSource::Kept { path }
    } else {
        VideoSource::Fetch { uri: uri.to_string(), keep_at: path }
    }
}

} // verus!
