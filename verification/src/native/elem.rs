//! The message elements the gateway translates.

use vstd::prelude::*;
use crate::msg::from_proto::Contact;

verus! {

/// Plain text.
#[derive(Clone, Debug, PartialEq, Eq, Default)]
pub struct Text {
    pub content: String,
}

impl Text {
    /// A text element with this content.
    pub fn new(content: String) -> (t: Self)
        ensures
            t.content == content,
    {
        Text { content }
    }
}

/// A mention of the account `target`; 0 mentions everyone.
#[derive(Clone, Debug, PartialEq, Eq, Default)]
pub struct At {
    pub target: i64,
    pub display: String,
}

/// A stock emoticon, by its number.
#[derive(Clone, Debug, PartialEq, Eq, Default)]
pub struct Face {
    pub index: i32,
}

impl Face {
    /// The emoticon with this number.
    pub fn new(index: i32) -> (f: Self)
        ensures
            f.index == index,
    {
        Face { index }
    }
}

/// A picture that is still to be fetched from `uri` and uploaded for
/// `contact`; the driver puts its own element in its place.
#[derive(Clone, Debug, PartialEq, Eq)]
pub struct Image {
    pub uri: String,
    pub contact: Contact,
}

/// A short video that is still to be fetched from `uri`, with its cover
/// picture from `cover`, and uploaded for `contact`. With `cache` set, a copy
/// kept from an earlier fetch may be used.
#[derive(Clone, Debug, PartialEq, Eq)]
pub struct Video {
    pub uri: String,
    pub cover: String,
    pub cache: bool,
    pub contact: Contact,
}

} // verus!
