//! Translation of messages between the wire schema, the native form and
//! the pseudo-XML text form.

pub mod from_proto;
pub mod from_xml;
pub mod to_proto;
pub mod to_xml;

pub use from_proto::{to_rq_chain, Contact};
pub use to_proto::to_proto_chain;
