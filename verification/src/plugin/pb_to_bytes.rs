//! The byte encoding of a message receipt.
//!
//! A receipt travels as a sequence of fields. Each field starts with a key,
//! a varint that holds the field number times eight plus the wire type. The
//! three integers are varint fields 1, 2 and 5; the two lists are fields 3
//! and 4, written as one length-delimited run of varints each. A field that
//! holds zero, or an empty list, is not written at all.
//!
//! A reader accepts the fields in any order and any number of times: the
//! last value of an integer field stands, the values of a list field add up,
//! a list value may also come alone as a varint field, and fields with other
//! numbers are passed over, groups with all that is in them.

use vstd::prelude::*;
use vstd::slice::slice_subrange;
use crate::idl::pbbot::{MessageReceipt, ReceiptView};
use crate::varint::{
    get_varint, lemma_varint_len_bound, lemma_varint_parse_bytes, lemma_varint_read_bounds,
    put_varint, varint_bytes, varint_parse,
};

verus! {

/// Why bytes could not be read as a message.
#[derive(Clone, Copy, Debug, PartialEq, Eq, Structural)]
pub enum WireError {
    /// A varint does not end within ten bytes or within the input, or does
    /// not fit in 64 bits.
    InvalidVarint,
    /// A key does not fit in 32 bits.
    InvalidKey,
    /// A key names wire type 6 or 7.
    InvalidWireType,
    /// A key names field number 0.
    InvalidTag,
    /// A known field comes with a wire type it cannot have.
    WrongWireType,
    /// A field claims more bytes than are left.
    BufferUnderflow,
    /// A group is closed that was not opened, or under another number than
    /// it was opened.
    UnexpectedEndGroup,
    /// Groups are nested deeper than a reader follows them.
    RecursionLimit,
}

impl WireError {
    /// What went wrong, in words.
    pub open spec fn spec_describe(self) -> Seq<char> {
        match self {
            WireError::InvalidVarint => "invalid varint"@,
            WireError::InvalidKey => "invalid key value"@,
            WireError::InvalidWireType => "invalid wire type value"@,
            WireError::InvalidTag => "invalid tag value: 0"@,
            WireError::WrongWireType => "invalid wire type"@,
            WireError::BufferUnderflow => "buffer underflow"@,
            WireError::UnexpectedEndGroup => "unexpected end group tag"@,
            WireError::RecursionLimit => "recursion limit reached"@,
        }
    }

    /// What went wrong, in words.
    pub fn describe(self) -> (text: String)
        ensures
            text@ == self.spec_describe(),
    {
        match self {
            WireError::InvalidVarint => "invalid varint".to_string(),
            WireError::InvalidKey => "invalid key value".to_string(),
            WireError::InvalidWireType => "invalid wire type value".to_string(),
            WireError::InvalidTag => "invalid tag value: 0".to_string(),
            WireError::WrongWireType => "invalid wire type".to_string(),
            WireError::BufferUnderflow => "buffer underflow".to_string(),
            WireError::UnexpectedEndGroup => "unexpected end group tag".to_string(),
            WireError::RecursionLimit => "recursion limit reached".to_string(),
        }
    }
}

/// Types that have a byte encoding.
pub trait PbToBytes: Sized {
    /// The mathematical value that a message stands for.
    type Model;

    /// The mathematical value of `self`.
    spec fn model(&self) -> Self::Model;

    /// The bytes that stand for `self`.
    spec fn encoding(&self) -> Seq<u8>;

    /// What `buf` stands for.
    spec fn decoding(buf: Seq<u8>) -> Result<Self::Model, WireError>;

    /// Encodes `self`.
    fn to_bytes(&self) -> (bytes: Vec<u8>)
        ensures
            bytes@ == self.encoding(),
    ;

    /// Decodes `buf`, or says why it stands for nothing.
    fn from_bytes(buf: &[u8]) -> (r: Result<Self, WireError>)
        ensures
            match Self::decoding(buf@) {
                Ok(m) => r is Ok && r->Ok_0.model() == m,
                Err(e) => r == Err::<Self, WireError>(e),
            },
    ;
}

/// The wire type of a varint.
pub const WIRE_VARINT: u64 = 0;

/// The wire type of eight bytes.
pub const WIRE_FIXED64: u64 = 1;

/// The wire type of a length followed by that many bytes.
pub const WIRE_LENGTH_DELIMITED: u64 = 2;

/// The wire type that opens a group.
pub const WIRE_START_GROUP: u64 = 3;

/// The wire type that closes a group.
pub const WIRE_END_GROUP: u64 = 4;

/// The wire type of four bytes.
pub const WIRE_FIXED32: u64 = 5;

/// How deep a reader follows groups within groups.
pub const RECURSION_LIMIT: u32 = 100;

/// The field number of the sender.
pub const FIELD_SENDER_ID: u64 = 1;

/// The field number of the time.
pub const FIELD_TIME: u64 = 2;

/// The field number of the sequence numbers.
pub const FIELD_SEQS: u64 = 3;

/// The field number of the random numbers.
pub const FIELD_RANDS: u64 = 4;

/// The field number of the group.
pub const FIELD_GROUP_ID: u64 = 5;

/// The receipt that holds zero everywhere and no list entries.
pub open spec fn empty_receipt() -> ReceiptView {
    ReceiptView { sender_id: 0, time: 0, seqs: Seq::empty(), rands: Seq::empty(), group_id: 0 }
}

/// An integer field: its key and its value as a varint; nothing for zero.
pub open spec fn int64_field(tag: u64, v: i64) -> Seq<u8> {
    if v == 0 {
        Seq::empty()
    } else {
        varint_bytes((tag * 8) as u64) + varint_bytes(v as u64)
    }
}

/// The varints of a list, one after the other.
pub open spec fn packed_payload(vs: Seq<i32>) -> Seq<u8>
    decreases vs.len(),
{
    if vs.len() == 0 {
        Seq::empty()
    } else {
        varint_bytes(vs[0] as u64) + packed_payload(vs.skip(1))
    }
}

/// A list field: its key, the length of its payload and the payload;
/// nothing for an empty list.
pub open spec fn packed_field(tag: u64, vs: Seq<i32>) -> Seq<u8> {
    if vs.len() == 0 {
        Seq::empty()
    } else {
        varint_bytes((tag * 8 + 2) as u64) + varint_bytes(packed_payload(vs).len() as u64)
            + packed_payload(vs)
    }
}

/// The bytes of a receipt: its five fields in the order of their numbers.
pub open spec fn receipt_bytes(r: ReceiptView) -> Seq<u8> {
    int64_field(FIELD_SENDER_ID, r.sender_id) + int64_field(FIELD_TIME, r.time) + packed_field(
        FIELD_SEQS,
        r.seqs,
    ) + packed_field(FIELD_RANDS, r.rands) + int64_field(FIELD_GROUP_ID, r.group_id)
}

/// The list of varints that fills `p` exactly.
pub open spec fn parse_packed(p: Seq<u8>) -> Result<Seq<i32>, WireError>
    decreases p.len(),
{
    if p.len() == 0 {
        Ok(Seq::empty())
    } else {
        match varint_parse(p) {
            None => Err(WireError::InvalidVarint),
            Some((v, n)) => {
                if 1 <= n <= p.len() {
                    match parse_packed(p.skip(n as int)) {
                        Ok(vs) => Ok(seq![v as i32] + vs),
                        Err(e) => Err(e),
                    }
                } else {
                    Err(WireError::InvalidVarint)
                }
            },
        }
    }
}

/// How many bytes the value of a field takes that is passed over, where its
/// key named field `tag` and wire type `wire` and the value begins `b`. A
/// varint takes what it takes, fixed values take four or eight bytes, a
/// length-delimited value takes its length and what the length says, and a
/// group takes all its fields up to the key that closes it. Groups are
/// followed `depth` deep.
pub open spec fn skip_value(wire: u64, tag: u64, b: Seq<u8>, depth: nat) -> Result<nat, WireError>
    decreases depth, b.len(), 1nat,
{
    if depth == 0 {
        Err(WireError::RecursionLimit)
    } else if wire == WIRE_VARINT {
        match varint_parse(b) {
            None => Err(WireError::InvalidVarint),
            Some((_, n)) => Ok(n),
        }
    } else if wire == WIRE_FIXED64 {
        if b.len() < 8 {
            Err(WireError::BufferUnderflow)
        } else {
            Ok(8nat)
        }
    } else if wire == WIRE_FIXED32 {
        if b.len() < 4 {
            Err(WireError::BufferUnderflow)
        } else {
            Ok(4nat)
        }
    } else if wire == WIRE_LENGTH_DELIMITED {
        match varint_parse(b) {
            None => Err(WireError::InvalidVarint),
            Some((len, n)) => {
                if n + len > b.len() {
                    Err(WireError::BufferUnderflow)
                } else {
                    Ok((n + len) as nat)
                }
            },
        }
    } else if wire == WIRE_START_GROUP {
        skip_group(tag, b, depth)
    } else {
        Err(WireError::UnexpectedEndGroup)
    }
}

/// How many bytes are left of the group `tag` where what is left of it
/// begins `b`: its fields one after the other, and the key that closes it.
pub open spec fn skip_group(tag: u64, b: Seq<u8>, depth: nat) -> Result<nat, WireError>
    decreases depth, b.len(), 0nat,
{
    match varint_parse(b) {
        None => Err(WireError::InvalidVarint),
        Some((key, n)) => {
            if key > u32::MAX {
                Err(WireError::InvalidKey)
            } else if key % 8 > 5 {
                Err(WireError::InvalidWireType)
            } else if key / 8 == 0 {
                Err(WireError::InvalidTag)
            } else if !(1 <= n <= b.len()) {
                Err(WireError::InvalidVarint)
            } else if key % 8 == WIRE_END_GROUP {
                if key / 8 == tag {
                    Ok(n)
                } else {
                    Err(WireError::UnexpectedEndGroup)
                }
            } else if depth == 0 {
                Err(WireError::RecursionLimit)
            } else {
                match skip_value(key % 8, key / 8, b.skip(n as int), (depth - 1) as nat) {
                    Err(e) => Err(e),
                    Ok(m) => {
                        if n + m <= b.len() {
                            match skip_group(tag, b.skip((n + m) as int), depth) {
                                Ok(rest) => Ok((n + m + rest) as nat),
                                Err(e) => Err(e),
                            }
                        } else {
                            Err(WireError::BufferUnderflow)
                        }
                    },
                }
            }
        },
    }
}

/// `r` with the integer field `tag` set to `v`.
pub open spec fn with_int(r: ReceiptView, tag: u64, v: i64) -> ReceiptView {
    if tag == FIELD_SENDER_ID {
        ReceiptView { sender_id: v, ..r }
    } else if tag == FIELD_TIME {
        ReceiptView { time: v, ..r }
    } else if tag == FIELD_GROUP_ID {
        ReceiptView { group_id: v, ..r }
    } else {
        r
    }
}

/// `r` with `vs` added to the end of the list field `tag`.
pub open spec fn with_more(r: ReceiptView, tag: u64, vs: Seq<i32>) -> ReceiptView {
    if tag == FIELD_SEQS {
        ReceiptView { seqs: r.seqs + vs, ..r }
    } else if tag == FIELD_RANDS {
        ReceiptView { rands: r.rands + vs, ..r }
    } else {
        r
    }
}

/// Reads the value of one field, whose key named field `tag` and wire type
/// `wire`, from the front of `b`: the receipt after the field, and how many
/// bytes the value took.
pub open spec fn parse_value(tag: u64, wire: u64, b: Seq<u8>, r: ReceiptView) -> Result<
    (ReceiptView, nat),
    WireError,
> {
    if tag == FIELD_SENDER_ID || tag == FIELD_TIME || tag == FIELD_GROUP_ID {
        if wire != WIRE_VARINT {
            Err(WireError::WrongWireType)
        } else {
            match varint_parse(b) {
                None => Err(WireError::InvalidVarint),
                Some((v, n)) => Ok((with_int(r, tag, v as i64), n)),
            }
        }
    } else if tag == FIELD_SEQS || tag == FIELD_RANDS {
        if wire == WIRE_LENGTH_DELIMITED {
            match varint_parse(b) {
                None => Err(WireError::InvalidVarint),
                Some((len, n)) => {
                    if n + len > b.len() {
                        Err(WireError::BufferUnderflow)
                    } else {
                        match parse_packed(b.subrange(n as int, n + len)) {
                            Ok(vs) => Ok((with_more(r, tag, vs), (n + len) as nat)),
                            Err(e) => Err(e),
                        }
                    }
                },
            }
        } else if wire == WIRE_VARINT {
            match varint_parse(b) {
                None => Err(WireError::InvalidVarint),
                Some((v, n)) => Ok((with_more(r, tag, seq![v as i32]), n)),
            }
        } else {
            Err(WireError::WrongWireType)
        }
    } else {
        match skip_value(wire, tag, b, RECURSION_LIMIT as nat) {
            Ok(n) => Ok((r, n)),
            Err(e) => Err(e),
        }
    }
}

/// Reads fields from `b` until it is used up, starting from the receipt `r`.
pub open spec fn parse_fields(b: Seq<u8>, r: ReceiptView) -> Result<ReceiptView, WireError>
    decreases b.len(),
{
    if b.len() == 0 {
        Ok(r)
    } else {
        match varint_parse(b) {
            None => Err(WireError::InvalidVarint),
            Some((key, n)) => {
                if key > u32::MAX {
                    Err(WireError::InvalidKey)
                } else if key % 8 > 5 {
                    Err(WireError::InvalidWireType)
                } else if key / 8 == 0 {
                    Err(WireError::InvalidTag)
                } else if !(1 <= n <= b.len()) {
                    Err(WireError::InvalidVarint)
                } else {
                    match parse_value(key / 8, key % 8, b.skip(n as int), r) {
                        Err(e) => Err(e),
                        Ok((next, m)) => {
                            if n + m <= b.len() {
                                parse_fields(b.skip((n + m) as int), next)
                            } else {
                                Err(WireError::BufferUnderflow)
                            }
                        },
                    }
                }
            },
        }
    }
}

/// What `b` stands for as a receipt.
pub open spec fn receipt_of_bytes(b: Seq<u8>) -> Result<ReceiptView, WireError> {
    parse_fields(b, empty_receipt())
}

/// Reading one integer field, whatever follows it, sets that field and goes
/// on with what follows.
pub proof fn lemma_parse_int64_field(tag: u64, v: i64, rest: Seq<u8>, r: ReceiptView)
    requires
        tag == FIELD_SENDER_ID || tag == FIELD_TIME || tag == FIELD_GROUP_ID,
        v != 0,
    ensures
        parse_fields(int64_field(tag, v) + rest, r) == parse_fields(rest, with_int(r, tag, v)),
{
    let key: u64 = (tag * 8) as u64;
    let kb = varint_bytes(key);
    let vb = varint_bytes(v as u64);
    let b = int64_field(tag, v) + rest;
    lemma_varint_len_bound(key);
    lemma_varint_len_bound(v as u64);
    assert(b =~= kb + (vb + rest));
    lemma_varint_parse_bytes(key, vb + rest);
    assert(b.skip(kb.len() as int) =~= vb + rest);
    lemma_varint_parse_bytes(v as u64, rest);
    assert(b.skip((kb.len() + vb.len()) as int) =~= rest);
    assert(((v as u64) as i64) == v) by (bit_vector);
}

/// The payload of a list reads back as that list.
pub proof fn lemma_parse_packed_payload(vs: Seq<i32>)
    ensures
        parse_packed(packed_payload(vs)) == Ok::<Seq<i32>, WireError>(vs),
    decreases vs.len(),
{
    if vs.len() > 0 {
        let x: i32 = vs[0];
        let head = varint_bytes(#[verifier::truncate] (x as u64));
        let tail = packed_payload(vs.skip(1));
        let p = packed_payload(vs);
        lemma_varint_len_bound(#[verifier::truncate] (x as u64));
        lemma_varint_parse_bytes(#[verifier::truncate] (x as u64), tail);
        assert(p == head + tail);
        assert(p.skip(head.len() as int) =~= tail);
        lemma_parse_packed_payload(vs.skip(1));
        assert(((x as u64) as i32) == x) by (bit_vector);
        assert(seq![x] + vs.skip(1) =~= vs);
        assert(varint_parse(p) == Some((#[verifier::truncate] (x as u64), head.len())));
        assert(parse_packed(tail) == Ok::<Seq<i32>, WireError>(vs.skip(1)));
    } else {
        assert(vs =~= Seq::<i32>::empty());
    }
}

/// Reading one list field, whatever follows it, adds its values to the end
/// of that list and goes on with what follows.
pub proof fn lemma_parse_packed_field(tag: u64, vs: Seq<i32>, rest: Seq<u8>, r: ReceiptView)
    requires
        tag == FIELD_SEQS || tag == FIELD_RANDS,
        vs.len() > 0,
        packed_payload(vs).len() <= u64::MAX,
    ensures
        parse_fields(packed_field(tag, vs) + rest, r) == parse_fields(rest, with_more(r, tag, vs)),
{
    let key: u64 = (tag * 8 + 2) as u64;
    let kb = varint_bytes(key);
    let payload = packed_payload(vs);
    let lb = varint_bytes(payload.len() as u64);
    let b = packed_field(tag, vs) + rest;
    lemma_varint_len_bound(key);
    lemma_varint_len_bound(payload.len() as u64);
    assert(b =~= kb + (lb + payload + rest));
    lemma_varint_parse_bytes(key, lb + payload + rest);
    let after_key = b.skip(kb.len() as int);
    assert(after_key =~= lb + (payload + rest));
    lemma_varint_parse_bytes(payload.len() as u64, payload + rest);
    assert(after_key.subrange(lb.len() as int, (lb.len() + payload.len()) as int) =~= payload);
    lemma_parse_packed_payload(vs);
    assert(b.skip((kb.len() + (lb.len() + payload.len())) as int) =~= rest);
}

/// Decoding the encoding of a receipt gives the receipt back.
pub proof fn lemma_receipt_round_trip(r: ReceiptView)
    requires
        packed_payload(r.seqs).len() <= u64::MAX,
        packed_payload(r.rands).len() <= u64::MAX,
    ensures
        receipt_of_bytes(receipt_bytes(r)) == Ok::<ReceiptView, WireError>(r),
{
    let f1 = int64_field(FIELD_SENDER_ID, r.sender_id);
    let f2 = int64_field(FIELD_TIME, r.time);
    let f3 = packed_field(FIELD_SEQS, r.seqs);
    let f4 = packed_field(FIELD_RANDS, r.rands);
    let f5 = int64_field(FIELD_GROUP_ID, r.group_id);
    let r0 = empty_receipt();
    let r1 = ReceiptView { sender_id: r.sender_id, ..r0 };
    let r2 = ReceiptView { time: r.time, ..r1 };
    let r3 = ReceiptView { seqs: r.seqs, ..r2 };
    let r4 = ReceiptView { rands: r.rands, ..r3 };
    let e: Seq<u8> = Seq::empty();
    assert(receipt_bytes(r) =~= f1 + (f2 + (f3 + (f4 + (f5 + e)))));
    if r.sender_id != 0 {
        lemma_parse_int64_field(FIELD_SENDER_ID, r.sender_id, f2 + (f3 + (f4 + (f5 + e))), r0);
    } else {
        assert(f1 + (f2 + (f3 + (f4 + (f5 + e)))) =~= f2 + (f3 + (f4 + (f5 + e))));
    }
    assert(parse_fields(receipt_bytes(r), r0) == parse_fields(f2 + (f3 + (f4 + (f5 + e))), r1));
    if r.time != 0 {
        lemma_parse_int64_field(FIELD_TIME, r.time, f3 + (f4 + (f5 + e)), r1);
    } else {
        assert(f2 + (f3 + (f4 + (f5 + e))) =~= f3 + (f4 + (f5 + e)));
    }
    assert(parse_fields(receipt_bytes(r), r0) == parse_fields(f3 + (f4 + (f5 + e)), r2));
    if r.seqs.len() > 0 {
        lemma_parse_packed_field(FIELD_SEQS, r.seqs, f4 + (f5 + e), r2);
        assert(r2.seqs + r.seqs =~= r.seqs);
    } else {
        assert(f3 + (f4 + (f5 + e)) =~= f4 + (f5 + e));
        assert(r.seqs =~= Seq::<i32>::empty());
    }
    assert(parse_fields(receipt_bytes(r), r0) == parse_fields(f4 + (f5 + e), r3));
    if r.rands.len() > 0 {
        lemma_parse_packed_field(FIELD_RANDS, r.rands, f5 + e, r3);
        assert(r3.rands + r.rands =~= r.rands);
    } else {
        assert(f4 + (f5 + e) =~= f5 + e);
        assert(r.rands =~= Seq::<i32>::empty());
    }
    assert(parse_fields(receipt_bytes(r), r0) == parse_fields(f5 + e, r4));
    if r.group_id != 0 {
        lemma_parse_int64_field(FIELD_GROUP_ID, r.group_id, e, r4);
    } else {
        assert(f5 + e =~= e);
    }
}

/// Adding a value to the end of a list adds its varint to the end of the
/// payload.
pub proof fn lemma_packed_payload_push(vs: Seq<i32>, x: i32)
    ensures
        packed_payload(vs.push(x)) == packed_payload(vs) + varint_bytes(
            #[verifier::truncate] (x as u64),
        ),
    decreases vs.len(),
{
    let e: Seq<u8> = Seq::empty();
    if vs.len() == 0 {
        assert(vs.push(x).skip(1) =~= Seq::<i32>::empty());
        assert(packed_payload(vs.push(x).skip(1)) =~= e);
        assert(packed_payload(vs) =~= e);
        assert(packed_payload(vs.push(x)) =~= varint_bytes(#[verifier::truncate] (x as u64)) + e);
    } else {
        assert(vs.push(x).skip(1) =~= vs.skip(1).push(x));
        lemma_packed_payload_push(vs.skip(1), x);
        assert(packed_payload(vs.push(x)) =~= packed_payload(vs) + varint_bytes(
            #[verifier::truncate] (x as u64),
        ));
    }
}

/// Appends the integer field `tag` with value `v` to `buf`.
fn put_int64_field(buf: &mut Vec<u8>, tag: u64, v: i64)
    requires
        tag <= FIELD_GROUP_ID,
    ensures
        final(buf)@ == old(buf)@ + int64_field(tag, v),
{
    if v != 0 {
        put_varint(buf, tag * 8);
        put_varint(buf, #[verifier::truncate] (v as u64));
        assert(buf@ =~= old(buf)@ + int64_field(tag, v));
    } else {
        assert(buf@ =~= old(buf)@ + int64_field(tag, v));
    }
}

/// Appends the list field `tag` with the values `vs` to `buf`.
fn put_packed_field(buf: &mut Vec<u8>, tag: u64, vs: &Vec<i32>)
    requires
        tag <= FIELD_GROUP_ID,
    ensures
        final(buf)@ == old(buf)@ + packed_field(tag, vs@),
        packed_payload(vs@).len() <= usize::MAX,
{
    let mut payload: Vec<u8> = Vec::new();
    let mut i: usize = 0;
    proof {
        assert(vs@.take(0) =~= Seq::<i32>::empty());
    }
    while i < vs.len()
        invariant
            i <= vs@.len(),
            payload@ == packed_payload(vs@.take(i as int)),
        decreases vs@.len() - i,
    {
        let x: i32 = vs[i];
        put_varint(&mut payload, #[verifier::truncate] (x as u64));
        proof {
            lemma_packed_payload_push(vs@.take(i as int), x);
            assert(vs@.take(i as int).push(x) =~= vs@.take(i + 1));
        }
        i = i + 1;
    }
    proof {
        assert(vs@.take(i as int) =~= vs@);
    }
    if vs.len() > 0 {
        put_varint(buf, tag * 8 + 2);
        put_varint(buf, payload.len() as u64);
        buf.extend_from_slice(payload.as_slice());
        assert(buf@ =~= old(buf)@ + packed_field(tag, vs@));
    } else {
        assert(buf@ =~= old(buf)@ + packed_field(tag, vs@));
    }
}

/// Reads the varints that fill `payload` and adds them to the end of `out`.
fn read_packed(payload: &[u8], out: &mut Vec<i32>) -> (r: Result<(), WireError>)
    ensures
        match parse_packed(payload@) {
            Ok(vs) => r is Ok && final(out)@ == old(out)@ + vs,
            Err(e) => r == Err::<(), WireError>(e),
        },
{
    let mut p: usize = 0;
    let ghost mut got: Seq<i32> = Seq::empty();
    proof {
        assert(payload@.skip(0) =~= payload@);
        match parse_packed(payload@) {
            Ok(vs) => {
                assert(got + vs =~= vs);
            },
            Err(_) => {},
        }
    }
    while p < payload.len()
        invariant
            p <= payload@.len(),
            out@ == old(out)@ + got,
            match parse_packed(payload@.skip(p as int)) {
                Ok(vs) => parse_packed(payload@) == Ok::<Seq<i32>, WireError>(got + vs),
                Err(e) => parse_packed(payload@) == Err::<Seq<i32>, WireError>(e),
            },
        decreases payload@.len() - p,
    {
        let ghost here = payload@.skip(p as int);
        proof {
            lemma_varint_read_bounds(here, 10);
        }
        match get_varint(payload, p) {
            None => {
                return Err(WireError::InvalidVarint);
            },
            Some((v, q)) => {
                let x: i32 = #[verifier::truncate] (v as i32);
                out.push(x);
                proof {
                    assert(here.skip(q - p) =~= payload@.skip(q as int));
                    match parse_packed(payload@.skip(q as int)) {
                        Ok(vs) => {
                            assert(got + (seq![x] + vs) =~= got.push(x) + vs);
                        },
                        Err(_) => {},
                    }
                    got = got.push(x);
                    assert(out@ =~= old(out)@ + got);
                }
                p = q;
            },
        }
    }
    proof {
        assert(payload@.skip(p as int) =~= Seq::<u8>::empty());
        assert(got + Seq::<i32>::empty() =~= got);
    }
    Ok(())
}

/// Reads the value of one field at `pos`, as `parse_value` describes it,
/// into `m`, and gives the position after it.
fn read_value(buf: &[u8], pos: usize, tag: u64, wire: u64, m: &mut MessageReceipt) -> (r: Result<
    usize,
    WireError,
>)
    requires
        pos <= buf@.len(),
        wire <= WIRE_FIXED32,
    ensures
        match parse_value(tag, wire, buf@.skip(pos as int), old(m)@) {
            Ok((next, k)) => r == Ok::<usize, WireError>((pos + k) as usize) && pos + k
                <= buf@.len() && final(m)@ == next,
            Err(e) => r == Err::<usize, WireError>(e),
        },
{
    let ghost b = buf@.skip(pos as int);
    proof {
        lemma_varint_read_bounds(b, 10);
    }
    if tag == FIELD_SENDER_ID || tag == FIELD_TIME || tag == FIELD_GROUP_ID {
        if wire != WIRE_VARINT {
            return Err(WireError::WrongWireType);
        }
        match get_varint(buf, pos) {
            None => Err(WireError::InvalidVarint),
            Some((v, next)) => {
                let x: i64 = #[verifier::truncate] (v as i64);
                if tag == FIELD_SENDER_ID {
                    m.sender_id = x;
                } else if tag == FIELD_TIME {
                    m.time = x;
                } else {
                    m.group_id = x;
                }
                Ok(next)
            },
        }
    } else if tag == FIELD_SEQS || tag == FIELD_RANDS {
        if wire == WIRE_LENGTH_DELIMITED {
            match get_varint(buf, pos) {
                None => Err(WireError::InvalidVarint),
                Some((len, start)) => {
                    if len > (buf.len() - start) as u64 {
                        return Err(WireError::BufferUnderflow);
                    }
                    let end: usize = start + len as usize;
                    let payload = slice_subrange(buf, start, end);
                    proof {
                        assert(payload@ =~= b.subrange(start - pos, start - pos + len));
                    }
                    let done = if tag == FIELD_SEQS {
                        read_packed(payload, &mut m.seqs)
                    } else {
                        read_packed(payload, &mut m.rands)
                    };
                    match done {
                        Ok(()) => Ok(end),
                        Err(e) => Err(e),
                    }
                },
            }
        } else if wire == WIRE_VARINT {
            match get_varint(buf, pos) {
                None => Err(WireError::InvalidVarint),
                Some((v, next)) => {
                    let x: i32 = #[verifier::truncate] (v as i32);
                    if tag == FIELD_SEQS {
                        m.seqs.push(x);
                        assert(m.seqs@ =~= old(m).seqs@ + seq![x]);
                    } else {
                        m.rands.push(x);
                        assert(m.rands@ =~= old(m).rands@ + seq![x]);
                    }
                    Ok(next)
                },
            }
        } else {
            Err(WireError::WrongWireType)
        }
    } else {
        skip_field(buf, pos, tag, wire, RECURSION_LIMIT)
    }
}

/// Passes over the value of one field at `pos`, as `skip_value` describes
/// it, and gives the position after it.
fn skip_field(buf: &[u8], pos: usize, tag: u64, wire: u64, depth: u32) -> (r: Result<
    usize,
    WireError,
>)
    requires
        pos <= buf@.len(),
        wire <= WIRE_FIXED32,
    ensures
        match skip_value(wire, tag, buf@.skip(pos as int), depth as nat) {
            Ok(k) => r == Ok::<usize, WireError>((pos + k) as usize) && pos + k <= buf@.len(),
            Err(e) => r == Err::<usize, WireError>(e),
        },
    decreases depth,
{
    let ghost b = buf@.skip(pos as int);
    proof {
        lemma_varint_read_bounds(b, 10);
    }
    if depth == 0 {
        Err(WireError::RecursionLimit)
    } else if wire == WIRE_VARINT {
        match get_varint(buf, pos) {
            None => Err(WireError::InvalidVarint),
            Some((_, next)) => Ok(next),
        }
    } else if wire == WIRE_FIXED64 {
        if buf.len() - pos < 8 {
            Err(WireError::BufferUnderflow)
        } else {
            Ok(pos + 8)
        }
    } else if wire == WIRE_FIXED32 {
        if buf.len() - pos < 4 {
            Err(WireError::BufferUnderflow)
        } else {
            Ok(pos + 4)
        }
    } else if wire == WIRE_LENGTH_DELIMITED {
        match get_varint(buf, pos) {
            None => Err(WireError::InvalidVarint),
            Some((len, start)) => {
                if len > (buf.len() - start) as u64 {
                    Err(WireError::BufferUnderflow)
                } else {
                    Ok(start + len as usize)
                }
            },
        }
    } else if wire == WIRE_START_GROUP {
        let mut p: usize = pos;
        let total: usize = buf.len();
        loop
            invariant
                pos <= p <= buf@.len(),
                total == buf@.len(),
                depth > 0,
                wire == WIRE_START_GROUP,
                b == buf@.skip(pos as int),
                match skip_group(tag, buf@.skip(p as int), depth as nat) {
                    Ok(k) => skip_group(tag, b, depth as nat) == Ok::<nat, WireError>(
                        (p - pos + k) as nat,
                    ),
                    Err(e) => skip_group(tag, b, depth as nat) == Err::<nat, WireError>(e),
                },
            decreases buf@.len() - p,
        {
            let ghost here = buf@.skip(p as int);
            proof {
                lemma_varint_read_bounds(here, 10);
            }
            let (key, next) = match get_varint(buf, p) {
                None => {
                    return Err(WireError::InvalidVarint);
                },
                Some(kn) => kn,
            };
            if key > 0xffff_ffff {
                return Err(WireError::InvalidKey);
            }
            let inner_wire: u64 = key % 8;
            let inner_tag: u64 = key / 8;
            if inner_wire > WIRE_FIXED32 {
                return Err(WireError::InvalidWireType);
            }
            if inner_tag == 0 {
                return Err(WireError::InvalidTag);
            }
            if inner_wire == WIRE_END_GROUP {
                if inner_tag == tag {
                    return Ok(next);
                } else {
                    return Err(WireError::UnexpectedEndGroup);
                }
            }
            proof {
                assert(here.skip(next - p) =~= buf@.skip(next as int));
            }
            match skip_field(buf, next, inner_tag, inner_wire, depth - 1) {
                Err(e) => {
                    return Err(e);
                },
                Ok(after) => {
                    proof {
                        assert(here.skip(after - p) =~= buf@.skip(after as int));
                    }
                    p = after;
                },
            }
        }
    } else {
        Err(WireError::UnexpectedEndGroup)
    }
}

impl PbToBytes for MessageReceipt {
    type Model = ReceiptView;

    open spec fn model(&self) -> ReceiptView {
        self@
    }

    open spec fn encoding(&self) -> Seq<u8> {
        receipt_bytes(self@)
    }

    open spec fn decoding(buf: Seq<u8>) -> Result<ReceiptView, WireError> {
        receipt_of_bytes(buf)
    }

    fn to_bytes(&self) -> (bytes: Vec<u8>)
        ensures
            receipt_of_bytes(bytes@) == Ok::<ReceiptView, WireError>(self@),
    {
        let mut buf: Vec<u8> = Vec::new();
        put_int64_field(&mut buf, FIELD_SENDER_ID, self.sender_id);
        put_int64_field(&mut buf, FIELD_TIME, self.time);
        put_packed_field(&mut buf, FIELD_SEQS, &self.seqs);
        put_packed_field(&mut buf, FIELD_RANDS, &self.rands);
        put_int64_field(&mut buf, FIELD_GROUP_ID, self.group_id);
        proof {
            assert(buf@ =~= receipt_bytes(self@));
            lemma_receipt_round_trip(self@);
        }
        buf
    }

    fn from_bytes(buf: &[u8]) -> (r: Result<Self, WireError>) {
        let mut m = MessageReceipt {
            sender_id: 0,
            time: 0,
            seqs: Vec::new(),
            rands: Vec::new(),
            group_id: 0,
        };
        let mut pos: usize = 0;
        proof {
            assert(buf@.skip(0) =~= buf@);
            assert(m@ =~= empty_receipt());
        }
        while pos < buf.len()
            invariant
                pos <= buf@.len(),
                receipt_of_bytes(buf@) == parse_fields(buf@.skip(pos as int), m@),
            decreases buf@.len() - pos,
        {
            let ghost b = buf@.skip(pos as int);
            proof {
                lemma_varint_read_bounds(b, 10);
            }
            let (key, next) = match get_varint(buf, pos) {
                None => {
                    return Err(WireError::InvalidVarint);
                },
                Some(kn) => kn,
            };
            if key > 0xffff_ffff {
                return Err(WireError::InvalidKey);
            }
            let wire: u64 = key % 8;
            let tag: u64 = key / 8;
            if wire > WIRE_FIXED32 {
                return Err(WireError::InvalidWireType);
            }
            if tag == 0 {
                return Err(WireError::InvalidTag);
            }
            proof {
                assert(b.skip(next - pos) =~= buf@.skip(next as int));
            }
            match read_value(buf, next, tag, wire, &mut m) {
                Err(e) => {
                    return Err(e);
                },
                Ok(after) => {
                    proof {
                        assert(b.skip(after - pos) =~= buf@.skip(after as int));
                        lemma_varint_read_bounds(buf@.skip(next as int), 10);
                    }
                    assert(after > pos);
                    pos = after;
                },
            }
        }
        proof {
            assert(buf@.skip(pos as int) =~= Seq::<u8>::empty());
        }
        Ok(m)
    }
}

} // verus!
