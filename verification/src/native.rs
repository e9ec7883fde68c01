//! What the chat driver hands to the gateway and takes from it, as plain
//! values: message elements, events, account and group records.
//!
//! The driver itself lives outside this library. The program around the
//! library copies the driver's values into these types and back.

use vstd::prelude::*;
use crate::msg::from_proto::Contact;

pub mod elem;

verus! {

/// One element of a native message.
#[derive(Clone, Debug, PartialEq, Eq)]
pub enum RQElem {
    At(elem::At),
    Text(elem::Text),
    Face(elem::Face),
    Image(elem::Image),
    Video(elem::Video),
    /// Any element the gateway does not translate.
    Other,
}

/// What an element holds, as mathematical values.
pub enum ElemView {
    At { target: i64, display: Seq<char> },
    Text { content: Seq<char> },
    Face { index: i32 },
    Image { uri: Seq<char>, contact: Contact },
    Video { uri: Seq<char>, cover: Seq<char>, cache: bool, contact: Contact },
    Other,
}

impl DeepView for RQElem {
    type V = ElemView;

    open spec fn deep_view(&self) -> ElemView {
        match *self {
            RQElem::At(a) => ElemView::At { target: a.target, display: a.display@ },
            RQElem::Text(t) => ElemView::Text { content: t.content@ },
            RQElem::Face(f) => ElemView::Face { index: f.index },
            RQElem::Image(i) => ElemView::Image { uri: i.uri@, contact: i.contact },
            RQElem::Video(v) => ElemView::Video {
                uri: v.uri@,
                cover: v.cover@,
                cache: v.cache,
                contact: v.contact,
            },
            RQElem::Other => ElemView::Other,
        }
    }
}

impl View for RQElem {
    type V = ElemView;

    open spec fn view(&self) -> ElemView {
        self.deep_view()
    }
}

/// A native message: its elements in order.
#[derive(Clone, Debug, PartialEq, Eq, Default)]
pub struct MessageChain(pub Vec<RQElem>);

impl MessageChain {
    /// Appends one element.
    pub fn push(&mut self, e: RQElem)
        ensures
            final(self).0@ == old(self).0@.push(e),
    {
        self.0.push(e);
    }
}

/// The standing of a member in a group.
#[derive(Clone, Copy, Debug, PartialEq, Eq, Structural)]
pub enum GroupMemberPermission {
    Owner,
    Administrator,
    Member,
}

impl Default for GroupMemberPermission {
    fn default() -> (p: Self)
        ensures
            p == GroupMemberPermission::Member,
    {
        GroupMemberPermission::Member
    }
}

/// A message in a group.
#[derive(Clone, Debug, PartialEq, Eq, Default)]
pub struct GroupMessage {
    pub seqs: Vec<i32>,
    pub rands: Vec<i32>,
    pub group_code: i64,
    pub group_name: String,
    pub group_card: String,
    pub from_uin: i64,
    pub time: i32,
    pub elements: MessageChain,
}

/// A message from a friend.
#[derive(Clone, Debug, PartialEq, Eq, Default)]
pub struct FriendMessage {
    pub seqs: Vec<i32>,
    pub rands: Vec<i32>,
    pub target: i64,
    pub time: i32,
    pub from_uin: i64,
    pub from_nick: String,
    pub elements: MessageChain,
}

/// A member left a group, by itself or removed by `operator_uin`.
#[derive(Clone, Debug, PartialEq, Eq, Default)]
pub struct GroupLeave {
    pub group_code: i64,
    pub member_uin: i64,
    pub operator_uin: Option<i64>,
}

/// A member joined a group.
#[derive(Clone, Debug, PartialEq, Eq, Default)]
pub struct NewMember {
    pub group_code: i64,
    pub member_uin: i64,
}

/// A member was muted for `duration` seconds.
#[derive(Clone, Debug, PartialEq, Eq, Default)]
pub struct GroupMute {
    pub group_code: i64,
    pub operator_uin: i64,
    pub target_uin: i64,
    pub duration: u64,
}

/// A friend recalled a message.
#[derive(Clone, Debug, PartialEq, Eq, Default)]
pub struct FriendMessageRecall {
    pub msg_seq: i32,
    pub friend_uin: i64,
    pub time: i64,
}

/// A message in a group was recalled.
#[derive(Clone, Debug, PartialEq, Eq, Default)]
pub struct GroupMessageRecall {
    pub msg_seq: i32,
    pub group_code: i64,
    pub operator_uin: i64,
    pub author_uin: i64,
    pub time: i32,
}

/// A new friend was added.
#[derive(Clone, Debug, PartialEq, Eq, Default)]
pub struct NewFriend {
    pub uin: i64,
    pub nick: String,
}

/// Someone asks to join a group, or was invited into it.
#[derive(Clone, Debug, PartialEq, Eq, Default)]
pub struct JoinGroupRequest {
    pub msg_seq: i64,
    pub msg_time: i64,
    pub message: String,
    pub req_uin: i64,
    pub req_nick: String,
    pub group_code: i64,
    pub group_name: String,
    pub actor_uin: i64,
    pub suspicious: bool,
    pub invitor_uin: Option<i64>,
    pub invitor_nick: Option<String>,
}

/// The bot itself was invited into a group.
#[derive(Clone, Debug, PartialEq, Eq, Default)]
pub struct SelfInvited {
    pub msg_seq: i64,
    pub msg_time: i64,
    pub invitor_uin: i64,
    pub invitor_nick: String,
    pub group_code: i64,
    pub group_name: String,
    pub actor_uin: i64,
    pub actor_nick: String,
}

/// Someone asks to become a friend.
#[derive(Clone, Debug, PartialEq, Eq, Default)]
pub struct NewFriendRequest {
    pub msg_seq: i64,
    pub message: String,
    pub req_uin: i64,
    pub req_nick: String,
}

/// The standing of a member changed.
#[derive(Clone, Debug, PartialEq, Eq)]
pub struct MemberPermissionChange {
    pub group_code: i64,
    pub member_uin: i64,
    pub new_permission: GroupMemberPermission,
}

/// What the driver reports.
#[derive(Clone, Debug, PartialEq, Eq)]
pub enum QEvent {
    GroupMessage(GroupMessage),
    FriendMessage(FriendMessage),
    GroupRequest(JoinGroupRequest),
    SelfInvited(SelfInvited),
    NewFriendRequest(NewFriendRequest),
    NewMember(NewMember),
    GroupMute(GroupMute),
    FriendMessageRecall(FriendMessageRecall),
    GroupMessageRecall(GroupMessageRecall),
    NewFriend(NewFriend),
    GroupLeave(GroupLeave),
    MemberPermissionChange(MemberPermissionChange),
    /// Any event the gateway does not forward.
    Other,
}

/// What the driver returns for a message it has sent.
#[derive(Clone, Debug, PartialEq, Eq, Default)]
pub struct SentReceipt {
    pub seqs: Vec<i32>,
    pub rands: Vec<i32>,
    pub time: i64,
}

/// The public profile of an account.
#[derive(Clone, Debug, PartialEq, Eq, Default)]
pub struct SummaryCardInfo {
    pub uin: i64,
    pub sex: u8,
    pub age: u8,
    pub nickname: String,
    pub level: i32,
    pub login_days: i32,
    pub cookie: Vec<u8>,
}

/// One entry of the friend list.
#[derive(Clone, Debug, PartialEq, Eq, Default)]
pub struct FriendInfo {
    pub uin: i64,
    pub nick: String,
    pub remark: String,
}

/// One group.
#[derive(Clone, Debug, PartialEq, Eq, Default)]
pub struct GroupInfo {
    pub code: i64,
    pub name: String,
    pub owner_uin: i64,
    pub member_count: u16,
    pub max_member_count: u16,
}

/// One member of a group.
#[derive(Clone, Debug, PartialEq, Eq)]
pub struct GroupMemberInfo {
    pub group_code: i64,
    pub uin: i64,
    pub nickname: String,
    pub card_name: String,
    pub level: u16,
    pub join_time: i64,
    pub last_speak_time: i64,
    pub special_title: String,
    pub special_title_expire_time: i64,
    pub permission: GroupMemberPermission,
}

/// The kind of device that a session pretends to be.
#[derive(Clone, Copy, Debug, PartialEq, Eq, Structural)]
pub enum Protocol {
    IPad,
    AndroidPhone,
    AndroidWatch,
    MacOS,
    QiDian,
}

impl Protocol {
    /// The protocol that a number selects: 1 to 4 select the Android phone,
    /// the Android watch, macOS and QiDian; every other number selects the
    /// iPad.
    pub open spec fn spec_from_u8(v: u8) -> Protocol {
        if v == 1 {
            Protocol::AndroidPhone
        } else if v == 2 {
            Protocol::AndroidWatch
        } else if v == 3 {
            Protocol::MacOS
        } else if v == 4 {
            Protocol::QiDian
        } else {
            Protocol::IPad
        }
    }

    /// The number under which a protocol is kept: 5 for the iPad, 1 to 4
    /// for the others.
    pub open spec fn spec_to_u8(self) -> u8 {
        match self {
            Protocol::IPad => 5,
            Protocol::AndroidPhone => 1,
            Protocol::AndroidWatch => 2,
            Protocol::MacOS => 3,
            Protocol::QiDian => 4,
        }
    }

    /// The protocol that a number selects.
    #[verifier::when_used_as_spec(spec_from_u8)]
    pub fn from_u8(v: u8) -> (p: Protocol)
        ensures
            p == Self::spec_from_u8(v),
    {
        if v == 1 {
            Protocol::AndroidPhone
        } else if v == 2 {
            Protocol::AndroidWatch
        } else if v == 3 {
            Protocol::MacOS
        } else if v == 4 {
            Protocol::QiDian
        } else {
            Protocol::IPad
        }
    }

    /// The number under which a protocol is kept.
    #[verifier::when_used_as_spec(spec_to_u8)]
    pub fn to_u8(self) -> (v: u8)
        ensures
            v == self.spec_to_u8(),
    {
        match self {
            Protocol::IPad => 5,
            Protocol::AndroidPhone => 1,
            Protocol::AndroidWatch => 2,
            Protocol::MacOS => 3,
            Protocol::QiDian => 4,
        }
    }
}

/// A number selects the protocol under whose number it is kept.
pub proof fn lemma_protocol_number_round_trip(p: Protocol)
    ensures
        Protocol::spec_from_u8(p.spec_to_u8()) == p,
{
}

/// What the service answers to a step of a login.
#[derive(Clone, Debug, PartialEq, Eq)]
pub enum LoginResponse {
    Success,
    NeedCaptcha { verify_url: Option<String> },
    AccountFrozen,
    DeviceLocked { sms_phone: Option<String>, verify_url: Option<String>, message: Option<String> },
    TooManySMSRequest,
    /// One more step, the device lock login, is needed.
    DeviceLockLogin,
    UnknownStatus { status: u8, message: String },
}

/// What the service says about a QR code.
#[derive(Clone, Debug, PartialEq, Eq)]
pub enum QRCodeState {
    ImageFetch { image_data: Vec<u8>, sig: Vec<u8> },
    WaitingForScan,
    WaitingForConfirm,
    Timeout,
    Confirmed { tmp_pwd: Vec<u8>, tmp_no_pic_sig: Vec<u8>, tgt_qr: Vec<u8> },
    Canceled,
}

/// An account number with its password.
#[derive(Clone, Debug, PartialEq, Eq)]
pub struct Password {
    pub uin: i64,
    pub password: String,
}

/// With what a session logs in again after it was lost.
#[derive(Clone, Debug, PartialEq, Eq)]
pub enum Credential {
    Password(Password),
    Token(Vec<u8>),
}

} // verus!
