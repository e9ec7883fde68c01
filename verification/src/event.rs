//! Translation of what the chat driver reports into the events of the
//! plugin protocol.

use vstd::prelude::*;
use crate::bot::{admins_stored, looked_up, role_entries, role_in, role_lifespan, Bot};
use crate::error::RCResult;
use crate::idl::pbbot;
use crate::idl::pbbot::frame::Data;
use crate::idl::pbbot::{MessageReceipt, ReceiptView};
use crate::msg::to_proto::{chain_messages, to_proto_chain};
use crate::msg::to_xml::{chain_xml, proto_to_xml};
use crate::native::{
    FriendMessage, FriendMessageRecall, GroupLeave, GroupMemberPermission, GroupMessage,
    GroupMessageRecall, GroupMute, JoinGroupRequest, MemberPermissionChange, NewFriend,
    NewFriendRequest, NewMember, QEvent, SelfInvited,
};
use crate::util::text::{decimal, decimal_string, push_decimal, push_str, string_of};

verus! {

/// `chrono::Utc::now` and `DateTime::timestamp`: the time of the call, in
/// seconds since the first of January 1970, UTC.
#[verifier::external_body]
fn unix_now() -> i64 {
    chrono::Utc::now().timestamp()
}

/// The name of a role on the wire.
pub open spec fn role_name(role: GroupMemberPermission) -> Seq<char> {
    match role {
        GroupMemberPermission::Owner => "owner"@,
        GroupMemberPermission::Administrator => "admin"@,
        GroupMemberPermission::Member => "member"@,
    }
}

/// The name of a role on the wire.
pub fn role_string(role: GroupMemberPermission) -> (s: String)
    ensures
        s@ == role_name(role),
{
    match role {
        GroupMemberPermission::Owner => "owner".to_string(),
        GroupMemberPermission::Administrator => "admin".to_string(),
        GroupMemberPermission::Member => "member".to_string(),
    }
}

/// Two numbers in decimal with a colon between them.
pub open spec fn colon2(a: int, b: int) -> Seq<char> {
    decimal(a) + seq![':'] + decimal(b)
}

/// Three numbers in decimal with a colon between two of them.
pub open spec fn colon3(a: int, b: int, c: int) -> Seq<char> {
    decimal(a) + seq![':'] + decimal(b) + seq![':'] + decimal(c)
}

fn flag2(a: i64, b: i64) -> (s: String)
    ensures
        s@ == colon2(a as int, b as int),
{
    let mut out: Vec<char> = Vec::new();
    push_decimal(&mut out, a);
    out.push(':');
    push_decimal(&mut out, b);
    assert(out@ =~= colon2(a as int, b as int));
    string_of(&out)
}

fn flag3(a: i64, b: i64, c: i64) -> (s: String)
    ensures
        s@ == colon3(a as int, b as int, c as int),
{
    let mut out: Vec<char> = Vec::new();
    push_decimal(&mut out, a);
    out.push(':');
    push_decimal(&mut out, b);
    out.push(':');
    push_decimal(&mut out, c);
    assert(out@ =~= colon3(a as int, b as int, c as int));
    string_of(&out)
}

/// The receipt that identifies a message.
pub open spec fn receipt(sender_id: i64, time: i64, seqs: Seq<i32>, rands: Seq<i32>, group_id: i64)
    -> ReceiptView {
    ReceiptView { sender_id, time, seqs, rands, group_id }
}

fn copy_numbers(v: &Vec<i32>) -> (copy: Vec<i32>)
    ensures
        copy@ == v@,
{
    let mut copy: Vec<i32> = Vec::new();
    let mut i: usize = 0;
    while i < v.len()
        invariant
            i <= v@.len(),
            copy@ == v@.take(i as int),
        decreases v@.len() - i,
    {
        copy.push(v[i]);
        assert(copy@ =~= v@.take(i + 1));
        i = i + 1;
    }
    assert(v@.take(i as int) =~= v@);
    copy
}

/// What a message in a group becomes, given the role of its sender.
pub open spec fn group_message_event(
    e: pbbot::GroupMessageEvent,
    self_id: i64,
    role: GroupMemberPermission,
    m: GroupMessage,
) -> bool {
    &&& e.time == m.time as i64
    &&& e.self_id == self_id
    &&& e.post_type@ == "message"@
    &&& e.message_type@ == "group"@
    &&& e.sub_type@ == "normal"@
    &&& e.message_id matches Some(id) && id@ == receipt(
        m.from_uin,
        m.time as i64,
        m.seqs@,
        m.rands@,
        m.group_code,
    )
    &&& e.group_id == m.group_code
    &&& e.user_id == m.from_uin
    &&& e.anonymous is None
    &&& e.message.deep_view() == chain_messages(m.elements.0.deep_view())
    &&& e.raw_message@ == chain_xml(chain_messages(m.elements.0.deep_view()))
    &&& e.font == 0
    &&& e.extra@.len() == 0
    &&& e.sender matches Some(s) && {
        &&& s.user_id == m.from_uin
        &&& s.card@ == m.group_card@
        &&& s.role@ == role_name(role)
        &&& s.nickname@.len() == 0
        &&& s.sex@.len() == 0
        &&& s.age == 0
        &&& s.area@.len() == 0
        &&& s.level@.len() == 0
        &&& s.title@.len() == 0
    }
}

/// Translates a message in a group; `role` is the role of its sender.
pub fn to_proto_group_message(self_id: i64, role: GroupMemberPermission, message: GroupMessage) -> (e:
    pbbot::GroupMessageEvent)
    ensures
        group_message_event(e, self_id, role, message),
{
    let message_id = MessageReceipt {
        sender_id: message.from_uin,
        time: message.time as i64,
        seqs: copy_numbers(&message.seqs),
        rands: copy_numbers(&message.rands),
        group_id: message.group_code,
    };
    let proto_message = to_proto_chain(&message.elements);
    let raw_message = proto_to_xml(to_proto_chain(&message.elements));
    pbbot::GroupMessageEvent {
        time: message.time as i64,
        self_id,
        post_type: "message".to_string(),
        message_type: "group".to_string(),
        sub_type: "normal".to_string(),
        message_id: Some(message_id),
        group_id: message.group_code,
        user_id: message.from_uin,
        anonymous: None,
        raw_message,
        message: proto_message,
        sender: Some(
            pbbot::group_message_event::Sender {
                user_id: message.from_uin,
                nickname: String::new(),
                card: message.group_card,
                sex: String::new(),
                age: 0,
                area: String::new(),
                level: String::new(),
                role: role_string(role),
                title: String::new(),
            },
        ),
        font: 0,
        extra: Vec::new(),
    }
}

/// What a message from a friend becomes.
pub open spec fn private_message_event(e: pbbot::PrivateMessageEvent, self_id: i64, m: FriendMessage)
    -> bool {
    &&& e.time == m.time as i64
    &&& e.self_id == self_id
    &&& e.post_type@ == "message"@
    &&& e.message_type@ == "private"@
    &&& e.sub_type@ == "normal"@
    &&& e.message_id matches Some(id) && id@ == receipt(
        m.from_uin,
        m.time as i64,
        m.seqs@,
        m.rands@,
        0,
    )
    &&& e.user_id == m.from_uin
    &&& e.message.deep_view() == chain_messages(m.elements.0.deep_view())
    &&& e.raw_message@ == chain_xml(chain_messages(m.elements.0.deep_view()))
    &&& e.font == 0
    &&& e.extra@.len() == 0
    &&& e.sender matches Some(s) && {
        &&& s.user_id == m.from_uin
        &&& s.nickname@ == m.from_nick@
        &&& s.sex@.len() == 0
        &&& s.age == 0
    }
}

/// Translates a message from a friend.
pub fn to_proto_private_message(self_id: i64, message: FriendMessage) -> (e:
    pbbot::PrivateMessageEvent)
    ensures
        private_message_event(e, self_id, message),
{
    let message_id = MessageReceipt {
        sender_id: message.from_uin,
        time: message.time as i64,
        seqs: copy_numbers(&message.seqs),
        rands: copy_numbers(&message.rands),
        group_id: 0,
    };
    let proto_message = to_proto_chain(&message.elements);
    let raw_message = proto_to_xml(to_proto_chain(&message.elements));
    pbbot::PrivateMessageEvent {
        time: message.time as i64,
        self_id,
        post_type: "message".to_string(),
        message_type: "private".to_string(),
        sub_type: "normal".to_string(),
        message_id: Some(message_id),
        user_id: message.from_uin,
        raw_message,
        message: proto_message,
        sender: Some(
            pbbot::private_message_event::Sender {
                user_id: message.from_uin,
                nickname: message.from_nick,
                sex: String::new(),
                age: 0,
            },
        ),
        font: 0,
        extra: Vec::new(),
    }
}

/// What a member leaving a group becomes: `kick` where someone removed the
/// member, `leave` where it left by itself.
pub open spec fn group_decrease_event(
    e: pbbot::GroupDecreaseNoticeEvent,
    self_id: i64,
    time: i64,
    leave: GroupLeave,
) -> bool {
    &&& e.time == time
    &&& e.self_id == self_id
    &&& e.post_type@ == "notice"@
    &&& e.notice_type@ == "group_decrease"@
    &&& e.sub_type@ == if leave.operator_uin is Some {
        "kick"@
    } else {
        "leave"@
    }
    &&& e.group_id == leave.group_code
    &&& e.operator_id == match leave.operator_uin {
        Some(uin) => uin,
        None => 0,
    }
    &&& e.user_id == leave.member_uin
    &&& e.extra@.len() == 0
}

/// Translates a member leaving a group.
pub fn to_proto_group_decrease(self_id: i64, time: i64, leave: GroupLeave) -> (e:
    pbbot::GroupDecreaseNoticeEvent)
    ensures
        group_decrease_event(e, self_id, time, leave),
{
    pbbot::GroupDecreaseNoticeEvent {
        time,
        self_id,
        post_type: "notice".to_string(),
        notice_type: "group_decrease".to_string(),
        sub_type: if leave.operator_uin.is_some() {
            "kick".to_string()
        } else {
            "leave".to_string()
        },
        group_id: leave.group_code,
        operator_id: match leave.operator_uin {
            Some(uin) => uin,
            None => 0,
        },
        user_id: leave.member_uin,
        extra: Vec::new(),
    }
}

/// What a member joining a group becomes.
pub open spec fn group_increase_event(
    e: pbbot::GroupIncreaseNoticeEvent,
    self_id: i64,
    time: i64,
    new_member: NewMember,
) -> bool {
    &&& e.time == time
    &&& e.self_id == self_id
    &&& e.post_type@ == "notice"@
    &&& e.notice_type@ == "group_increase"@
    &&& e.sub_type@.len() == 0
    &&& e.group_id == new_member.group_code
    &&& e.operator_id == 0
    &&& e.user_id == new_member.member_uin
    &&& e.extra@.len() == 0
}

/// Translates a member joining a group.
pub fn to_proto_group_increase(self_id: i64, time: i64, new_member: NewMember) -> (e:
    pbbot::GroupIncreaseNoticeEvent)
    ensures
        group_increase_event(e, self_id, time, new_member),
{
    pbbot::GroupIncreaseNoticeEvent {
        time,
        self_id,
        post_type: "notice".to_string(),
        notice_type: "group_increase".to_string(),
        sub_type: String::new(),
        group_id: new_member.group_code,
        operator_id: 0,
        user_id: new_member.member_uin,
        extra: Vec::new(),
    }
}

/// What a mute becomes. The duration is carried as a signed number.
pub open spec fn group_ban_event(e: pbbot::GroupBanNoticeEvent, self_id: i64, time: i64, mute: GroupMute)
    -> bool {
    &&& e.time == time
    &&& e.self_id == self_id
    &&& e.post_type@ == "notice"@
    &&& e.notice_type@ == "group_ban"@
    &&& e.sub_type@.len() == 0
    &&& e.group_id == mute.group_code
    &&& e.operator_id == mute.operator_uin
    &&& e.user_id == mute.target_uin
    &&& e.duration == mute.duration as i64
    &&& e.extra@.len() == 0
}

/// Translates a mute.
pub fn to_proto_group_ban(self_id: i64, time: i64, mute: GroupMute) -> (e:
    pbbot::GroupBanNoticeEvent)
    ensures
        group_ban_event(e, self_id, time, mute),
{
    pbbot::GroupBanNoticeEvent {
        time,
        self_id,
        post_type: "notice".to_string(),
        notice_type: "group_ban".to_string(),
        sub_type: String::new(),
        group_id: mute.group_code,
        operator_id: mute.operator_uin,
        user_id: mute.target_uin,
        duration: #[verifier::truncate] (mute.duration as i64),
        extra: Vec::new(),
    }
}

/// What a friend recalling a message becomes.
pub open spec fn friend_recall_event(
    e: pbbot::FriendRecallNoticeEvent,
    self_id: i64,
    time: i64,
    recall: FriendMessageRecall,
) -> bool {
    &&& e.time == time
    &&& e.self_id == self_id
    &&& e.post_type@ == "notice"@
    &&& e.notice_type@ == "friend_recall"@
    &&& e.user_id == recall.friend_uin
    &&& e.message_id matches Some(id) && id@ == receipt(
        recall.friend_uin,
        recall.time,
        seq![recall.msg_seq],
        Seq::empty(),
        0,
    )
    &&& e.extra@.len() == 0
}

/// Translates a friend recalling a message.
pub fn to_proto_friend_recall(self_id: i64, time: i64, recall: FriendMessageRecall) -> (e:
    pbbot::FriendRecallNoticeEvent)
    ensures
        friend_recall_event(e, self_id, time, recall),
{
    let mut seqs: Vec<i32> = Vec::new();
    seqs.push(recall.msg_seq);
    let message_id = MessageReceipt {
        sender_id: recall.friend_uin,
        time: recall.time,
        seqs,
        rands: Vec::new(),
        group_id: 0,
    };
    assert(message_id@.seqs =~= seq![recall.msg_seq]);
    assert(message_id@.rands =~= Seq::<i32>::empty());
    pbbot::FriendRecallNoticeEvent {
        time,
        self_id,
        post_type: "notice".to_string(),
        notice_type: "friend_recall".to_string(),
        user_id: recall.friend_uin,
        message_id: Some(message_id),
        extra: Vec::new(),
    }
}

/// What the recall of a message in a group becomes.
pub open spec fn group_recall_event(
    e: pbbot::GroupRecallNoticeEvent,
    self_id: i64,
    time: i64,
    recall: GroupMessageRecall,
) -> bool {
    &&& e.time == time
    &&& e.self_id == self_id
    &&& e.post_type@ == "notice"@
    &&& e.notice_type@ == "group_recall"@
    &&& e.group_id == recall.group_code
    &&& e.user_id == recall.author_uin
    &&& e.operator_id == recall.operator_uin
    &&& e.message_id matches Some(id) && id@ == receipt(
        recall.author_uin,
        recall.time as i64,
        seq![recall.msg_seq],
        Seq::empty(),
        recall.group_code,
    )
    &&& e.extra@.len() == 0
}

/// Translates the recall of a message in a group.
pub fn to_proto_group_recall(self_id: i64, time: i64, recall: GroupMessageRecall) -> (e:
    pbbot::GroupRecallNoticeEvent)
    ensures
        group_recall_event(e, self_id, time, recall),
{
    let mut seqs: Vec<i32> = Vec::new();
    seqs.push(recall.msg_seq);
    let message_id = MessageReceipt {
        sender_id: recall.author_uin,
        time: recall.time as i64,
        seqs,
        rands: Vec::new(),
        group_id: recall.group_code,
    };
    assert(message_id@.seqs =~= seq![recall.msg_seq]);
    assert(message_id@.rands =~= Seq::<i32>::empty());
    pbbot::GroupRecallNoticeEvent {
        time,
        self_id,
        post_type: "notice".to_string(),
        notice_type: "group_recall".to_string(),
        group_id: recall.group_code,
        user_id: recall.author_uin,
        operator_id: recall.operator_uin,
        message_id: Some(message_id),
        extra: Vec::new(),
    }
}

/// What a new friend becomes.
pub open spec fn friend_add_event(e: pbbot::FriendAddNoticeEvent, self_id: i64, time: i64, friend: NewFriend)
    -> bool {
    &&& e.time == time
    &&& e.self_id == self_id
    &&& e.post_type@ == "notice"@
    &&& e.notice_type@ == "friend_add"@
    &&& e.user_id == friend.uin
    &&& e.extra@.len() == 0
}

/// Translates a new friend.
pub fn to_proto_friend_add(self_id: i64, time: i64, friend: NewFriend) -> (e:
    pbbot::FriendAddNoticeEvent)
    ensures
        friend_add_event(e, self_id, time, friend),
{
    pbbot::FriendAddNoticeEvent {
        time,
        self_id,
        post_type: "notice".to_string(),
        notice_type: "friend_add".to_string(),
        user_id: friend.uin,
        extra: Vec::new(),
    }
}

/// The marks of a request to join a group, each with a comma behind it:
/// `is_invite` where someone invited the account, `suspicious` where the
/// service finds the request so.
pub open spec fn request_marks(invited: bool, suspicious: bool) -> Seq<char> {
    (if invited {
        "is_invite,"@
    } else {
        Seq::empty()
    }) + (if suspicious {
        "suspicious,"@
    } else {
        Seq::empty()
    })
}

/// What a request to join a group becomes. It carries the time of the
/// request itself. The flag names the group, the account that asks and the
/// number of the request.
pub open spec fn group_request_event(
    e: pbbot::GroupRequestEvent,
    self_id: i64,
    request: JoinGroupRequest,
) -> bool {
    &&& e.time == request.msg_time
    &&& e.self_id == self_id
    &&& e.post_type@ == "request"@
    &&& e.request_type@ == "group"@
    &&& e.sub_type@ == request_marks(request.invitor_uin is Some, request.suspicious)
    &&& e.group_id == request.group_code
    &&& e.user_id == request.req_uin
    &&& e.comment@ == request.message@
    &&& e.flag@ == colon3(
        request.group_code as int,
        request.req_uin as int,
        request.msg_seq as int,
    )
    &&& e.extra@.len() == 0
}

/// Translates a request to join a group.
pub fn to_proto_group_request(self_id: i64, request: JoinGroupRequest) -> (e:
    pbbot::GroupRequestEvent)
    ensures
        group_request_event(e, self_id, request),
{
    let flag = flag3(request.group_code, request.req_uin, request.msg_seq);
    let mut marks: Vec<char> = Vec::new();
    if request.invitor_uin.is_some() {
        push_str(&mut marks, "is_invite,");
    }
    if request.suspicious {
        push_str(&mut marks, "suspicious,");
    }
    assert(marks@ =~= request_marks(request.invitor_uin is Some, request.suspicious));
    pbbot::GroupRequestEvent {
        time: request.msg_time,
        self_id,
        post_type: "request".to_string(),
        request_type: "group".to_string(),
        sub_type: string_of(&marks),
        group_id: request.group_code,
        user_id: request.req_uin,
        comment: request.message,
        flag,
        extra: Vec::new(),
    }
}

/// What an invitation of the bot itself becomes: a request of the bot's
/// own account that is marked as an invitation, as a request to join is,
/// with the time of the invitation and with the inviting account among the
/// extras.
pub open spec fn self_group_request_event(
    e: pbbot::GroupRequestEvent,
    self_id: i64,
    request: SelfInvited,
) -> bool {
    &&& e.time == request.msg_time
    &&& e.self_id == self_id
    &&& e.post_type@ == "request"@
    &&& e.request_type@ == "group"@
    &&& e.sub_type@ == request_marks(true, false)
    &&& e.group_id == request.group_code
    &&& e.user_id == self_id
    &&& e.comment@.len() == 0
    &&& e.flag@ == colon3(request.group_code as int, self_id as int, request.msg_seq as int)
    &&& e.extra.deep_view() == seq![("invitor_uin"@, decimal(request.invitor_uin as int))]
}

/// Translates an invitation of the bot itself.
pub fn to_proto_self_group_request(self_id: i64, request: SelfInvited) -> (e:
    pbbot::GroupRequestEvent)
    ensures
        self_group_request_event(e, self_id, request),
{
    let flag = flag3(request.group_code, self_id, request.msg_seq);
    let mut extra: Vec<(String, String)> = Vec::new();
    extra.push(("invitor_uin".to_string(), decimal_string(request.invitor_uin)));
    assert(extra.deep_view() =~= seq![("invitor_uin"@, decimal(request.invitor_uin as int))]);
    let marks = "is_invite,".to_string();
    assert(marks@ =~= request_marks(true, false));
    pbbot::GroupRequestEvent {
        time: request.msg_time,
        self_id,
        post_type: "request".to_string(),
        request_type: "group".to_string(),
        sub_type: marks,
        group_id: request.group_code,
        user_id: self_id,
        comment: String::new(),
        flag,
        extra,
    }
}

/// What a request to become a friend becomes. The flag names the account
/// that asks and the number of the request.
pub open spec fn friend_request_event(
    e: pbbot::FriendRequestEvent,
    self_id: i64,
    time: i64,
    request: NewFriendRequest,
) -> bool {
    &&& e.time == time
    &&& e.self_id == self_id
    &&& e.post_type@ == "request"@
    &&& e.request_type@ == "friend"@
    &&& e.user_id == request.req_uin
    &&& e.comment@ == request.message@
    &&& e.flag@ == colon2(request.req_uin as int, request.msg_seq as int)
    &&& e.extra@.len() == 0
}

/// Translates a request to become a friend.
pub fn to_proto_friend_request(self_id: i64, time: i64, request: NewFriendRequest) -> (e:
    pbbot::FriendRequestEvent)
    ensures
        friend_request_event(e, self_id, time, request),
{
    let flag = flag2(request.req_uin, request.msg_seq);
    pbbot::FriendRequestEvent {
        time,
        self_id,
        post_type: "request".to_string(),
        request_type: "friend".to_string(),
        user_id: request.req_uin,
        comment: request.message,
        flag,
        extra: Vec::new(),
    }
}

/// What a change of role becomes: `set` where the member is now an
/// administrator, `unset` otherwise.
pub open spec fn group_admin_event(
    e: pbbot::GroupAdminNoticeEvent,
    self_id: i64,
    time: i64,
    change: MemberPermissionChange,
) -> bool {
    &&& e.time == time
    &&& e.self_id == self_id
    &&& e.post_type@ == "notice"@
    &&& e.notice_type@ == "group_admin"@
    &&& e.sub_type@ == if change.new_permission is Administrator {
        "set"@
    } else {
        "unset"@
    }
    &&& e.group_id == change.group_code
    &&& e.user_id == change.member_uin
    &&& e.extra@.len() == 0
}

/// Translates a change of role.
pub fn to_proto_group_admin_notice(self_id: i64, time: i64, change: MemberPermissionChange) -> (e:
    pbbot::GroupAdminNoticeEvent)
    ensures
        group_admin_event(e, self_id, time, change),
{
    pbbot::GroupAdminNoticeEvent {
        time,
        self_id,
        post_type: "notice".to_string(),
        notice_type: "group_admin".to_string(),
        sub_type: match change.new_permission {
            GroupMemberPermission::Administrator => "set".to_string(),
            _ => "unset".to_string(),
        },
        group_id: change.group_code,
        user_id: change.member_uin,
        extra: Vec::new(),
    }
}

/// What `event` becomes for the bot `self_id` at the time `time`, where the
/// sender of a group message has the role `role`. Messages, requests to join
/// a group and invitations carry their own time; everything else is stamped
/// with `time`. An event of a kind that is
/// not forwarded becomes nothing.
pub open spec fn translated(
    self_id: i64,
    time: i64,
    role: GroupMemberPermission,
    event: QEvent,
    data: Option<Data>,
) -> bool {
    match event {
        QEvent::GroupMessage(m) => data matches Some(Data::GroupMessageEvent(e))
            && group_message_event(e, self_id, role, m),
        QEvent::FriendMessage(m) => data matches Some(Data::PrivateMessageEvent(e))
            && private_message_event(e, self_id, m),
        QEvent::GroupRequest(r) => data matches Some(Data::GroupRequestEvent(e))
            && group_request_event(e, self_id, r),
        QEvent::SelfInvited(r) => data matches Some(Data::GroupRequestEvent(e))
            && self_group_request_event(e, self_id, r),
        QEvent::NewFriendRequest(r) => data matches Some(Data::FriendRequestEvent(e))
            && friend_request_event(e, self_id, time, r),
        QEvent::NewMember(n) => data matches Some(Data::GroupIncreaseNoticeEvent(e))
            && group_increase_event(e, self_id, time, n),
        QEvent::GroupMute(m) => data matches Some(Data::GroupBanNoticeEvent(e)) && group_ban_event(
            e,
            self_id,
            time,
            m,
        ),
        QEvent::FriendMessageRecall(r) => data matches Some(Data::FriendRecallNoticeEvent(e))
            && friend_recall_event(e, self_id, time, r),
        QEvent::GroupMessageRecall(r) => data matches Some(Data::GroupRecallNoticeEvent(e))
            && group_recall_event(e, self_id, time, r),
        QEvent::NewFriend(f) => data matches Some(Data::FriendAddNoticeEvent(e))
            && friend_add_event(e, self_id, time, f),
        QEvent::GroupLeave(l) => data matches Some(Data::GroupDecreaseNoticeEvent(e))
            && group_decrease_event(e, self_id, time, l),
        QEvent::MemberPermissionChange(c) => data matches Some(Data::GroupAdminNoticeEvent(e))
            && group_admin_event(e, self_id, time, c),
        QEvent::Other => data is None,
    }
}

/// The account number that an event on the wire names as the bot's own.
pub open spec fn event_self_id(data: Data) -> Option<i64> {
    match data {
        Data::PrivateMessageEvent(e) => Some(e.self_id),
        Data::GroupMessageEvent(e) => Some(e.self_id),
        Data::GroupUploadNoticeEvent(e) => Some(e.self_id),
        Data::GroupAdminNoticeEvent(e) => Some(e.self_id),
        Data::GroupDecreaseNoticeEvent(e) => Some(e.self_id),
        Data::GroupIncreaseNoticeEvent(e) => Some(e.self_id),
        Data::GroupBanNoticeEvent(e) => Some(e.self_id),
        Data::FriendAddNoticeEvent(e) => Some(e.self_id),
        Data::GroupRecallNoticeEvent(e) => Some(e.self_id),
        Data::FriendRecallNoticeEvent(e) => Some(e.self_id),
        Data::FriendRequestEvent(e) => Some(e.self_id),
        Data::GroupRequestEvent(e) => Some(e.self_id),
        _ => None,
    }
}

/// Every event that a translation gives names the bot's own account.
pub proof fn lemma_translated_self_id(
    self_id: i64,
    time: i64,
    role: GroupMemberPermission,
    event: QEvent,
    data: Option<Data>,
)
    requires
        translated(self_id, time, role, event, data),
    ensures
        data matches Some(d) ==> event_self_id(d) == Some(self_id),
{
}

/// Translates `event` for the bot `self_id` at the time `time`; `role` is
/// the role of the sender where the event is a message in a group.
pub fn translate_event(self_id: i64, time: i64, role: GroupMemberPermission, event: QEvent) -> (data:
    Option<Data>)
    ensures
        translated(self_id, time, role, event, data),
        data matches Some(d) ==> event_self_id(d) == Some(self_id),
{
    match event {
        QEvent::GroupMessage(m) => Some(
            Data::GroupMessageEvent(to_proto_group_message(self_id, role, m)),
        ),
        QEvent::FriendMessage(m) => Some(
            Data::PrivateMessageEvent(to_proto_private_message(self_id, m)),
        ),
        QEvent::GroupRequest(r) => Some(
            Data::GroupRequestEvent(to_proto_group_request(self_id, r)),
        ),
        QEvent::SelfInvited(r) => Some(
            Data::GroupRequestEvent(to_proto_self_group_request(self_id, r)),
        ),
        QEvent::NewFriendRequest(r) => Some(
            Data::FriendRequestEvent(to_proto_friend_request(self_id, time, r)),
        ),
        QEvent::NewMember(n) => Some(
            Data::GroupIncreaseNoticeEvent(to_proto_group_increase(self_id, time, n)),
        ),
        QEvent::GroupMute(m) => Some(Data::GroupBanNoticeEvent(to_proto_group_ban(self_id, time, m))),
        QEvent::FriendMessageRecall(r) => Some(
            Data::FriendRecallNoticeEvent(to_proto_friend_recall(self_id, time, r)),
        ),
        QEvent::GroupMessageRecall(r) => Some(
            Data::GroupRecallNoticeEvent(to_proto_group_recall(self_id, time, r)),
        ),
        QEvent::NewFriend(f) => Some(Data::FriendAddNoticeEvent(to_proto_friend_add(self_id, time, f))),
        QEvent::GroupLeave(l) => Some(
            Data::GroupDecreaseNoticeEvent(to_proto_group_decrease(self_id, time, l)),
        ),
        QEvent::MemberPermissionChange(c) => Some(
            Data::GroupAdminNoticeEvent(to_proto_group_admin_notice(self_id, time, c)),
        ),
        QEvent::Other => None,
    }
}

/// How far the translation of an event has come.
#[derive(Debug)]
pub enum Translation {
    /// It is done: this is what goes to the plugins, if anything.
    Done(Option<Data>),
    /// The event is a message in a group whose sender's role the bot does
    /// not remember. The administrators of the group are to be fetched and
    /// handed, with the message, to `finish_group_message`.
    NeedAdmins { message: GroupMessage },
}

/// Translates what the driver reports into what goes to the plugins.
///
/// An event that carries no time of its own is stamped with the time of
/// the call. A message in a group needs the role of its sender, which is
/// looked up in the role cache: where the cache answers, the translation is
/// done at once and the lookup counts as a hit; where it does not, the
/// message comes back with the request to fetch the administrators of the
/// group, and the lookup counts as a miss. Where the counters of the cache
/// cannot count any further, the cache is left alone and the administrators
/// are asked for.
pub fn to_proto_event(bot: &mut Bot, event: QEvent) -> (t: Translation)
    ensures
        final(bot).uin == old(bot).uin,
        final(bot).stopped == old(bot).stopped,
        final(bot).plugin_connections == old(bot).plugin_connections,
        match t {
            Translation::Done(data) => exists|time: i64, role: GroupMemberPermission|
                #[trigger] translated(old(bot).uin, time, role, event, data) && (event
                    matches QEvent::GroupMessage(m) ==> role_entries(
                    old(bot).group_role_cache,
                ).contains_key((m.group_code, m.from_uin)) && role_entries(
                    old(bot).group_role_cache,
                )[(m.group_code, m.from_uin)] == role),
            Translation::NeedAdmins { message } => event == QEvent::GroupMessage(message),
        },
        !(event is GroupMessage) ==> t is Done && final(bot).group_role_cache == old(
            bot,
        ).group_role_cache,
        event matches QEvent::GroupMessage(m) ==> looked_up(
            old(bot).group_role_cache,
            final(bot).group_role_cache,
            (m.group_code, m.from_uin),
            t is Done,
        ),
        !old(bot).can_count() && event is GroupMessage ==> t is NeedAdmins,
        role_lifespan(final(bot).group_role_cache) == role_lifespan(old(bot).group_role_cache),
        t matches Translation::Done(Some(d)) ==> event_self_id(d) == Some(old(bot).uin),
{
    match event {
        QEvent::GroupMessage(m) => {
            match bot.cached_group_role(m.group_code, m.from_uin) {
                Some(role) => {
                    let data = translate_event(bot.uin, 0, role, QEvent::GroupMessage(m));
                    assert(translated(old(bot).uin, 0, role, event, data));
                    Translation::Done(data)
                },
                None => Translation::NeedAdmins { message: m },
            }
        },
        other => {
            let now = unix_now();
            let data = translate_event(bot.uin, now, GroupMemberPermission::Member, other);
            assert(translated(old(bot).uin, now, GroupMemberPermission::Member, event, data));
            Translation::Done(data)
        },
    }
}

/// Finishes the translation of a message in a group once the
/// administrators of the group were asked for. Where they were fetched, they
/// are remembered and the sender has the role they give it; where fetching
/// failed, the sender counts as a plain member and nothing is remembered.
pub fn finish_group_message(
    bot: &mut Bot,
    message: GroupMessage,
    admins: RCResult<Vec<(i64, GroupMemberPermission)>>,
) -> (data: Data)
    ensures
        final(bot).uin == old(bot).uin,
        final(bot).stopped == old(bot).stopped,
        final(bot).plugin_connections == old(bot).plugin_connections,
        data matches Data::GroupMessageEvent(e) && group_message_event(
            e,
            old(bot).uin,
            match admins {
                Ok(list) => role_in(list@, message.from_uin),
                Err(_) => GroupMemberPermission::Member,
            },
            message,
        ),
        match admins {
            Ok(list) => admins_stored(
                old(bot).group_role_cache,
                final(bot).group_role_cache,
                message.group_code,
                list@,
            ),
            Err(_) => final(bot).group_role_cache == old(bot).group_role_cache,
        },
        event_self_id(data) == Some(old(bot).uin),
{
    let role = match &admins {
        Ok(list) => bot.store_group_admins(message.group_code, message.from_uin, list),
        Err(_) => GroupMemberPermission::Member,
    };
    Data::GroupMessageEvent(to_proto_group_message(bot.uin, role, message))
}

} // verus!
