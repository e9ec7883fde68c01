//! Messages of the plugin protocol: the frame envelope, the message elements,
//! the message receipt, and one struct per event, request and response.
//!
//! String-keyed maps of the schema are kept as lists of pairs in the order
//! they were received or built. Such a list is well formed when no key
//! stands in it twice; a key is looked up from the front.

use vstd::prelude::*;

pub mod frame;
pub mod get_friend_list_resp;
pub mod get_group_list_resp;
pub mod get_group_member_list_resp;
pub mod group_message_event;
pub mod private_message_event;

verus! {

/// One element of a message: a type tag (`text`, `at`, `face`, `image`, ...)
/// and its attributes.
#[derive(Clone, Debug, PartialEq, Eq, Default)]
pub struct Message {
    pub kind: String,
    pub data: Vec<(String, String)>,
}

/// What a `Message` holds, as mathematical values.
pub struct MessageView {
    pub kind: Seq<char>,
    pub data: Seq<(Seq<char>, Seq<char>)>,
}

impl DeepView for Message {
    type V = MessageView;

    open spec fn deep_view(&self) -> MessageView {
        MessageView { kind: self.kind@, data: self.data.deep_view() }
    }
}

impl View for Message {
    type V = MessageView;

    open spec fn view(&self) -> MessageView {
        self.deep_view()
    }
}

impl Message {
    /// Whether the element is well formed: its attributes stand for a map,
    /// so no key stands twice.
    pub open spec fn wf(&self) -> bool {
        distinct_keys(self.data.deep_view())
    }
}

/// Whether every element of a message is well formed.
pub open spec fn messages_wf(ms: Seq<MessageView>) -> bool {
    forall|i: int| 0 <= i < ms.len() ==> distinct_keys((#[trigger] ms[i]).data)
}

/// Whether no key stands twice in a list of pairs, so that the list stands
/// for a map.
pub open spec fn distinct_keys(data: Seq<(Seq<char>, Seq<char>)>) -> bool {
    forall|a: int, b: int| 0 <= a < b < data.len() ==> (#[trigger] data[a]).0 != (#[trigger] data[b]).0
}

/// Whether a later pair than the one at `i` has the same key.
pub open spec fn overwritten(data: Seq<(Seq<char>, Seq<char>)>, i: int) -> bool {
    exists|j: int| i < j < data.len() && data[j].0 == data[i].0
}

/// Of the first `k` pairs, those that no later pair overwrites: what a map
/// holds that was filled with the pairs in their order.
pub open spec fn kept_pairs(data: Seq<(Seq<char>, Seq<char>)>, k: int) -> Seq<
    (Seq<char>, Seq<char>),
>
    decreases k,
{
    if k <= 0 {
        Seq::empty()
    } else if overwritten(data, k - 1) {
        kept_pairs(data, k - 1)
    } else {
        kept_pairs(data, k - 1).push(data[k - 1])
    }
}

/// The pairs of a list that count when it is read as a map.
pub open spec fn as_map(data: Seq<(Seq<char>, Seq<char>)>) -> Seq<(Seq<char>, Seq<char>)> {
    kept_pairs(data, data.len() as int)
}

/// Whether `x` is one of the first `k` pairs and no later pair overwrites
/// it.
pub open spec fn kept_pair_from(
    data: Seq<(Seq<char>, Seq<char>)>,
    k: int,
    x: (Seq<char>, Seq<char>),
) -> bool {
    exists|i: int| 0 <= i < k && !overwritten(data, i) && data[i] == x
}

/// Among the pairs that are kept no key stands twice, and each of them is
/// one of the pairs that no later one overwrites.
pub proof fn lemma_kept_pairs_distinct(data: Seq<(Seq<char>, Seq<char>)>, k: int)
    requires
        0 <= k <= data.len(),
    ensures
        distinct_keys(kept_pairs(data, k)),
        forall|a: int|
            0 <= a < kept_pairs(data, k).len() ==> kept_pair_from(
                data,
                k,
                #[trigger] kept_pairs(data, k)[a],
            ),
    decreases k,
{
    if k > 0 {
        lemma_kept_pairs_distinct(data, k - 1);
        let before = kept_pairs(data, k - 1);
        let now = kept_pairs(data, k);
        assert forall|a: int| 0 <= a < now.len() implies kept_pair_from(data, k, #[trigger] now[a]) by {
            if a < before.len() {
                assert(now[a] == before[a]);
                assert(kept_pair_from(data, k - 1, before[a]));
                let i = choose|i: int| 0 <= i < k - 1 && !overwritten(data, i) && data[i] == before[a];
                assert(0 <= i < k && !overwritten(data, i) && data[i] == now[a]);
            } else {
                assert(!overwritten(data, k - 1) && data[k - 1] == now[a]);
            }
        }
        assert forall|a: int, b: int| 0 <= a < b < now.len() implies (#[trigger] now[a]).0 != (
        #[trigger] now[b]).0 by {
            if b < before.len() {
                assert(now[a] == before[a] && now[b] == before[b]);
            } else {
                assert(now[a] == before[a]);
                assert(kept_pair_from(data, k - 1, before[a]));
                let i = choose|i: int| 0 <= i < k - 1 && !overwritten(data, i) && data[i] == before[a];
                assert(now[b] == data[k - 1]);
                if now[a].0 == now[b].0 {
                    assert(i < k - 1 < data.len() && data[k - 1].0 == data[i].0);
                    assert(overwritten(data, i));
                }
            }
        }
    }
}

/// Reads a list of pairs as a map: of several pairs with one key the last
/// counts. What is left has every key once and keeps the order of the list.
pub fn keep_last_by_key(data: &Vec<(String, String)>) -> (kept: Vec<(String, String)>)
    ensures
        kept.deep_view() == as_map(data.deep_view()),
        distinct_keys(kept.deep_view()),
{
    let ghost all = data.deep_view();
    let mut kept: Vec<(String, String)> = Vec::new();
    let mut i: usize = 0;
    while i < data.len()
        invariant
            i <= data@.len(),
            all == data.deep_view(),
            kept.deep_view() == kept_pairs(all, i as int),
        decreases data@.len() - i,
    {
        let mut later: bool = false;
        let mut j: usize = i + 1;
        while j < data.len()
            invariant
                i < j <= data@.len(),
                all == data.deep_view(),
                later == (exists|m: int| i < m < j && all[m].0 == all[i as int].0),
            decreases data@.len() - j,
        {
            let same = data[j].0 == data[i].0;
            proof {
                assert(all[j as int].0 == data@[j as int].0@);
                assert(all[i as int].0 == data@[i as int].0@);
                if same {
                    assert(i < j < j + 1 && all[j as int].0 == all[i as int].0);
                } else if exists|m: int| i < m < j + 1 && all[m].0 == all[i as int].0 {
                    let m = choose|m: int| i < m < j + 1 && all[m].0 == all[i as int].0;
                    assert(i < m < j && all[m].0 == all[i as int].0);
                }
            }
            if same {
                later = true;
            }
            j = j + 1;
        }
        if !later {
            let ghost before = kept.deep_view();
            kept.push((data[i].0.clone(), data[i].1.clone()));
            assert(kept.deep_view() =~= before.push(all[i as int]));
        }
        i = i + 1;
    }
    proof {
        lemma_kept_pairs_distinct(all, data@.len() as int);
    }
    kept
}

/// The value under `key` in a list of pairs: that of the first pair with
/// this key.
pub open spec fn attr_of(data: Seq<(Seq<char>, Seq<char>)>, key: Seq<char>) -> Option<Seq<char>>
    decreases data.len(),
{
    if data.len() == 0 {
        None
    } else if data[0].0 == key {
        Some(data[0].1)
    } else {
        attr_of(data.skip(1), key)
    }
}

/// The value under `key`, or the empty string where the key is absent.
pub open spec fn attr_or_empty(data: Seq<(Seq<char>, Seq<char>)>, key: Seq<char>) -> Seq<char> {
    match attr_of(data, key) {
        Some(v) => v,
        None => Seq::empty(),
    }
}

/// Identifies a message so that it can be recalled later: who sent it, when,
/// its sequence numbers and random numbers, and the group it was sent to
/// (0 for a private message).
#[derive(Clone, Debug, PartialEq, Eq, Default)]
pub struct MessageReceipt {
    pub sender_id: i64,
    pub time: i64,
    pub seqs: Vec<i32>,
    pub rands: Vec<i32>,
    pub group_id: i64,
}

/// What a `MessageReceipt` holds, as mathematical values.
pub struct ReceiptView {
    pub sender_id: i64,
    pub time: i64,
    pub seqs: Seq<i32>,
    pub rands: Seq<i32>,
    pub group_id: i64,
}

impl View for MessageReceipt {
    type V = ReceiptView;

    open spec fn view(&self) -> ReceiptView {
        ReceiptView {
            sender_id: self.sender_id,
            time: self.time,
            seqs: self.seqs@,
            rands: self.rands@,
            group_id: self.group_id,
        }
    }
}

/// The envelope of everything exchanged with a plugin.
#[derive(Clone, Debug, PartialEq, Eq, Default)]
pub struct Frame {
    pub bot_id: i64,
    pub frame_type: i32,
    pub echo: String,
    pub ok: bool,
    pub data: Option<frame::Data>,
    pub extra: Vec<(String, String)>,
}

impl Frame {
    /// Whether the envelope is well formed: its extras stand for a map, so
    /// no key stands twice.
    pub open spec fn wf(&self) -> bool {
        distinct_keys(self.extra.deep_view())
    }
}

/// A friend sent a message.
#[derive(Clone, Debug, PartialEq, Eq, Default)]
pub struct PrivateMessageEvent {
    pub time: i64,
    pub self_id: i64,
    pub post_type: String,
    pub message_type: String,
    pub sub_type: String,
    pub message_id: Option<MessageReceipt>,
    pub user_id: i64,
    pub message: Vec<Message>,
    pub raw_message: String,
    pub font: i32,
    pub sender: Option<private_message_event::Sender>,
    pub extra: Vec<(String, String)>,
}

/// A member sent a message in a group.
#[derive(Clone, Debug, PartialEq, Eq, Default)]
pub struct GroupMessageEvent {
    pub time: i64,
    pub self_id: i64,
    pub post_type: String,
    pub message_type: String,
    pub sub_type: String,
    pub message_id: Option<MessageReceipt>,
    pub group_id: i64,
    pub user_id: i64,
    pub anonymous: Option<group_message_event::Anonymous>,
    pub message: Vec<Message>,
    pub raw_message: String,
    pub font: i32,
    pub sender: Option<group_message_event::Sender>,
    pub extra: Vec<(String, String)>,
}

/// A member uploaded a file to a group.
#[derive(Clone, Debug, PartialEq, Eq, Default)]
pub struct GroupUploadNoticeEvent {
    pub time: i64,
    pub self_id: i64,
    pub post_type: String,
    pub notice_type: String,
    pub group_id: i64,
    pub user_id: i64,
    pub extra: Vec<(String, String)>,
}

/// A member was made an administrator of a group, or ceased to be one.
#[derive(Clone, Debug, PartialEq, Eq, Default)]
pub struct GroupAdminNoticeEvent {
    pub time: i64,
    pub self_id: i64,
    pub post_type: String,
    pub notice_type: String,
    pub sub_type: String,
    pub group_id: i64,
    pub user_id: i64,
    pub extra: Vec<(String, String)>,
}

/// A member left a group or was removed from it.
#[derive(Clone, Debug, PartialEq, Eq, Default)]
pub struct GroupDecreaseNoticeEvent {
    pub time: i64,
    pub self_id: i64,
    pub post_type: String,
    pub notice_type: String,
    pub sub_type: String,
    pub group_id: i64,
    pub operator_id: i64,
    pub user_id: i64,
    pub extra: Vec<(String, String)>,
}

/// A member joined a group.
#[derive(Clone, Debug, PartialEq, Eq, Default)]
pub struct GroupIncreaseNoticeEvent {
    pub time: i64,
    pub self_id: i64,
    pub post_type: String,
    pub notice_type: String,
    pub sub_type: String,
    pub group_id: i64,
    pub operator_id: i64,
    pub user_id: i64,
    pub extra: Vec<(String, String)>,
}

/// A member of a group was muted.
#[derive(Clone, Debug, PartialEq, Eq, Default)]
pub struct GroupBanNoticeEvent {
    pub time: i64,
    pub self_id: i64,
    pub post_type: String,
    pub notice_type: String,
    pub sub_type: String,
    pub group_id: i64,
    pub operator_id: i64,
    pub user_id: i64,
    pub duration: i64,
    pub extra: Vec<(String, String)>,
}

/// A friend was added.
#[derive(Clone, Debug, PartialEq, Eq, Default)]
pub struct FriendAddNoticeEvent {
    pub time: i64,
    pub self_id: i64,
    pub post_type: String,
    pub notice_type: String,
    pub user_id: i64,
    pub extra: Vec<(String, String)>,
}

/// A message in a group was recalled.
#[derive(Clone, Debug, PartialEq, Eq, Default)]
pub struct GroupRecallNoticeEvent {
    pub time: i64,
    pub self_id: i64,
    pub post_type: String,
    pub notice_type: String,
    pub group_id: i64,
    pub user_id: i64,
    pub operator_id: i64,
    pub message_id: Option<MessageReceipt>,
    pub extra: Vec<(String, String)>,
}

/// A friend recalled a message.
#[derive(Clone, Debug, PartialEq, Eq, Default)]
pub struct FriendRecallNoticeEvent {
    pub time: i64,
    pub self_id: i64,
    pub post_type: String,
    pub notice_type: String,
    pub user_id: i64,
    pub message_id: Option<MessageReceipt>,
    pub extra: Vec<(String, String)>,
}

/// Someone asks to become a friend.
#[derive(Clone, Debug, PartialEq, Eq, Default)]
pub struct FriendRequestEvent {
    pub time: i64,
    pub self_id: i64,
    pub post_type: String,
    pub request_type: String,
    pub user_id: i64,
    pub comment: String,
    pub flag: String,
    pub extra: Vec<(String, String)>,
}

/// Someone asks to join a group, or the bot was invited into one.
#[derive(Clone, Debug, PartialEq, Eq, Default)]
pub struct GroupRequestEvent {
    pub time: i64,
    pub self_id: i64,
    pub post_type: String,
    pub request_type: String,
    pub sub_type: String,
    pub group_id: i64,
    pub user_id: i64,
    pub comment: String,
    pub flag: String,
    pub extra: Vec<(String, String)>,
}

/// Send a message to a friend.
#[derive(Clone, Debug, PartialEq, Eq, Default)]
pub struct SendPrivateMsgReq {
    pub user_id: i64,
    pub message: Vec<Message>,
    pub auto_escape: bool,
}

/// The identifier of the message that was sent to a friend.
#[derive(Clone, Debug, PartialEq, Eq, Default)]
pub struct SendPrivateMsgResp {
    pub message_id: Vec<u8>,
}

/// Send a message to a group.
#[derive(Clone, Debug, PartialEq, Eq, Default)]
pub struct SendGroupMsgReq {
    pub group_id: i64,
    pub message: Vec<Message>,
    pub auto_escape: bool,
}

/// The identifier of the message that was sent to a group.
#[derive(Clone, Debug, PartialEq, Eq, Default)]
pub struct SendGroupMsgResp {
    pub message_id: Vec<u8>,
}

/// Recall the message with this identifier.
#[derive(Clone, Debug, PartialEq, Eq, Default)]
pub struct DeleteMsgReq {
    pub message_id: Vec<u8>,
}

/// The message was recalled.
#[derive(Clone, Debug, PartialEq, Eq, Default)]
pub struct DeleteMsgResp {}

/// Like the profile of an account a number of times.
#[derive(Clone, Debug, PartialEq, Eq, Default)]
pub struct SendLikeReq {
    pub user_id: i64,
    pub times: i32,
}

/// The profile was liked.
#[derive(Clone, Debug, PartialEq, Eq, Default)]
pub struct SendLikeResp {}

/// Remove a member from a group.
#[derive(Clone, Debug, PartialEq, Eq, Default)]
pub struct SetGroupKickReq {
    pub group_id: i64,
    pub user_id: i64,
    pub reject_add_request: bool,
}

/// The member was removed.
#[derive(Clone, Debug, PartialEq, Eq, Default)]
pub struct SetGroupKickResp {}

/// Mute a member of a group for a number of seconds.
#[derive(Clone, Debug, PartialEq, Eq, Default)]
pub struct SetGroupBanReq {
    pub group_id: i64,
    pub user_id: i64,
    pub duration: i32,
}

/// The member was muted.
#[derive(Clone, Debug, PartialEq, Eq, Default)]
pub struct SetGroupBanResp {}

/// Mute a whole group, or end that.
#[derive(Clone, Debug, PartialEq, Eq, Default)]
pub struct SetGroupWholeBanReq {
    pub group_id: i64,
    pub enable: bool,
}

/// The group was muted or unmuted.
#[derive(Clone, Debug, PartialEq, Eq, Default)]
pub struct SetGroupWholeBanResp {}

/// Make a member an administrator of a group, or end that.
#[derive(Clone, Debug, PartialEq, Eq, Default)]
pub struct SetGroupAdminReq {
    pub group_id: i64,
    pub user_id: i64,
    pub enable: bool,
}

/// The role of the member was set.
#[derive(Clone, Debug, PartialEq, Eq, Default)]
pub struct SetGroupAdminResp {}

/// Set the name card of a member of a group.
#[derive(Clone, Debug, PartialEq, Eq, Default)]
pub struct SetGroupCardReq {
    pub group_id: i64,
    pub user_id: i64,
    pub card: String,
}

/// The name card was set.
#[derive(Clone, Debug, PartialEq, Eq, Default)]
pub struct SetGroupCardResp {}

/// Rename a group.
#[derive(Clone, Debug, PartialEq, Eq, Default)]
pub struct SetGroupNameReq {
    pub group_id: i64,
    pub group_name: String,
}

/// The group was renamed.
#[derive(Clone, Debug, PartialEq, Eq, Default)]
pub struct SetGroupNameResp {}

/// Leave a group.
#[derive(Clone, Debug, PartialEq, Eq, Default)]
pub struct SetGroupLeaveReq {
    pub group_id: i64,
    pub is_dismiss: bool,
}

/// The group was left.
#[derive(Clone, Debug, PartialEq, Eq, Default)]
pub struct SetGroupLeaveResp {}

/// Give a member of a group a special title.
#[derive(Clone, Debug, PartialEq, Eq, Default)]
pub struct SetGroupSpecialTitleReq {
    pub group_id: i64,
    pub user_id: i64,
    pub special_title: String,
    pub duration: i64,
}

/// The special title was given.
#[derive(Clone, Debug, PartialEq, Eq, Default)]
pub struct SetGroupSpecialTitleResp {}

/// Ask who the bot is.
#[derive(Clone, Debug, PartialEq, Eq, Default)]
pub struct GetLoginInfoReq {}

/// The account number and the nickname of the bot.
#[derive(Clone, Debug, PartialEq, Eq, Default)]
pub struct GetLoginInfoResp {
    pub user_id: i64,
    pub nickname: String,
}

/// Ask for the profile of an account.
#[derive(Clone, Debug, PartialEq, Eq, Default)]
pub struct GetStrangerInfoReq {
    pub user_id: i64,
    pub no_cache: bool,
}

/// The profile of an account.
#[derive(Clone, Debug, PartialEq, Eq, Default)]
pub struct GetStrangerInfoResp {
    pub user_id: i64,
    pub nickname: String,
    pub sex: String,
    pub age: i32,
    pub level: i32,
    pub login_days: i32,
}

/// Ask for the friends of the bot.
#[derive(Clone, Debug, PartialEq, Eq, Default)]
pub struct GetFriendListReq {}

/// The friends of the bot.
#[derive(Clone, Debug, PartialEq, Eq, Default)]
pub struct GetFriendListResp {
    pub friend: Vec<get_friend_list_resp::Friend>,
}

/// Ask about a group.
#[derive(Clone, Debug, PartialEq, Eq, Default)]
pub struct GetGroupInfoReq {
    pub group_id: i64,
    pub no_cache: bool,
}

/// A group: its name and how many members it has and may have.
#[derive(Clone, Debug, PartialEq, Eq, Default)]
pub struct GetGroupInfoResp {
    pub group_id: i64,
    pub group_name: String,
    pub member_count: i32,
    pub max_member_count: i32,
}

/// Ask for the groups of the bot.
#[derive(Clone, Debug, PartialEq, Eq, Default)]
pub struct GetGroupListReq {}

/// The groups of the bot.
#[derive(Clone, Debug, PartialEq, Eq, Default)]
pub struct GetGroupListResp {
    pub group: Vec<get_group_list_resp::Group>,
}

/// Ask about a member of a group.
#[derive(Clone, Debug, PartialEq, Eq, Default)]
pub struct GetGroupMemberInfoReq {
    pub group_id: i64,
    pub user_id: i64,
    pub no_cache: bool,
}

/// A member of a group.
#[derive(Clone, Debug, PartialEq, Eq, Default)]
pub struct GetGroupMemberInfoResp {
    pub group_id: i64,
    pub user_id: i64,
    pub nickname: String,
    pub card: String,
    pub sex: String,
    pub age: i32,
    pub area: String,
    pub join_time: i64,
    pub last_sent_time: i64,
    pub level: String,
    pub role: String,
    pub unfriendly: bool,
    pub title: String,
    pub title_expire_time: i64,
    pub card_changeable: bool,
}

/// Ask for the members of a group.
#[derive(Clone, Debug, PartialEq, Eq, Default)]
pub struct GetGroupMemberListReq {
    pub group_id: i64,
}

/// The members of a group.
#[derive(Clone, Debug, PartialEq, Eq, Default)]
pub struct GetGroupMemberListResp {
    pub group_member: Vec<get_group_member_list_resp::GroupMember>,
}

} // verus!
