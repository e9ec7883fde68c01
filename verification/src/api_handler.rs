//! Handling of the requests that plugins send.
//!
//! A request is answered in steps. `handle_api_frame` takes the request
//! frame: a frame without a payload is answered at once as not ok; any other
//! goes to the handler of its payload, which turns it into one call to the
//! chat driver. The program around the library makes the call and hands the
//! outcome to `handle_api_reply`, which either asks for one more call or
//! gives the response frame. A failure of the driver, or a payload that no
//! handler serves, gives a response that is ok and has no payload.

use vstd::prelude::*;
use crate::error::RCResult;
use crate::event::{receipt, role_name, role_string};
use crate::idl::pbbot::frame::{Data, RESPONSE_OFFSET};
use crate::idl::pbbot::{
    get_friend_list_resp, get_group_list_resp, get_group_member_list_resp, DeleteMsgReq,
    DeleteMsgResp, Frame, GetFriendListReq, GetFriendListResp, GetGroupInfoReq, GetGroupInfoResp,
    GetGroupListReq, GetGroupListResp, GetGroupMemberInfoReq, GetGroupMemberInfoResp,
    GetGroupMemberListReq, GetGroupMemberListResp, GetLoginInfoReq, GetLoginInfoResp,
    GetStrangerInfoReq, GetStrangerInfoResp, MessageReceipt, ReceiptView, SendGroupMsgReq,
    SendGroupMsgResp,
    SendLikeReq, SendLikeResp, SendPrivateMsgReq, SendPrivateMsgResp, SetGroupAdminReq,
    SetGroupAdminResp, SetGroupBanReq, SetGroupBanResp, SetGroupCardReq, SetGroupCardResp,
    SetGroupKickReq, SetGroupKickResp, SetGroupLeaveReq, SetGroupLeaveResp, SetGroupNameReq,
    SetGroupNameResp, SetGroupSpecialTitleReq, SetGroupSpecialTitleResp, SetGroupWholeBanReq,
    SetGroupWholeBanResp,
};
use crate::msg::from_proto::{rq_chain, to_rq_chain, Contact};
use crate::native::{
    FriendInfo, GroupInfo, GroupMemberInfo, MessageChain, SentReceipt, SummaryCardInfo,
};
use crate::plugin::pb_to_bytes::{receipt_bytes, receipt_of_bytes, PbToBytes, WireError};
use crate::util::text::{decimal, decimal_string};

verus! {

/// One call to the chat driver.
#[derive(Debug)]
pub enum DriverCall {
    SendFriendMessage { target: i64, chain: MessageChain },
    SendGroupMessage { group_code: i64, chain: MessageChain },
    RecallGroupMessage { group_code: i64, seqs: Vec<i32>, rands: Vec<i32> },
    RecallFriendMessage { uin: i64, time: i64, seqs: Vec<i32>, rands: Vec<i32> },
    GetSummaryInfo { uin: i64 },
    SendLike { uin: i64, count: i32, source: i32, cookie: Vec<u8> },
    GroupKick { group_code: i64, uins: Vec<i64>, message: String, block: bool },
    GroupMute { group_code: i64, uin: i64, seconds: u64 },
    GroupMuteAll { group_code: i64, mute: bool },
    GroupSetAdmin { group_code: i64, uin: i64, flag: bool },
    EditGroupMemberCard { group_code: i64, uin: i64, card: String },
    UpdateGroupName { group_code: i64, name: String },
    GroupQuit { group_code: i64 },
    GroupEditSpecialTitle { group_code: i64, uin: i64, title: String },
    /// The nickname of the bot's own account.
    GetNickname,
    GetFriendList,
    GetGroupInfo { group_code: i64 },
    GetGroupList,
    GetGroupMemberInfo { group_code: i64, uin: i64 },
    GetGroupMemberList { group_code: i64, owner_uin: i64 },
}

/// What the driver gives back.
#[derive(Debug)]
pub enum DriverReply {
    /// The call was carried out; there is nothing to report.
    Done,
    Receipt(SentReceipt),
    Summary(SummaryCardInfo),
    Nickname(String),
    Friends(Vec<FriendInfo>),
    Group(Option<GroupInfo>),
    Groups(Vec<GroupInfo>),
    Member(GroupMemberInfo),
    Members(Vec<GroupMemberInfo>),
}

/// What a request is waiting for.
#[derive(Clone, Copy, Debug, PartialEq, Eq, Structural)]
pub enum Pending {
    SendPrivateMsg,
    SendGroupMsg { group_id: i64 },
    DeleteMsg,
    /// The profile of the account that is to be liked.
    SendLikeSummary { user_id: i64, times: i32 },
    SendLike,
    SetGroupKick,
    SetGroupBan,
    SetGroupWholeBan,
    SetGroupAdmin,
    SetGroupCard,
    SetGroupName,
    SetGroupLeave,
    SetGroupSpecialTitle,
    GetLoginInfo,
    GetStrangerInfo,
    GetFriendList,
    GetGroupInfo,
    GetGroupList,
    GetGroupMemberInfo,
    /// The group whose members are asked for, to learn its owner.
    GetGroupMemberListGroup { group_id: i64 },
    GetGroupMemberList,
}

/// The next step in answering a request.
#[derive(Debug)]
pub enum ApiStep {
    /// Make this call and come back with its outcome.
    Call { call: DriverCall, then: Pending },
    /// The payload of the response, if it has one.
    Done(Option<Data>),
}

/// The first step for a private message: send the translated message to the
/// friend.
pub open spec fn send_private_msg_step(req: SendPrivateMsgReq, step: ApiStep) -> bool {
    step matches ApiStep::Call {
        call: DriverCall::SendFriendMessage { target, chain },
        then: Pending::SendPrivateMsg,
    } && target == req.user_id && chain.0.deep_view() == rq_chain(
        req.message.deep_view(),
        Contact::Friend(req.user_id),
        req.auto_escape,
    )
}

/// Starts the answer to a request to send a message to a friend.
pub fn handle_send_private_msg(req: SendPrivateMsgReq) -> (step: ApiStep)
    ensures
        send_private_msg_step(req, step),
{
    let chain = to_rq_chain(req.message, Contact::Friend(req.user_id), req.auto_escape);
    ApiStep::Call {
        call: DriverCall::SendFriendMessage { target: req.user_id, chain },
        then: Pending::SendPrivateMsg,
    }
}

/// The first step for a message to a group: send the translated message to
/// the group.
pub open spec fn send_group_msg_step(req: SendGroupMsgReq, step: ApiStep) -> bool {
    step matches ApiStep::Call {
        call: DriverCall::SendGroupMessage { group_code, chain },
        then: Pending::SendGroupMsg { group_id },
    } && group_code == req.group_id && group_id == req.group_id && chain.0.deep_view()
        == rq_chain(req.message.deep_view(), Contact::Group(req.group_id), req.auto_escape)
}

/// Starts the answer to a request to send a message to a group.
pub fn handle_send_group_msg(req: SendGroupMsgReq) -> (step: ApiStep)
    ensures
        send_group_msg_step(req, step),
{
    let chain = to_rq_chain(req.message, Contact::Group(req.group_id), req.auto_escape);
    ApiStep::Call {
        call: DriverCall::SendGroupMessage { group_code: req.group_id, chain },
        then: Pending::SendGroupMsg { group_id: req.group_id },
    }
}

/// The first step for a recall: the message identifier is read as a
/// receipt; a receipt with a group recalls in that group, one without
/// recalls the private message; an identifier that is no receipt ends the
/// request.
pub open spec fn delete_msg_step(req: DeleteMsgReq, step: ApiStep) -> bool {
    match receipt_of_bytes(req.message_id@) {
        Err(_) => step matches ApiStep::Done(None),
        Ok(r) => if r.group_id != 0 {
            step matches ApiStep::Call {
                call: DriverCall::RecallGroupMessage { group_code, seqs, rands },
                then: Pending::DeleteMsg,
            } && group_code == r.group_id && seqs@ == r.seqs && rands@ == r.rands
        } else {
            step matches ApiStep::Call {
                call: DriverCall::RecallFriendMessage { uin, time, seqs, rands },
                then: Pending::DeleteMsg,
            } && uin == r.sender_id && time == r.time && seqs@ == r.seqs && rands@ == r.rands
        },
    }
}

/// Starts the answer to a request to recall a message.
pub fn handle_delete_msg(req: DeleteMsgReq) -> (step: ApiStep)
    ensures
        delete_msg_step(req, step),
{
    match MessageReceipt::from_bytes(req.message_id.as_slice()) {
        Err(_) => ApiStep::Done(None),
        Ok(receipt) => {
            if receipt.group_id != 0 {
                ApiStep::Call {
                    call: DriverCall::RecallGroupMessage {
                        group_code: receipt.group_id,
                        seqs: receipt.seqs,
                        rands: receipt.rands,
                    },
                    then: Pending::DeleteMsg,
                }
            } else {
                ApiStep::Call {
                    call: DriverCall::RecallFriendMessage {
                        uin: receipt.sender_id,
                        time: receipt.time,
                        seqs: receipt.seqs,
                        rands: receipt.rands,
                    },
                    then: Pending::DeleteMsg,
                }
            }
        },
    }
}

/// The first step for likes: ask for the profile of the account.
pub open spec fn send_like_step(req: SendLikeReq, step: ApiStep) -> bool {
    step == (ApiStep::Call {
        call: DriverCall::GetSummaryInfo { uin: req.user_id },
        then: Pending::SendLikeSummary { user_id: req.user_id, times: req.times },
    })
}

/// Starts the answer to a request for likes.
pub fn handle_send_like(req: SendLikeReq) -> (step: ApiStep)
    ensures
        send_like_step(req, step),
{
    ApiStep::Call {
        call: DriverCall::GetSummaryInfo { uin: req.user_id },
        then: Pending::SendLikeSummary { user_id: req.user_id, times: req.times },
    }
}

/// The step for removing a member: the one member, without a message.
pub open spec fn group_kick_step(req: SetGroupKickReq, step: ApiStep) -> bool {
    step matches ApiStep::Call {
        call: DriverCall::GroupKick { group_code, uins, message, block },
        then: Pending::SetGroupKick,
    } && group_code == req.group_id && uins@ == seq![req.user_id] && message@.len() == 0 && block
        == req.reject_add_request
}

/// Starts the answer to a request to remove a member from a group.
pub fn handle_group_kick(req: SetGroupKickReq) -> (step: ApiStep)
    ensures
        group_kick_step(req, step),
{
    let mut uins: Vec<i64> = Vec::new();
    uins.push(req.user_id);
    assert(uins@ =~= seq![req.user_id]);
    ApiStep::Call {
        call: DriverCall::GroupKick {
            group_code: req.group_id,
            uins,
            message: String::new(),
            block: req.reject_add_request,
        },
        then: Pending::SetGroupKick,
    }
}

/// The step for muting a member; the duration is taken as an unsigned
/// number of seconds.
pub open spec fn group_ban_step(req: SetGroupBanReq, step: ApiStep) -> bool {
    step == (ApiStep::Call {
        call: DriverCall::GroupMute {
            group_code: req.group_id,
            uin: req.user_id,
            seconds: req.duration as u64,
        },
        then: Pending::SetGroupBan,
    })
}

/// Starts the answer to a request to mute a member of a group.
pub fn handle_group_ban(req: SetGroupBanReq) -> (step: ApiStep)
    ensures
        group_ban_step(req, step),
{
    ApiStep::Call {
        call: DriverCall::GroupMute {
            group_code: req.group_id,
            uin: req.user_id,
            seconds: #[verifier::truncate] (req.duration as u64),
        },
        then: Pending::SetGroupBan,
    }
}

/// The step for muting or unmuting a whole group.
pub open spec fn group_whole_ban_step(req: SetGroupWholeBanReq, step: ApiStep) -> bool {
    step == (ApiStep::Call {
        call: DriverCall::GroupMuteAll { group_code: req.group_id, mute: req.enable },
        then: Pending::SetGroupWholeBan,
    })
}

/// Starts the answer to a request to mute or unmute a whole group.
pub fn handle_group_whole_ban(req: SetGroupWholeBanReq) -> (step: ApiStep)
    ensures
        group_whole_ban_step(req, step),
{
    ApiStep::Call {
        call: DriverCall::GroupMuteAll { group_code: req.group_id, mute: req.enable },
        then: Pending::SetGroupWholeBan,
    }
}

/// The step for making a member an administrator, or ending that.
pub open spec fn set_group_admin_step(req: SetGroupAdminReq, step: ApiStep) -> bool {
    step == (ApiStep::Call {
        call: DriverCall::GroupSetAdmin {
            group_code: req.group_id,
            uin: req.user_id,
            flag: req.enable,
        },
        then: Pending::SetGroupAdmin,
    })
}

/// Starts the answer to a request about the administrators of a group.
pub fn handle_set_group_admin(req: SetGroupAdminReq) -> (step: ApiStep)
    ensures
        set_group_admin_step(req, step),
{
    ApiStep::Call {
        call: DriverCall::GroupSetAdmin {
            group_code: req.group_id,
            uin: req.user_id,
            flag: req.enable,
        },
        then: Pending::SetGroupAdmin,
    }
}

/// The step for setting the name card of a member.
pub open spec fn set_group_card_step(req: SetGroupCardReq, step: ApiStep) -> bool {
    step == (ApiStep::Call {
        call: DriverCall::EditGroupMemberCard {
            group_code: req.group_id,
            uin: req.user_id,
            card: req.card,
        },
        then: Pending::SetGroupCard,
    })
}

/// Starts the answer to a request to set the name card of a member.
pub fn handle_set_group_card(req: SetGroupCardReq) -> (step: ApiStep)
    ensures
        set_group_card_step(req, step),
{
    ApiStep::Call {
        call: DriverCall::EditGroupMemberCard {
            group_code: req.group_id,
            uin: req.user_id,
            card: req.card,
        },
        then: Pending::SetGroupCard,
    }
}

/// The step for renaming a group.
pub open spec fn set_group_name_step(req: SetGroupNameReq, step: ApiStep) -> bool {
    step == (ApiStep::Call {
        call: DriverCall::UpdateGroupName { group_code: req.group_id, name: req.group_name },
        then: Pending::SetGroupName,
    })
}

/// Starts the answer to a request to rename a group.
pub fn handle_set_group_name(req: SetGroupNameReq) -> (step: ApiStep)
    ensures
        set_group_name_step(req, step),
{
    ApiStep::Call {
        call: DriverCall::UpdateGroupName { group_code: req.group_id, name: req.group_name },
        then: Pending::SetGroupName,
    }
}

/// The step for leaving a group.
pub open spec fn group_leave_step(req: SetGroupLeaveReq, step: ApiStep) -> bool {
    step == (ApiStep::Call {
        call: DriverCall::GroupQuit { group_code: req.group_id },
        then: Pending::SetGroupLeave,
    })
}

/// Starts the answer to a request to leave a group.
pub fn handle_group_leave(req: SetGroupLeaveReq) -> (step: ApiStep)
    ensures
        group_leave_step(req, step),
{
    ApiStep::Call {
        call: DriverCall::GroupQuit { group_code: req.group_id },
        then: Pending::SetGroupLeave,
    }
}

/// The step for a special title: the title goes to the member that the
/// request names.
pub open spec fn set_group_special_title_step(req: SetGroupSpecialTitleReq, step: ApiStep)
    -> bool {
    step == (ApiStep::Call {
        call: DriverCall::GroupEditSpecialTitle {
            group_code: req.group_id,
            uin: req.user_id,
            title: req.special_title,
        },
        then: Pending::SetGroupSpecialTitle,
    })
}

/// Starts the answer to a request to give a member a special title.
pub fn handle_set_group_special_title(req: SetGroupSpecialTitleReq) -> (step: ApiStep)
    ensures
        set_group_special_title_step(req, step),
{
    ApiStep::Call {
        call: DriverCall::GroupEditSpecialTitle {
            group_code: req.group_id,
            uin: req.user_id,
            title: req.special_title,
        },
        then: Pending::SetGroupSpecialTitle,
    }
}

/// Starts the answer to the question who the bot is: the nickname of the
/// bot's account is asked for.
pub fn handle_get_login_info(req: GetLoginInfoReq) -> (step: ApiStep)
    ensures
        step == (ApiStep::Call { call: DriverCall::GetNickname, then: Pending::GetLoginInfo }),
{
    ApiStep::Call { call: DriverCall::GetNickname, then: Pending::GetLoginInfo }
}

/// The step for the profile of an account.
pub open spec fn get_stranger_info_step(req: GetStrangerInfoReq, step: ApiStep) -> bool {
    step == (ApiStep::Call {
        call: DriverCall::GetSummaryInfo { uin: req.user_id },
        then: Pending::GetStrangerInfo,
    })
}

/// Starts the answer to a request for the profile of an account.
pub fn handle_get_stranger_info(req: GetStrangerInfoReq) -> (step: ApiStep)
    ensures
        get_stranger_info_step(req, step),
{
    ApiStep::Call {
        call: DriverCall::GetSummaryInfo { uin: req.user_id },
        then: Pending::GetStrangerInfo,
    }
}

/// Starts the answer to a request for the friends of the bot.
pub fn handle_get_friend_list(req: GetFriendListReq) -> (step: ApiStep)
    ensures
        step == (ApiStep::Call { call: DriverCall::GetFriendList, then: Pending::GetFriendList }),
{
    ApiStep::Call { call: DriverCall::GetFriendList, then: Pending::GetFriendList }
}

/// The step for one group.
pub open spec fn get_group_info_step(req: GetGroupInfoReq, step: ApiStep) -> bool {
    step == (ApiStep::Call {
        call: DriverCall::GetGroupInfo { group_code: req.group_id },
        then: Pending::GetGroupInfo,
    })
}

/// Starts the answer to a request about one group.
pub fn handle_get_group_info(req: GetGroupInfoReq) -> (step: ApiStep)
    ensures
        get_group_info_step(req, step),
{
    ApiStep::Call {
        call: DriverCall::GetGroupInfo { group_code: req.group_id },
        then: Pending::GetGroupInfo,
    }
}

/// Starts the answer to a request for the groups of the bot.
pub fn handle_get_group_list(req: GetGroupListReq) -> (step: ApiStep)
    ensures
        step == (ApiStep::Call { call: DriverCall::GetGroupList, then: Pending::GetGroupList }),
{
    ApiStep::Call { call: DriverCall::GetGroupList, then: Pending::GetGroupList }
}

/// The step for one member of a group.
pub open spec fn get_group_member_info_step(req: GetGroupMemberInfoReq, step: ApiStep) -> bool {
    step == (ApiStep::Call {
        call: DriverCall::GetGroupMemberInfo { group_code: req.group_id, uin: req.user_id },
        then: Pending::GetGroupMemberInfo,
    })
}

/// Starts the answer to a request about one member of a group.
pub fn handle_get_group_member_info(req: GetGroupMemberInfoReq) -> (step: ApiStep)
    ensures
        get_group_member_info_step(req, step),
{
    ApiStep::Call {
        call: DriverCall::GetGroupMemberInfo { group_code: req.group_id, uin: req.user_id },
        then: Pending::GetGroupMemberInfo,
    }
}

/// The first step for the members of a group: ask for the group, to learn
/// who owns it.
pub open spec fn get_group_member_list_step(req: GetGroupMemberListReq, step: ApiStep) -> bool {
    step == (ApiStep::Call {
        call: DriverCall::GetGroupInfo { group_code: req.group_id },
        then: Pending::GetGroupMemberListGroup { group_id: req.group_id },
    })
}

/// Starts the answer to a request for the members of a group.
pub fn handle_get_group_member_list(req: GetGroupMemberListReq) -> (step: ApiStep)
    ensures
        get_group_member_list_step(req, step),
{
    ApiStep::Call {
        call: DriverCall::GetGroupInfo { group_code: req.group_id },
        then: Pending::GetGroupMemberListGroup { group_id: req.group_id },
    }
}

/// The first step for a payload: that of the handler of its request; a
/// payload that is no request the gateway serves ends at once without a
/// response payload.
pub open spec fn api_data_step(data: Data, step: ApiStep) -> bool {
    match data {
        Data::SendPrivateMsgReq(req) => send_private_msg_step(req, step),
        Data::SendGroupMsgReq(req) => send_group_msg_step(req, step),
        Data::DeleteMsgReq(req) => delete_msg_step(req, step),
        Data::SendLikeReq(req) => send_like_step(req, step),
        Data::SetGroupKickReq(req) => group_kick_step(req, step),
        Data::SetGroupBanReq(req) => group_ban_step(req, step),
        Data::SetGroupWholeBanReq(req) => group_whole_ban_step(req, step),
        Data::SetGroupAdminReq(req) => set_group_admin_step(req, step),
        Data::SetGroupCardReq(req) => set_group_card_step(req, step),
        Data::SetGroupNameReq(req) => set_group_name_step(req, step),
        Data::SetGroupLeaveReq(req) => group_leave_step(req, step),
        Data::SetGroupSpecialTitleReq(req) => set_group_special_title_step(req, step),
        Data::GetLoginInfoReq(_) => step == (ApiStep::Call {
            call: DriverCall::GetNickname,
            then: Pending::GetLoginInfo,
        }),
        Data::GetStrangerInfoReq(req) => get_stranger_info_step(req, step),
        Data::GetFriendListReq(_) => step == (ApiStep::Call {
            call: DriverCall::GetFriendList,
            then: Pending::GetFriendList,
        }),
        Data::GetGroupInfoReq(req) => get_group_info_step(req, step),
        Data::GetGroupListReq(_) => step == (ApiStep::Call {
            call: DriverCall::GetGroupList,
            then: Pending::GetGroupList,
        }),
        Data::GetGroupMemberInfoReq(req) => get_group_member_info_step(req, step),
        Data::GetGroupMemberListReq(req) => get_group_member_list_step(req, step),
        _ => step matches ApiStep::Done(None),
    }
}

/// Picks the handler for the payload of a request and takes its first
/// step.
pub fn handle_api_data(data: Data) -> (step: ApiStep)
    ensures
        api_data_step(data, step),
{
    match data {
        Data::SendPrivateMsgReq(req) => handle_send_private_msg(req),
        Data::SendGroupMsgReq(req) => handle_send_group_msg(req),
        Data::DeleteMsgReq(req) => handle_delete_msg(req),
        Data::SendLikeReq(req) => handle_send_like(req),
        Data::SetGroupKickReq(req) => handle_group_kick(req),
        Data::SetGroupBanReq(req) => handle_group_ban(req),
        Data::SetGroupWholeBanReq(req) => handle_group_whole_ban(req),
        Data::SetGroupAdminReq(req) => handle_set_group_admin(req),
        Data::SetGroupCardReq(req) => handle_set_group_card(req),
        Data::SetGroupNameReq(req) => handle_set_group_name(req),
        Data::SetGroupLeaveReq(req) => handle_group_leave(req),
        Data::SetGroupSpecialTitleReq(req) => handle_set_group_special_title(req),
        Data::GetLoginInfoReq(req) => handle_get_login_info(req),
        Data::GetStrangerInfoReq(req) => handle_get_stranger_info(req),
        Data::GetFriendListReq(req) => handle_get_friend_list(req),
        Data::GetGroupInfoReq(req) => handle_get_group_info(req),
        Data::GetGroupListReq(req) => handle_get_group_list(req),
        Data::GetGroupMemberInfoReq(req) => handle_get_group_member_info(req),
        Data::GetGroupMemberListReq(req) => handle_get_group_member_list(req),
        _ => ApiStep::Done(None),
    }
}

/// The identifier of a message that was sent: the receipt of the message,
/// encoded.
pub open spec fn sent_message_id(uin: i64, sent: SentReceipt, group_id: i64) -> Seq<u8> {
    receipt_bytes(receipt(uin, sent.time, sent.seqs@, sent.rands@, group_id))
}

/// Whether `id` identifies the message that the bot `uin` sent with the
/// receipt `sent`: it is the encoded receipt of the message, and decoding it
/// gives that receipt back.
pub open spec fn identifies(id: Seq<u8>, uin: i64, sent: SentReceipt, group_id: i64) -> bool {
    &&& id == sent_message_id(uin, sent, group_id)
    &&& receipt_of_bytes(id) == Ok::<ReceiptView, WireError>(
        receipt(uin, sent.time, sent.seqs@, sent.rands@, group_id),
    )
}

/// A request to recall a message under the identifier that a send gave
/// recalls just that message: in its group where it was sent to one,
/// otherwise as a private message of the bot.
pub proof fn lemma_recall_of_sent_message(
    req: DeleteMsgReq,
    step: ApiStep,
    uin: i64,
    sent: SentReceipt,
    group_id: i64,
)
    requires
        identifies(req.message_id@, uin, sent, group_id),
        delete_msg_step(req, step),
    ensures
        group_id != 0 ==> (step matches ApiStep::Call {
            call: DriverCall::RecallGroupMessage { group_code, seqs, rands },
            then: Pending::DeleteMsg,
        } && group_code == group_id && seqs@ == sent.seqs@ && rands@ == sent.rands@),
        group_id == 0 ==> (step matches ApiStep::Call {
            call: DriverCall::RecallFriendMessage { uin: sender, time, seqs, rands },
            then: Pending::DeleteMsg,
        } && sender == uin && time == sent.time && seqs@ == sent.seqs@ && rands@
            == sent.rands@),
{
}

fn message_id_of(uin: i64, sent: SentReceipt, group_id: i64) -> (id: Vec<u8>)
    ensures
        identifies(id@, uin, sent, group_id),
{
    let receipt = MessageReceipt {
        sender_id: uin,
        time: sent.time,
        seqs: sent.seqs,
        rands: sent.rands,
        group_id,
    };
    receipt.to_bytes()
}

/// What the profile of an account says in a response.
pub open spec fn stranger_info(resp: GetStrangerInfoResp, info: SummaryCardInfo) -> bool {
    &&& resp.user_id == info.uin
    &&& resp.nickname == info.nickname
    &&& resp.sex@ == decimal(info.sex as int)
    &&& resp.age == info.age as i32
    &&& resp.level == info.level
    &&& resp.login_days == info.login_days
}

/// What a friend says in a response.
pub open spec fn friend_entry(f: get_friend_list_resp::Friend, info: FriendInfo) -> bool {
    f.user_id == info.uin && f.nickname == info.nick && f.remark == info.remark
}

/// What a group says in a response about it alone.
pub open spec fn group_info(resp: GetGroupInfoResp, group: GroupInfo) -> bool {
    &&& resp.group_id == group.code
    &&& resp.group_name == group.name
    &&& resp.member_count == group.member_count as i32
    &&& resp.max_member_count == group.max_member_count as i32
}

/// What a group says in a list of groups.
pub open spec fn group_entry(g: get_group_list_resp::Group, group: GroupInfo) -> bool {
    &&& g.group_id == group.code
    &&& g.group_name == group.name
    &&& g.member_count == group.member_count as i32
    &&& g.max_member_count == group.max_member_count as i32
}

/// What a member says in a response about it alone. Sex, age and area are
/// not known and stay empty.
pub open spec fn member_info(resp: GetGroupMemberInfoResp, member: GroupMemberInfo) -> bool {
    &&& resp.group_id == member.group_code
    &&& resp.user_id == member.uin
    &&& resp.nickname == member.nickname
    &&& resp.card == member.card_name
    &&& resp.sex@.len() == 0
    &&& resp.age == 0
    &&& resp.area@.len() == 0
    &&& resp.join_time == member.join_time
    &&& resp.last_sent_time == member.last_speak_time
    &&& resp.level@ == decimal(member.level as int)
    &&& resp.role@ == role_name(member.permission)
    &&& !resp.unfriendly
    &&& resp.title == member.special_title
    &&& resp.title_expire_time == member.special_title_expire_time
    &&& !resp.card_changeable
}

/// What a member says in a list of members.
pub open spec fn member_entry(m: get_group_member_list_resp::GroupMember, member: GroupMemberInfo)
    -> bool {
    &&& m.group_id == member.group_code
    &&& m.user_id == member.uin
    &&& m.nickname == member.nickname
    &&& m.card == member.card_name
    &&& m.sex@.len() == 0
    &&& m.age == 0
    &&& m.area@.len() == 0
    &&& m.join_time == member.join_time
    &&& m.last_sent_time == member.last_speak_time
    &&& m.level@ == decimal(member.level as int)
    &&& m.role@ == role_name(member.permission)
    &&& !m.unfriendly
    &&& m.title == member.special_title
    &&& m.title_expire_time == member.special_title_expire_time
    &&& !m.card_changeable
}

fn friends_resp(friends: Vec<FriendInfo>) -> (resp: GetFriendListResp)
    ensures
        resp.friend@.len() == friends@.len(),
        forall|k: int|
            0 <= k < friends@.len() ==> friend_entry(#[trigger] resp.friend@[k], friends@[k]),
{
    let mut out: Vec<get_friend_list_resp::Friend> = Vec::new();
    let mut i: usize = 0;
    while i < friends.len()
        invariant
            i <= friends@.len(),
            out@.len() == i,
            forall|k: int| 0 <= k < i ==> friend_entry(#[trigger] out@[k], friends@[k]),
        decreases friends@.len() - i,
    {
        let f = &friends[i];
        out.push(
            get_friend_list_resp::Friend {
                user_id: f.uin,
                nickname: f.nick.clone(),
                remark: f.remark.clone(),
            },
        );
        i = i + 1;
    }
    GetFriendListResp { friend: out }
}

fn groups_resp(groups: Vec<GroupInfo>) -> (resp: GetGroupListResp)
    ensures
        resp.group@.len() == groups@.len(),
        forall|k: int| 0 <= k < groups@.len() ==> group_entry(#[trigger] resp.group@[k], groups@[k]),
{
    let mut out: Vec<get_group_list_resp::Group> = Vec::new();
    let mut i: usize = 0;
    while i < groups.len()
        invariant
            i <= groups@.len(),
            out@.len() == i,
            forall|k: int| 0 <= k < i ==> group_entry(#[trigger] out@[k], groups@[k]),
        decreases groups@.len() - i,
    {
        let g = &groups[i];
        out.push(
            get_group_list_resp::Group {
                group_id: g.code,
                group_name: g.name.clone(),
                member_count: g.member_count as i32,
                max_member_count: g.max_member_count as i32,
            },
        );
        i = i + 1;
    }
    GetGroupListResp { group: out }
}

fn members_resp(members: Vec<GroupMemberInfo>) -> (resp: GetGroupMemberListResp)
    ensures
        resp.group_member@.len() == members@.len(),
        forall|k: int|
            0 <= k < members@.len() ==> member_entry(
                #[trigger] resp.group_member@[k],
                members@[k],
            ),
{
    let mut out: Vec<get_group_member_list_resp::GroupMember> = Vec::new();
    let mut i: usize = 0;
    while i < members.len()
        invariant
            i <= members@.len(),
            out@.len() == i,
            forall|k: int| 0 <= k < i ==> member_entry(#[trigger] out@[k], members@[k]),
        decreases members@.len() - i,
    {
        let m = &members[i];
        out.push(
            get_group_member_list_resp::GroupMember {
                group_id: m.group_code,
                user_id: m.uin,
                nickname: m.nickname.clone(),
                card: m.card_name.clone(),
                sex: String::new(),
                age: 0,
                area: String::new(),
                join_time: m.join_time,
                last_sent_time: m.last_speak_time,
                level: decimal_string(m.level as i64),
                role: role_string(m.permission),
                unfriendly: false,
                title: m.special_title.clone(),
                title_expire_time: m.special_title_expire_time,
                card_changeable: false,
            },
        );
        i = i + 1;
    }
    GetGroupMemberListResp { group_member: out }
}

/// The payload of the response to a request that only asked the driver to
/// do something.
pub open spec fn unit_response(then: Pending) -> Option<Data> {
    match then {
        Pending::DeleteMsg => Some(Data::DeleteMsgResp(DeleteMsgResp {  })),
        Pending::SendLike => Some(Data::SendLikeResp(SendLikeResp {  })),
        Pending::SetGroupKick => Some(Data::SetGroupKickResp(SetGroupKickResp {  })),
        Pending::SetGroupBan => Some(Data::SetGroupBanResp(SetGroupBanResp {  })),
        Pending::SetGroupWholeBan => Some(Data::SetGroupWholeBanResp(SetGroupWholeBanResp {  })),
        Pending::SetGroupAdmin => Some(Data::SetGroupAdminResp(SetGroupAdminResp {  })),
        Pending::SetGroupCard => Some(Data::SetGroupCardResp(SetGroupCardResp {  })),
        Pending::SetGroupName => Some(Data::SetGroupNameResp(SetGroupNameResp {  })),
        Pending::SetGroupLeave => Some(Data::SetGroupLeaveResp(SetGroupLeaveResp {  })),
        Pending::SetGroupSpecialTitle => Some(
            Data::SetGroupSpecialTitleResp(SetGroupSpecialTitleResp {  }),
        ),
        _ => None,
    }
}

/// What follows from the outcome of a call, for the bot `uin` and a request
/// that waits for `then`.
///
/// A failure of the driver ends the request without a payload, and so does
/// an outcome of a kind the request does not wait for. A sent message gives
/// its identifier. The profile of an account that is to be liked leads to
/// the call that likes it. A group that was asked for to list its members
/// leads to the call that lists them, unless there is no such group.
pub open spec fn api_reply_step(
    uin: i64,
    then: Pending,
    reply: RCResult<DriverReply>,
    step: ApiStep,
) -> bool {
    match (then, reply) {
        (_, Err(_)) => step matches ApiStep::Done(None),
        (Pending::SendPrivateMsg, Ok(DriverReply::Receipt(sent))) => step matches ApiStep::Done(
            Some(Data::SendPrivateMsgResp(resp)),
        ) && identifies(resp.message_id@, uin, sent, 0),
        (Pending::SendGroupMsg { group_id }, Ok(DriverReply::Receipt(sent))) => step
            matches ApiStep::Done(Some(Data::SendGroupMsgResp(resp))) && identifies(
            resp.message_id@,
            uin,
            sent,
            group_id,
        ),
        (Pending::SendLikeSummary { user_id, times }, Ok(DriverReply::Summary(info))) => step
            == (ApiStep::Call {
            call: DriverCall::SendLike {
                uin: user_id,
                count: times,
                source: 1,
                cookie: info.cookie,
            },
            then: Pending::SendLike,
        }),
        (Pending::GetLoginInfo, Ok(DriverReply::Nickname(nickname))) => step == ApiStep::Done(
            Some(Data::GetLoginInfoResp(GetLoginInfoResp { user_id: uin, nickname })),
        ),
        (Pending::GetStrangerInfo, Ok(DriverReply::Summary(info))) => step matches ApiStep::Done(
            Some(Data::GetStrangerInfoResp(resp)),
        ) && stranger_info(resp, info),
        (Pending::GetFriendList, Ok(DriverReply::Friends(friends))) => step matches ApiStep::Done(
            Some(Data::GetFriendListResp(resp)),
        ) && resp.friend@.len() == friends@.len() && forall|k: int|
            0 <= k < friends@.len() ==> friend_entry(#[trigger] resp.friend@[k], friends@[k]),
        (Pending::GetGroupInfo, Ok(DriverReply::Group(Some(group)))) => step
            matches ApiStep::Done(Some(Data::GetGroupInfoResp(resp))) && group_info(resp, group),
        (Pending::GetGroupList, Ok(DriverReply::Groups(groups))) => step matches ApiStep::Done(
            Some(Data::GetGroupListResp(resp)),
        ) && resp.group@.len() == groups@.len() && forall|k: int|
            0 <= k < groups@.len() ==> group_entry(#[trigger] resp.group@[k], groups@[k]),
        (Pending::GetGroupMemberInfo, Ok(DriverReply::Member(member))) => step
            matches ApiStep::Done(Some(Data::GetGroupMemberInfoResp(resp))) && member_info(
            resp,
            member,
        ),
        (Pending::GetGroupMemberListGroup { group_id }, Ok(DriverReply::Group(Some(group)))) => step
            == (ApiStep::Call {
            call: DriverCall::GetGroupMemberList {
                group_code: group_id,
                owner_uin: group.owner_uin,
            },
            then: Pending::GetGroupMemberList,
        }),
        (Pending::GetGroupMemberList, Ok(DriverReply::Members(members))) => step
            matches ApiStep::Done(Some(Data::GetGroupMemberListResp(resp)))
            && resp.group_member@.len() == members@.len() && forall|k: int|
            0 <= k < members@.len() ==> member_entry(
                #[trigger] resp.group_member@[k],
                members@[k],
            ),
        (_, Ok(DriverReply::Done)) => step == ApiStep::Done(unit_response(then)),
        _ => step matches ApiStep::Done(None),
    }
}

/// Takes the next step of a request once the driver has answered.
pub fn handle_driver_reply(uin: i64, then: Pending, reply: RCResult<DriverReply>) -> (step:
    ApiStep)
    ensures
        api_reply_step(uin, then, reply, step),
{
    let reply = match reply {
        Err(_) => {
            return ApiStep::Done(None);
        },
        Ok(r) => r,
    };
    match (then, reply) {
        (Pending::SendPrivateMsg, DriverReply::Receipt(sent)) => ApiStep::Done(
            Some(Data::SendPrivateMsgResp(SendPrivateMsgResp { message_id: message_id_of(uin, sent, 0) })),
        ),
        (Pending::SendGroupMsg { group_id }, DriverReply::Receipt(sent)) => ApiStep::Done(
            Some(
                Data::SendGroupMsgResp(
                    SendGroupMsgResp { message_id: message_id_of(uin, sent, group_id) },
                ),
            ),
        ),
        (Pending::SendLikeSummary { user_id, times }, DriverReply::Summary(info)) => ApiStep::Call {
            call: DriverCall::SendLike { uin: user_id, count: times, source: 1, cookie: info.cookie },
            then: Pending::SendLike,
        },
        (Pending::GetLoginInfo, DriverReply::Nickname(nickname)) => ApiStep::Done(
            Some(Data::GetLoginInfoResp(GetLoginInfoResp { user_id: uin, nickname })),
        ),
        (Pending::GetStrangerInfo, DriverReply::Summary(info)) => ApiStep::Done(
            Some(
                Data::GetStrangerInfoResp(
                    GetStrangerInfoResp {
                        user_id: info.uin,
                        nickname: info.nickname,
                        sex: decimal_string(info.sex as i64),
                        age: info.age as i32,
                        level: info.level,
                        login_days: info.login_days,
                    },
                ),
            ),
        ),
        (Pending::GetFriendList, DriverReply::Friends(friends)) => ApiStep::Done(
            Some(Data::GetFriendListResp(friends_resp(friends))),
        ),
        (Pending::GetGroupInfo, DriverReply::Group(Some(group))) => ApiStep::Done(
            Some(
                Data::GetGroupInfoResp(
                    GetGroupInfoResp {
                        group_id: group.code,
                        group_name: group.name,
                        member_count: group.member_count as i32,
                        max_member_count: group.max_member_count as i32,
                    },
                ),
            ),
        ),
        (Pending::GetGroupList, DriverReply::Groups(groups)) => ApiStep::Done(
            Some(Data::GetGroupListResp(groups_resp(groups))),
        ),
        (Pending::GetGroupMemberInfo, DriverReply::Member(member)) => ApiStep::Done(
            Some(
                Data::GetGroupMemberInfoResp(
                    GetGroupMemberInfoResp {
                        group_id: member.group_code,
                        user_id: member.uin,
                        nickname: member.nickname,
                        card: member.card_name,
                        sex: String::new(),
                        age: 0,
                        area: String::new(),
                        join_time: member.join_time,
                        last_sent_time: member.last_speak_time,
                        level: decimal_string(member.level as i64),
                        role: role_string(member.permission),
                        unfriendly: false,
                        title: member.special_title,
                        title_expire_time: member.special_title_expire_time,
                        card_changeable: false,
                    },
                ),
            ),
        ),
        (Pending::GetGroupMemberListGroup { group_id }, DriverReply::Group(Some(group))) => ApiStep::Call {
            call: DriverCall::GetGroupMemberList { group_code: group_id, owner_uin: group.owner_uin },
            then: Pending::GetGroupMemberList,
        },
        (Pending::GetGroupMemberList, DriverReply::Members(members)) => ApiStep::Done(
            Some(Data::GetGroupMemberListResp(members_resp(members))),
        ),
        (then, DriverReply::Done) => ApiStep::Done(unit_data(then)),
        _ => ApiStep::Done(None),
    }
}

fn unit_data(then: Pending) -> (data: Option<Data>)
    ensures
        data == unit_response(then),
{
    match then {
        Pending::DeleteMsg => Some(Data::DeleteMsgResp(DeleteMsgResp {  })),
        Pending::SendLike => Some(Data::SendLikeResp(SendLikeResp {  })),
        Pending::SetGroupKick => Some(Data::SetGroupKickResp(SetGroupKickResp {  })),
        Pending::SetGroupBan => Some(Data::SetGroupBanResp(SetGroupBanResp {  })),
        Pending::SetGroupWholeBan => Some(Data::SetGroupWholeBanResp(SetGroupWholeBanResp {  })),
        Pending::SetGroupAdmin => Some(Data::SetGroupAdminResp(SetGroupAdminResp {  })),
        Pending::SetGroupCard => Some(Data::SetGroupCardResp(SetGroupCardResp {  })),
        Pending::SetGroupName => Some(Data::SetGroupNameResp(SetGroupNameResp {  })),
        Pending::SetGroupLeave => Some(Data::SetGroupLeaveResp(SetGroupLeaveResp {  })),
        Pending::SetGroupSpecialTitle => Some(
            Data::SetGroupSpecialTitleResp(SetGroupSpecialTitleResp {  }),
        ),
        _ => None,
    }
}

/// What is kept of a request frame while its payload is being handled:
/// the bot and the echo of the request, the type of the response, which is
/// that of the request plus 100, and what the handler waits for.
#[derive(Clone, Debug, PartialEq, Eq)]
pub struct PendingFrame {
    pub bot_id: i64,
    pub frame_type: i32,
    pub echo: String,
    pub waiting: Pending,
}

/// The next step in answering a request frame.
#[derive(Debug)]
pub enum FrameStep {
    /// Make this call and come back with its outcome and `pending`.
    Call { call: DriverCall, pending: PendingFrame },
    /// The response frame.
    Done(Frame),
}

/// Whether `frame` is the response to a request of the bot `bot_id` with
/// the echo `echo` and the type `request_type`: it echoes the bot and the
/// echo, its type is that of the request plus 100, it has no extras, it is
/// marked `ok`, and it carries `data`.
pub open spec fn is_response(
    frame: Frame,
    bot_id: i64,
    echo: String,
    request_type: int,
    ok: bool,
    data: Option<Data>,
) -> bool {
    &&& frame.bot_id == bot_id
    &&& frame.echo == echo
    &&& frame.frame_type == request_type + RESPONSE_OFFSET
    &&& frame.ok == ok
    &&& frame.data == data
    &&& frame.extra@.len() == 0
}

/// Whether `step` carries the step `inner` of a handler on behalf of the
/// request frame of the bot `bot_id` with the echo `echo` and the type
/// `request_type`: a call is handed on with the frame kept beside it, and a
/// payload, or none, is wrapped in the response, which is ok.
pub open spec fn frame_step(
    step: FrameStep,
    bot_id: i64,
    echo: String,
    request_type: int,
    inner: ApiStep,
) -> bool {
    match inner {
        ApiStep::Call { call, then } => step == (FrameStep::Call {
            call,
            pending: PendingFrame {
                bot_id,
                frame_type: (request_type + RESPONSE_OFFSET) as i32,
                echo,
                waiting: then,
            },
        }),
        ApiStep::Done(data) => step matches FrameStep::Done(frame) && is_response(
            frame,
            bot_id,
            echo,
            request_type,
            true,
            data,
        ),
    }
}

fn wrap_step(bot_id: i64, frame_type: i32, echo: String, inner: ApiStep) -> (step: FrameStep)
    ensures
        frame_step(step, bot_id, echo, frame_type - RESPONSE_OFFSET, inner),
{
    match inner {
        ApiStep::Call { call, then } => FrameStep::Call {
            call,
            pending: PendingFrame { bot_id, frame_type, echo, waiting: then },
        },
        ApiStep::Done(data) => FrameStep::Done(
            Frame { bot_id, frame_type, echo, ok: true, data, extra: Vec::new() },
        ),
    }
}

/// Takes the first step in answering a request frame.
///
/// A frame without a payload is malformed: its response is not ok and has
/// no payload, and nothing is asked of the driver. A frame with a payload
/// goes to the handler of the payload; its response is ok whatever the
/// handler makes of it. Every response echoes the bot and the echo of the
/// request, and its type is that of the request plus 100.
pub fn handle_api_frame(req_frame: Frame) -> (step: FrameStep)
    requires
        req_frame.frame_type + RESPONSE_OFFSET <= i32::MAX,
    ensures
        match req_frame.data {
            None => step matches FrameStep::Done(frame) && is_response(
                frame,
                req_frame.bot_id,
                req_frame.echo,
                req_frame.frame_type as int,
                false,
                None,
            ),
            Some(data) => exists|inner: ApiStep|
                #[trigger] api_data_step(data, inner) && frame_step(
                    step,
                    req_frame.bot_id,
                    req_frame.echo,
                    req_frame.frame_type as int,
                    inner,
                ),
        },
{
    let frame_type: i32 = req_frame.frame_type + RESPONSE_OFFSET;
    match req_frame.data {
        None => FrameStep::Done(
            Frame {
                bot_id: req_frame.bot_id,
                frame_type,
                echo: req_frame.echo,
                ok: false,
                data: None,
                extra: Vec::new(),
            },
        ),
        Some(data) => {
            let inner = handle_api_data(data);
            let ghost seen = inner;
            let step = wrap_step(req_frame.bot_id, frame_type, req_frame.echo, inner);
            assert(api_data_step(data, seen) && frame_step(
                step,
                req_frame.bot_id,
                req_frame.echo,
                req_frame.frame_type as int,
                seen,
            ));
            step
        },
    }
}

/// Takes the next step in answering a request frame once the driver has
/// answered: what `handle_driver_reply` makes of the answer, carried on
/// behalf of the frame. The response is ok on every path; it has a payload
/// where the handler succeeded and none where the driver failed.
pub fn handle_api_reply(uin: i64, pending: PendingFrame, reply: RCResult<DriverReply>) -> (step:
    FrameStep)
    ensures
        exists|inner: ApiStep|
            #[trigger] api_reply_step(uin, pending.waiting, reply, inner) && frame_step(
                step,
                pending.bot_id,
                pending.echo,
                pending.frame_type - RESPONSE_OFFSET,
                inner,
            ),
{
    let inner = handle_driver_reply(uin, pending.waiting, reply);
    let ghost seen = inner;
    let step = wrap_step(pending.bot_id, pending.frame_type, pending.echo, inner);
    assert(api_reply_step(uin, pending.waiting, reply, seen) && frame_step(
        step,
        pending.bot_id,
        pending.echo,
        pending.frame_type - RESPONSE_OFFSET,
        seen,
    ));
    step
}

/// Every response to a request frame with a payload is ok, echoes the
/// request, and carries what the handler gave.
pub proof fn lemma_response_echoes_request(
    step: FrameStep,
    bot_id: i64,
    echo: String,
    request_type: int,
    inner: ApiStep,
)
    requires
        frame_step(step, bot_id, echo, request_type, inner),
    ensures
        step matches FrameStep::Done(frame) ==> frame.bot_id == bot_id && frame.echo == echo
            && frame.frame_type == request_type + RESPONSE_OFFSET && frame.ok && (inner
            matches ApiStep::Done(data) && frame.data == data),
{
}

} // verus!
