//! The payload of a frame and the numbering of frame types.

use vstd::prelude::*;
use crate::idl::pbbot::{
    DeleteMsgReq, DeleteMsgResp, FriendAddNoticeEvent, FriendRecallNoticeEvent,
    FriendRequestEvent, GetFriendListReq, GetFriendListResp, GetGroupInfoReq, GetGroupInfoResp,
    GetGroupListReq, GetGroupListResp, GetGroupMemberInfoReq, GetGroupMemberInfoResp,
    GetGroupMemberListReq, GetGroupMemberListResp, GetLoginInfoReq, GetLoginInfoResp,
    GetStrangerInfoReq, GetStrangerInfoResp, GroupAdminNoticeEvent, GroupBanNoticeEvent,
    GroupDecreaseNoticeEvent, GroupIncreaseNoticeEvent, GroupMessageEvent,
    GroupRecallNoticeEvent, GroupRequestEvent, GroupUploadNoticeEvent, PrivateMessageEvent,
    SendGroupMsgReq, SendGroupMsgResp, SendLikeReq, SendLikeResp, SendPrivateMsgReq,
    SendPrivateMsgResp, SetGroupAdminReq, SetGroupAdminResp, SetGroupBanReq, SetGroupBanResp,
    SetGroupCardReq, SetGroupCardResp, SetGroupKickReq, SetGroupKickResp, SetGroupLeaveReq,
    SetGroupLeaveResp, SetGroupNameReq, SetGroupNameResp, SetGroupSpecialTitleReq,
    SetGroupSpecialTitleResp, SetGroupWholeBanReq, SetGroupWholeBanResp,
};

verus! {

/// A payload the gateway carries but does not interpret: the number of its
/// field in the envelope and its encoded bytes.
#[derive(Clone, Debug, PartialEq, Eq, Default)]
pub struct Opaque {
    pub field: u32,
    pub bytes: Vec<u8>,
}

/// The payload of a frame: exactly one event, request or response.
#[derive(Clone, Debug, PartialEq, Eq)]
pub enum Data {
    PrivateMessageEvent(PrivateMessageEvent),
    GroupMessageEvent(GroupMessageEvent),
    GroupUploadNoticeEvent(GroupUploadNoticeEvent),
    GroupAdminNoticeEvent(GroupAdminNoticeEvent),
    GroupDecreaseNoticeEvent(GroupDecreaseNoticeEvent),
    GroupIncreaseNoticeEvent(GroupIncreaseNoticeEvent),
    GroupBanNoticeEvent(GroupBanNoticeEvent),
    FriendAddNoticeEvent(FriendAddNoticeEvent),
    GroupRecallNoticeEvent(GroupRecallNoticeEvent),
    FriendRecallNoticeEvent(FriendRecallNoticeEvent),
    FriendRequestEvent(FriendRequestEvent),
    GroupRequestEvent(GroupRequestEvent),
    SendPrivateMsgReq(SendPrivateMsgReq),
    SendGroupMsgReq(SendGroupMsgReq),
    DeleteMsgReq(DeleteMsgReq),
    SendLikeReq(SendLikeReq),
    SetGroupKickReq(SetGroupKickReq),
    SetGroupBanReq(SetGroupBanReq),
    SetGroupWholeBanReq(SetGroupWholeBanReq),
    SetGroupAdminReq(SetGroupAdminReq),
    SetGroupCardReq(SetGroupCardReq),
    SetGroupNameReq(SetGroupNameReq),
    SetGroupLeaveReq(SetGroupLeaveReq),
    SetGroupSpecialTitleReq(SetGroupSpecialTitleReq),
    GetLoginInfoReq(GetLoginInfoReq),
    GetStrangerInfoReq(GetStrangerInfoReq),
    GetFriendListReq(GetFriendListReq),
    GetGroupInfoReq(GetGroupInfoReq),
    GetGroupListReq(GetGroupListReq),
    GetGroupMemberInfoReq(GetGroupMemberInfoReq),
    GetGroupMemberListReq(GetGroupMemberListReq),
    SendPrivateMsgResp(SendPrivateMsgResp),
    SendGroupMsgResp(SendGroupMsgResp),
    DeleteMsgResp(DeleteMsgResp),
    SendLikeResp(SendLikeResp),
    SetGroupKickResp(SetGroupKickResp),
    SetGroupBanResp(SetGroupBanResp),
    SetGroupWholeBanResp(SetGroupWholeBanResp),
    SetGroupAdminResp(SetGroupAdminResp),
    SetGroupCardResp(SetGroupCardResp),
    SetGroupNameResp(SetGroupNameResp),
    SetGroupLeaveResp(SetGroupLeaveResp),
    SetGroupSpecialTitleResp(SetGroupSpecialTitleResp),
    GetLoginInfoResp(GetLoginInfoResp),
    GetStrangerInfoResp(GetStrangerInfoResp),
    GetFriendListResp(GetFriendListResp),
    GetGroupInfoResp(GetGroupInfoResp),
    GetGroupListResp(GetGroupListResp),
    GetGroupMemberInfoResp(GetGroupMemberInfoResp),
    GetGroupMemberListResp(GetGroupMemberListResp),
    /// Any other payload of the schema.
    Other(Opaque),
}

/// The frame types the gateway itself assigns: one per event it forwards.
#[derive(Clone, Copy, Debug, PartialEq, Eq, Structural)]
pub enum FrameType {
    Tunknown,
    TPrivateMessageEvent,
    TGroupMessageEvent,
    TGroupUploadNoticeEvent,
    TGroupAdminNoticeEvent,
    TGroupDecreaseNoticeEvent,
    TGroupIncreaseNoticeEvent,
    TGroupBanNoticeEvent,
    TFriendAddNoticeEvent,
    TGroupRecallNoticeEvent,
    TFriendRecallNoticeEvent,
    TFriendRequestEvent,
    TGroupRequestEvent,
}

/// Two frame types never share a number.
pub proof fn lemma_codes_are_distinct(a: FrameType, b: FrameType)
    ensures
        a.spec_code() == b.spec_code() ==> a == b,
{
}

/// How far the type of a response frame lies above that of its request.
pub const RESPONSE_OFFSET: i32 = 100;

impl FrameType {
    /// The number that stands for this frame type on the wire.
    pub open spec fn spec_code(self) -> i32 {
        match self {
            FrameType::Tunknown => 0,
            FrameType::TPrivateMessageEvent => 11,
            FrameType::TGroupMessageEvent => 12,
            FrameType::TGroupUploadNoticeEvent => 13,
            FrameType::TGroupAdminNoticeEvent => 14,
            FrameType::TGroupDecreaseNoticeEvent => 15,
            FrameType::TGroupIncreaseNoticeEvent => 16,
            FrameType::TGroupBanNoticeEvent => 17,
            FrameType::TFriendAddNoticeEvent => 18,
            FrameType::TGroupRecallNoticeEvent => 19,
            FrameType::TFriendRecallNoticeEvent => 20,
            FrameType::TFriendRequestEvent => 21,
            FrameType::TGroupRequestEvent => 22,
        }
    }

    /// The number that stands for this frame type on the wire.
    #[verifier::when_used_as_spec(spec_code)]
    pub fn code(self) -> (c: i32)
        ensures
            c == self.spec_code(),
    {
        match self {
            FrameType::Tunknown => 0,
            FrameType::TPrivateMessageEvent => 11,
            FrameType::TGroupMessageEvent => 12,
            FrameType::TGroupUploadNoticeEvent => 13,
            FrameType::TGroupAdminNoticeEvent => 14,
            FrameType::TGroupDecreaseNoticeEvent => 15,
            FrameType::TGroupIncreaseNoticeEvent => 16,
            FrameType::TGroupBanNoticeEvent => 17,
            FrameType::TFriendAddNoticeEvent => 18,
            FrameType::TGroupRecallNoticeEvent => 19,
            FrameType::TFriendRecallNoticeEvent => 20,
            FrameType::TFriendRequestEvent => 21,
            FrameType::TGroupRequestEvent => 22,
        }
    }

    /// The frame type under which an event payload travels; `Tunknown` for
    /// a payload that is no event.
    pub open spec fn spec_of_event(data: Data) -> FrameType {
        match data {
            Data::PrivateMessageEvent(_) => FrameType::TPrivateMessageEvent,
            Data::GroupMessageEvent(_) => FrameType::TGroupMessageEvent,
            Data::GroupUploadNoticeEvent(_) => FrameType::TGroupUploadNoticeEvent,
            Data::GroupAdminNoticeEvent(_) => FrameType::TGroupAdminNoticeEvent,
            Data::GroupDecreaseNoticeEvent(_) => FrameType::TGroupDecreaseNoticeEvent,
            Data::GroupIncreaseNoticeEvent(_) => FrameType::TGroupIncreaseNoticeEvent,
            Data::GroupBanNoticeEvent(_) => FrameType::TGroupBanNoticeEvent,
            Data::FriendAddNoticeEvent(_) => FrameType::TFriendAddNoticeEvent,
            Data::GroupRecallNoticeEvent(_) => FrameType::TGroupRecallNoticeEvent,
            Data::FriendRecallNoticeEvent(_) => FrameType::TFriendRecallNoticeEvent,
            Data::FriendRequestEvent(_) => FrameType::TFriendRequestEvent,
            Data::GroupRequestEvent(_) => FrameType::TGroupRequestEvent,
            _ => FrameType::Tunknown,
        }
    }

    /// The frame type under which an event payload travels; `Tunknown` for
    /// a payload that is no event.
    pub fn of_event(data: &Data) -> (t: FrameType)
        ensures
            t == Self::spec_of_event(*data),
    {
        match data {
            Data::PrivateMessageEvent(_) => FrameType::TPrivateMessageEvent,
            Data::GroupMessageEvent(_) => FrameType::TGroupMessageEvent,
            Data::GroupUploadNoticeEvent(_) => FrameType::TGroupUploadNoticeEvent,
            Data::GroupAdminNoticeEvent(_) => FrameType::TGroupAdminNoticeEvent,
            Data::GroupDecreaseNoticeEvent(_) => FrameType::TGroupDecreaseNoticeEvent,
            Data::GroupIncreaseNoticeEvent(_) => FrameType::TGroupIncreaseNoticeEvent,
            Data::GroupBanNoticeEvent(_) => FrameType::TGroupBanNoticeEvent,
            Data::FriendAddNoticeEvent(_) => FrameType::TFriendAddNoticeEvent,
            Data::GroupRecallNoticeEvent(_) => FrameType::TGroupRecallNoticeEvent,
            Data::FriendRecallNoticeEvent(_) => FrameType::TFriendRecallNoticeEvent,
            Data::FriendRequestEvent(_) => FrameType::TFriendRequestEvent,
            Data::GroupRequestEvent(_) => FrameType::TGroupRequestEvent,
            _ => FrameType::Tunknown,
        }
    }
}

} // verus!
