use pbrq::api_handler::{
    handle_api_data, handle_api_frame, handle_api_reply, handle_delete_msg, handle_driver_reply,
    handle_get_friend_list, handle_get_group_info, handle_get_group_list,
    handle_get_group_member_info, handle_get_group_member_list, handle_get_login_info,
    handle_get_stranger_info, handle_group_ban, handle_group_kick, handle_group_leave,
    handle_group_whole_ban, handle_send_group_msg, handle_send_like, handle_send_private_msg,
    handle_set_group_admin, handle_set_group_card, handle_set_group_name,
    handle_set_group_special_title, ApiStep, DriverCall, DriverReply, FrameStep, Pending,
    PendingFrame,
};
use pbrq::error::RCError;
use pbrq::idl::pbbot;
use pbrq::idl::pbbot::frame::{Data, Opaque};
use pbrq::idl::pbbot::{Frame, Message, MessageReceipt};
use pbrq::native::elem::Text;
use pbrq::native::{
    FriendInfo, GroupInfo, GroupMemberInfo, GroupMemberPermission, MessageChain, RQElem,
    SentReceipt, SummaryCardInfo,
};
use pbrq::plugin::pb_to_bytes::PbToBytes;

fn text_message(s: &str) -> Message {
    Message { kind: "text".to_string(), data: vec![("text".to_string(), s.to_string())] }
}

fn call_of(step: ApiStep) -> (DriverCall, Pending) {
    match step {
        ApiStep::Call { call, then } => (call, then),
        other => panic!("{:?}", other),
    }
}

fn done_of(step: ApiStep) -> Option<Data> {
    match step {
        ApiStep::Done(data) => data,
        other => panic!("{:?}", other),
    }
}

fn member() -> GroupMemberInfo {
    GroupMemberInfo {
        group_code: 7,
        uin: 9,
        nickname: "nick".to_string(),
        card_name: "card".to_string(),
        level: 33,
        join_time: 100,
        last_speak_time: 200,
        special_title: "title".to_string(),
        special_title_expire_time: 300,
        permission: GroupMemberPermission::Owner,
    }
}

fn frame_done(step: FrameStep) -> Frame {
    match step {
        FrameStep::Done(frame) => frame,
        other => panic!("{:?}", other),
    }
}

#[test]
fn response_frame_echoes_the_request() {
    let req = Frame {
        bot_id: 42,
        frame_type: 31,
        echo: "abc".to_string(),
        ok: false,
        data: Some(Data::GetLoginInfoReq(pbbot::GetLoginInfoReq {})),
        extra: vec![("k".to_string(), "v".to_string())],
    };
    let pending = match handle_api_frame(req) {
        FrameStep::Call { call, pending } => {
            assert!(matches!(call, DriverCall::GetNickname));
            pending
        }
        other => panic!("{:?}", other),
    };
    assert_eq!(
        pending,
        PendingFrame {
            bot_id: 42,
            frame_type: 131,
            echo: "abc".to_string(),
            waiting: Pending::GetLoginInfo
        }
    );
    let resp = frame_done(handle_api_reply(42, pending, Ok(DriverReply::Nickname("n".to_string()))));
    assert_eq!(
        resp,
        Frame {
            bot_id: 42,
            frame_type: 131,
            echo: "abc".to_string(),
            ok: true,
            data: Some(Data::GetLoginInfoResp(pbbot::GetLoginInfoResp {
                user_id: 42,
                nickname: "n".to_string(),
            })),
            extra: vec![],
        }
    );
}

#[test]
fn request_without_payload_is_not_ok() {
    for frame_type in [i32::MIN, -100, -1, 0, 1, 99, i32::MAX - 100] {
        let req = Frame { bot_id: -5, frame_type, echo: "e".to_string(), ok: true, ..Default::default() };
        let resp = frame_done(handle_api_frame(req));
        assert_eq!(
            resp,
            Frame {
                bot_id: -5,
                frame_type: frame_type + 100,
                echo: "e".to_string(),
                ok: false,
                data: None,
                extra: vec![],
            }
        );
    }
}

#[test]
fn response_is_ok_on_every_path_of_a_request_with_payload() {
    let request = |data: Data| Frame {
        bot_id: 7,
        frame_type: 20,
        echo: "x".to_string(),
        ok: false,
        data: Some(data),
        extra: vec![],
    };
    let kick = Data::SetGroupKickReq(pbbot::SetGroupKickReq::default());
    // the handler succeeds
    let pending = match handle_api_frame(request(kick.clone())) {
        FrameStep::Call { pending, .. } => pending,
        other => panic!("{:?}", other),
    };
    let resp = frame_done(handle_api_reply(1, pending.clone(), Ok(DriverReply::Done)));
    assert!(resp.ok);
    assert_eq!(resp.data, Some(Data::SetGroupKickResp(pbbot::SetGroupKickResp {})));
    assert_eq!((resp.bot_id, resp.frame_type, resp.echo.as_str()), (7, 120, "x"));
    // the driver fails
    let resp = frame_done(handle_api_reply(1, pending, Err(RCError::RQ("no".to_string()))));
    assert!(resp.ok);
    assert_eq!(resp.data, None);
    assert_eq!((resp.bot_id, resp.frame_type, resp.echo.as_str()), (7, 120, "x"));
    // no handler serves the payload
    let resp = frame_done(handle_api_frame(request(Data::Other(Opaque::default()))));
    assert!(resp.ok);
    assert_eq!(resp.data, None);
    assert_eq!((resp.bot_id, resp.frame_type, resp.echo.as_str()), (7, 120, "x"));
}

#[test]
fn request_that_takes_two_calls_keeps_its_frame() {
    let req = Frame {
        bot_id: 7,
        frame_type: 20,
        echo: "x".to_string(),
        ok: false,
        data: Some(Data::SendLikeReq(pbbot::SendLikeReq { user_id: 100, times: 2 })),
        extra: vec![],
    };
    let pending = match handle_api_frame(req) {
        FrameStep::Call { call, pending } => {
            assert!(matches!(call, DriverCall::GetSummaryInfo { uin: 100 }));
            pending
        }
        other => panic!("{:?}", other),
    };
    let info = SummaryCardInfo { uin: 100, cookie: vec![3], ..Default::default() };
    let pending = match handle_api_reply(1, pending, Ok(DriverReply::Summary(info))) {
        FrameStep::Call { call, pending } => {
            assert!(matches!(call, DriverCall::SendLike { uin: 100, count: 2, source: 1, .. }));
            pending
        }
        other => panic!("{:?}", other),
    };
    assert_eq!(
        pending,
        PendingFrame { bot_id: 7, frame_type: 120, echo: "x".to_string(), waiting: Pending::SendLike }
    );
    let resp = frame_done(handle_api_reply(1, pending, Ok(DriverReply::Done)));
    assert!(resp.ok);
    assert_eq!(resp.data, Some(Data::SendLikeResp(pbbot::SendLikeResp {})));
}

#[test]
fn plugin_echo() {
    let req = Frame {
        bot_id: 42,
        frame_type: 99999,
        echo: "x".to_string(),
        ok: false,
        data: Some(Data::Other(Opaque { field: 999, bytes: vec![1, 2, 3] })),
        extra: vec![],
    };
    let resp = frame_done(handle_api_frame(req));
    assert_eq!(resp.bot_id, 42);
    assert_eq!(resp.echo, "x");
    assert_eq!(resp.frame_type, 100099);
    assert!(resp.ok);
    assert_eq!(resp.data, None);
}

#[test]
fn payloads_that_are_no_requests_end_at_once() {
    for data in [
        Data::DeleteMsgResp(pbbot::DeleteMsgResp {}),
        Data::GetLoginInfoResp(pbbot::GetLoginInfoResp::default()),
        Data::FriendAddNoticeEvent(pbbot::FriendAddNoticeEvent::default()),
        Data::GroupMessageEvent(pbbot::GroupMessageEvent::default()),
        Data::Other(Opaque::default()),
    ] {
        assert_eq!(done_of(handle_api_data(data)), None);
    }
}

#[test]
fn send_private_message() {
    let req = pbbot::SendPrivateMsgReq {
        user_id: 100,
        message: vec![text_message("hello")],
        auto_escape: true,
    };
    let (call, then) = call_of(handle_api_data(Data::SendPrivateMsgReq(req)));
    match call {
        DriverCall::SendFriendMessage { target, chain } => {
            assert_eq!(target, 100);
            assert_eq!(
                chain,
                MessageChain(vec![RQElem::Text(Text { content: "hello".to_string() })])
            );
        }
        other => panic!("{:?}", other),
    }
    assert_eq!(then, Pending::SendPrivateMsg);
    let sent = SentReceipt { seqs: vec![7], rands: vec![9], time: 1700 };
    let resp = done_of(handle_driver_reply(42, then, Ok(DriverReply::Receipt(sent))));
    let expected =
        MessageReceipt { sender_id: 42, time: 1700, seqs: vec![7], rands: vec![9], group_id: 0 };
    match resp {
        Some(Data::SendPrivateMsgResp(r)) => {
            assert_eq!(r.message_id, expected.to_bytes());
            assert_eq!(MessageReceipt::from_bytes(&r.message_id), Ok(expected));
        }
        other => panic!("{:?}", other),
    }
}

#[test]
fn send_group_message() {
    let req = pbbot::SendGroupMsgReq {
        group_id: 7,
        message: vec![text_message("<face id=\"1\"/>")],
        auto_escape: false,
    };
    let (call, then) = call_of(handle_send_group_msg(req));
    match call {
        DriverCall::SendGroupMessage { group_code, chain } => {
            assert_eq!(group_code, 7);
            assert_eq!(chain.0.len(), 1);
            assert!(matches!(&chain.0[0], RQElem::Face(f) if f.index == 1));
        }
        other => panic!("{:?}", other),
    }
    assert_eq!(then, Pending::SendGroupMsg { group_id: 7 });
    let sent = SentReceipt { seqs: vec![1, 2], rands: vec![3, 4], time: 5 };
    match done_of(handle_driver_reply(42, then, Ok(DriverReply::Receipt(sent)))) {
        Some(Data::SendGroupMsgResp(r)) => assert_eq!(
            MessageReceipt::from_bytes(&r.message_id),
            Ok(MessageReceipt {
                sender_id: 42,
                time: 5,
                seqs: vec![1, 2],
                rands: vec![3, 4],
                group_id: 7
            })
        ),
        other => panic!("{:?}", other),
    }
}

#[test]
fn delete_private_message() {
    let id = MessageReceipt { sender_id: 555, time: 1700, seqs: vec![7], rands: vec![9], group_id: 0 }
        .to_bytes();
    let (call, then) = call_of(handle_api_data(Data::DeleteMsgReq(pbbot::DeleteMsgReq {
        message_id: id,
    })));
    match call {
        DriverCall::RecallFriendMessage { uin, time, seqs, rands } => {
            assert_eq!((uin, time, seqs, rands), (555, 1700, vec![7], vec![9]))
        }
        other => panic!("{:?}", other),
    }
    assert_eq!(
        done_of(handle_driver_reply(42, then, Ok(DriverReply::Done))),
        Some(Data::DeleteMsgResp(pbbot::DeleteMsgResp {}))
    );
}

#[test]
fn delete_group_message() {
    let id = MessageReceipt { sender_id: 555, time: 1700, seqs: vec![7], rands: vec![9], group_id: 3 }
        .to_bytes();
    let (call, then) = call_of(handle_delete_msg(pbbot::DeleteMsgReq { message_id: id }));
    match call {
        DriverCall::RecallGroupMessage { group_code, seqs, rands } => {
            assert_eq!((group_code, seqs, rands), (3, vec![7], vec![9]))
        }
        other => panic!("{:?}", other),
    }
    assert_eq!(then, Pending::DeleteMsg);
}

#[test]
fn delete_message_with_bad_identifier_ends_without_payload() {
    let step = handle_delete_msg(pbbot::DeleteMsgReq { message_id: vec![0x08] });
    assert_eq!(done_of(step), None);
}

#[test]
fn send_like_takes_two_calls() {
    let (call, then) = call_of(handle_send_like(pbbot::SendLikeReq { user_id: 100, times: 3 }));
    assert!(matches!(call, DriverCall::GetSummaryInfo { uin: 100 }));
    assert_eq!(then, Pending::SendLikeSummary { user_id: 100, times: 3 });
    let info = SummaryCardInfo { uin: 100, cookie: vec![1, 2], ..Default::default() };
    let (call, then) = call_of(handle_driver_reply(42, then, Ok(DriverReply::Summary(info))));
    match call {
        DriverCall::SendLike { uin, count, source, cookie } => {
            assert_eq!((uin, count, source, cookie), (100, 3, 1, vec![1, 2]))
        }
        other => panic!("{:?}", other),
    }
    assert_eq!(then, Pending::SendLike);
    assert_eq!(
        done_of(handle_driver_reply(42, then, Ok(DriverReply::Done))),
        Some(Data::SendLikeResp(pbbot::SendLikeResp {}))
    );
}

#[test]
fn group_management_calls() {
    let (call, then) = call_of(handle_group_kick(pbbot::SetGroupKickReq {
        group_id: 7,
        user_id: 9,
        reject_add_request: true,
    }));
    match call {
        DriverCall::GroupKick { group_code, uins, message, block } => {
            assert_eq!((group_code, uins, message.as_str(), block), (7, vec![9], "", true))
        }
        other => panic!("{:?}", other),
    }
    assert_eq!(then, Pending::SetGroupKick);

    let (call, then) =
        call_of(handle_group_ban(pbbot::SetGroupBanReq { group_id: 7, user_id: 9, duration: 60 }));
    assert!(matches!(call, DriverCall::GroupMute { group_code: 7, uin: 9, seconds: 60 }));
    assert_eq!(then, Pending::SetGroupBan);
    let (call, _) =
        call_of(handle_group_ban(pbbot::SetGroupBanReq { group_id: 7, user_id: 9, duration: -1 }));
    assert!(matches!(call, DriverCall::GroupMute { seconds: u64::MAX, .. }));

    let (call, then) =
        call_of(handle_group_whole_ban(pbbot::SetGroupWholeBanReq { group_id: 7, enable: true }));
    assert!(matches!(call, DriverCall::GroupMuteAll { group_code: 7, mute: true }));
    assert_eq!(then, Pending::SetGroupWholeBan);

    let (call, then) = call_of(handle_set_group_admin(pbbot::SetGroupAdminReq {
        group_id: 7,
        user_id: 9,
        enable: false,
    }));
    assert!(matches!(call, DriverCall::GroupSetAdmin { group_code: 7, uin: 9, flag: false }));
    assert_eq!(then, Pending::SetGroupAdmin);

    let (call, then) = call_of(handle_set_group_card(pbbot::SetGroupCardReq {
        group_id: 7,
        user_id: 9,
        card: "c".to_string(),
    }));
    assert!(
        matches!(call, DriverCall::EditGroupMemberCard { group_code: 7, uin: 9, card } if card == "c")
    );
    assert_eq!(then, Pending::SetGroupCard);

    let (call, then) = call_of(handle_set_group_name(pbbot::SetGroupNameReq {
        group_id: 7,
        group_name: "g".to_string(),
    }));
    assert!(matches!(call, DriverCall::UpdateGroupName { group_code: 7, name } if name == "g"));
    assert_eq!(then, Pending::SetGroupName);

    let (call, then) =
        call_of(handle_group_leave(pbbot::SetGroupLeaveReq { group_id: 7, is_dismiss: false }));
    assert!(matches!(call, DriverCall::GroupQuit { group_code: 7 }));
    assert_eq!(then, Pending::SetGroupLeave);
}

#[test]
fn special_title_goes_to_the_member() {
    let (call, then) = call_of(handle_set_group_special_title(pbbot::SetGroupSpecialTitleReq {
        group_id: 7,
        user_id: 9,
        special_title: "t".to_string(),
        duration: -1,
    }));
    assert!(
        matches!(call, DriverCall::GroupEditSpecialTitle { group_code: 7, uin: 9, title } if title == "t")
    );
    assert_eq!(then, Pending::SetGroupSpecialTitle);
}

#[test]
fn unit_responses() {
    let cases = [
        (Pending::DeleteMsg, Data::DeleteMsgResp(pbbot::DeleteMsgResp {})),
        (Pending::SendLike, Data::SendLikeResp(pbbot::SendLikeResp {})),
        (Pending::SetGroupKick, Data::SetGroupKickResp(pbbot::SetGroupKickResp {})),
        (Pending::SetGroupBan, Data::SetGroupBanResp(pbbot::SetGroupBanResp {})),
        (Pending::SetGroupWholeBan, Data::SetGroupWholeBanResp(pbbot::SetGroupWholeBanResp {})),
        (Pending::SetGroupAdmin, Data::SetGroupAdminResp(pbbot::SetGroupAdminResp {})),
        (Pending::SetGroupCard, Data::SetGroupCardResp(pbbot::SetGroupCardResp {})),
        (Pending::SetGroupName, Data::SetGroupNameResp(pbbot::SetGroupNameResp {})),
        (Pending::SetGroupLeave, Data::SetGroupLeaveResp(pbbot::SetGroupLeaveResp {})),
        (
            Pending::SetGroupSpecialTitle,
            Data::SetGroupSpecialTitleResp(pbbot::SetGroupSpecialTitleResp {}),
        ),
    ];
    for (then, data) in cases {
        assert_eq!(done_of(handle_driver_reply(42, then, Ok(DriverReply::Done))), Some(data));
    }
    for then in [Pending::SendPrivateMsg, Pending::GetLoginInfo, Pending::GetGroupList] {
        assert_eq!(done_of(handle_driver_reply(42, then, Ok(DriverReply::Done))), None);
    }
}

#[test]
fn driver_failure_gives_no_payload() {
    for then in [
        Pending::SendPrivateMsg,
        Pending::SendGroupMsg { group_id: 7 },
        Pending::DeleteMsg,
        Pending::SendLikeSummary { user_id: 1, times: 1 },
        Pending::GetGroupMemberListGroup { group_id: 7 },
        Pending::GetGroupMemberList,
        Pending::GetLoginInfo,
    ] {
        let step = handle_driver_reply(42, then, Err(RCError::RQ("failed".to_string())));
        assert_eq!(done_of(step), None);
    }
}

#[test]
fn unexpected_reply_gives_no_payload() {
    let step = handle_driver_reply(42, Pending::SendPrivateMsg, Ok(DriverReply::Groups(vec![])));
    assert_eq!(done_of(step), None);
    let step =
        handle_driver_reply(42, Pending::GetFriendList, Ok(DriverReply::Nickname(String::new())));
    assert_eq!(done_of(step), None);
}

#[test]
fn login_info() {
    let (call, then) = call_of(handle_get_login_info(pbbot::GetLoginInfoReq {}));
    assert!(matches!(call, DriverCall::GetNickname));
    let step = handle_driver_reply(42, then, Ok(DriverReply::Nickname("me".to_string())));
    assert_eq!(
        done_of(step),
        Some(Data::GetLoginInfoResp(pbbot::GetLoginInfoResp {
            user_id: 42,
            nickname: "me".to_string()
        }))
    );
}

#[test]
fn stranger_info() {
    let (call, then) = call_of(handle_get_stranger_info(pbbot::GetStrangerInfoReq {
        user_id: 100,
        no_cache: false,
    }));
    assert!(matches!(call, DriverCall::GetSummaryInfo { uin: 100 }));
    let info = SummaryCardInfo {
        uin: 100,
        sex: 2,
        age: 200,
        nickname: "n".to_string(),
        level: 5,
        login_days: 6,
        cookie: vec![],
    };
    assert_eq!(
        done_of(handle_driver_reply(42, then, Ok(DriverReply::Summary(info)))),
        Some(Data::GetStrangerInfoResp(pbbot::GetStrangerInfoResp {
            user_id: 100,
            nickname: "n".to_string(),
            sex: "2".to_string(),
            age: 200,
            level: 5,
            login_days: 6,
        }))
    );
}

#[test]
fn friend_list() {
    let (call, then) = call_of(handle_get_friend_list(pbbot::GetFriendListReq {}));
    assert!(matches!(call, DriverCall::GetFriendList));
    let friends = vec![
        FriendInfo { uin: 1, nick: "a".to_string(), remark: "ra".to_string() },
        FriendInfo { uin: 2, nick: "b".to_string(), remark: "rb".to_string() },
    ];
    assert_eq!(
        done_of(handle_driver_reply(42, then, Ok(DriverReply::Friends(friends)))),
        Some(Data::GetFriendListResp(pbbot::GetFriendListResp {
            friend: vec![
                pbbot::get_friend_list_resp::Friend {
                    user_id: 1,
                    nickname: "a".to_string(),
                    remark: "ra".to_string()
                },
                pbbot::get_friend_list_resp::Friend {
                    user_id: 2,
                    nickname: "b".to_string(),
                    remark: "rb".to_string()
                },
            ]
        }))
    );
}

fn group() -> GroupInfo {
    GroupInfo {
        code: 7,
        name: "g".to_string(),
        owner_uin: 8,
        member_count: 65535,
        max_member_count: 200,
    }
}

#[test]
fn group_info() {
    let (call, then) =
        call_of(handle_get_group_info(pbbot::GetGroupInfoReq { group_id: 7, no_cache: true }));
    assert!(matches!(call, DriverCall::GetGroupInfo { group_code: 7 }));
    assert_eq!(
        done_of(handle_driver_reply(42, then, Ok(DriverReply::Group(Some(group()))))),
        Some(Data::GetGroupInfoResp(pbbot::GetGroupInfoResp {
            group_id: 7,
            group_name: "g".to_string(),
            member_count: 65535,
            max_member_count: 200,
        }))
    );
    assert_eq!(done_of(handle_driver_reply(42, then, Ok(DriverReply::Group(None)))), None);
}

#[test]
fn group_list() {
    let (call, then) = call_of(handle_get_group_list(pbbot::GetGroupListReq {}));
    assert!(matches!(call, DriverCall::GetGroupList));
    assert_eq!(
        done_of(handle_driver_reply(42, then, Ok(DriverReply::Groups(vec![group()])))),
        Some(Data::GetGroupListResp(pbbot::GetGroupListResp {
            group: vec![pbbot::get_group_list_resp::Group {
                group_id: 7,
                group_name: "g".to_string(),
                member_count: 65535,
                max_member_count: 200,
            }]
        }))
    );
}

#[test]
fn group_member_info() {
    let (call, then) = call_of(handle_get_group_member_info(pbbot::GetGroupMemberInfoReq {
        group_id: 7,
        user_id: 9,
        no_cache: false,
    }));
    assert!(matches!(call, DriverCall::GetGroupMemberInfo { group_code: 7, uin: 9 }));
    assert_eq!(
        done_of(handle_driver_reply(42, then, Ok(DriverReply::Member(member())))),
        Some(Data::GetGroupMemberInfoResp(pbbot::GetGroupMemberInfoResp {
            group_id: 7,
            user_id: 9,
            nickname: "nick".to_string(),
            card: "card".to_string(),
            sex: String::new(),
            age: 0,
            area: String::new(),
            join_time: 100,
            last_sent_time: 200,
            level: "33".to_string(),
            role: "owner".to_string(),
            unfriendly: false,
            title: "title".to_string(),
            title_expire_time: 300,
            card_changeable: false,
        }))
    );
}

#[test]
fn group_member_list_takes_two_calls() {
    let (call, then) =
        call_of(handle_get_group_member_list(pbbot::GetGroupMemberListReq { group_id: 7 }));
    assert!(matches!(call, DriverCall::GetGroupInfo { group_code: 7 }));
    assert_eq!(then, Pending::GetGroupMemberListGroup { group_id: 7 });
    assert_eq!(done_of(handle_driver_reply(42, then, Ok(DriverReply::Group(None)))), None);
    let (call, then) =
        call_of(handle_driver_reply(42, then, Ok(DriverReply::Group(Some(group())))));
    assert!(matches!(call, DriverCall::GetGroupMemberList { group_code: 7, owner_uin: 8 }));
    assert_eq!(then, Pending::GetGroupMemberList);
    let mut plain = member();
    plain.permission = GroupMemberPermission::Member;
    plain.uin = 10;
    match done_of(handle_driver_reply(42, then, Ok(DriverReply::Members(vec![member(), plain])))) {
        Some(Data::GetGroupMemberListResp(resp)) => {
            assert_eq!(resp.group_member.len(), 2);
            assert_eq!(
                resp.group_member[0],
                pbbot::get_group_member_list_resp::GroupMember {
                    group_id: 7,
                    user_id: 9,
                    nickname: "nick".to_string(),
                    card: "card".to_string(),
                    sex: String::new(),
                    age: 0,
                    area: String::new(),
                    join_time: 100,
                    last_sent_time: 200,
                    level: "33".to_string(),
                    role: "owner".to_string(),
                    unfriendly: false,
                    title: "title".to_string(),
                    title_expire_time: 300,
                    card_changeable: false,
                }
            );
            assert_eq!(resp.group_member[1].user_id, 10);
            assert_eq!(resp.group_member[1].role, "member");
        }
        other => panic!("{:?}", other),
    }
}

#[test]
fn what_was_sent_can_be_recalled() {
    for group_id in [0i64, 7] {
        let then = if group_id == 0 {
            Pending::SendPrivateMsg
        } else {
            Pending::SendGroupMsg { group_id }
        };
        let sent = SentReceipt { seqs: vec![7, 8], rands: vec![9, -1], time: 1700 };
        let id = match done_of(handle_driver_reply(42, then, Ok(DriverReply::Receipt(sent)))) {
            Some(Data::SendPrivateMsgResp(r)) => r.message_id,
            Some(Data::SendGroupMsgResp(r)) => r.message_id,
            other => panic!("{:?}", other),
        };
        let (call, then) = call_of(handle_delete_msg(pbbot::DeleteMsgReq { message_id: id }));
        assert_eq!(then, Pending::DeleteMsg);
        match call {
            DriverCall::RecallFriendMessage { uin, time, seqs, rands } => {
                assert_eq!(group_id, 0);
                assert_eq!((uin, time, seqs, rands), (42, 1700, vec![7, 8], vec![9, -1]));
            }
            DriverCall::RecallGroupMessage { group_code, seqs, rands } => {
                assert_eq!(group_code, 7);
                assert_eq!((seqs, rands), (vec![7, 8], vec![9, -1]));
            }
            other => panic!("{:?}", other),
        }
    }
}
