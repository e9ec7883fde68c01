use pbrq::bot::bots::Bots;
use pbrq::error::RCError;
use pbrq::handler::password::{
    device_seed, needs_device_lock_login, CreateClientReq, DeleteClientReq, PasswordClients,
    PasswordLoginResp, RequestSmsReq, SubmitSmsReq, SubmitTicketReq,
};
use pbrq::handler::qrcode;
use pbrq::handler::qrcode::{QRCodeClients, QueryQRCodeReq};
use pbrq::native::{Credential, LoginResponse, Password, Protocol, QRCodeState};

fn create(uin: i64, protocol: u8, password: &str) -> CreateClientReq {
    CreateClientReq { uin, protocol, password: password.to_string(), device_seed: None }
}

fn captcha(url: &str) -> LoginResponse {
    LoginResponse::NeedCaptcha { verify_url: Some(url.to_string()) }
}

fn plain(state: &str) -> PasswordLoginResp {
    PasswordLoginResp { state: state.to_string(), ..Default::default() }
}

#[test]
fn login_response_as_the_administrator_sees_it() {
    assert_eq!(PasswordLoginResp::from(LoginResponse::Success), plain("success"));
    assert_eq!(
        PasswordLoginResp::from(captcha("http://c")),
        PasswordLoginResp { captcha_url: Some("http://c".to_string()), ..plain("need_captcha") }
    );
    assert_eq!(
        PasswordLoginResp::from(LoginResponse::NeedCaptcha { verify_url: None }),
        plain("need_captcha")
    );
    assert_eq!(PasswordLoginResp::from(LoginResponse::AccountFrozen), plain("account_frozen"));
    assert_eq!(
        PasswordLoginResp::from(LoginResponse::DeviceLocked {
            sms_phone: Some("138".to_string()),
            verify_url: Some("http://v".to_string()),
            message: Some("m".to_string()),
        }),
        PasswordLoginResp {
            state: "device_locked".to_string(),
            captcha_url: None,
            verify_url: Some("http://v".to_string()),
            sms_phone: Some("138".to_string()),
            message: Some("m".to_string()),
        }
    );
    assert_eq!(
        PasswordLoginResp::from(LoginResponse::TooManySMSRequest),
        plain("too_many_sms_request")
    );
    assert_eq!(PasswordLoginResp::from(LoginResponse::DeviceLockLogin), plain("device_lock_login"));
    assert_eq!(
        PasswordLoginResp::from(LoginResponse::UnknownStatus {
            status: 237,
            message: "what".to_string()
        }),
        PasswordLoginResp {
            message: Some("status: 237 message: what".to_string()),
            ..plain("unknown")
        }
    );
}

#[test]
fn device_seed_of_a_password_login() {
    let mut req = create(555, 5, "p");
    assert_eq!(device_seed(&req), 555);
    req.device_seed = Some(0);
    assert_eq!(device_seed(&req), 555);
    req.device_seed = Some(77);
    assert_eq!(device_seed(&req), 77);
    req.uin = -1;
    req.device_seed = None;
    assert_eq!(device_seed(&req), u64::MAX);
}

#[test]
fn protocol_numbers() {
    assert_eq!(Protocol::from_u8(0), Protocol::IPad);
    assert_eq!(Protocol::from_u8(1), Protocol::AndroidPhone);
    assert_eq!(Protocol::from_u8(2), Protocol::AndroidWatch);
    assert_eq!(Protocol::from_u8(3), Protocol::MacOS);
    assert_eq!(Protocol::from_u8(4), Protocol::QiDian);
    assert_eq!(Protocol::from_u8(5), Protocol::IPad);
    assert_eq!(Protocol::from_u8(200), Protocol::IPad);
    for p in [
        Protocol::IPad,
        Protocol::AndroidPhone,
        Protocol::AndroidWatch,
        Protocol::MacOS,
        Protocol::QiDian,
    ] {
        assert_eq!(Protocol::from_u8(p.to_u8()), p);
    }
    assert_eq!(Protocol::IPad.to_u8(), 5);
}

#[test]
fn device_lock_login_is_chained() {
    assert!(needs_device_lock_login(&LoginResponse::DeviceLockLogin));
    assert!(!needs_device_lock_login(&LoginResponse::Success));
    assert!(!needs_device_lock_login(&LoginResponse::AccountFrozen));
    assert!(!needs_device_lock_login(&captcha("u")));
}

#[test]
fn login_promotion() {
    let mut clients = PasswordClients::new();
    let mut bots = Bots::new();

    let out = clients.login(create(1000, 5, "secret"), captcha("http://captcha"));
    assert_eq!(out.response.state, "need_captcha");
    assert_eq!(out.response.captcha_url.as_deref(), Some("http://captcha"));
    assert!(out.promoted.is_none());
    assert!(out.displaced.is_none());
    assert!(clients.contains(1000, 5));
    assert!(bots.list_bot().is_empty());

    let ticket = SubmitTicketReq { uin: 1000, protocol: 5, ticket: "t".to_string() };
    assert!(clients.find(ticket.uin, ticket.protocol).is_ok());
    let out = clients.submit_ticket(&ticket, LoginResponse::Success).unwrap();
    assert_eq!(out.response, plain("success"));
    assert_eq!(
        out.promoted,
        Some(Credential::Password(Password { uin: 1000, password: "secret".to_string() }))
    );
    assert!(!clients.contains(1000, 5));
    bots.on_login(1000, vec![]);
    assert_eq!(bots.list_bot(), vec![1000]);
}

#[test]
fn second_login_replaces_the_first() {
    let mut clients = PasswordClients::new();
    clients.login(create(1000, 5, "first"), captcha("http://one"));
    let out = clients.login(create(1000, 5, "second"), LoginResponse::AccountFrozen);
    let displaced = out.displaced.unwrap();
    assert_eq!(displaced.uin, 1000);
    assert_eq!(displaced.protocol, 5);
    assert_eq!(displaced.login_response, captcha("http://one"));
    assert_eq!(
        displaced.credential,
        Credential::Password(Password { uin: 1000, password: "first".to_string() })
    );
    let listed = clients.list().clients;
    assert_eq!(listed.len(), 1);
    assert_eq!((listed[0].uin, listed[0].protocol), (1000, 5));
    assert_eq!(listed[0].resp, plain("account_frozen"));
}

#[test]
fn login_that_succeeds_at_once_is_not_kept() {
    let mut clients = PasswordClients::new();
    let out = clients.login(create(1000, 1, "p"), LoginResponse::Success);
    assert_eq!(out.response, plain("success"));
    assert_eq!(
        out.promoted,
        Some(Credential::Password(Password { uin: 1000, password: "p".to_string() }))
    );
    assert!(out.displaced.is_none());
    assert!(!clients.contains(1000, 1));
    assert!(clients.list().clients.is_empty());
}

#[test]
fn login_is_kept_under_the_number_of_its_protocol() {
    let mut clients = PasswordClients::new();
    clients.login(create(1000, 0, "p"), LoginResponse::TooManySMSRequest);
    assert!(clients.contains(1000, 5));
    assert!(!clients.contains(1000, 0));
    clients.login(create(1000, 3, "p"), LoginResponse::TooManySMSRequest);
    assert!(clients.contains(1000, 3));
    assert_eq!(clients.list().clients.len(), 2);
}

#[test]
fn steps_of_a_login_that_does_not_wait_are_refused() {
    let mut clients = PasswordClients::new();
    assert!(matches!(clients.find(1, 5), Err(RCError::ClientNotFound)));
    let ticket = SubmitTicketReq { uin: 1, protocol: 5, ticket: "t".to_string() };
    assert!(matches!(
        clients.submit_ticket(&ticket, captcha("u")),
        Err(RCError::ClientNotFound)
    ));
    let sms = SubmitSmsReq { uin: 1, protocol: 5, sms: "123".to_string() };
    assert!(matches!(
        clients.submit_sms(&sms, LoginResponse::AccountFrozen),
        Err(RCError::ClientNotFound)
    ));
    let req = RequestSmsReq { uin: 1, protocol: 5 };
    assert!(matches!(
        clients.request_sms(&req, LoginResponse::Success),
        Err(RCError::ClientNotFound)
    ));
    // success for a login that is gone has nothing to promote
    let out = clients.submit_ticket(&ticket, LoginResponse::Success).unwrap();
    assert_eq!(out.response, plain("success"));
    assert!(out.promoted.is_none());
    assert!(clients.list().clients.is_empty());
}

#[test]
fn answers_are_kept_with_the_login() {
    let mut clients = PasswordClients::new();
    clients.login(create(1000, 5, "p"), captcha("u"));
    let locked = LoginResponse::DeviceLocked {
        sms_phone: Some("138".to_string()),
        verify_url: None,
        message: None,
    };
    let ticket = SubmitTicketReq { uin: 1000, protocol: 5, ticket: "t".to_string() };
    let out = clients.submit_ticket(&ticket, locked.clone()).unwrap();
    assert_eq!(out.response.state, "device_locked");
    assert!(out.promoted.is_none());
    assert_eq!(clients.list().clients[0].resp.sms_phone.as_deref(), Some("138"));

    let req = RequestSmsReq { uin: 1000, protocol: 5 };
    let resp = clients.request_sms(&req, LoginResponse::TooManySMSRequest).unwrap();
    assert_eq!(resp, plain("too_many_sms_request"));
    assert_eq!(clients.list().clients[0].resp, plain("too_many_sms_request"));

    // even success is only kept when it answers the request for an SMS
    let resp = clients.request_sms(&req, LoginResponse::Success).unwrap();
    assert_eq!(resp, plain("success"));
    assert!(clients.contains(1000, 5));

    let sms = SubmitSmsReq { uin: 1000, protocol: 5, sms: "123456".to_string() };
    let out = clients.submit_sms(&sms, LoginResponse::Success).unwrap();
    assert_eq!(
        out.promoted,
        Some(Credential::Password(Password { uin: 1000, password: "p".to_string() }))
    );
    assert!(!clients.contains(1000, 5));
}

#[test]
fn deleting_a_login() {
    let mut clients = PasswordClients::new();
    clients.login(create(1000, 5, "p"), captcha("u"));
    clients.login(create(1001, 5, "p"), captcha("u"));
    let (_, removed) = clients.delete(DeleteClientReq { uin: 1000, protocol: 5 });
    assert_eq!(removed.unwrap().uin, 1000);
    let (_, removed) = clients.delete(DeleteClientReq { uin: 1000, protocol: 5 });
    assert!(removed.is_none());
    let listed = clients.list().clients;
    assert_eq!(listed.len(), 1);
    assert_eq!(listed[0].uin, 1001);
}

#[test]
fn qrcode_protocol_and_seed() {
    assert_eq!(qrcode::select_protocol(None), Protocol::IPad);
    assert_eq!(qrcode::select_protocol(Some(0)), Protocol::IPad);
    assert_eq!(qrcode::select_protocol(Some(1)), Protocol::AndroidPhone);
    assert_eq!(qrcode::select_protocol(Some(2)), Protocol::AndroidWatch);
    assert_eq!(qrcode::select_protocol(Some(3)), Protocol::MacOS);
    assert_eq!(qrcode::select_protocol(Some(4)), Protocol::QiDian);
    assert_eq!(qrcode::select_protocol(Some(5)), Protocol::IPad);
    assert_eq!(qrcode::select_protocol(Some(-1)), Protocol::IPad);
    let req = qrcode::CreateClientReq { device_seed: Some(9), client_protocol: None };
    assert_eq!(qrcode::device_seed(&req), 9);
    assert_eq!(qrcode::device_seed_or(&req, 1), 9);
    let req = qrcode::CreateClientReq { device_seed: None, client_protocol: None };
    assert_eq!(qrcode::device_seed_or(&req, 1), 1);
    let _ = qrcode::device_seed(&req);
}

fn image_fetch(sig: &[u8], image: &[u8]) -> QRCodeState {
    QRCodeState::ImageFetch { image_data: image.to_vec(), sig: sig.to_vec() }
}

#[test]
fn qrcode_is_created_and_listed() {
    let mut clients = QRCodeClients::new();
    let resp = clients.create(image_fetch(&[1, 2], &[9, 9, 9])).unwrap();
    assert_eq!(resp, qrcode::CreateClientResp { sig: vec![1, 2], image: vec![9, 9, 9] });
    clients.create(image_fetch(&[3], &[8])).unwrap();
    let mut listed = clients.list().clients;
    listed.sort_by(|a, b| a.sig.cmp(&b.sig));
    assert_eq!(
        listed,
        vec![
            qrcode::ListClientRespClient { sig: vec![1, 2], image: vec![9, 9, 9] },
            qrcode::ListClientRespClient { sig: vec![3], image: vec![8] },
        ]
    );
    assert!(clients.find(&vec![1, 2]).is_ok());
    assert!(matches!(clients.find(&vec![1]), Err(RCError::ClientNotFound)));
}

#[test]
fn qrcode_create_refuses_other_states() {
    let mut clients = QRCodeClients::new();
    for state in [
        QRCodeState::WaitingForScan,
        QRCodeState::WaitingForConfirm,
        QRCodeState::Timeout,
        QRCodeState::Canceled,
        QRCodeState::Confirmed { tmp_pwd: vec![], tmp_no_pic_sig: vec![], tgt_qr: vec![] },
    ] {
        match clients.create(state) {
            Err(RCError::Other(text)) => assert_eq!(text, "invalid qrcode_state"),
            other => panic!("{:?}", other),
        }
    }
    assert!(clients.list().clients.is_empty());
}

#[test]
fn qrcode_query_names_the_state() {
    let mut clients = QRCodeClients::new();
    clients.create(image_fetch(&[1], &[2])).unwrap();
    let req = QueryQRCodeReq { sig: vec![1] };
    let cases = [
        (image_fetch(&[1], &[2]), "image_fetch"),
        (QRCodeState::WaitingForScan, "waiting_for_scan"),
        (QRCodeState::WaitingForConfirm, "waiting_for_confirm"),
        (QRCodeState::Timeout, "timeout"),
        (QRCodeState::Canceled, "canceled"),
    ];
    for (state, name) in cases {
        let out = clients.query(&req, state).unwrap();
        assert_eq!(out.response.state, name);
        assert!(out.login.is_none());
        assert!(clients.find(&vec![1]).is_ok());
    }
}

#[test]
fn qrcode_confirmed_leads_to_login() {
    let mut clients = QRCodeClients::new();
    clients.create(image_fetch(&[1], &[2])).unwrap();
    let req = QueryQRCodeReq { sig: vec![1] };
    let confirmed =
        QRCodeState::Confirmed { tmp_pwd: vec![5], tmp_no_pic_sig: vec![6], tgt_qr: vec![7] };
    let out = clients.query(&req, confirmed.clone()).unwrap();
    assert_eq!(out.response.state, "confirmed");
    let (client, login) = out.login.unwrap();
    assert_eq!((client.sig, client.image), (vec![1], vec![2]));
    assert_eq!(
        login,
        qrcode::Confirmed { tmp_pwd: vec![5], tmp_no_pic_sig: vec![6], tgt_qr: vec![7] }
    );
    assert!(clients.list().clients.is_empty());
    // whoever comes second finds nothing
    assert!(matches!(clients.query(&req, confirmed), Err(RCError::ClientNotFound)));
}

#[test]
fn qrcode_promotion_and_delete() {
    assert_eq!(
        qrcode::promotion(&LoginResponse::Success, vec![1, 2]),
        Some(Credential::Token(vec![1, 2]))
    );
    assert_eq!(qrcode::promotion(&LoginResponse::AccountFrozen, vec![1, 2]), None);
    assert_eq!(qrcode::promotion(&LoginResponse::DeviceLockLogin, vec![]), None);
    let mut clients = QRCodeClients::new();
    clients.create(image_fetch(&[1], &[2])).unwrap();
    let (_, removed) = clients.delete(qrcode::DeleteClientReq { sig: vec![1] });
    assert_eq!(removed.unwrap().image, vec![2]);
    let (_, removed) = clients.delete(qrcode::DeleteClientReq { sig: vec![1] });
    assert!(removed.is_none());
}
