//! Logins by password: the table of logins that wait for the
//! administrator, and what each answer of the service does to it.
//!
//! A login waits under its account number and the number of its protocol.
//! It is made when the service answers the password with a challenge, it is
//! kept up to date while the challenge goes on, and it is taken out again
//! when the service reports success, which promotes the login to a bot, or
//! when the administrator deletes it.

use vstd::prelude::*;
use crate::error::{RCError, RCResult};
use crate::native::{Credential, LoginResponse, Password, Protocol};
use crate::util::text::{chars_of, decimal, push_decimal, push_str, string_of};

verus! {

/// A login that waits for the administrator.
#[derive(Debug)]
pub struct PasswordClient {
    /// The account that logs in, which also stands for its session.
    pub uin: i64,
    pub protocol: u8,
    /// The last answer of the service.
    pub login_response: LoginResponse,
    pub credential: Credential,
}

/// Log an account in with its password.
#[derive(Clone, Debug, Default)]
pub struct CreateClientReq {
    pub uin: i64,
    pub protocol: u8,
    pub password: String,
    pub device_seed: Option<u64>,
}

/// Answer the captcha of a login with this ticket.
#[derive(Clone, Debug, Default)]
pub struct SubmitTicketReq {
    pub uin: i64,
    pub protocol: u8,
    pub ticket: String,
}

/// Ask the service to send an SMS code for a login.
#[derive(Clone, Copy, Debug, Default)]
pub struct RequestSmsReq {
    pub uin: i64,
    pub protocol: u8,
}

/// Answer the device lock of a login with this SMS code.
#[derive(Clone, Debug, Default)]
pub struct SubmitSmsReq {
    pub uin: i64,
    pub protocol: u8,
    pub sms: String,
}

/// How far a login has come, as the administrator sees it.
#[derive(Clone, Debug, Default, PartialEq, Eq)]
pub struct PasswordLoginResp {
    pub state: String,
    pub captcha_url: Option<String>,
    pub verify_url: Option<String>,
    pub sms_phone: Option<String>,
    pub message: Option<String>,
}

/// The logins that wait.
#[derive(Debug, Default)]
pub struct ListClientResp {
    pub clients: Vec<ListClientRespClient>,
}

/// One login that waits.
#[derive(Debug, Default)]
pub struct ListClientRespClient {
    pub uin: i64,
    pub protocol: u8,
    pub resp: PasswordLoginResp,
}

/// Delete the login that waits under this account and protocol.
#[derive(Clone, Copy, Debug, Default)]
pub struct DeleteClientReq {
    pub uin: i64,
    pub protocol: u8,
}

/// The login was deleted.
#[derive(Clone, Copy, Debug, Default)]
pub struct DeleteClientResp {}

/// The logins that a map holds.
pub uninterp spec fn waiting(clients: dashmap::DashMap<(i64, u8), PasswordClient>) -> Map<
    (i64, u8),
    PasswordClient,
>;

/// No logins at all.
pub open spec fn nobody_waiting() -> Map<(i64, u8), PasswordClient> {
    Map::empty()
}

/// `dashmap::DashMap::new`: an empty map.
#[verifier::external_body]
fn map_new() -> (clients: dashmap::DashMap<(i64, u8), PasswordClient>)
    ensures
        waiting(clients) == nobody_waiting(),
{
    dashmap::DashMap::new()
}

/// `dashmap::DashMap::insert`: puts `client` under `key` and hands out
/// what stood there before, if anything.
#[verifier::external_body]
fn map_insert(
    clients: &mut dashmap::DashMap<(i64, u8), PasswordClient>,
    key: (i64, u8),
    client: PasswordClient,
) -> (prior: Option<PasswordClient>)
    ensures
        waiting(*final(clients)) == waiting(*old(clients)).insert(key, client),
        prior == if waiting(*old(clients)).contains_key(key) {
            Some(waiting(*old(clients))[key])
        } else {
            None
        },
{
    clients.insert(key, client)
}

/// `dashmap::DashMap::remove`: takes out what stands under `key` and hands
/// it out, if there is anything.
#[verifier::external_body]
fn map_remove(clients: &mut dashmap::DashMap<(i64, u8), PasswordClient>, key: (i64, u8)) -> (prior:
    Option<PasswordClient>)
    ensures
        waiting(*final(clients)) == waiting(*old(clients)).remove(key),
        prior == if waiting(*old(clients)).contains_key(key) {
            Some(waiting(*old(clients))[key])
        } else {
            None
        },
{
    clients.remove(&key).map(|entry| entry.1)
}

/// `dashmap::DashMap::contains_key`: whether the map holds something
/// under `key`.
#[verifier::external_body]
fn map_contains(clients: &dashmap::DashMap<(i64, u8), PasswordClient>, key: (i64, u8)) -> (b: bool)
    ensures
        b == waiting(*clients).contains_key(key),
{
    clients.contains_key(&key)
}

/// `dashmap::DashMap::iter`: the keys under which the map holds a login,
/// each once, in no particular order.
#[verifier::external_body]
fn map_keys(clients: &dashmap::DashMap<(i64, u8), PasswordClient>) -> (keys: Vec<(i64, u8)>)
    ensures
        keys@.no_duplicates(),
        keys@.to_set() == waiting(*clients).dom(),
{
    clients.iter().map(|entry| *entry.key()).collect()
}

/// The text that reports a status the gateway does not know.
pub open spec fn unknown_status_text(status: u8, message: Seq<char>) -> Seq<char> {
    "status: "@ + decimal(status as int) + " message: "@ + message
}

/// What the administrator sees of an answer of the service.
pub open spec fn login_resp_of(r: PasswordLoginResp, l: LoginResponse) -> bool {
    match l {
        LoginResponse::Success => {
            &&& r.state@ == "success"@
            &&& r.captcha_url is None
            &&& r.verify_url is None
            &&& r.sms_phone is None
            &&& r.message is None
        },
        LoginResponse::NeedCaptcha { verify_url } => {
            &&& r.state@ == "need_captcha"@
            &&& r.captcha_url.deep_view() == verify_url.deep_view()
            &&& r.verify_url is None
            &&& r.sms_phone is None
            &&& r.message is None
        },
        LoginResponse::AccountFrozen => {
            &&& r.state@ == "account_frozen"@
            &&& r.captcha_url is None
            &&& r.verify_url is None
            &&& r.sms_phone is None
            &&& r.message is None
        },
        LoginResponse::DeviceLocked { sms_phone, verify_url, message } => {
            &&& r.state@ == "device_locked"@
            &&& r.captcha_url is None
            &&& r.verify_url.deep_view() == verify_url.deep_view()
            &&& r.sms_phone.deep_view() == sms_phone.deep_view()
            &&& r.message.deep_view() == message.deep_view()
        },
        LoginResponse::TooManySMSRequest => {
            &&& r.state@ == "too_many_sms_request"@
            &&& r.captcha_url is None
            &&& r.verify_url is None
            &&& r.sms_phone is None
            &&& r.message is None
        },
        LoginResponse::DeviceLockLogin => {
            &&& r.state@ == "device_lock_login"@
            &&& r.captcha_url is None
            &&& r.verify_url is None
            &&& r.sms_phone is None
            &&& r.message is None
        },
        LoginResponse::UnknownStatus { status, message } => {
            &&& r.state@ == "unknown"@
            &&& r.captcha_url is None
            &&& r.verify_url is None
            &&& r.sms_phone is None
            &&& r.message matches Some(text) && text@ == unknown_status_text(status, message@)
        },
    }
}

fn copy_text(s: &Option<String>) -> (copy: Option<String>)
    ensures
        copy.deep_view() == s.deep_view(),
{
    match s {
        Some(text) => Some(text.clone()),
        None => None,
    }
}

fn plain_state(state: &str) -> (r: PasswordLoginResp)
    ensures
        r.state@ == state@,
        r.captcha_url is None,
        r.verify_url is None,
        r.sms_phone is None,
        r.message is None,
{
    PasswordLoginResp {
        state: state.to_string(),
        captcha_url: None,
        verify_url: None,
        sms_phone: None,
        message: None,
    }
}

impl PasswordLoginResp {
    /// What the administrator sees of an answer of the service.
    pub fn from(login_response: LoginResponse) -> (r: Self)
        ensures
            login_resp_of(r, login_response),
    {
        Self::describe(&login_response)
    }

    /// What the administrator sees of an answer of the service.
    pub fn describe(login_response: &LoginResponse) -> (r: Self)
        ensures
            login_resp_of(r, *login_response),
    {
        match login_response {
            LoginResponse::Success => plain_state("success"),
            LoginResponse::NeedCaptcha { verify_url } => {
                let mut r = plain_state("need_captcha");
                r.captcha_url = copy_text(verify_url);
                r
            },
            LoginResponse::AccountFrozen => plain_state("account_frozen"),
            LoginResponse::DeviceLocked { sms_phone, verify_url, message } => {
                let mut r = plain_state("device_locked");
                r.verify_url = copy_text(verify_url);
                r.sms_phone = copy_text(sms_phone);
                r.message = copy_text(message);
                r
            },
            LoginResponse::TooManySMSRequest => plain_state("too_many_sms_request"),
            LoginResponse::DeviceLockLogin => plain_state("device_lock_login"),
            LoginResponse::UnknownStatus { status, message } => {
                let mut text = chars_of("status: ");
                push_decimal(&mut text, *status as i64);
                push_str(&mut text, " message: ");
                push_str(&mut text, message.as_str());
                let mut r = plain_state("unknown");
                r.message = Some(string_of(&text));
                r
            },
        }
    }
}

/// The seed from which the device of a login is made: the one the request
/// gives, or, where it gives none or zero, the account number.
pub open spec fn device_seed_of(req: CreateClientReq) -> u64 {
    match req.device_seed {
        Some(seed) => if seed == 0 {
            req.uin as u64
        } else {
            seed
        },
        None => req.uin as u64,
    }
}

/// The seed from which the device of a login is made.
pub fn device_seed(req: &CreateClientReq) -> (seed: u64)
    ensures
        seed == device_seed_of(*req),
{
    let own: u64 = #[verifier::truncate] (req.uin as u64);
    match req.device_seed {
        Some(seed) => if seed == 0 {
            own
        } else {
            seed
        },
        None => own,
    }
}

/// Whether an answer of the service asks for the device lock login, which
/// is then made at once and whose answer counts instead.
pub fn needs_device_lock_login(resp: &LoginResponse) -> (b: bool)
    ensures
        b == (*resp is DeviceLockLogin),
{
    match resp {
        LoginResponse::DeviceLockLogin => true,
        _ => false,
    }
}

/// The number under which the protocol that `protocol` selects is kept.
pub open spec fn kept_protocol(protocol: u8) -> u8 {
    Protocol::spec_from_u8(protocol).spec_to_u8()
}

/// What an answer of the service to a step of a login leads to.
#[derive(Debug)]
pub struct LoginOutcome {
    /// What the administrator is told.
    pub response: PasswordLoginResp,
    /// On success: with what the new bot logs in again.
    pub promoted: Option<Credential>,
    /// A login that had to make room; its session is to be closed.
    pub displaced: Option<PasswordClient>,
}

/// The logins by password that wait for the administrator, each under its
/// account number and the number of its protocol.
pub struct PasswordClients {
    clients: dashmap::DashMap<(i64, u8), PasswordClient>,
}

impl View for PasswordClients {
    type V = Map<(i64, u8), PasswordClient>;

    closed spec fn view(&self) -> Map<(i64, u8), PasswordClient> {
        waiting(self.clients)
    }
}

impl PasswordClients {
    /// Nobody waits.
    pub fn new() -> (clients: Self)
        ensures
            clients@ == nobody_waiting(),
    {
        PasswordClients { clients: map_new() }
    }

    /// Whether a login waits under `uin` and `protocol`.
    pub fn contains(&self, uin: i64, protocol: u8) -> (b: bool)
        ensures
            b == self@.contains_key((uin, protocol)),
    {
        map_contains(&self.clients, (uin, protocol))
    }

    /// Finds the login under `uin` and `protocol`, before anything is asked
    /// of the service on its behalf.
    pub fn find(&self, uin: i64, protocol: u8) -> (r: RCResult<()>)
        ensures
            self@.contains_key((uin, protocol)) ==> r is Ok,
            !self@.contains_key((uin, protocol)) ==> (r matches Err(e) && e is ClientNotFound),
    {
        if self.contains(uin, protocol) {
            Ok(())
        } else {
            Err(RCError::ClientNotFound)
        }
    }

    /// Takes in the answer of the service to the password of a new login.
    ///
    /// On success the login is promoted with its password and nothing is
    /// kept. Otherwise the login waits under its account number and the
    /// number of its protocol, in the place of one that waited there.
    pub fn login(&mut self, req: CreateClientReq, resp: LoginResponse) -> (out: LoginOutcome)
        ensures
            login_resp_of(out.response, resp),
            resp is Success ==> {
                &&& final(self)@ == old(self)@
                &&& out.displaced is None
                &&& (out.promoted matches Some(Credential::Password(p)) && p.uin == req.uin
                    && p.password == req.password)
            },
            !(resp is Success) ==> {
                let key = (req.uin, kept_protocol(req.protocol));
                &&& out.promoted is None
                &&& final(self)@.dom() == old(self)@.dom().insert(key)
                &&& forall|other: (i64, u8)|
                    other != key && old(self)@.contains_key(other) ==> final(self)@[other] == old(
                        self,
                    )@[other]
                &&& final(self)@[key].uin == req.uin
                &&& final(self)@[key].protocol == key.1
                &&& final(self)@[key].login_response == resp
                &&& (final(self)@[key].credential matches Credential::Password(p) && p.uin
                    == req.uin && p.password == req.password)
                &&& out.displaced == if old(self)@.contains_key(key) {
                    Some(old(self)@[key])
                } else {
                    None
                }
            },
    {
        let response = PasswordLoginResp::describe(&resp);
        let protocol = Protocol::from_u8(req.protocol).to_u8();
        let credential = Credential::Password(Password { uin: req.uin, password: req.password });
        match resp {
            LoginResponse::Success => LoginOutcome {
                response,
                promoted: Some(credential),
                displaced: None,
            },
            _ => {
                let client = PasswordClient {
                    uin: req.uin,
                    protocol,
                    login_response: resp,
                    credential,
                };
                let displaced = map_insert(&mut self.clients, (req.uin, protocol), client);
                assert(self@.dom() =~= old(self)@.dom().insert((req.uin, protocol)));
                LoginOutcome { response, promoted: None, displaced }
            },
        }
    }

    /// Takes in the answer of the service to a step of a login that waits.
    ///
    /// On success the login is taken out and promoted with what it logs in
    /// again with; where it is gone already, there is nothing to promote.
    /// Otherwise the answer is kept with the login; where the login is gone,
    /// that is `ClientNotFound`.
    fn challenge_answered(&mut self, uin: i64, protocol: u8, resp: LoginResponse) -> (r: RCResult<
        LoginOutcome,
    >)
        ensures
            challenge_outcome(old(self)@, final(self)@, uin, protocol, resp, r),
    {
        let response = PasswordLoginResp::describe(&resp);
        let key = (uin, protocol);
        match map_remove(&mut self.clients, key) {
            None => {
                assert(self@ =~= old(self)@);
                match resp {
                    LoginResponse::Success => Ok(
                        LoginOutcome { response, promoted: None, displaced: None },
                    ),
                    _ => Err(RCError::ClientNotFound),
                }
            },
            Some(client) => {
                match resp {
                    LoginResponse::Success => Ok(
                        LoginOutcome {
                            response,
                            promoted: Some(client.credential),
                            displaced: None,
                        },
                    ),
                    _ => {
                        let kept = PasswordClient {
                            uin: client.uin,
                            protocol: client.protocol,
                            login_response: resp,
                            credential: client.credential,
                        };
                        map_insert(&mut self.clients, key, kept);
                        assert(self@.dom() =~= old(self)@.dom());
                        Ok(LoginOutcome { response, promoted: None, displaced: None })
                    },
                }
            },
        }
    }

    /// Takes in the answer of the service to a captcha ticket.
    pub fn submit_ticket(&mut self, req: &SubmitTicketReq, resp: LoginResponse) -> (r: RCResult<
        LoginOutcome,
    >)
        ensures
            challenge_outcome(old(self)@, final(self)@, req.uin, req.protocol, resp, r),
    {
        self.challenge_answered(req.uin, req.protocol, resp)
    }

    /// Takes in the answer of the service to an SMS code.
    pub fn submit_sms(&mut self, req: &SubmitSmsReq, resp: LoginResponse) -> (r: RCResult<
        LoginOutcome,
    >)
        ensures
            challenge_outcome(old(self)@, final(self)@, req.uin, req.protocol, resp, r),
    {
        self.challenge_answered(req.uin, req.protocol, resp)
    }

    /// Takes in the answer of the service to the request for an SMS code:
    /// it is kept with the login, whatever it is; where the login is gone,
    /// that is `ClientNotFound`.
    pub fn request_sms(&mut self, req: &RequestSmsReq, resp: LoginResponse) -> (r: RCResult<
        PasswordLoginResp,
    >)
        ensures
            match r {
                Ok(response) => {
                    let key = (req.uin, req.protocol);
                    &&& old(self)@.contains_key(key)
                    &&& login_resp_of(response, resp)
                    &&& kept_with(old(self)@, final(self)@, key, resp)
                },
                Err(e) => e is ClientNotFound && !old(self)@.contains_key((req.uin, req.protocol))
                    && final(self)@ == old(self)@,
            },
    {
        let response = PasswordLoginResp::describe(&resp);
        let key = (req.uin, req.protocol);
        match map_remove(&mut self.clients, key) {
            None => {
                assert(self@ =~= old(self)@);
                Err(RCError::ClientNotFound)
            },
            Some(client) => {
                let kept = PasswordClient {
                    uin: client.uin,
                    protocol: client.protocol,
                    login_response: resp,
                    credential: client.credential,
                };
                map_insert(&mut self.clients, key, kept);
                assert(self@.dom() =~= old(self)@.dom());
                Ok(response)
            },
        }
    }

    /// The logins that wait, each once, with what the administrator sees
    /// of its last answer.
    pub fn list(&mut self) -> (resp: ListClientResp)
        ensures
            final(self)@ == old(self)@,
            forall|k: int|
                0 <= k < resp.clients@.len() ==> {
                    let c = #[trigger] resp.clients@[k];
                    old(self)@.contains_key((c.uin, c.protocol)) && login_resp_of(
                        c.resp,
                        old(self)@[(c.uin, c.protocol)].login_response,
                    )
                },
            forall|key: (i64, u8)|
                old(self)@.contains_key(key) ==> exists|k: int|
                    0 <= k < resp.clients@.len() && (#[trigger] resp.clients@[k]).uin == key.0
                        && resp.clients@[k].protocol == key.1,
            forall|i: int, j: int|
                0 <= i < j < resp.clients@.len() ==> (resp.clients@[i].uin, resp.clients@[i].protocol)
                    != (resp.clients@[j].uin, resp.clients@[j].protocol),
    {
        let keys = map_keys(&self.clients);
        let mut clients: Vec<ListClientRespClient> = Vec::new();
        let mut i: usize = 0;
        while i < keys.len()
            invariant
                i <= keys@.len(),
                self@ == old(self)@,
                keys@.no_duplicates(),
                keys@.to_set() == old(self)@.dom(),
                clients@.len() == i,
                forall|k: int|
                    0 <= k < i ==> {
                        let c = #[trigger] clients@[k];
                        (c.uin, c.protocol) == keys@[k] && login_resp_of(
                            c.resp,
                            old(self)@[keys@[k]].login_response,
                        )
                    },
            decreases keys@.len() - i,
        {
            let key = keys[i];
            proof {
                assert(keys@.contains(key));
                assert(keys@.to_set().contains(key));
            }
            match map_remove(&mut self.clients, key) {
                Some(client) => {
                    let resp = PasswordLoginResp::describe(&client.login_response);
                    clients.push(ListClientRespClient { uin: key.0, protocol: key.1, resp });
                    map_insert(&mut self.clients, key, client);
                    assert(self@ =~= old(self)@);
                },
                None => {
                    assert(false);
                },
            }
            i = i + 1;
        }
        proof {
            assert forall|k: int| 0 <= k < clients@.len() implies {
                let c = #[trigger] clients@[k];
                old(self)@.contains_key((c.uin, c.protocol)) && login_resp_of(
                    c.resp,
                    old(self)@[(c.uin, c.protocol)].login_response,
                )
            } by {
                assert(keys@.contains(keys@[k]));
                assert(keys@.to_set().contains(keys@[k]));
            }
            assert forall|key: (i64, u8)| old(self)@.contains_key(key) implies exists|k: int|
                0 <= k < clients@.len() && (#[trigger] clients@[k]).uin == key.0
                    && clients@[k].protocol == key.1 by {
                assert(keys@.to_set().contains(key));
                assert(keys@.contains(key));
                let k = choose|k: int| 0 <= k < keys@.len() && keys@[k] == key;
                assert((clients@[k].uin, clients@[k].protocol) == keys@[k]);
            }
        }
        ListClientResp { clients }
    }

    /// Deletes the login that the request names. The login is handed out
    /// with the answer, so that its session can be closed.
    pub fn delete(&mut self, req: DeleteClientReq) -> (r: (DeleteClientResp, Option<PasswordClient>))
        ensures
            final(self)@ == old(self)@.remove((req.uin, req.protocol)),
            r.1 == if old(self)@.contains_key((req.uin, req.protocol)) {
                Some(old(self)@[(req.uin, req.protocol)])
            } else {
                None
            },
    {
        let removed = map_remove(&mut self.clients, (req.uin, req.protocol));
        (DeleteClientResp {  }, removed)
    }
}

/// Whether `after` is `before` with the answer `resp` kept with the login
/// under `key`, and nothing else changed.
pub open spec fn kept_with(
    before: Map<(i64, u8), PasswordClient>,
    after: Map<(i64, u8), PasswordClient>,
    key: (i64, u8),
    resp: LoginResponse,
) -> bool {
    &&& after.dom() == before.dom()
    &&& forall|other: (i64, u8)|
        other != key && before.contains_key(other) ==> after[other] == before[other]
    &&& after[key].uin == before[key].uin
    &&& after[key].protocol == before[key].protocol
    &&& after[key].credential == before[key].credential
    &&& after[key].login_response == resp
}

/// What the answer `resp` of the service to a step of the login under `uin`
/// and `protocol` leads to.
pub open spec fn challenge_outcome(
    before: Map<(i64, u8), PasswordClient>,
    after: Map<(i64, u8), PasswordClient>,
    uin: i64,
    protocol: u8,
    resp: LoginResponse,
    r: RCResult<LoginOutcome>,
) -> bool {
    let key = (uin, protocol);
    if resp is Success {
        &&& after == before.remove(key)
        &&& r matches Ok(out) && {
            &&& login_resp_of(out.response, resp)
            &&& out.displaced is None
            &&& out.promoted == if before.contains_key(key) {
                Some(before[key].credential)
            } else {
                None
            }
        }
    } else if before.contains_key(key) {
        &&& kept_with(before, after, key, resp)
        &&& r matches Ok(out) && {
            &&& login_resp_of(out.response, resp)
            &&& out.displaced is None
            &&& out.promoted is None
        }
    } else {
        &&& after == before
        &&& r matches Err(e) && e is ClientNotFound
    }
}

} // verus!
