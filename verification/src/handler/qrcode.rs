//! Logins by QR code: the table of codes that wait to be scanned, and what
//! each answer of the service does to it.
//!
//! A code waits under its signature from the moment the service has issued
//! it. It is taken out when the service reports that the scan was confirmed,
//! which leads on to the login proper, or when the administrator deletes it.

use vstd::prelude::*;
use crate::error::{RCError, RCResult};
use crate::native::{Credential, LoginResponse, Protocol, QRCodeState};

verus! {

/// A QR code that waits to be scanned: its signature, which also stands
/// for its session, and its picture.
#[derive(Debug)]
pub struct QRCodeClient {
    pub sig: Vec<u8>,
    pub image: Vec<u8>,
}

/// Ask for a QR code to log in with.
#[derive(Clone, Copy, Debug, Default)]
pub struct CreateClientReq {
    pub device_seed: Option<u64>,
    pub client_protocol: Option<i32>,
}

/// A QR code: its signature and its picture.
#[derive(Clone, Debug, Default, PartialEq, Eq)]
pub struct CreateClientResp {
    pub sig: Vec<u8>,
    pub image: Vec<u8>,
}

/// Ask how far the scan of a QR code has come.
#[derive(Clone, Debug, Default)]
pub struct QueryQRCodeReq {
    pub sig: Vec<u8>,
}

/// How far the scan of a QR code has come.
#[derive(Clone, Debug, Default, PartialEq, Eq)]
pub struct QueryQRCodeResp {
    pub state: String,
}

/// The QR codes that wait.
#[derive(Debug, Default)]
pub struct ListClientResp {
    pub clients: Vec<ListClientRespClient>,
}

/// One QR code that waits.
#[derive(Clone, Debug, Default, PartialEq, Eq)]
pub struct ListClientRespClient {
    pub sig: Vec<u8>,
    pub image: Vec<u8>,
}

/// Delete the QR code with this signature.
#[derive(Clone, Debug, Default)]
pub struct DeleteClientReq {
    pub sig: Vec<u8>,
}

/// The QR code was deleted.
#[derive(Clone, Copy, Debug, Default)]
pub struct DeleteClientResp {}

/// The codes that a map holds, under their signatures.
pub uninterp spec fn scanning(clients: dashmap::DashMap<Vec<u8>, QRCodeClient>) -> Map<
    Seq<u8>,
    QRCodeClient,
>;

/// No codes at all.
pub open spec fn nothing_to_scan() -> Map<Seq<u8>, QRCodeClient> {
    Map::empty()
}

/// The signatures in `keys`, as mathematical values.
pub open spec fn signatures(keys: Seq<Vec<u8>>) -> Seq<Seq<u8>> {
    Seq::new(keys.len(), |i: int| keys[i]@)
}

/// `dashmap::DashMap::new`: an empty map.
#[verifier::external_body]
fn map_new() -> (clients: dashmap::DashMap<Vec<u8>, QRCodeClient>)
    ensures
        scanning(clients) == nothing_to_scan(),
{
    dashmap::DashMap::new()
}

/// `dashmap::DashMap::insert`: puts `client` under `sig` and hands out
/// what stood there before, if anything.
#[verifier::external_body]
fn map_insert(
    clients: &mut dashmap::DashMap<Vec<u8>, QRCodeClient>,
    sig: Vec<u8>,
    client: QRCodeClient,
) -> (prior: Option<QRCodeClient>)
    ensures
        scanning(*final(clients)) == scanning(*old(clients)).insert(sig@, client),
        prior == if scanning(*old(clients)).contains_key(sig@) {
            Some(scanning(*old(clients))[sig@])
        } else {
            None
        },
{
    clients.insert(sig, client)
}

/// `dashmap::DashMap::remove`: takes out what stands under `sig` and hands
/// it out, if there is anything.
#[verifier::external_body]
fn map_remove(clients: &mut dashmap::DashMap<Vec<u8>, QRCodeClient>, sig: &Vec<u8>) -> (prior:
    Option<QRCodeClient>)
    ensures
        scanning(*final(clients)) == scanning(*old(clients)).remove(sig@),
        prior == if scanning(*old(clients)).contains_key(sig@) {
            Some(scanning(*old(clients))[sig@])
        } else {
            None
        },
{
    clients.remove(sig).map(|entry| entry.1)
}

/// `dashmap::DashMap::contains_key`: whether the map holds something
/// under `sig`.
#[verifier::external_body]
fn map_contains(clients: &dashmap::DashMap<Vec<u8>, QRCodeClient>, sig: &Vec<u8>) -> (b: bool)
    ensures
        b == scanning(*clients).contains_key(sig@),
{
    clients.contains_key(sig)
}

/// `dashmap::DashMap::iter`: the signatures under which the map holds a
/// code, each once, in no particular order.
#[verifier::external_body]
fn map_keys(clients: &dashmap::DashMap<Vec<u8>, QRCodeClient>) -> (keys: Vec<Vec<u8>>)
    ensures
        signatures(keys@).no_duplicates(),
        signatures(keys@).to_set() == scanning(*clients).dom(),
{
    clients.iter().map(|entry| entry.key().clone()).collect()
}

/// `rand::random`: a random number.
#[verifier::external_body]
fn random_seed() -> u64 {
    rand::random()
}

/// The protocol that a request for a QR code selects: 1 to 4 select the
/// Android phone, the Android watch, macOS and QiDian; every other number,
/// and no number, selects the iPad.
pub open spec fn selected_protocol(client_protocol: Option<i32>) -> Protocol {
    match client_protocol {
        Some(1) => Protocol::AndroidPhone,
        Some(2) => Protocol::AndroidWatch,
        Some(3) => Protocol::MacOS,
        Some(4) => Protocol::QiDian,
        _ => Protocol::IPad,
    }
}

/// The protocol that a request for a QR code selects.
pub fn select_protocol(client_protocol: Option<i32>) -> (p: Protocol)
    ensures
        p == selected_protocol(client_protocol),
{
    match client_protocol {
        Some(1) => Protocol::AndroidPhone,
        Some(2) => Protocol::AndroidWatch,
        Some(3) => Protocol::MacOS,
        Some(4) => Protocol::QiDian,
        _ => Protocol::IPad,
    }
}

/// The seed from which the device of a login by QR code is made: the one
/// the request gives, or else `random`.
pub fn device_seed_or(req: &CreateClientReq, random: u64) -> (seed: u64)
    ensures
        seed == match req.device_seed {
            Some(s) => s,
            None => random,
        },
{
    match req.device_seed {
        Some(s) => s,
        None => random,
    }
}

/// The seed from which the device of a login by QR code is made: the one
/// the request gives, or else a random one.
pub fn device_seed(req: &CreateClientReq) -> (seed: u64)
    ensures
        req.device_seed matches Some(s) ==> seed == s,
{
    device_seed_or(req, random_seed())
}

/// The name of a state of a QR code.
pub open spec fn state_name(state: QRCodeState) -> Seq<char> {
    match state {
        QRCodeState::ImageFetch { .. } => "image_fetch"@,
        QRCodeState::WaitingForScan => "waiting_for_scan"@,
        QRCodeState::WaitingForConfirm => "waiting_for_confirm"@,
        QRCodeState::Timeout => "timeout"@,
        QRCodeState::Confirmed { .. } => "confirmed"@,
        QRCodeState::Canceled => "canceled"@,
    }
}

/// The name of a state of a QR code.
pub fn state_string(state: &QRCodeState) -> (s: String)
    ensures
        s@ == state_name(*state),
{
    match state {
        QRCodeState::ImageFetch { .. } => "image_fetch".to_string(),
        QRCodeState::WaitingForScan => "waiting_for_scan".to_string(),
        QRCodeState::WaitingForConfirm => "waiting_for_confirm".to_string(),
        QRCodeState::Timeout => "timeout".to_string(),
        QRCodeState::Confirmed { .. } => "confirmed".to_string(),
        QRCodeState::Canceled => "canceled".to_string(),
    }
}

/// What the service handed over when the scan of a code was confirmed,
/// with which the login proper is made.
#[derive(Clone, Debug, PartialEq, Eq)]
pub struct Confirmed {
    pub tmp_pwd: Vec<u8>,
    pub tmp_no_pic_sig: Vec<u8>,
    pub tgt_qr: Vec<u8>,
}

/// What the state of a code leads to.
#[derive(Debug)]
pub struct QueryOutcome {
    /// What the administrator is told.
    pub response: QueryQRCodeResp,
    /// Where the scan was confirmed: the code, which waits no longer, and
    /// what to log in with.
    pub login: Option<(QRCodeClient, Confirmed)>,
}

/// With what a bot that logged in by QR code logs in again: the token of
/// its session. `None` unless the login succeeded.
pub fn promotion(resp: &LoginResponse, token: Vec<u8>) -> (c: Option<Credential>)
    ensures
        c == if *resp is Success {
            Some(Credential::Token(token))
        } else {
            None
        },
{
    match resp {
        LoginResponse::Success => Some(Credential::Token(token)),
        _ => None,
    }
}

fn copy_bytes(v: &Vec<u8>) -> (copy: Vec<u8>)
    ensures
        copy@ == v@,
{
    let mut copy: Vec<u8> = Vec::new();
    let mut i: usize = 0;
    while i < v.len()
        invariant
            i <= v@.len(),
            copy@ == v@.take(i as int),
        decreases v@.len() - i,
    {
        copy.push(v[i]);
        assert(copy@ =~= v@.take(i + 1));
        i = i + 1;
    }
    assert(v@.take(i as int) =~= v@);
    copy
}

/// Whether `clients` lists the codes of `table` in the order `sigs` of
/// their signatures: every code once, with its signature and its picture.
pub open spec fn listed(
    clients: Seq<ListClientRespClient>,
    table: Map<Seq<u8>, QRCodeClient>,
    sigs: Seq<Seq<u8>>,
) -> bool {
    &&& sigs.no_duplicates()
    &&& sigs.to_set() == table.dom()
    &&& clients.len() == sigs.len()
    &&& forall|k: int|
        0 <= k < sigs.len() ==> table.contains_key(#[trigger] sigs[k]) && clients[k].sig@
            == table[sigs[k]].sig@ && clients[k].image@ == table[sigs[k]].image@
}

/// The QR codes that wait to be scanned, each under its signature.
pub struct QRCodeClients {
    clients: dashmap::DashMap<Vec<u8>, QRCodeClient>,
}

impl View for QRCodeClients {
    type V = Map<Seq<u8>, QRCodeClient>;

    closed spec fn view(&self) -> Map<Seq<u8>, QRCodeClient> {
        scanning(self.clients)
    }
}

impl QRCodeClients {
    /// No code waits.
    pub fn new() -> (clients: Self)
        ensures
            clients@ == nothing_to_scan(),
    {
        QRCodeClients { clients: map_new() }
    }

    /// Finds the code with the signature `sig`, before anything is asked of
    /// the service on its behalf.
    pub fn find(&self, sig: &Vec<u8>) -> (r: RCResult<()>)
        ensures
            self@.contains_key(sig@) ==> r is Ok,
            !self@.contains_key(sig@) ==> (r matches Err(e) && e is ClientNotFound),
    {
        if map_contains(&self.clients, sig) {
            Ok(())
        } else {
            Err(RCError::ClientNotFound)
        }
    }

    /// Takes in the answer of the service to the request for a new code.
    /// A code with its picture waits from now on under its signature, in the
    /// place of one that waited there; any other answer is an error.
    pub fn create(&mut self, state: QRCodeState) -> (r: RCResult<CreateClientResp>)
        ensures
            match state {
                QRCodeState::ImageFetch { image_data, sig } => {
                    &&& r matches Ok(resp) && resp.sig@ == sig@ && resp.image@ == image_data@
                    &&& final(self)@.dom() == old(self)@.dom().insert(sig@)
                    &&& forall|other: Seq<u8>|
                        other != sig@ && old(self)@.contains_key(other) ==> final(self)@[other]
                            == old(self)@[other]
                    &&& final(self)@[sig@].sig@ == sig@
                    &&& final(self)@[sig@].image@ == image_data@
                },
                _ => {
                    &&& final(self)@ == old(self)@
                    &&& r matches Err(RCError::Other(text)) && text@ == "invalid qrcode_state"@
                },
            },
    {
        match state {
            QRCodeState::ImageFetch { image_data, sig } => {
                let client = QRCodeClient { sig: copy_bytes(&sig), image: copy_bytes(&image_data) };
                let resp = CreateClientResp { sig: copy_bytes(&sig), image: image_data };
                map_insert(&mut self.clients, sig, client);
                assert(self@.dom() =~= old(self)@.dom().insert(sig@));
                Ok(resp)
            },
            _ => Err(RCError::Other("invalid qrcode_state".to_string())),
        }
    }

    /// Takes in what the service says about the code of the request.
    ///
    /// Where the scan was confirmed, the code is taken out and handed over
    /// with what to log in with; where it is gone already, that is
    /// `ClientNotFound`. In every other state the code goes on waiting. The
    /// administrator is told the name of the state.
    pub fn query(&mut self, req: &QueryQRCodeReq, state: QRCodeState) -> (r: RCResult<QueryOutcome>)
        ensures
            match state {
                QRCodeState::Confirmed { tmp_pwd, tmp_no_pic_sig, tgt_qr } => {
                    &&& final(self)@ == old(self)@.remove(req.sig@)
                    &&& if old(self)@.contains_key(req.sig@) {
                        r matches Ok(out) && out.response.state@ == "confirmed"@ && out.login
                            == Some(
                            (old(self)@[req.sig@], Confirmed { tmp_pwd, tmp_no_pic_sig, tgt_qr }),
                        )
                    } else {
                        r matches Err(e) && e is ClientNotFound
                    }
                },
                _ => {
                    &&& final(self)@ == old(self)@
                    &&& r matches Ok(out) && out.response.state@ == state_name(state) && out.login
                        is None
                },
            },
    {
        let response = QueryQRCodeResp { state: state_string(&state) };
        match state {
            QRCodeState::Confirmed { tmp_pwd, tmp_no_pic_sig, tgt_qr } => {
                match map_remove(&mut self.clients, &req.sig) {
                    Some(client) => Ok(
                        QueryOutcome {
                            response,
                            login: Some((client, Confirmed { tmp_pwd, tmp_no_pic_sig, tgt_qr })),
                        },
                    ),
                    None => Err(RCError::ClientNotFound),
                }
            },
            _ => Ok(QueryOutcome { response, login: None }),
        }
    }

    /// The codes that wait, each once, with their pictures.
    pub fn list(&mut self) -> (resp: ListClientResp)
        ensures
            final(self)@ == old(self)@,
            exists|sigs: Seq<Seq<u8>>| listed(resp.clients@, old(self)@, sigs),
    {
        let keys = map_keys(&self.clients);
        let ghost sigs = signatures(keys@);
        let mut clients: Vec<ListClientRespClient> = Vec::new();
        let mut i: usize = 0;
        while i < keys.len()
            invariant
                i <= keys@.len(),
                self@ == old(self)@,
                sigs == signatures(keys@),
                sigs.no_duplicates(),
                sigs.to_set() == old(self)@.dom(),
                clients@.len() == i,
                forall|k: int|
                    0 <= k < i ==> old(self)@.contains_key(#[trigger] sigs[k]) && clients@[k].sig@
                        == old(self)@[sigs[k]].sig@ && clients@[k].image@ == old(
                        self,
                    )@[sigs[k]].image@,
            decreases keys@.len() - i,
        {
            let key = &keys[i];
            proof {
                assert(sigs[i as int] == key@);
                assert(sigs.contains(key@));
                assert(sigs.to_set().contains(key@));
            }
            match map_remove(&mut self.clients, key) {
                Some(client) => {
                    let entry = ListClientRespClient {
                        sig: copy_bytes(&client.sig),
                        image: copy_bytes(&client.image),
                    };
                    clients.push(entry);
                    map_insert(&mut self.clients, copy_bytes(key), client);
                    assert(self@ =~= old(self)@);
                },
                None => {
                    assert(false);
                },
            }
            i = i + 1;
        }
        let resp = ListClientResp { clients };
        assert(listed(resp.clients@, old(self)@, sigs));
        resp
    }

    /// Deletes the code that the request names. The code is handed out with
    /// the answer, so that its session can be closed.
    pub fn delete(&mut self, req: DeleteClientReq) -> (r: (DeleteClientResp, Option<QRCodeClient>))
        ensures
            final(self)@ == old(self)@.remove(req.sig@),
            r.1 == if old(self)@.contains_key(req.sig@) {
                Some(old(self)@[req.sig@])
            } else {
                None
            },
    {
        let removed = map_remove(&mut self.clients, &req.sig);
        (DeleteClientResp {  }, removed)
    }
}

} // verus!
