//! Listing and deleting bots.

use vstd::prelude::*;
use crate::bot::bots::{BotInfo, Bots};
use crate::bot::{stopped_from, Bot};

verus! {

/// The bots that are logged in.
#[derive(Debug, Default)]
pub struct ListBotResp {
    pub bots: Vec<BotInfo>,
}

/// Delete the bot of this account.
#[derive(Clone, Copy, Debug, Default)]
pub struct DeleteBotReq {
    pub uin: i64,
    pub protocol: u8,
}

/// The bot was deleted.
#[derive(Clone, Copy, Debug, Default)]
pub struct DeleteBotResp {}

/// The answer to a request for the list of bots, given what is known of
/// each.
pub fn list(infos: Vec<BotInfo>) -> (resp: ListBotResp)
    ensures
        resp.bots == infos,
{
    ListBotResp { bots: infos }
}

/// Deletes the bot that the request names. The bot, stopped, is handed out
/// with the answer, so that its session can be closed.
pub fn delete(bots: &mut Bots, req: DeleteBotReq) -> (r: (DeleteBotResp, Option<Bot>))
    ensures
        final(bots)@ == old(bots)@.remove(req.uin),
        r.1 is Some == old(bots)@.contains_key(req.uin),
        r.1 matches Some(bot) ==> stopped_from(old(bots)@[req.uin], bot),
{
    let removed = bots.delete_bot(req.uin);
    (DeleteBotResp {  }, removed)
}

} // verus!
