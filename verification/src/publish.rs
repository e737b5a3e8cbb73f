//! The publish handler: validates an inbound publish request, looks the
//! routing key up (never creating it), and fans the canonical payload out
//! to the key's channel.

use vstd::prelude::*;
use crate::json::{payload_json, to_json, PushRequest};
use crate::registry::Registry;
use crate::text::blank;

verus! {

/// The outcome a publisher is answered with.
#[derive(Clone, Copy, PartialEq, Eq, Structural, Debug)]
pub enum PushStatus {
    /// The key has a channel and the broadcast was issued, whatever the
    /// number of subscribers.
    Accepted,
    /// The message was empty or whitespace-only.
    BadRequest,
    /// The key has never been connected to.
    NotFound,
}

/// What a publish returns, given which keys have a channel: a blank message
/// is rejected before anything else; a key without a channel is not found;
/// otherwise the publish is accepted.
pub open spec fn push_status(keys: Set<Seq<char>>, token: Seq<char>, msg: Seq<char>) -> PushStatus {
    if blank(msg) {
        PushStatus::BadRequest
    } else if !keys.contains(token) {
        PushStatus::NotFound
    } else {
        PushStatus::Accepted
    }
}

/// Handles one publish call: on acceptance, exactly the canonical payload
/// text for `req` is broadcast on `token`'s channel and recorded in its
/// history; on rejection nothing is broadcast, nothing changes, and no
/// channel is created.
pub fn publish(reg: &mut Registry, token: &String, req: &PushRequest) -> (r: PushStatus)
    requires
        old(reg).wf(),
    ensures
        final(reg).wf(),
        r == push_status(old(reg).key_set(), token@, req.msg@),
        final(reg).keys() == old(reg).keys(),
        r == PushStatus::Accepted ==> final(reg).history() == old(reg).history().insert(
            token@,
            old(reg).history()[token@].push(payload_json(req@)),
        ),
        r != PushStatus::Accepted ==> final(reg).history() == old(reg).history(),
{
    if crate::text::is_blank(req.msg.as_str()) {
        return PushStatus::BadRequest;
    }
    let text = to_json(req);
    if reg.broadcast(token, text) {
        PushStatus::Accepted
    } else {
        PushStatus::NotFound
    }
}

} // verus!
