//! The connection upgrade handler's core: validate the routing key, then
//! attach a fresh session to the key's channel, creating the channel on the
//! first connection to that key.

use vstd::prelude::*;
use crate::registry::{subscribe_to, Registry};
use crate::session::{Session, SessionState};
use crate::text::blank;

verus! {

/// A connection request is accepted exactly when its routing key is not
/// blank.
pub open spec fn connect_accepted(token: Seq<char>) -> bool {
    !blank(token)
}

/// The upgrade handler's gate: whether to upgrade or answer with a client
/// error.
pub fn connect_allowed(token: &String) -> (r: bool)
    ensures
        r == connect_accepted(token@),
{
    !crate::text::is_blank(token.as_str())
}

/// Opens a session for a validated routing key: subscribes to the key's
/// channel — created now if this is the key's first connection — and hands
/// back the session, still `Connecting`, with its subscription. A blank key
/// is refused: no session exists and nothing in the registry changes.
pub fn open_session(reg: &mut Registry, token: &String) -> (r: Option<
    (Session, tokio::sync::broadcast::Receiver<String>),
>)
    requires
        old(reg).wf(),
    ensures
        final(reg).wf(),
        r is Some <==> connect_accepted(token@),
        !connect_accepted(token@) ==> final(reg).keys() == old(reg).keys() && final(reg).history()
            == old(reg).history(),
        connect_accepted(token@) ==> final(reg).has_key(token@),
        connect_accepted(token@) && old(reg).has_key(token@) ==> final(reg).keys() == old(
            reg,
        ).keys() && final(reg).history() == old(reg).history(),
        connect_accepted(token@) && !old(reg).has_key(token@) ==> final(reg).keys() == old(
            reg,
        ).keys().push(token@) && final(reg).history() == old(reg).history().insert(
            token@,
            Seq::<Seq<char>>::empty(),
        ),
        r matches Some(p) ==> p.0.token@ == token@ && p.0.state == SessionState::Connecting,
{
    if !connect_allowed(token) {
        return Option::None;
    }
    let tx = reg.get_or_create(token);
    let rx = subscribe_to(&tx);
    Option::Some((Session { token: token.clone(), state: SessionState::Connecting }, rx))
}

} // verus!
