//! The channel registry: the shared mapping from routing key to broadcast
//! channel. Channels are created lazily on first connection and never
//! removed. The broadcast primitive itself is tokio's multi-subscriber
//! channel; what this crate relies on of it stands in the trusted items
//! below.

use vstd::prelude::*;

verus! {

#[verifier::external_type_specification]
#[verifier::external_body]
#[verifier::reject_recursive_types(T)]
pub struct ExSender<T>(tokio::sync::broadcast::Sender<T>);

#[verifier::external_type_specification]
#[verifier::external_body]
#[verifier::reject_recursive_types(T)]
pub struct ExReceiver<T>(tokio::sync::broadcast::Receiver<T>);

/// Relies on `tokio::sync::broadcast::channel`: creates a channel that
/// buffers `capacity` pending messages per subscriber, dropping the oldest
/// unread one on overflow. The function panics when `capacity` is zero or
/// above `usize::MAX / 2`, so those values are excluded here.
#[verifier::external_body]
fn new_channel(capacity: usize) -> tokio::sync::broadcast::Sender<String>
    requires
        1 <= capacity <= usize::MAX / 2,
{
    let (tx, _) = tokio::sync::broadcast::channel(capacity);
    tx
}

/// Relies on `tokio::sync::broadcast::Sender::clone`: the clone is another
/// handle to the same channel.
#[verifier::external_body]
fn clone_sender(tx: &tokio::sync::broadcast::Sender<String>) -> tokio::sync::broadcast::Sender<
    String,
> {
    tx.clone()
}

/// Relies on `tokio::sync::broadcast::Sender::subscribe`: the receiver is a
/// new subscriber of the sender's channel, with its own read cursor, seeing
/// the messages sent after this call.
#[verifier::external_body]
pub(crate) fn subscribe_to(tx: &tokio::sync::broadcast::Sender<String>) -> tokio::sync::broadcast::Receiver<
    String,
> {
    tx.subscribe()
}

/// Relies on `tokio::sync::broadcast::Sender::send`: non-blocking, queues the
/// message for every current subscriber (a subscriber whose buffer is full
/// silently loses its oldest pending message instead), and errs only when
/// there is no subscriber at all — which a fire-and-forget broadcast
/// ignores, as delivering to nobody is not an error here.
#[verifier::external_body]
fn send_text(tx: &tokio::sync::broadcast::Sender<String>, text: String) {
    let _ = tx.send(text);
}

struct Entry {
    key: String,
    tx: tokio::sync::broadcast::Sender<String>,
}

/// The registry: one broadcast channel per routing key that has ever been
/// connected to, plus the (ghost) history of everything broadcast per key.
pub struct Registry {
    entries: Vec<Entry>,
    hist: Ghost<Map<Seq<char>, Seq<Seq<char>>>>,
}

impl Registry {
    /// The routing keys that have a channel, in creation order.
    pub closed spec fn keys(self) -> Seq<Seq<char>> {
        self.entries@.map(|i: int, e: Entry| e.key@)
    }

    /// The set of routing keys that have a channel.
    pub open spec fn key_set(self) -> Set<Seq<char>> {
        self.keys().to_set()
    }

    pub open spec fn has_key(self, k: Seq<char>) -> bool {
        self.key_set().contains(k)
    }

    /// Everything broadcast so far on each key's channel, oldest first.
    pub closed spec fn history(self) -> Map<Seq<char>, Seq<Seq<char>>> {
        self.hist@
    }

    /// Well-formed: one entry per key, and a history for exactly the keys
    /// that have a channel.
    pub closed spec fn wf(self) -> bool {
        &&& forall|i: int, j: int|
            0 <= i < j < self.keys().len() ==> self.keys()[i] != self.keys()[j]
        &&& self.hist@.dom() == self.key_set()
    }

    /// An empty registry: no key has a channel yet.
    pub fn new() -> (r: Registry)
        ensures
            r.wf(),
            r.keys() == Seq::<Seq<char>>::empty(),
            r.history() == Map::<Seq<char>, Seq<Seq<char>>>::empty(),
    {
        let r = Registry { entries: Vec::new(), hist: Ghost(Map::empty()) };
        proof {
            assert(r.keys() =~= Seq::<Seq<char>>::empty());
            assert(r.hist@.dom() =~= r.key_set());
        }
        r
    }

    fn find(&self, token: &String) -> (r: Option<usize>)
        ensures
            match r {
                Option::Some(i) => i < self.keys().len() && self.keys()[i as int] == token@,
                Option::None => !self.has_key(token@),
            },
    {
        let mut i: usize = 0;
        while i < self.entries.len()
            invariant
                0 <= i <= self.entries.len(),
                forall|j: int| 0 <= j < i ==> self.keys()[j] != token@,
            decreases self.entries.len() - i,
        {
            if self.entries[i].key == *token {
                return Option::Some(i);
            }
            i += 1;
        }
        proof {
            assert(!self.keys().contains(token@));
        }
        Option::None
    }

    /// Looks the key's channel up without creating it: the publish path uses
    /// this so that a never-connected key is observably not found.
    pub fn lookup(&self, token: &String) -> (r: Option<&tokio::sync::broadcast::Sender<String>>)
        ensures
            r is Some <==> self.has_key(token@),
    {
        match self.find(token) {
            Option::Some(i) => Option::Some(&self.entries[i].tx),
            Option::None => Option::None,
        }
    }

    /// Returns a handle to the key's channel, creating the channel if the
    /// key has none yet; every other key's channel and history are left as
    /// they were.
    pub fn get_or_create(&mut self, token: &String) -> (tx: tokio::sync::broadcast::Sender<String>)
        requires
            old(self).wf(),
        ensures
            final(self).wf(),
            final(self).has_key(token@),
            old(self).has_key(token@) ==> final(self).keys() == old(self).keys() && final(self).history() == old(self).history(),
            !old(self).has_key(token@) ==> final(self).keys() == old(self).keys().push(token@)
                && final(self).history() == old(self).history().insert(
                token@,
                Seq::<Seq<char>>::empty(),
            ),
    {
        match self.find(token) {
            Option::Some(i) => clone_sender(&self.entries[i].tx),
            Option::None => {
                let tx = new_channel(crate::CHANNEL_CAPACITY);
                let handle = clone_sender(&tx);
                let ghost old_keys = self.keys();
                self.entries.push(Entry { key: token.clone(), tx });
                proof {
                    self.hist@ = self.hist@.insert(token@, Seq::<Seq<char>>::empty());
                    assert(self.keys() =~= old_keys.push(token@));
                    let ks = old_keys.push(token@);
                    assert forall|k: Seq<char>| ks.contains(k) <==> (old_keys.contains(k) || k
                        == token@) by {
                        if ks.contains(k) {
                            let i = choose|i: int| 0 <= i < ks.len() && ks[i] == k;
                            if i < old_keys.len() {
                                assert(old_keys[i] == k);
                            }
                        }
                        if old_keys.contains(k) {
                            let i = choose|i: int| 0 <= i < old_keys.len() && old_keys[i] == k;
                            assert(ks[i] == k);
                        }
                        assert(ks[old_keys.len() as int] == token@);
                    }
                    assert(self.hist@.dom() =~= self.key_set());
                }
                handle
            },
        }
    }

    /// Broadcasts `text` on the channel for `token` if the key has one, and
    /// reports whether it had; a key without a channel gets none created.
    pub fn broadcast(&mut self, token: &String, text: String) -> (sent: bool)
        requires
            old(self).wf(),
        ensures
            final(self).wf(),
            sent == old(self).has_key(token@),
            final(self).keys() == old(self).keys(),
            sent ==> final(self).history() == old(self).history().insert(
                token@,
                old(self).history()[token@].push(text@),
            ),
            !sent ==> final(self).history() == old(self).history(),
    {
        match self.find(token) {
            Option::Some(i) => {
                send_text(&self.entries[i].tx, text);
                proof {
                    assert(self.keys().contains(token@)) by {
                        assert(self.keys()[i as int] == token@);
                    }
                    self.hist@ = self.hist@.insert(token@, self.hist@[token@].push(text@));
                    assert(self.hist@.dom() =~= self.key_set());
                }
                true
            },
            Option::None => false,
        }
    }
}

} // verus!
