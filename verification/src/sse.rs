//! The notification fan-out: one broadcast channel per subscriber key.

use crate::text::str_eq;
use tokio::sync::broadcast::{Receiver, Sender};
use vstd::prelude::*;

verus! {

/// `tokio::sync::broadcast::Sender`, the sending half of a channel: an
/// opaque value that is carried through.
#[verifier::external_type_specification]
#[verifier::external_body]
#[verifier::reject_recursive_types(T)]
pub struct ExSender<T>(tokio::sync::broadcast::Sender<T>);

/// `tokio::sync::broadcast::Receiver`, a receiving half of a channel: an
/// opaque value that is handed out.
#[verifier::external_type_specification]
#[verifier::external_body]
#[verifier::reject_recursive_types(T)]
pub struct ExReceiver<T>(tokio::sync::broadcast::Receiver<T>);

/// How many messages a channel holds back for a receiver that is slow.
pub const CHANNEL_CAPACITY: usize = 100;

/// The messages that the channel has taken through this sender, in the
/// order of sending. A message is taken where `Sender::send` stores it,
/// which it does exactly where a receiver is subscribed.
pub uninterp spec fn taken(tx: Sender<String>) -> Seq<Seq<char>>;

/// The channel that this sender feeds, as a label: the two halves of a
/// channel bear the same one.
pub uninterp spec fn fed(tx: Sender<String>) -> int;

/// The channel that this receiver reads, as a label.
pub uninterp spec fn joined(rx: Receiver<String>) -> int;

/// How many messages its channel had taken when this receiver joined it:
/// the receiver is given none of them, and is given what is taken later.
pub uninterp spec fn missed(rx: Receiver<String>) -> nat;

/// Calls `tokio::sync::broadcast::channel` and keeps the sender. The
/// function panics on a capacity of zero or above `usize::MAX / 2`, which
/// the precondition leaves out. The new channel has taken nothing.
#[verifier::external_body]
fn open_channel(capacity: usize) -> (tx: Sender<String>)
    requires
        0 < capacity <= usize::MAX / 2,
    ensures
        taken(tx) == Seq::<Seq<char>>::empty(),
{
    tokio::sync::broadcast::channel(capacity).0
}

/// Calls `Sender::subscribe`: a new receiver on the channel of the sender,
/// which starts behind all that the channel has taken so far.
#[verifier::external_body]
fn subscribe_to(tx: &Sender<String>) -> (rx: Receiver<String>)
    ensures
        joined(rx) == fed(*tx),
        missed(rx) == taken(*tx).len(),
{
    tx.subscribe()
}

/// Calls `Sender::send` and says whether it reported success. The function
/// stores the message behind those taken before where a receiver is
/// subscribed, and keeps nothing and reports an error where none is. The
/// sender feeds the same channel as before.
#[verifier::external_body]
fn send_to(tx: &mut Sender<String>, message: String) -> (kept: bool)
    ensures
        taken(*final(tx)) == if kept {
            taken(*old(tx)).push(message@)
        } else {
            taken(*old(tx))
        },
        fed(*final(tx)) == fed(*old(tx)),
{
    tx.send(message).is_ok()
}

/// The channel of one subscriber key.
pub struct Channel {
    key: String,
    tx: Sender<String>,
}

/// The table of channels, one per subscriber key. A channel is made when
/// its key is first subscribed to and is never removed.
pub struct SseNotifier {
    channels: Vec<Channel>,
}

impl SseNotifier {
    /// The keys that have a channel, in the order in which they got it.
    pub closed spec fn keys(&self) -> Seq<Seq<char>> {
        self.channels@.map_values(|c: Channel| c.key@)
    }

    /// Whether `key` has a channel.
    pub open spec fn has_channel(&self, key: Seq<char>) -> bool {
        self.keys().contains(key)
    }

    /// Where in the order of the keys the channel of `key` stands.
    pub open spec fn place_of(&self, key: Seq<char>) -> int {
        self.keys().index_of(key)
    }

    /// The messages that the channel of the key at `i` has taken.
    pub closed spec fn taken_at(&self, i: int) -> Seq<Seq<char>> {
        taken(self.channels@[i].tx)
    }

    /// The label of the channel of the key at `i`.
    pub closed spec fn fed_at(&self, i: int) -> int {
        fed(self.channels@[i].tx)
    }

    /// Whether the channel of the key at `i` is as it was in `before`: it
    /// is the same channel and has taken the same messages.
    pub open spec fn same_at(&self, before: SseNotifier, i: int) -> bool {
        self.taken_at(i) == before.taken_at(i) && self.fed_at(i) == before.fed_at(i)
    }

    /// Whether the channel of the key at `i` is the one of `before` after
    /// `message` was handed to it: it is the same channel, and has taken the
    /// message behind all that it had taken, or, where no receiver was
    /// subscribed, has taken nothing new.
    pub open spec fn handed_at(&self, before: SseNotifier, i: int, message: Seq<char>) -> bool {
        self.fed_at(i) == before.fed_at(i) && (self.taken_at(i) == before.taken_at(i).push(message)
            || self.taken_at(i) == before.taken_at(i))
    }

    /// Where the keys are distinct, a key that stands at `i` has its place
    /// there.
    proof fn lemma_place(&self, key: Seq<char>, i: int)
        requires
            self.keys().no_duplicates(),
            0 <= i < self.keys().len(),
            self.keys()[i] == key,
        ensures
            self.place_of(key) == i,
    {
        let j = self.keys().index_of(key);
        assert(self.keys().contains(key));
        assert(0 <= j < self.keys().len() && self.keys()[j] == key);
    }

    #[verifier::type_invariant]
    spec fn no_key_twice(self) -> bool {
        self.keys().no_duplicates()
    }

    /// The table without any channel.
    pub fn new() -> (notifier: SseNotifier)
        ensures
            notifier.keys() == Seq::<Seq<char>>::empty(),
    {
        let notifier = SseNotifier { channels: Vec::new() };
        assert(notifier.keys() =~= Seq::<Seq<char>>::empty());
        notifier
    }

    /// Where the channel of `key` stands in the table.
    fn position(&self, key: &str) -> (at: Option<usize>)
        ensures
            match at {
                Some(i) => i < self.keys().len() && self.keys()[i as int] == key@,
                None => !self.has_channel(key@),
            },
    {
        let mut i: usize = 0;
        while i < self.channels.len()
            invariant
                i <= self.channels.len(),
                self.keys().len() == self.channels@.len(),
                forall|k: int| 0 <= k < i ==> self.keys()[k] != key@,
            decreases self.channels.len() - i,
        {
            assert(self.keys()[i as int] == self.channels@[i as int].key@);
            if str_eq(self.channels[i].key.as_str(), key) {
                return Some(i);
            }
            i += 1;
        }
        None
    }

    /// Subscribes to `key`: a new receiver on the channel of `key`,
    /// independent of every other receiver, which starts behind all that
    /// the channel has taken so far. The channel is made first where `key`
    /// had none, and has then taken nothing; no other channel is touched.
    pub fn create_channel(&mut self, key: &str) -> (rx: Receiver<String>)
        ensures
            final(self).keys() == if old(self).has_channel(key@) {
                old(self).keys()
            } else {
                old(self).keys().push(key@)
            },
            final(self).has_channel(key@),
            final(self).keys().no_duplicates(),
            forall|i: int|
                0 <= i < old(self).keys().len() ==> #[trigger] final(self).same_at(*old(self), i),
            !old(self).has_channel(key@) ==> final(self).taken_at(old(self).keys().len() as int)
                == Seq::<Seq<char>>::empty(),
            joined(rx) == final(self).fed_at(final(self).place_of(key@)),
            missed(rx) == final(self).taken_at(final(self).place_of(key@)).len(),
    {
        proof {
            use_type_invariant(&*self);
        }
        match self.position(key) {
            Some(i) => {
                proof {
                    self.lemma_place(key@, i as int);
                }
                subscribe_to(&self.channels[i].tx)
            },
            None => {
                let tx = open_channel(CHANNEL_CAPACITY);
                let rx = subscribe_to(&tx);
                let ghost before = self.keys();
                let ghost was = *self;
                let mut table = SseNotifier::new();
                core::mem::swap(self, &mut table);
                let mut channels = table.channels;
                channels.push(Channel { key: key.to_owned(), tx });
                proof {
                    let after = channels@.map_values(|c: Channel| c.key@);
                    assert(after =~= before.push(key@));
                    assert(after[before.len() as int] == key@);
                }
                *self = SseNotifier { channels };
                proof {
                    self.lemma_place(key@, before.len() as int);
                    assert forall|i: int| 0 <= i < before.len() implies #[trigger] self.same_at(
                        was,
                        i,
                    ) by {
                        assert(self.channels@[i] == was.channels@[i]);
                    }
                }
                rx
            },
        }
    }

    /// Publishes `message` to `key`: it is handed to the channel of `key`
    /// and to no other. The channel takes it for the receivers that are
    /// subscribed at this moment; where there is none, the message is
    /// dropped. Where `key` has no channel, nothing is handed to any channel
    /// and none is made. The result says whether `key` had a channel.
    pub fn notify(&mut self, key: &str, message: &str) -> (handed: bool)
        ensures
            handed == old(self).has_channel(key@),
            final(self).keys() == old(self).keys(),
            forall|i: int|
                0 <= i < old(self).keys().len() && old(self).keys()[i] != key@
                    ==> #[trigger] final(self).same_at(*old(self), i),
            forall|i: int|
                0 <= i < old(self).keys().len() && old(self).keys()[i] == key@
                    ==> #[trigger] final(self).handed_at(*old(self), i, message@),
    {
        proof {
            use_type_invariant(&*self);
        }
        match self.position(key) {
            Some(i) => {
                let ghost was = *self;
                let mut table = SseNotifier::new();
                core::mem::swap(self, &mut table);
                let mut channels = table.channels;
                let _ = send_at(&mut channels, i, message.to_owned());
                proof {
                    assert(channels@.map_values(|c: Channel| c.key@) =~= was.keys());
                }
                *self = SseNotifier { channels };
                proof {
                    assert forall|j: int|
                        0 <= j < was.keys().len() && was.keys()[j] != key@ implies #[trigger] self.same_at(
                        was,
                        j,
                    ) by {
                        assert(j != i);
                        assert(self.channels@[j] == was.channels@[j]);
                    }
                    assert forall|j: int|
                        0 <= j < was.keys().len() && was.keys()[j]
                            == key@ implies #[trigger] self.handed_at(was, j, message@) by {
                        assert(was.keys()[i as int] == key@);
                        assert(j == i);
                    }
                }
                true
            },
            None => false,
        }
    }
}

/// Hands `message` to the sender of the channel at `i` and to no other.
fn send_at(channels: &mut Vec<Channel>, i: usize, message: String) -> (kept: bool)
    requires
        i < old(channels)@.len(),
    ensures
        final(channels)@.len() == old(channels)@.len(),
        forall|j: int|
            0 <= j < old(channels)@.len() && j != i ==> #[trigger] final(channels)@[j] == old(
                channels,
            )@[j],
        final(channels)@[i as int].key == old(channels)@[i as int].key,
        fed(final(channels)@[i as int].tx) == fed(old(channels)@[i as int].tx),
        taken(final(channels)@[i as int].tx) == if kept {
            taken(old(channels)@[i as int].tx).push(message@)
        } else {
            taken(old(channels)@[i as int].tx)
        },
{
    let mut channel = channels.remove(i);
    let kept = send_to(&mut channel.tx, message);
    channels.insert(i, channel);
    kept
}

} // verus!
