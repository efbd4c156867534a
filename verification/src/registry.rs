//! The channel registry: a mapping from external-conversation id to a live
//! channel record. It owns name allocation and uniqueness: every live channel
//! bears a name no other live channel bears, and a name is freed only by
//! removing its channel.

use vstd::prelude::*;
use vstd::map::*;
use vstd::seq_lib::*;
use vstd::string::StrSliceExecFns;
use vstd::string::StringExecFns;
use rand::seq::SliceRandom;
use crate::bus;
use crate::signal::Signal;

verus! {

/// How many pending signals a channel's bus buffers per consumer before the
/// oldest undelivered entries are dropped for that consumer.
pub const BUS_CAPACITY: usize = 32;

/// How many random draws name allocation makes before it stops trusting luck
/// and derives a fresh name deterministically.
pub const NAME_DRAW_ATTEMPTS: usize = 32;

/// A named routing destination bridging one external conversation to
/// zero-or-more protocol clients. The name is globally unique across all live
/// channels; the bus carries every signal concerning this channel.
pub struct Channel {
    name: String,
    tx: tokio::sync::broadcast::Sender<Signal>,
}

impl Channel {
    /// The channel's name, as a sequence of characters.
    pub closed spec fn spec_name(&self) -> Seq<char> {
        self.name@
    }

    /// The name a protocol client must join to receive this channel's signals.
    pub fn name(&self) -> (name: &str)
        ensures
            name@ == self.spec_name(),
    {
        self.name.as_str()
    }

    /// Opens a new consumer view of this channel's bus, seeing only signals
    /// published from now on.
    pub fn subscribe(&self) -> (rx: tokio::sync::broadcast::Receiver<Signal>) {
        bus::subscribe_bus(&self.tx)
    }

    /// Delivers the signal to every currently-subscribed consumer and returns
    /// how many there were. With zero subscribers this is a no-op, not an
    /// error, and it never blocks.
    pub fn publish(&self, signal: Signal) -> (subscribers: usize) {
        bus::publish_signal(&self.tx, signal)
    }
}

struct Entry {
    id: u64,
    chan: Channel,
}

/// The registry of live channels, modelled as a map from external id to
/// channel name.
pub struct Registry {
    entries: Vec<Entry>,
}

/// Every name in the map is borne by exactly one id: distinct ids map to
/// distinct names.
pub open spec fn names_unique(m: Map<u64, Seq<char>>) -> bool {
    forall|k1: u64, k2: u64| m.contains_key(k1) && m.contains_key(k2) && k1 != k2 ==> m[k1] != m[k2]
}

/// What `resolve_or_create` guarantees: an already-known id gets its recorded
/// name back and the registry is unchanged; a never-seen id gets a name that
/// no live channel bore, recorded under the id.
pub open spec fn resolve_post(
    pre: Map<u64, Seq<char>>,
    post: Map<u64, Seq<char>>,
    id: u64,
    name: Seq<char>,
) -> bool {
    if pre.contains_key(id) {
        post == pre && name == pre[id]
    } else {
        &&& post == pre.insert(id, name)
        &&& forall|k: u64| #[trigger] pre.contains_key(k) ==> pre[k] != name
    }
}

/// What `remove` guarantees: a present id comes out with its recorded name and
/// leaves the map; an absent id changes nothing.
pub open spec fn remove_post(
    pre: Map<u64, Seq<char>>,
    post: Map<u64, Seq<char>>,
    id: u64,
    removed: Option<Seq<char>>,
) -> bool {
    if pre.contains_key(id) {
        removed == Some(pre[id]) && post == pre.remove(id)
    } else {
        removed is None && post == pre
    }
}

/// The name of a removed channel, if one was removed.
pub open spec fn removed_name(removed: Option<Channel>) -> Option<Seq<char>> {
    match removed {
        Some(c) => Some(c.spec_name()),
        None => None,
    }
}

impl Registry {
    /// Structural well-formedness: entries carry pairwise-distinct ids and
    /// pairwise-distinct names.
    pub closed spec fn wf(&self) -> bool {
        &&& forall|i: int, j: int|
            0 <= i < j < self.entries@.len() ==> (#[trigger] self.entries@[i].id) != (
            #[trigger] self.entries@[j].id)
        &&& forall|i: int, j: int|
            0 <= i < j < self.entries@.len() ==> (#[trigger] self.entries@[i].chan.spec_name())
                != (#[trigger] self.entries@[j].chan.spec_name())
    }

    spec fn has_entry(&self, id: u64) -> bool {
        exists|i: int| 0 <= i < self.entries@.len() && self.entries@[i].id == id
    }

    spec fn entry_index(&self, id: u64) -> int {
        choose|i: int| 0 <= i < self.entries@.len() && self.entries@[i].id == id
    }

    proof fn lemma_view_at(&self, i: int)
        requires
            self.wf(),
            0 <= i < self.entries@.len(),
        ensures
            self@.contains_key(self.entries@[i].id),
            self@[self.entries@[i].id] == self.entries@[i].chan.spec_name(),
    {
        let id = self.entries@[i].id;
        assert(self.has_entry(id));
        let j = self.entry_index(id);
        assert(0 <= j < self.entries@.len() && self.entries@[j].id == id);
        if i < j {
            assert(self.entries@[i].id != self.entries@[j].id);
        } else if j < i {
            assert(self.entries@[j].id != self.entries@[i].id);
        }
    }

    /// In a well-formed registry the live names are pairwise distinct across
    /// distinct ids.
    pub proof fn lemma_names_unique(&self)
        requires
            self.wf(),
        ensures
            names_unique(self@),
    {
        assert forall|k1: u64, k2: u64|
            self@.contains_key(k1) && self@.contains_key(k2) && k1 != k2 implies self@[k1]
            != self@[k2] by {
            let i1 = self.entry_index(k1);
            let i2 = self.entry_index(k2);
            assert(0 <= i1 < self.entries@.len() && self.entries@[i1].id == k1);
            assert(0 <= i2 < self.entries@.len() && self.entries@[i2].id == k2);
            self.lemma_view_at(i1);
            self.lemma_view_at(i2);
            if i1 < i2 {
                assert(self.entries@[i1].chan.spec_name() != self.entries@[i2].chan.spec_name());
            } else if i2 < i1 {
                assert(self.entries@[i2].chan.spec_name() != self.entries@[i1].chan.spec_name());
            }
        }
    }

    /// A registry with no live channels.
    pub fn new() -> (r: Registry)
        ensures
            r.wf(),
            r@ == Map::<u64, Seq<char>>::empty(),
    {
        let r = Registry { entries: Vec::new() };
        proof {
            assert(r@ =~= Map::<u64, Seq<char>>::empty());
        }
        r
    }

    fn find_index(&self, id: u64) -> (found: Option<usize>)
        ensures
            match found {
                Some(i) => i < self.entries@.len() && self.entries@[i as int].id == id,
                None => forall|i: int|
                    0 <= i < self.entries@.len() ==> (#[trigger] self.entries@[i].id) != id,
            },
    {
        let mut i: usize = 0;
        while i < self.entries.len()
            invariant
                i <= self.entries@.len(),
                forall|j: int| 0 <= j < i ==> (#[trigger] self.entries@[j].id) != id,
            decreases self.entries@.len() - i,
        {
            if self.entries[i].id == id {
                return Some(i);
            }
            i += 1;
        }
        None
    }

    fn name_live(&self, name: &String) -> (live: bool)
        ensures
            live == exists|i: int|
                0 <= i < self.entries@.len() && (#[trigger] self.entries@[i].chan.spec_name())
                    == name@,
    {
        let mut i: usize = 0;
        while i < self.entries.len()
            invariant
                i <= self.entries@.len(),
                forall|j: int|
                    0 <= j < i ==> (#[trigger] self.entries@[j].chan.spec_name()) != name@,
            decreases self.entries@.len() - i,
        {
            if self.entries[i].chan.name.eq(name) {
                assert(self.entries@[i as int].chan.spec_name() == name@);
                return true;
            }
            i += 1;
        }
        false
    }

    fn longest_name(&self) -> (longest: String)
        requires
            self.entries@.len() > 0,
        ensures
            forall|i: int|
                0 <= i < self.entries@.len() ==> (#[trigger] self.entries@[i].chan.spec_name()).len()
                    <= longest@.len(),
    {
        let mut best: usize = 0;
        let mut best_len: usize = self.entries[0].chan.name.as_str().unicode_len();
        let mut i: usize = 1;
        while i < self.entries.len()
            invariant
                1 <= i <= self.entries@.len(),
                best < self.entries@.len(),
                best_len == self.entries@[best as int].chan.spec_name().len(),
                forall|j: int|
                    0 <= j < i ==> (#[trigger] self.entries@[j].chan.spec_name()).len()
                        <= best_len,
            decreases self.entries@.len() - i,
        {
            let len = self.entries[i].chan.name.as_str().unicode_len();
            if len > best_len {
                best = i;
                best_len = len;
            }
            i += 1;
        }
        self.entries[best].chan.name.clone()
    }

    /// If the id already maps to a live channel, returns its name unchanged.
    /// Otherwise allocates a fresh name, records a new channel under the id,
    /// and returns the new name: names are drawn at random from the wordlist,
    /// re-drawing on collision against the live names; if a bounded number of
    /// draws all collide, the name is instead derived by extending the longest
    /// live name, which no live channel can bear. Either way the returned name
    /// is never one a different live channel holds.
    pub fn resolve_or_create(&mut self, id: u64) -> (name: String)
        requires
            old(self).wf(),
        ensures
            final(self).wf(),
            resolve_post(old(self)@, final(self)@, id, name@),
    {
        if let Some(i) = self.find_index(id) {
            let name = self.entries[i].chan.name.clone();
            proof {
                self.lemma_view_at(i as int);
            }
            return name;
        }
        let mut name = random_word();
        let mut live = self.name_live(&name);
        let mut attempts: usize = 0;
        while live && attempts < NAME_DRAW_ATTEMPTS
            invariant
                *self == *old(self),
                self.wf(),
                live == exists|i: int|
                    0 <= i < self.entries@.len() && (#[trigger] self.entries@[i].chan.spec_name())
                        == name@,
            decreases NAME_DRAW_ATTEMPTS - attempts,
        {
            name = random_word();
            live = self.name_live(&name);
            attempts += 1;
        }
        if live {
            let mut extended = self.longest_name();
            extended.append("x");
            proof {
                reveal_strlit("x");
                assert forall|i: int| 0 <= i < self.entries@.len() implies (
                #[trigger] self.entries@[i].chan.spec_name()) != extended@ by {
                    assert(self.entries@[i].chan.spec_name().len() < extended@.len());
                }
            }
            name = extended;
        }
        let tx = bus::new_bus(BUS_CAPACITY);
        let chan = Channel { name: name.clone(), tx };
        self.entries.push(Entry { id, chan });
        proof {
            let pre = old(self)@;
            let n = self.entries@.len() - 1;
            assert forall|a: int, b: int| 0 <= a < b < self.entries@.len() implies (
            #[trigger] self.entries@[a].id) != (#[trigger] self.entries@[b].id) by {
                if b < n {
                    assert(old(self).entries@[a].id != old(self).entries@[b].id);
                } else {
                    assert(old(self).entries@[a].id != id);
                }
            }
            assert forall|a: int, b: int| 0 <= a < b < self.entries@.len() implies (
            #[trigger] self.entries@[a].chan.spec_name()) != (
            #[trigger] self.entries@[b].chan.spec_name()) by {
                if b < n {
                    assert(old(self).entries@[a].chan.spec_name()
                        != old(self).entries@[b].chan.spec_name());
                } else {
                    assert(old(self).entries@[a].chan.spec_name() != name@);
                }
            }
            assert(!pre.contains_key(id));
            assert_maps_equal!(self@, old(self)@.insert(id, name@), k => {
                if k == id {
                    self.lemma_view_at(n);
                } else {
                    if old(self).has_entry(k) {
                        let i = old(self).entry_index(k);
                        old(self).lemma_view_at(i);
                        assert(self.entries@[i].id == k);
                        self.lemma_view_at(i);
                    }
                    if self.has_entry(k) {
                        let i = self.entry_index(k);
                        assert(0 <= i < self.entries@.len() && self.entries@[i].id == k);
                        assert(i < n);
                        assert(old(self).entries@[i].id == k);
                        assert(old(self).has_entry(k));
                    }
                }
            });
            assert forall|k: u64| #[trigger] pre.contains_key(k) implies pre[k] != name@ by {
                let i = old(self).entry_index(k);
                old(self).lemma_view_at(i);
                assert(old(self).entries@[i].chan.spec_name() != name@);
            }
        }
        name
    }

    /// Removes and returns the channel recorded under the id, if one is live;
    /// the caller is responsible for publishing a disconnect signal on the
    /// returned channel's bus. Absent ids change nothing.
    pub fn remove(&mut self, id: u64) -> (removed: Option<Channel>)
        requires
            old(self).wf(),
        ensures
            final(self).wf(),
            remove_post(old(self)@, final(self)@, id, removed_name(removed)),
    {
        if let Some(i) = self.find_index(id) {
            proof {
                old(self).lemma_view_at(i as int);
            }
            let entry = self.entries.remove(i);
            proof {
                let pre_seq = old(self).entries@;
                pre_seq.remove_ensures(i as int);
                assert forall|a: int, b: int| 0 <= a < b < self.entries@.len() implies (
                #[trigger] self.entries@[a].id) != (#[trigger] self.entries@[b].id) by {
                    let a0 = if a < i { a } else { a + 1 };
                    let b0 = if b < i { b } else { b + 1 };
                    assert(self.entries@[a].id == pre_seq[a0].id);
                    assert(self.entries@[b].id == pre_seq[b0].id);
                    assert(pre_seq[a0].id != pre_seq[b0].id);
                }
                assert forall|a: int, b: int| 0 <= a < b < self.entries@.len() implies (
                #[trigger] self.entries@[a].chan.spec_name()) != (
                #[trigger] self.entries@[b].chan.spec_name()) by {
                    let a0 = if a < i { a } else { a + 1 };
                    let b0 = if b < i { b } else { b + 1 };
                    assert(self.entries@[a].chan.spec_name() == pre_seq[a0].chan.spec_name());
                    assert(self.entries@[b].chan.spec_name() == pre_seq[b0].chan.spec_name());
                    assert(pre_seq[a0].chan.spec_name() != pre_seq[b0].chan.spec_name());
                }
                assert_maps_equal!(self@, old(self)@.remove(id), k => {
                    if self.has_entry(k) {
                        let a = self.entry_index(k);
                        assert(0 <= a < self.entries@.len() && self.entries@[a].id == k);
                        let a0 = if a < i { a } else { a + 1 };
                        assert(self.entries@[a] == pre_seq[a0]);
                        assert(old(self).entries@[a0].id == k);
                        old(self).lemma_view_at(a0);
                        self.lemma_view_at(a);
                        if k == id {
                            if a0 < i {
                                assert(pre_seq[a0].id != pre_seq[i as int].id);
                            } else {
                                assert(pre_seq[i as int].id != pre_seq[a0].id);
                            }
                        }
                    }
                    if k != id && old(self).has_entry(k) {
                        let a0 = old(self).entry_index(k);
                        assert(0 <= a0 < pre_seq.len() && pre_seq[a0].id == k);
                        assert(a0 != i);
                        let a = if a0 < i { a0 } else { a0 - 1 };
                        assert(self.entries@[a] == pre_seq[a0]);
                        assert(self.entries@[a].id == k);
                        assert(self.has_entry(k));
                    }
                });
            }
            Some(entry.chan)
        } else {
            proof {
                if old(self).has_entry(id) {
                    let i = old(self).entry_index(id);
                    assert(old(self).entries@[i].id == id);
                }
            }
            None
        }
    }

    /// Looks up a live channel by exact name match. It answers positively
    /// exactly while a channel with that name is live; after that channel is
    /// removed, the name finds nothing until it is allocated again.
    pub fn find_by_name(&self, name: &str) -> (found: Option<&Channel>)
        requires
            self.wf(),
        ensures
            match found {
                Some(c) => c.spec_name() == name@ && exists|k: u64|
                    #[trigger] self@.contains_key(k) && self@[k] == name@,
                None => forall|k: u64| #[trigger] self@.contains_key(k) ==> self@[k] != name@,
            },
    {
        let key: String = name.to_owned();
        let mut i: usize = 0;
        while i < self.entries.len()
            invariant
                i <= self.entries@.len(),
                key@ == name@,
                self.wf(),
                forall|j: int|
                    0 <= j < i ==> (#[trigger] self.entries@[j].chan.spec_name()) != name@,
            decreases self.entries@.len() - i,
        {
            if self.entries[i].chan.name.eq(&key) {
                proof {
                    self.lemma_view_at(i as int);
                }
                return Some(&self.entries[i].chan);
            }
            i += 1;
        }
        proof {
            assert forall|k: u64| #[trigger] self@.contains_key(k) implies self@[k] != name@ by {
                let j = self.entry_index(k);
                assert(0 <= j < self.entries@.len() && self.entries@[j].id == k);
                self.lemma_view_at(j);
                assert(self.entries@[j].chan.spec_name() != name@);
            }
        }
        None
    }

    /// Resolves the channel recorded under the id and publishes a chat-message
    /// signal carrying the sender's name and the message body on its bus; with
    /// no channel for the id this is a silent no-op. Reports whether a channel
    /// was found.
    pub fn publish_user_message(&self, id: u64, sender_name: &str, body: &str) -> (found: bool)
        requires
            self.wf(),
        ensures
            found == self@.contains_key(id),
    {
        if let Some(i) = self.find_index(id) {
            let signal = Signal::UserMessage {
                sender_name: sender_name.to_owned(),
                body: body.to_owned(),
                channel_name: self.entries[i].chan.name.clone(),
            };
            bus::publish_signal(&self.entries[i].chan.tx, signal);
            proof {
                self.lemma_view_at(i as int);
            }
            true
        } else {
            proof {
                if self.has_entry(id) {
                    let i = self.entry_index(id);
                    assert(self.entries@[i].id == id);
                }
            }
            false
        }
    }
}

impl View for Registry {
    type V = Map<u64, Seq<char>>;

    closed spec fn view(&self) -> Map<u64, Seq<char>> {
        Map::new(
            |id: u64| self.has_entry(id),
            |id: u64| self.entries@[self.entry_index(id)].chan.spec_name(),
        )
    }
}

/// Relies on memorable_wordlist::WORDS, a fixed non-empty list of words, and
/// on rand's SliceRandom::choose over the thread-local generator: draws one
/// word from the list. Which word comes back depends on the generator's
/// state, so nothing is stated of it; the registry re-draws on collision.
#[verifier::external_body]
fn random_word() -> (word: String) {
    let mut rng = rand::thread_rng();
    match memorable_wordlist::WORDS.choose(&mut rng) {
        Some(w) => (*w).to_string(),
        None => String::new(),
    }
}

/// Law: in any registry state whose names are unique, distinct live ids bear
/// distinct names; so for any sequence of `resolve_or_create` calls with
/// distinct ids, the returned names are pairwise distinct.
pub proof fn lemma_distinct_ids_distinct_names(m: Map<u64, Seq<char>>, k1: u64, k2: u64)
    requires
        names_unique(m),
        m.contains_key(k1),
        m.contains_key(k2),
        k1 != k2,
    ensures
        m[k1] != m[k2],
{
}

/// Law: resolving preserves name uniqueness: a fresh name avoids every live
/// name, and a known id changes nothing.
pub proof fn lemma_resolve_preserves_names_unique(
    m0: Map<u64, Seq<char>>,
    m1: Map<u64, Seq<char>>,
    id: u64,
    name: Seq<char>,
)
    requires
        names_unique(m0),
        resolve_post(m0, m1, id, name),
    ensures
        names_unique(m1),
{
    if !m0.contains_key(id) {
        assert forall|k1: u64, k2: u64|
            m1.contains_key(k1) && m1.contains_key(k2) && k1 != k2 implies m1[k1] != m1[k2] by {
            if k1 != id && k2 != id {
                assert(m0.contains_key(k1) && m0.contains_key(k2));
            } else if k1 == id {
                assert(m0.contains_key(k2));
                assert(m0[k2] != name);
            } else {
                assert(m0.contains_key(k1));
                assert(m0[k1] != name);
            }
        }
    }
}

/// Law: removal preserves name uniqueness.
pub proof fn lemma_remove_preserves_names_unique(
    m0: Map<u64, Seq<char>>,
    m1: Map<u64, Seq<char>>,
    id: u64,
    removed: Option<Seq<char>>,
)
    requires
        names_unique(m0),
        remove_post(m0, m1, id, removed),
    ensures
        names_unique(m1),
{
}

/// Law: resolving the same id twice with no removal in between returns the
/// same name both times, and the second call changes nothing.
pub proof fn lemma_resolve_twice_same_id(
    m0: Map<u64, Seq<char>>,
    m1: Map<u64, Seq<char>>,
    m2: Map<u64, Seq<char>>,
    id: u64,
    n1: Seq<char>,
    n2: Seq<char>,
)
    requires
        resolve_post(m0, m1, id, n1),
        resolve_post(m1, m2, id, n2),
    ensures
        n2 == n1,
        m2 == m1,
{
    if !m0.contains_key(id) {
        assert(m1.contains_key(id));
        assert(m1[id] == n1);
    }
}

/// Law: once a removal succeeds, the id is gone, and a later resolve of the
/// same id allocates afresh: the new name avoids exactly the names live at
/// that moment. The freed name is eligible again, but nothing forces its
/// reuse, so the new name may or may not equal the freed one.
pub proof fn lemma_remove_then_resolve_fresh(
    m0: Map<u64, Seq<char>>,
    m1: Map<u64, Seq<char>>,
    m2: Map<u64, Seq<char>>,
    id: u64,
    freed: Seq<char>,
    fresh: Seq<char>,
)
    requires
        remove_post(m0, m1, id, Some(freed)),
        resolve_post(m1, m2, id, fresh),
    ensures
        !m1.contains_key(id),
        m2 == m1.insert(id, fresh),
        forall|k: u64| #[trigger] m1.contains_key(k) ==> m1[k] != fresh,
{
    assert(m0.contains_key(id));
    assert(m1 == m0.remove(id));
    assert(!m1.contains_key(id));
}

/// Law: removing a channel frees its name: no live channel bears it
/// afterwards, so a lookup of that name finds nothing until it is allocated
/// again.
pub proof fn lemma_removed_name_not_live(
    m0: Map<u64, Seq<char>>,
    m1: Map<u64, Seq<char>>,
    id: u64,
    freed: Seq<char>,
)
    requires
        names_unique(m0),
        remove_post(m0, m1, id, Some(freed)),
    ensures
        forall|k: u64| #[trigger] m1.contains_key(k) ==> m1[k] != freed,
{
    assert(m0.contains_key(id));
    assert forall|k: u64| #[trigger] m1.contains_key(k) implies m1[k] != freed by {
        assert(m0.contains_key(k) && k != id);
        assert(m0[k] != m0[id]);
    }
}

} // verus!
