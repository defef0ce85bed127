use std::sync::Arc;

use dashmap::DashMap;
use tokio::sync::broadcast::Sender;
use tokio::sync::RwLock;
use vstd::prelude::*;

use crate::domain::{ChannelKey, KeyView, PayloadKind};

verus! {

#[verifier::external_type_specification]
#[verifier::external_body]
#[verifier::reject_recursive_types(K)]
#[verifier::reject_recursive_types(V)]
#[verifier::reject_recursive_types(S)]
pub struct ExDashMap<K, V, S>(DashMap<K, V, S>);

#[verifier::external_type_specification]
#[verifier::external_body]
#[verifier::reject_recursive_types(T)]
pub struct ExSender<T>(Sender<T>);

#[verifier::external_type_specification]
#[verifier::external_body]
#[verifier::reject_recursive_types(T)]
pub struct ExRwLock<T: ?Sized>(RwLock<T>);

/// Pending messages a subscriber may fall behind by before it starts to lose
/// the oldest ones.
pub const SUBSCRIBER_CAPACITY: usize = 256;

/// One logical stream: its fan-out sender and its last-value cell.
///
/// `serial` identifies the channel instance: clones share it, and the
/// registry never hands out the same serial for two keys.
#[derive(Clone)]
pub struct Channel {
    serial: u64,
    pub tx: Sender<String>,
    pub last: Arc<RwLock<Option<String>>>,
}

/// A handle to a stream channel as seen by sessions.
pub type ChannelRef = Channel;

/// The map a registry keeps its channels in.
pub type ChannelMap = DashMap<ChannelKey, Channel>;

/// The serial stored under each key of the registry's map.
pub uninterp spec fn stored_serials(m: ChannelMap) -> Map<KeyView, u64>;

/// A registry map with no channel in it.
pub open spec fn no_channels() -> Map<KeyView, u64> {
    Map::empty()
}

/// Relies on `DashMap::new`: a new map holds no entry.
#[verifier::external_body]
fn empty_map() -> (r: ChannelMap)
    ensures
        stored_serials(r) == no_channels(),
{
    DashMap::new()
}

/// Relies on `DashMap::get`: the entry stored under an equal key, if any,
/// handed out as a clone (a clone keeps the serial). `ChannelKey`'s derived
/// `Eq` and `Hash` go by both fields, as its view does; no reference into the
/// map is held across the call, so it cannot deadlock.
#[verifier::external_body]
fn lookup(m: &ChannelMap, key: &ChannelKey) -> (r: Option<Channel>)
    ensures
        r is Some <==> stored_serials(*m).contains_key(key@),
        r is Some ==> r->Some_0.id() == stored_serials(*m)[key@],
{
    m.get(key).map(|entry| entry.value().clone())
}

/// Relies on `DashMap::insert`: the entry under `key` becomes `chan`, other
/// entries stay.
#[verifier::external_body]
fn store(m: &mut ChannelMap, key: ChannelKey, chan: Channel)
    ensures
        stored_serials(*final(m)) == stored_serials(*old(m)).insert(key@, chan.id()),
{
    m.insert(key, chan);
}

/// The number of values a broadcast channel retains for a subscriber that
/// falls behind, fixed when the channel is made.
pub uninterp spec fn fanout_bound(tx: Sender<String>) -> usize;

/// Relies on `tokio::sync::broadcast::channel`, which panics on a capacity of
/// zero or above half of `usize::MAX` and rounds the capacity up to a power
/// of two; the first receiver is dropped.
#[verifier::external_body]
fn open_fanout(capacity: usize) -> (r: Sender<String>)
    requires
        0 < capacity <= usize::MAX / 2,
    ensures
        capacity <= fanout_bound(r),
        capacity & ((capacity - 1) as usize) == 0 ==> fanout_bound(r) == capacity,
{
    let (tx, _rx) = tokio::sync::broadcast::channel::<String>(capacity);
    tx
}

/// Relies on `tokio::sync::RwLock::new`: a lock around an empty cell.
#[verifier::external_body]
fn empty_cell() -> (r: Arc<RwLock<Option<String>>>)
{
    Arc::new(RwLock::new(None))
}

/// The concurrent map from stream key to stream channel.
///
/// Channels are created lazily and never removed. Each creation takes the
/// next serial, so distinct keys never share a channel. `get_or_create`
/// needs exclusive access, so its check and insert form one step; callers
/// that share a store serialise through a lock.
pub struct ChannelStore {
    channels: ChannelMap,
    next_serial: u64,
}

impl ChannelStore {
    /// Key to serial of every channel created so far.
    pub closed spec fn spec_serials(&self) -> Map<KeyView, u64> {
        stored_serials(self.channels)
    }

    /// The serial the next created channel takes.
    pub closed spec fn spec_next(&self) -> u64 {
        self.next_serial
    }

    pub open spec fn wf(&self) -> bool {
        serials_wf(self.spec_serials(), self.spec_next())
    }

    pub fn new() -> (r: ChannelStore)
        ensures
            r.wf(),
            r.spec_serials() == no_channels(),
            r.spec_next() == 0,
    {
        ChannelStore { channels: empty_map(), next_serial: 0 }
    }

    /// Whether another channel can still be created: serials are not
    /// exhausted.
    pub fn can_create(&self) -> (r: bool)
        ensures
            r == (self.spec_next() < u64::MAX),
    {
        self.next_serial < u64::MAX
    }

    /// Returns the channel registered under `key`, creating and registering
    /// a fresh one if there is none.
    pub fn get_or_create(&mut self, key: &ChannelKey) -> (r: Channel)
        requires
            old(self).wf(),
            old(self).spec_next() < u64::MAX,
        ensures
            final(self).wf(),
            (final(self).spec_serials(), final(self).spec_next(), r.id())
                == registered(old(self).spec_serials(), old(self).spec_next(), key@),
            !old(self).spec_serials().contains_key(key@) ==> fanout_bound(r.sender()) == SUBSCRIBER_CAPACITY,
    {
        match lookup(&self.channels, key) {
            Some(chan) => chan,
            None => {
                assert(SUBSCRIBER_CAPACITY & ((SUBSCRIBER_CAPACITY - 1) as usize) == 0) by (bit_vector);
                let chan = Channel {
                    serial: self.next_serial,
                    tx: open_fanout(SUBSCRIBER_CAPACITY),
                    last: empty_cell(),
                };
                store(&mut self.channels, key.duplicate(), chan.clone_handle());
                self.next_serial = self.next_serial + 1;
                proof {
                    let m = self.spec_serials();
                    assert forall|k: KeyView| #[trigger] m.contains_key(k) implies m[k] < self.spec_next() by {
                        if k != key@ {
                            assert(old(self).spec_serials().contains_key(k));
                        }
                    }
                    assert forall|k1: KeyView, k2: KeyView|
                        m.contains_key(k1) && m.contains_key(k2) && k1 != k2 implies m[k1] != m[k2] by {
                        if k1 != key@ && k2 != key@ {
                            assert(old(self).spec_serials()[k1] != old(self).spec_serials()[k2]);
                        } else if k1 == key@ {
                            assert(old(self).spec_serials()[k2] < old(self).spec_next());
                        } else {
                            assert(old(self).spec_serials()[k1] < old(self).spec_next());
                        }
                    }
                }
                chan
            }
        }
    }
}

impl Channel {
    /// The serial of the channel instance this handle refers to.
    pub closed spec fn id(&self) -> u64 {
        self.serial
    }

    /// The fan-out sender this handle holds.
    pub closed spec fn sender(&self) -> Sender<String> {
        self.tx
    }

    /// The last-value cell this handle holds.
    pub closed spec fn cell(&self) -> Arc<RwLock<Option<String>>> {
        self.last
    }

    pub fn serial(&self) -> (r: u64)
        ensures
            r == self.id(),
    {
        self.serial
    }

    /// Another handle to the same channel instance: same serial, same
    /// sender, same last-value cell.
    pub fn clone_handle(&self) -> (r: Channel)
        ensures
            r.id() == self.id(),
            r.sender() == self.sender(),
            r.cell() == self.cell(),
    {
        Channel { serial: self.serial, tx: self.tx.clone(), last: self.last.clone() }
    }
}

/// Relies on `Sender::clone`: a copy of the handle to the same shared
/// broadcast state.
pub assume_specification<T>[ <Sender<T> as Clone>::clone ](tx: &Sender<T>) -> (r: Sender<T>)
    ensures
        r == *tx,
;

/// The registry after a get-or-create of `key`: the map, the next serial, and
/// the serial handed out.
pub open spec fn registered(
    serials: Map<KeyView, u64>,
    next: u64,
    key: KeyView,
) -> (Map<KeyView, u64>, u64, u64) {
    if serials.contains_key(key) {
        (serials, next, serials[key])
    } else {
        (serials.insert(key, next), (next + 1) as u64, next)
    }
}

/// Every registered serial was taken before `next`, and no two keys share one.
pub open spec fn serials_wf(serials: Map<KeyView, u64>, next: u64) -> bool {
    &&& forall|k| #[trigger] serials.contains_key(k) ==> serials[k] < next
    &&& forall|k1, k2|
        #![trigger serials[k1], serials[k2]]
        serials.contains_key(k1) && serials.contains_key(k2) && k1 != k2 ==> serials[k1] != serials[k2]
}

/// Asking twice for the same key yields the same channel, and the second
/// request changes nothing.
pub proof fn lemma_same_key_same_channel(serials: Map<KeyView, u64>, next: u64, key: KeyView)
    ensures
        ({
            let (m1, n1, s1) = registered(serials, next, key);
            let (m2, n2, s2) = registered(m1, n1, key);
            s2 == s1 && m2 == m1 && n2 == n1
        }),
{
}

/// Two requests, for `k1` and then `k2`, yield the same channel exactly when
/// the keys are equal; so a value published on one key is never seen by a
/// subscriber of another, and the channel of each key stays registered.
pub proof fn lemma_distinct_keys_distinct_channels(
    serials: Map<KeyView, u64>,
    next: u64,
    k1: KeyView,
    k2: KeyView,
)
    requires
        serials_wf(serials, next),
        next < u64::MAX,
    ensures
        ({
            let (m1, n1, s1) = registered(serials, next, k1);
            let (m2, n2, s2) = registered(m1, n1, k2);
            &&& (s1 == s2 <==> k1 == k2)
            &&& m2[k1] == s1
            &&& m2[k2] == s2
            &&& (n1 < u64::MAX ==> serials_wf(m2, n2))
        }),
{
    let (m1, n1, s1) = registered(serials, next, k1);
    lemma_registered_keeps_wf(serials, next, k1);
    if n1 < u64::MAX {
        lemma_registered_keeps_wf(m1, n1, k2);
    }
    if k1 == k2 {
    } else if serials.contains_key(k1) && serials.contains_key(k2) {
        assert(serials[k1] != serials[k2]);
    } else if serials.contains_key(k2) {
        assert(serials[k2] < next);
    } else if serials.contains_key(k1) {
        assert(serials[k1] < next);
    }
}

/// A registry backend: anything that hands out one channel per stream key.
pub trait ChannelStorePort {
    /// Key to serial of every channel handed out so far.
    spec fn port_serials(&self) -> Map<KeyView, u64>;

    /// The serial the next created channel takes.
    spec fn port_next(&self) -> u64;

    /// Whether another channel can still be created.
    fn has_room(&self) -> (r: bool)
        ensures
            r == (self.port_next() < u64::MAX),
    ;

    /// The channel registered under `key`, created if there is none.
    fn get_or_create(&mut self, key: &ChannelKey) -> (r: ChannelRef)
        requires
            serials_wf(old(self).port_serials(), old(self).port_next()),
            old(self).port_next() < u64::MAX,
        ensures
            serials_wf(final(self).port_serials(), final(self).port_next()),
            (final(self).port_serials(), final(self).port_next(), r.id())
                == registered(old(self).port_serials(), old(self).port_next(), key@),
            !old(self).port_serials().contains_key(key@) ==> fanout_bound(r.sender()) == SUBSCRIBER_CAPACITY,
    ;
}

impl ChannelStorePort for ChannelStore {
    open spec fn port_serials(&self) -> Map<KeyView, u64> {
        self.spec_serials()
    }

    open spec fn port_next(&self) -> u64 {
        self.spec_next()
    }

    fn has_room(&self) -> (r: bool) {
        self.can_create()
    }

    fn get_or_create(&mut self, key: &ChannelKey) -> (r: ChannelRef) {
        ChannelStore::get_or_create(self, key)
    }
}

impl Default for ChannelStore {
    fn default() -> (r: ChannelStore)
        ensures
            r.wf(),
            r.spec_serials() == no_channels(),
            r.spec_next() == 0,
    {
        ChannelStore::new()
    }
}

/// A get-or-create keeps the registry well formed.
pub proof fn lemma_registered_keeps_wf(serials: Map<KeyView, u64>, next: u64, key: KeyView)
    requires
        serials_wf(serials, next),
        next < u64::MAX,
    ensures
        serials_wf(registered(serials, next, key).0, registered(serials, next, key).1),
{
    let (m, n, s) = registered(serials, next, key);
    if !serials.contains_key(key) {
        assert forall|k: KeyView| #[trigger] m.contains_key(k) implies m[k] < n by {
            if k != key {
                assert(serials.contains_key(k));
            }
        }
        assert forall|k1: KeyView, k2: KeyView|
            m.contains_key(k1) && m.contains_key(k2) && k1 != k2 implies m[k1] != m[k2] by {
            if k1 != key && k2 != key {
                assert(serials[k1] != serials[k2]);
            } else if k1 == key {
                assert(serials[k2] < next);
            } else {
                assert(serials[k1] < next);
            }
        }
    }
}

/// What the connection handlers share: the registry of stream channels.
pub struct AppState<S: ChannelStorePort> {
    pub channels: S,
}

impl<S: ChannelStorePort> AppState<S> {
    /// The channel of the stream that `device_id` produces with `kind`,
    /// created on first use.
    pub fn get_or_create_channel(&mut self, device_id: &str, kind: PayloadKind) -> (r: ChannelRef)
        requires
            serials_wf(old(self).channels.port_serials(), old(self).channels.port_next()),
            old(self).channels.port_next() < u64::MAX,
        ensures
            serials_wf(final(self).channels.port_serials(), final(self).channels.port_next()),
            (final(self).channels.port_serials(), final(self).channels.port_next(), r.id())
                == registered(old(self).channels.port_serials(), old(self).channels.port_next(), (device_id@, kind)),
            !old(self).channels.port_serials().contains_key((device_id@, kind))
                ==> fanout_bound(r.sender()) == SUBSCRIBER_CAPACITY,
    {
        let key = ChannelKey::new(device_id, kind);
        self.channels.get_or_create(&key)
    }
}

} // verus!
