use std::sync::Arc;
use std::sync::Mutex;

use bus::Bus;
use vstd::prelude::*;

use crate::json::same_text;

verus! {

/// `bus::Bus`, the broadcast channel that carries one kind of media.
#[verifier::external_type_specification]
#[verifier::external_body]
#[verifier::reject_recursive_types(T)]
pub struct ExBus<T>(Bus<T>);

/// `std::sync::Mutex`, which guards a bus shared between threads.
#[verifier::external_type_specification]
#[verifier::external_body]
#[verifier::reject_recursive_types(T)]
pub struct ExMutex<T: ?Sized>(Mutex<T>);

/// `bus::Bus::new`: makes an empty bus with room for `len` messages.
/// The crate adds one padding seat to `len`, which overflows at `usize::MAX`,
/// and allocates that many seats, which this contract does not bound.
/// Nothing is claimed of the new bus: its contents and capacity are not
/// visible here.
pub assume_specification<T>[ Bus::<T>::new ](len: usize) -> Bus<T>
    requires
        len < usize::MAX,
;

/// `std::sync::Mutex::new`: wraps a value in a new, unlocked mutex.
/// Nothing is claimed of the mutex.
pub assume_specification<T>[ Mutex::<T>::new ](t: T) -> Mutex<T>;

/// Hands out one more reference to a shared value.
///
/// Calls `Arc::clone`. Trusted claim: the new `Arc` points to the same value.
#[verifier::external_body]
fn share<U>(a: &Arc<U>) -> (r: Arc<U>)
    ensures
        r == *a,
{
    Arc::clone(a)
}

/// How many messages each bus of a stream can hold before a broadcast waits.
pub const BUS_CAPACITY: usize = 10;

/// The audio and video buses of one published stream.
#[verifier::reject_recursive_types(T)]
pub struct AVBus<T> {
    pub audio: Arc<Mutex<Bus<T>>>,
    pub video: Arc<Mutex<Bus<T>>>,
}

impl<T> Clone for AVBus<T> {
    /// Another handle on the same two buses.
    fn clone(&self) -> (r: Self)
        ensures
            r == *self,
    {
        AVBus { audio: share(&self.audio), video: share(&self.video) }
    }
}


/// The keys of a list of entries are pairwise distinct.
pub open spec fn keys_unique<V>(s: Seq<(String, V)>) -> bool {
    forall|i: int, j: int| 0 <= i < j < s.len() ==> (#[trigger] s[i]).0@ != (#[trigger] s[j]).0@
}

/// The map that a list of entries stands for: each key to its value.
pub open spec fn map_of<V>(s: Seq<(String, V)>) -> Map<Seq<char>, V>
    decreases s.len(),
{
    if s.len() == 0 {
        Map::empty()
    } else {
        map_of(s.drop_last()).insert(s.last().0@, s.last().1)
    }
}

/// A key is in the map exactly when some entry has it, and with distinct keys
/// each entry's value is what the map gives for its key.
pub proof fn lemma_map_of<V>(s: Seq<(String, V)>)
    ensures
        forall|k: Seq<char>|
            #[trigger] map_of(s).contains_key(k) <==> exists|i: int| 0 <= i < s.len() && (#[trigger] s[i]).0@ == k,
        keys_unique(s) ==> forall|i: int| 0 <= i < s.len() ==> map_of(s)[(#[trigger] s[i]).0@] == s[i].1,
    decreases s.len(),
{
    if s.len() > 0 {
        let p = s.drop_last();
        lemma_map_of(p);
        assert forall|k: Seq<char>| #[trigger] map_of(s).contains_key(k) implies exists|i: int|
            0 <= i < s.len() && (#[trigger] s[i]).0@ == k by {
            if k == s.last().0@ {
                assert(s[s.len() - 1].0@ == k);
            } else {
                assert(map_of(p).contains_key(k));
                let i = choose|i: int| 0 <= i < p.len() && (#[trigger] p[i]).0@ == k;
                assert(s[i] == p[i]);
            }
        }
        assert forall|k: Seq<char>| (exists|i: int| 0 <= i < s.len() && (#[trigger] s[i]).0@ == k) implies
            #[trigger] map_of(s).contains_key(k) by {
            let i = choose|i: int| 0 <= i < s.len() && (#[trigger] s[i]).0@ == k;
            if i < s.len() - 1 {
                assert(p[i] == s[i]);
                assert(map_of(p).contains_key(k));
            }
        }
        if keys_unique(s) {
            assert(keys_unique(p)) by {
                assert forall|i: int, j: int| 0 <= i < j < p.len() implies (#[trigger] p[i]).0@ != (#[trigger] p[j]).0@ by {
                    assert(p[i] == s[i] && p[j] == s[j]);
                }
            }
            assert forall|i: int| 0 <= i < s.len() implies map_of(s)[(#[trigger] s[i]).0@] == s[i].1 by {
                if i < s.len() - 1 {
                    assert(p[i] == s[i]);
                    assert(s[i].0@ != s[s.len() - 1].0@);
                }
            }
        }
    }
}

/// Replacing an entry by one with the same key sets that key's value.
proof fn lemma_map_of_update<V>(s: Seq<(String, V)>, i: int, e: (String, V))
    requires
        keys_unique(s),
        0 <= i < s.len(),
        e.0@ == s[i].0@,
    ensures
        keys_unique(s.update(i, e)),
        map_of(s.update(i, e)) == map_of(s).insert(e.0@, e.1),
{
    let t = s.update(i, e);
    assert forall|a: int, b: int| 0 <= a < b < t.len() implies (#[trigger] t[a]).0@ != (#[trigger] t[b]).0@ by {
        assert(t[a].0@ == s[a].0@ && t[b].0@ == s[b].0@);
    }
    lemma_map_of(s);
    lemma_map_of(t);
    let m = map_of(s).insert(e.0@, e.1);
    assert forall|k: Seq<char>| #[trigger] map_of(t).contains_key(k) <==> m.contains_key(k) by {
        if map_of(t).contains_key(k) {
            let j = choose|j: int| 0 <= j < t.len() && (#[trigger] t[j]).0@ == k;
            assert(s[j].0@ == k);
            assert(map_of(s).contains_key(k));
        }
        if m.contains_key(k) && k != e.0@ {
            assert(map_of(s).contains_key(k));
            let j = choose|j: int| 0 <= j < s.len() && (#[trigger] s[j]).0@ == k;
            assert(t[j].0@ == k);
        }
        if k == e.0@ {
            assert(t[i].0@ == k);
        }
    }
    assert forall|k: Seq<char>| #[trigger] map_of(t).contains_key(k) implies map_of(t)[k] == m[k] by {
        let j = choose|j: int| 0 <= j < t.len() && (#[trigger] t[j]).0@ == k;
        if j != i {
            assert(t[j] == s[j]);
        }
    }
    assert(map_of(t) =~= m);
}

/// Adding an entry under a new key inserts that key.
proof fn lemma_map_of_push<V>(s: Seq<(String, V)>, e: (String, V))
    requires
        keys_unique(s),
        forall|i: int| 0 <= i < s.len() ==> (#[trigger] s[i]).0@ != e.0@,
    ensures
        keys_unique(s.push(e)),
        map_of(s.push(e)) == map_of(s).insert(e.0@, e.1),
{
    let t = s.push(e);
    assert forall|a: int, b: int| 0 <= a < b < t.len() implies (#[trigger] t[a]).0@ != (#[trigger] t[b]).0@ by {
        assert(t[a] == s[a]);
        if b < s.len() {
            assert(t[b] == s[b]);
        }
    }
    assert(t.drop_last() =~= s);
}

/// Taking out an entry removes its key.
proof fn lemma_map_of_remove<V>(s: Seq<(String, V)>, i: int)
    requires
        keys_unique(s),
        0 <= i < s.len(),
    ensures
        keys_unique(s.remove(i)),
        map_of(s.remove(i)) == map_of(s).remove(s[i].0@),
{
    let t = s.remove(i);
    let k0 = s[i].0@;
    assert forall|a: int, b: int| 0 <= a < b < t.len() implies (#[trigger] t[a]).0@ != (#[trigger] t[b]).0@ by {
        let a2 = if a < i { a } else { a + 1 };
        let b2 = if b < i { b } else { b + 1 };
        assert(t[a] == s[a2] && t[b] == s[b2]);
    }
    lemma_map_of(s);
    lemma_map_of(t);
    let m = map_of(s).remove(k0);
    assert forall|k: Seq<char>| #[trigger] map_of(t).contains_key(k) <==> m.contains_key(k) by {
        if map_of(t).contains_key(k) {
            let j = choose|j: int| 0 <= j < t.len() && (#[trigger] t[j]).0@ == k;
            let j2 = if j < i { j } else { j + 1 };
            assert(t[j] == s[j2]);
            assert(map_of(s).contains_key(k));
            assert(k != k0);
        }
        if m.contains_key(k) {
            assert(map_of(s).contains_key(k));
            let j = choose|j: int| 0 <= j < s.len() && (#[trigger] s[j]).0@ == k;
            assert(j != i);
            let j2 = if j < i { j } else { j - 1 };
            assert(t[j2] == s[j]);
        }
    }
    assert forall|k: Seq<char>| #[trigger] map_of(t).contains_key(k) implies map_of(t)[k] == m[k] by {
        let j = choose|j: int| 0 <= j < t.len() && (#[trigger] t[j]).0@ == k;
        let j2 = if j < i { j } else { j + 1 };
        assert(t[j] == s[j2]);
    }
    assert(map_of(t) =~= m);
}

/// Where `path` is listed among `entries`, if it is.
fn find<T>(entries: &Vec<(String, AVBus<T>)>, path: &str) -> (r: Option<usize>)
    ensures
        match r {
            Some(i) => i < entries@.len() && entries@[i as int].0@ == path@,
            None => forall|i: int| 0 <= i < entries@.len() ==> (#[trigger] entries@[i]).0@ != path@,
        },
{
    let mut i: usize = 0;
    while i < entries.len()
        invariant
            i <= entries@.len(),
            forall|j: int| 0 <= j < i ==> (#[trigger] entries@[j]).0@ != path@,
        decreases entries@.len() - i,
    {
        if same_text(entries[i].0.as_str(), path) {
            return Some(i);
        }
        i = i + 1;
    }
    None
}

/// The registry after the stream at `path` is published with `buses`.
pub open spec fn published<T>(registry: Map<Seq<char>, AVBus<T>>, path: Seq<char>, buses: AVBus<T>) -> Map<
    Seq<char>,
    AVBus<T>,
> {
    registry.insert(path, buses)
}

/// The registry after the stream at `path` is withdrawn.
pub open spec fn withdrawn<T>(registry: Map<Seq<char>, AVBus<T>>, path: Seq<char>) -> Map<
    Seq<char>,
    AVBus<T>,
> {
    registry.remove(path)
}

/// The buses of the stream published at `path`, if there is one.
pub open spec fn lookup<T>(registry: Map<Seq<char>, AVBus<T>>, path: Seq<char>) -> Option<AVBus<T>> {
    if registry.contains_key(path) {
        Some(registry[path])
    } else {
        None
    }
}

/// The registry of published streams: each endpoint path to the buses that
/// carry its media.
///
/// It is kept as a list of entries with distinct paths. vstd specifies
/// `HashMap` only for keys whose hashing it models, and it has no such model
/// for `String` keys, so a `HashMap` keyed by path would give these contracts
/// nothing to rest on.
#[verifier::reject_recursive_types(T)]
pub struct StreamMap<T> {
    entries: Vec<(String, AVBus<T>)>,
}

impl<T> View for StreamMap<T> {
    type V = Map<Seq<char>, AVBus<T>>;

    closed spec fn view(&self) -> Map<Seq<char>, AVBus<T>> {
        map_of(self.entries@)
    }
}

impl<T> StreamMap<T> {
    /// No path is listed twice.
    #[verifier::type_invariant]
    spec fn paths_unique(&self) -> bool {
        keys_unique(self.entries@)
    }

    /// An empty registry.
    pub fn new() -> (r: Self)
        ensures
            r@ == Map::<Seq<char>, AVBus<T>>::empty(),
    {
        StreamMap { entries: Vec::new() }
    }

    /// Whether a stream is published at `path`.
    pub fn contains_key(&self, path: &str) -> (r: bool)
        ensures
            r == self@.contains_key(path@),
    {
        proof {
            lemma_map_of(self.entries@);
        }
        match find(&self.entries, path) {
            Some(i) => {
                assert(self.entries@[i as int].0@ == path@);
                true
            },
            None => false,
        }
    }

    /// The buses of the stream published at `path`, if there is one.
    pub fn get(&self, path: &str) -> (r: Option<AVBus<T>>)
        ensures
            r == lookup(self@, path@),
    {
        proof {
            use_type_invariant(self);
            lemma_map_of(self.entries@);
        }
        match find(&self.entries, path) {
            Some(i) => {
                assert(self.entries@[i as int].0@ == path@);
                Some(self.entries[i].1.clone())
            },
            None => None,
        }
    }

    /// Publishes a stream at `path`: makes its two buses, each of
    /// `BUS_CAPACITY` messages, registers them under `path` (in place of any
    /// stream already there) and hands them back.
    ///
    /// The contract says that `path` now maps to the returned buses and that
    /// no other path changed. A bus is opaque here, and an `Arc` has no
    /// identity in specifications, so it does not say that the buses are new
    /// (rather than those already at `path`), that audio and video have
    /// buses of their own, or what their capacity is; the tests check these.
    pub fn add_conn(&mut self, path: String) -> (r: AVBus<T>)
        ensures
            final(self)@ == published(old(self)@, path@, r),
    {
        proof {
            use_type_invariant(&*self);
        }
        let av_bus = AVBus {
            audio: Arc::new(Mutex::new(Bus::new(BUS_CAPACITY))),
            video: Arc::new(Mutex::new(Bus::new(BUS_CAPACITY))),
        };
        let mut entries: Vec<(String, AVBus<T>)> = Vec::new();
        std::mem::swap(&mut entries, &mut self.entries);
        match find(&entries, path.as_str()) {
            Some(i) => {
                proof {
                    lemma_map_of_update(entries@, i as int, (path, av_bus));
                }
                entries.set(i, (path, av_bus.clone()));
            },
            None => {
                proof {
                    lemma_map_of_push(entries@, (path, av_bus));
                }
                entries.push((path, av_bus.clone()));
            },
        }
        self.entries = entries;
        av_bus
    }

    /// Withdraws the stream published at `path`, handing back its buses if
    /// there was one.
    pub fn remove(&mut self, path: &str) -> (r: Option<AVBus<T>>)
        ensures
            final(self)@ == withdrawn(old(self)@, path@),
            r == lookup(old(self)@, path@),
    {
        proof {
            use_type_invariant(&*self);
            lemma_map_of(self.entries@);
        }
        let mut entries: Vec<(String, AVBus<T>)> = Vec::new();
        std::mem::swap(&mut entries, &mut self.entries);
        let r = match find(&entries, path) {
            Some(i) => {
                proof {
                    lemma_map_of_remove(entries@, i as int);
                }
                let (_, av_bus) = entries.remove(i);
                Some(av_bus)
            },
            None => {
                assert(map_of(entries@).remove(path@) =~= map_of(entries@));
                None
            },
        };
        self.entries = entries;
        r
    }
}

} // verus!
