//! A bounded, keyed pool of sessions.
//!
//! The pool owns every session in it. Callers look sessions up by key and
//! get a shared view; a session leaves the pool only by removal or when the
//! pool is closed.

use crate::config::SSHConfig;
use crate::error::{SSHError, SSHErrorView};
use crate::session::{
    disconnect_result, AttemptOutcome, ConnectProgress, ConnectStep, SSHManager,
};
use vstd::prelude::*;

verus! {

/// One session of the pool under its key.
struct PoolEntry<C> {
    key: String,
    manager: SSHManager<C>,
}

/// Sessions under caller-chosen keys, at most `capacity` of them.
pub struct SSHConnectionPool<C> {
    connections: Vec<PoolEntry<C>>,
    max_connections: usize,
}

/// What the pool can do for a key.
pub enum Admission {
    /// The key has a session.
    Existing,
    /// The key has none, and there is room for one.
    Vacant,
    /// The key has none, and the pool is full.
    Full,
}

/// What the pool can do for `key`, given the keys it holds and its capacity.
pub open spec fn admission(keys: Seq<Seq<char>>, capacity: nat, key: Seq<char>) -> Admission {
    if keys.contains(key) {
        Admission::Existing
    } else if keys.len() >= capacity {
        Admission::Full
    } else {
        Admission::Vacant
    }
}

/// The keys of a pool after a run of requests, where each requested key
/// gets a session if the pool admits it.
pub open spec fn keys_after(keys: Seq<Seq<char>>, capacity: nat, requests: Seq<Seq<char>>) -> Seq<
    Seq<char>,
>
    decreases requests.len(),
{
    if requests.len() == 0 {
        keys
    } else {
        let before = keys_after(keys, capacity, requests.drop_last());
        if admission(before, capacity, requests.last()) is Vacant {
            before.push(requests.last())
        } else {
            before
        }
    }
}

/// The answer of the pool to a request for a key.
pub enum PoolSlot<C> {
    /// The key has a session, at this position.
    Existing(usize),
    /// The key has none. This fresh session is to be connected and then
    /// inserted under the key.
    Vacant(SSHManager<C>),
}

impl<C> SSHConnectionPool<C> {
    /// The keys and sessions of the pool, oldest first.
    pub closed spec fn entries(&self) -> Seq<(Seq<char>, SSHManager<C>)> {
        Seq::new(
            self.connections@.len(),
            |i: int| (self.connections@[i].key@, self.connections@[i].manager),
        )
    }

    /// The keys of the pool, oldest first.
    pub open spec fn keys(&self) -> Seq<Seq<char>> {
        Seq::new(self.entries().len(), |i: int| self.entries()[i].0)
    }

    /// The largest number of sessions that the pool holds.
    pub closed spec fn capacity(&self) -> usize {
        self.max_connections
    }

    /// No key occurs twice, and the pool is not over its capacity.
    pub open spec fn wf(&self) -> bool {
        self.keys().no_duplicates() && self.keys().len() <= self.capacity()
    }

    /// An empty pool for at most `max_connections` sessions.
    pub fn new(max_connections: usize) -> (pool: Self)
        ensures
            pool.wf(),
            pool.entries().len() == 0,
            pool.capacity() == max_connections,
    {
        SSHConnectionPool { connections: Vec::new(), max_connections }
    }

    /// The number of sessions in the pool.
    pub fn len(&self) -> (n: usize)
        ensures
            n == self.entries().len(),
    {
        self.connections.len()
    }

    /// The position of `key`, if the pool holds it.
    fn position(&self, key: &str) -> (r: Option<usize>)
        ensures
            match r {
                Some(i) => i < self.keys().len() && self.keys()[i as int] == key@,
                None => !self.keys().contains(key@),
            },
    {
        let wanted = String::from_str(key);
        let mut i: usize = 0;
        while i < self.connections.len()
            invariant
                i <= self.connections@.len(),
                wanted@ == key@,
                forall|j: int| 0 <= j < i ==> self.keys()[j] != key@,
            decreases self.connections@.len() - i,
        {
            if self.connections[i].key == wanted {
                return Some(i);
            }
            i = i + 1;
        }
        None
    }

    /// Looks `key` up for a caller that wants a session under it.
    ///
    /// A key that has a session keeps it, and `config` is ignored. For a
    /// new key, a full pool refuses; a pool with room validates `config` and
    /// hands out a fresh session for the caller to connect. The pool itself
    /// is left as it is: `settle` adds the session once it is connected.
    pub fn get_or_create_connection(&self, key: &str, config: SSHConfig) -> (r: Result<
        PoolSlot<C>,
        SSHError,
    >)
        requires
            self.wf(),
        ensures
            match admission(self.keys(), self.capacity() as nat, key@) {
                Admission::Existing => r matches Ok(PoolSlot::Existing(i)) && i
                    < self.keys().len() && self.keys()[i as int] == key@,
                Admission::Full => r matches Err(e) && e@ == SSHErrorView::ConnectionFailed(
                    "Maximum number of connections reached"@,
                ),
                Admission::Vacant => if config@.is_valid() {
                    r matches Ok(PoolSlot::Vacant(m)) && m.config() == config@ && m.channel()
                        is None && m.connected_at() is None
                } else {
                    r matches Err(e) && e@ == config@.validation_error()
                },
            },
    {
        match self.position(key) {
            Some(i) => Ok(PoolSlot::Existing(i)),
            None => {
                if self.connections.len() >= self.max_connections {
                    return Err(
                        SSHError::ConnectionFailed(
                            String::from_str("Maximum number of connections reached"),
                        ),
                    );
                }
                match SSHManager::new(config) {
                    Ok(manager) => Ok(PoolSlot::Vacant(manager)),
                    Err(e) => Err(e),
                }
            },
        }
    }

    /// Puts a session into the pool under a new key. Where the key is taken
    /// or the pool is full, the pool stays as it is and the session is
    /// handed back.
    fn insert(&mut self, key: String, manager: SSHManager<C>) -> (rejected: Option<
        SSHManager<C>,
    >)
        requires
            old(self).wf(),
        ensures
            final(self).wf(),
            final(self).capacity() == old(self).capacity(),
            match admission(old(self).keys(), old(self).capacity() as nat, key@) {
                Admission::Vacant => rejected is None && final(self).entries() == old(
                    self,
                ).entries().push((key@, manager)),
                _ => rejected == Some(manager) && final(self).entries() == old(self).entries(),
            },
    {
        if self.position(key.as_str()).is_some() || self.connections.len()
            >= self.max_connections {
            return Some(manager);
        }
        let ghost before = self.keys();
        self.connections.push(PoolEntry { key, manager });
        proof {
            assert(self.entries() =~= old(self).entries().push((key@, manager)));
            assert(self.keys() =~= before.push(key@));
            lemma_push_fresh(before, key@);
        }
        None
    }

    /// Ends the creation of a session for a new key, given the step with
    /// which its connect ended. A connected session is put into the pool
    /// under the key. After a failed connect nothing is added, and the
    /// session is handed back, as it is where the key is taken or the pool
    /// is full.
    pub fn settle(&mut self, key: String, manager: SSHManager<C>, step: &ConnectStep) -> (rejected:
        Option<SSHManager<C>>)
        requires
            old(self).wf(),
        ensures
            final(self).wf(),
            final(self).capacity() == old(self).capacity(),
            if step is Connected && admission(
                old(self).keys(),
                old(self).capacity() as nat,
                key@,
            ) is Vacant {
                rejected is None && final(self).entries() == old(self).entries().push(
                    (key@, manager),
                )
            } else {
                rejected == Some(manager) && final(self).entries() == old(self).entries()
            },
    {
        match step {
            ConnectStep::Connected => self.insert(key, manager),
            _ => Some(manager),
        }
    }

    /// Whether `after` is `before` with one change, to the session under
    /// `key`, which stands at `at` before and after: the keys and every
    /// other session stay.
    pub open spec fn changed_at(
        before: Seq<(Seq<char>, SSHManager<C>)>,
        after: Seq<(Seq<char>, SSHManager<C>)>,
        key: Seq<char>,
        at: int,
    ) -> bool {
        &&& 0 <= at < before.len()
        &&& after.len() == before.len()
        &&& before[at].0 == key
        &&& after[at].0 == key
        &&& forall|j: int| 0 <= j < before.len() && j != at ==> after[j] == before[j]
    }

    /// Takes the outcome of one connection attempt for the session under
    /// `key`, as `SSHManager::connect` does, and leaves the session in the
    /// pool. Where the pool does not hold the key, nothing changes and the
    /// outcome is handed back.
    pub fn connect_connection(
        &mut self,
        key: &str,
        progress: &mut ConnectProgress,
        outcome: AttemptOutcome<C>,
        now: u64,
    ) -> (r: Result<ConnectStep, AttemptOutcome<C>>)
        requires
            old(self).wf(),
        ensures
            final(self).wf(),
            final(self).capacity() == old(self).capacity(),
            final(self).keys() == old(self).keys(),
            r.is_ok() == old(self).keys().contains(key@),
            match r {
                Ok(step) => exists|at: int|
                    #![trigger old(self).entries()[at]]
                    Self::changed_at(old(self).entries(), final(self).entries(), key@, at) && old(
                        self,
                    ).entries()[at].1.connect_result(
                        final(self).entries()[at].1,
                        *old(progress),
                        *final(progress),
                        outcome,
                        now,
                        step,
                    ),
                Err(back) => back == outcome && final(self).entries() == old(self).entries()
                    && *final(progress) == *old(progress),
            },
    {
        match self.position(key) {
            Some(i) => {
                let ghost before = self.entries();
                let ghost keys = self.keys();
                assert(keys[i as int] == key@);
                assert(keys.contains(key@));
                let mut entry = self.connections.remove(i);
                let step = entry.manager.connect(progress, outcome, now);
                self.connections.insert(i, entry);
                proof {
                    assert(Self::changed_at(before, self.entries(), key@, i as int));
                    assert(self.keys() =~= keys);
                    assert(before[i as int].1.connect_result(
                        self.entries()[i as int].1,
                        *old(progress),
                        *progress,
                        outcome,
                        now,
                        step,
                    ));
                }
                Ok(step)
            },
            None => Err(outcome),
        }
    }

    /// Disconnects the session under `key` and leaves it in the pool: the
    /// channel that it held is handed out for the caller to close. Where the
    /// pool does not hold the key, nothing changes.
    pub fn disconnect_connection(&mut self, key: &str) -> (released: Option<C>)
        requires
            old(self).wf(),
        ensures
            final(self).wf(),
            final(self).capacity() == old(self).capacity(),
            final(self).keys() == old(self).keys(),
            if old(self).keys().contains(key@) {
                exists|at: int|
                    #![trigger old(self).entries()[at]]
                    Self::changed_at(old(self).entries(), final(self).entries(), key@, at) && old(
                        self,
                    ).entries()[at].1.disconnect_outcome(final(self).entries()[at].1, released)
            } else {
                released is None && final(self).entries() == old(self).entries()
            },
    {
        match self.position(key) {
            Some(i) => {
                let ghost before = self.entries();
                let ghost keys = self.keys();
                assert(keys[i as int] == key@);
                assert(keys.contains(key@));
                let mut entry = self.connections.remove(i);
                let released = entry.manager.disconnect();
                self.connections.insert(i, entry);
                proof {
                    assert(Self::changed_at(before, self.entries(), key@, i as int));
                    assert(self.keys() =~= keys);
                    assert(before[i as int].1.disconnect_outcome(
                        self.entries()[i as int].1,
                        released,
                    ));
                }
                released
            },
            None => None,
        }
    }

    /// The session under `key`, if the pool holds one.
    pub fn get(&self, key: &str) -> (r: Option<&SSHManager<C>>)
        ensures
            r.is_some() == self.keys().contains(key@),
            r matches Some(m) ==> exists|i: int|
                0 <= i < self.entries().len() && #[trigger] self.entries()[i] == (key@, *m),
    {
        match self.position(key) {
            Some(i) => {
                assert(self.keys()[i as int] == key@);
                assert(self.keys().contains(key@));
                assert(self.entries()[i as int] == (key@, self.connections@[i as int].manager));
                Some(&self.connections[i].manager)
            },
            None => None,
        }
    }

    /// Removes the session under `key`, if there is one, and disconnects it:
    /// the channel that it held is handed out for the caller to close. A key
    /// that the pool does not hold changes nothing.
    pub fn remove_connection(&mut self, key: &str) -> (released: Option<C>)
        requires
            old(self).wf(),
        ensures
            final(self).wf(),
            final(self).capacity() == old(self).capacity(),
            !final(self).keys().contains(key@),
            if old(self).keys().contains(key@) {
                exists|i: int|
                    0 <= i < old(self).entries().len() && (#[trigger] old(self).entries()[i]).0
                        == key@ && released == old(self).entries()[i].1.channel()
                        && final(self).entries() == old(self).entries().remove(i)
            } else {
                released is None && final(self).entries() == old(self).entries()
            },
    {
        match self.position(key) {
            Some(i) => {
                let ghost before = self.keys();
                assert(before[i as int] == key@);
                assert(before.contains(key@));
                let mut entry = self.connections.remove(i);
                proof {
                    assert(self.entries() =~= old(self).entries().remove(i as int));
                    assert(self.keys() =~= before.remove(i as int));
                    lemma_remove_only(before, i as int);
                    assert(old(self).entries()[i as int].0 == key@);
                }
                entry.manager.disconnect()
            },
            None => None,
        }
    }

    /// Empties the pool and disconnects every session: for each, youngest
    /// first, the channel that it held is handed out for the caller to
    /// close. The closing of one cannot keep another from being released.
    pub fn close_all(&mut self) -> (released: Vec<Option<C>>)
        requires
            old(self).wf(),
        ensures
            final(self).wf(),
            final(self).capacity() == old(self).capacity(),
            final(self).entries().len() == 0,
            released@.len() == old(self).entries().len(),
            forall|i: int|
                0 <= i < released@.len() ==> #[trigger] released@[i] == old(self).entries()[old(
                    self,
                ).entries().len() - 1 - i].1.channel(),
    {
        let mut released: Vec<Option<C>> = Vec::new();
        let ghost total = self.entries().len();
        while self.connections.len() > 0
            invariant
                self.max_connections == old(self).max_connections,
                total == old(self).entries().len(),
                self.entries().len() + released@.len() == total,
                forall|j: int|
                    0 <= j < self.entries().len() ==> self.entries()[j] == old(
                        self,
                    ).entries()[j],
                forall|i: int|
                    0 <= i < released@.len() ==> #[trigger] released@[i] == old(
                        self,
                    ).entries()[total - 1 - i].1.channel(),
            decreases self.connections@.len(),
        {
            let ghost before = self.entries();
            let popped = self.connections.pop();
            match popped {
                Some(entry) => {
                    let mut entry = entry;
                    assert(before[before.len() - 1].1 == entry.manager);
                    released.push(entry.manager.disconnect());
                },
                None => {},
            }
        }
        assert(self.keys() =~= Seq::empty());
        released
    }
}

/// The failures among the first `count` reports of closing a channel: for
/// each close that failed, in order, the error of a failed disconnect.
pub open spec fn failures_of(close_errors: Seq<Option<String>>, count: int) -> Seq<SSHErrorView>
    decreases count,
{
    if count <= 0 {
        Seq::empty()
    } else {
        let before = failures_of(close_errors, count - 1);
        match close_errors[count - 1] {
            Some(reason) => before.push(
                SSHErrorView::SessionFailed("Failed to close session: "@ + reason@),
            ),
            None => before,
        }
    }
}

/// The errors of a list.
pub open spec fn error_views(errors: Seq<SSHError>) -> Seq<SSHErrorView> {
    Seq::new(errors.len(), |i: int| errors[i]@)
}

/// What is left of closing the channels that `close_all` released, given
/// for each channel the error of its close, if it failed: the failures, to
/// be logged. Closing the pool never fails as a whole.
pub fn close_failures(close_errors: &Vec<Option<String>>) -> (failures: Vec<SSHError>)
    ensures
        error_views(failures@) == failures_of(close_errors@, close_errors@.len() as int),
{
    let mut failures: Vec<SSHError> = Vec::new();
    let mut i: usize = 0;
    while i < close_errors.len()
        invariant
            i <= close_errors@.len(),
            error_views(failures@) == failures_of(close_errors@, i as int),
        decreases close_errors@.len() - i,
    {
        let ghost before = failures@;
        match &close_errors[i] {
            Some(reason) => {
                match disconnect_result(Some(reason.clone())) {
                    Err(e) => {
                        failures.push(e);
                        assert(error_views(failures@) =~= error_views(before).push(e@));
                    },
                    Ok(_) => {},
                }
            },
            None => {},
        }
        i = i + 1;
    }
    failures
}

/// A key that a list without duplicates does not hold can be added to it.
pub proof fn lemma_push_fresh(keys: Seq<Seq<char>>, key: Seq<char>)
    requires
        keys.no_duplicates(),
        !keys.contains(key),
    ensures
        keys.push(key).no_duplicates(),
{
    let pushed = keys.push(key);
    assert forall|i: int, j: int| 0 <= i < pushed.len() && 0 <= j < pushed.len() && i != j implies pushed[i]
        != pushed[j] by {
        if i < keys.len() && j < keys.len() {
        } else if i < keys.len() {
            assert(keys.contains(keys[i]));
        } else {
            assert(keys.contains(keys[j]));
        }
    }
}

/// Removing the one occurrence of a key from a list without duplicates
/// leaves a list without duplicates that does not hold the key.
pub proof fn lemma_remove_only(keys: Seq<Seq<char>>, at: int)
    requires
        keys.no_duplicates(),
        0 <= at < keys.len(),
    ensures
        keys.remove(at).no_duplicates(),
        !keys.remove(at).contains(keys[at]),
        keys.remove(at).len() == keys.len() - 1,
{
    let rest = keys.remove(at);
    assert forall|i: int, j: int| 0 <= i < rest.len() && 0 <= j < rest.len() && i != j implies rest[i]
        != rest[j] by {
        let oi = if i < at {
            i
        } else {
            i + 1
        };
        let oj = if j < at {
            j
        } else {
            j + 1
        };
        assert(rest[i] == keys[oi] && rest[j] == keys[oj]);
    }
    if rest.contains(keys[at]) {
        let i = choose|i: int| 0 <= i < rest.len() && rest[i] == keys[at];
        let oi = if i < at {
            i
        } else {
            i + 1
        };
        assert(rest[i] == keys[oi]);
    }
}

/// The capacity bound of the pool. For a pool without duplicate keys and
/// within its capacity: a key that it holds is answered with its session and
/// adds nothing; a new key is admitted while there is room, and the pool
/// with it is again without duplicates and within its capacity; a new key is
/// refused once the pool holds as many sessions as its capacity.
pub proof fn lemma_pool_capacity(keys: Seq<Seq<char>>, capacity: nat, key: Seq<char>)
    requires
        keys.no_duplicates(),
        keys.len() <= capacity,
    ensures
        keys.contains(key) ==> admission(keys, capacity, key) is Existing,
        !keys.contains(key) && keys.len() < capacity ==> admission(keys, capacity, key)
            is Vacant && keys.push(key).no_duplicates() && keys.push(key).len() <= capacity,
        !keys.contains(key) && keys.len() == capacity ==> admission(keys, capacity, key)
            is Full,
{
    if !keys.contains(key) {
        lemma_push_fresh(keys, key);
    }
}

/// Filling an empty pool with distinct keys. The first `capacity` of them
/// get a session each; every further one is refused, and the pool holds
/// exactly the first `capacity` keys.
pub proof fn lemma_distinct_keys_fill(capacity: nat, requests: Seq<Seq<char>>)
    requires
        requests.no_duplicates(),
    ensures
        requests.len() <= capacity ==> keys_after(Seq::empty(), capacity, requests) == requests,
        requests.len() > capacity ==> keys_after(Seq::empty(), capacity, requests)
            == requests.take(capacity as int),
        requests.len() > capacity ==> admission(
            keys_after(Seq::empty(), capacity, requests.drop_last()),
            capacity,
            requests.last(),
        ) is Full,
    decreases requests.len(),
{
    let empty = Seq::<Seq<char>>::empty();
    if requests.len() > 0 {
        let earlier = requests.drop_last();
        let last = requests.last();
        let before = keys_after(empty, capacity, earlier);
        assert(earlier.no_duplicates());
        lemma_distinct_keys_fill(capacity, earlier);
        if earlier.len() <= capacity {
            assert(before == earlier);
        } else {
            assert(before == earlier.take(capacity as int));
        }
        if before.contains(last) {
            let i = choose|i: int| 0 <= i < before.len() && before[i] == last;
            assert(before[i] == requests[i]);
            assert(requests[i] == requests[requests.len() - 1]);
        }
        if requests.len() <= capacity {
            assert(before.push(last) =~= requests);
        } else {
            assert(before =~= requests.take(capacity as int));
        }
    } else {
        assert(requests =~= empty);
    }
}

} // verus!
