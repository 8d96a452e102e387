use vstd::prelude::*;

verus! {

/// A key's breaker state.  The naming follows the electrical circuit: `Open`
/// means calls are permitted, `Closed` means the breaker has tripped and
/// calls are rejected.
#[derive(Clone, Copy, Debug, PartialEq, Eq, Structural)]
pub enum State {
    Closed,
    Open,
}

/// How a guarded call failed: `Rejected` without invoking the operation
/// (the breaker was already tripped), `Open` with the operation's error while
/// calls stay permitted, `Closed` with the error that tripped the breaker.
#[derive(Debug, PartialEq)]
pub enum Error<T> {
    Rejected,
    Open(T),
    Closed(T),
}

/// The number of consecutive failures that trips a key's breaker.
pub const TRIP_THRESHOLD: u32 = 3;

/// The breaker's ghost view: for every key its consecutive-failure count and
/// its state.  Keys never touched map to `0` and `Open`.
pub struct BreakerModel {
    pub counts: Map<Seq<char>, u32>,
    pub states: Map<Seq<char>, State>,
}

impl BreakerModel {
    /// The model of a fresh breaker: every count zero, every key permitted.
    pub open spec fn init() -> BreakerModel {
        BreakerModel {
            counts: Map::new(|k: Seq<char>| true, |k: Seq<char>| 0u32),
            states: Map::new(|k: Seq<char>| true, |k: Seq<char>| State::Open),
        }
    }

    /// A successful call resets the key's counter; states are untouched.
    pub open spec fn on_success(self, k: Seq<char>) -> BreakerModel {
        BreakerModel { counts: self.counts.insert(k, 0), states: self.states }
    }

    /// A failed call increments the key's counter; reaching the trip
    /// threshold closes the key.
    pub open spec fn on_failure(self, k: Seq<char>) -> BreakerModel {
        let c: u32 = if self.counts[k] >= TRIP_THRESHOLD {
            self.counts[k]
        } else {
            (self.counts[k] + 1) as u32
        };
        BreakerModel {
            counts: self.counts.insert(k, c),
            states: if c >= TRIP_THRESHOLD {
                self.states.insert(k, State::Closed)
            } else {
                self.states
            },
        }
    }

    /// Reviving a closed key restores permission and a zero counter; reviving
    /// an open key changes nothing.
    pub open spec fn on_revive(self, k: Seq<char>) -> BreakerModel {
        if self.states[k] is Closed {
            BreakerModel {
                counts: self.counts.insert(k, 0),
                states: self.states.insert(k, State::Open),
            }
        } else {
            self
        }
    }
}

/// One key's record: its consecutive failures and its state.
struct Entry {
    key: String,
    fails: u32,
    state: State,
}

/// The first entry for `k`, if any.
spec fn lookup(s: Seq<Entry>, k: Seq<char>) -> Option<Entry>
    decreases s.len(),
{
    if s.len() == 0 {
        None
    } else if s[0].key@ == k {
        Some(s[0])
    } else {
        lookup(s.drop_first(), k)
    }
}

proof fn lemma_lookup_none(s: Seq<Entry>, k: Seq<char>)
    requires
        forall|j: int| 0 <= j < s.len() ==> (#[trigger] s[j]).key@ != k,
    ensures
        lookup(s, k) is None,
    decreases s.len(),
{
    if s.len() > 0 {
        assert(forall|j: int|
            0 <= j < s.drop_first().len() ==> (#[trigger] s.drop_first()[j]).key@ != k);
        lemma_lookup_none(s.drop_first(), k);
    }
}

proof fn lemma_lookup_at(s: Seq<Entry>, i: int, k: Seq<char>)
    requires
        0 <= i < s.len(),
        s[i].key@ == k,
        forall|j: int| 0 <= j < i ==> (#[trigger] s[j]).key@ != k,
    ensures
        lookup(s, k) == Some(s[i]),
    decreases i,
{
    if i > 0 {
        assert(s.drop_first()[i - 1] == s[i]);
        assert(forall|j: int|
            0 <= j < i - 1 ==> #[trigger] s.drop_first()[j] == s[j + 1]);
        lemma_lookup_at(s.drop_first(), i - 1, k);
    }
}

/// The entries of `s1` and `s2` agree about `k` position by position.
spec fn entry_agrees(a: Entry, b: Entry, k: Seq<char>) -> bool {
    (a.key@ == k <==> b.key@ == k) && (a.key@ == k ==> a == b)
}

proof fn lemma_lookup_agree(s1: Seq<Entry>, s2: Seq<Entry>, k: Seq<char>)
    requires
        s1.len() == s2.len(),
        forall|j: int| 0 <= j < s1.len() ==> entry_agrees(#[trigger] s1[j], s2[j], k),
    ensures
        lookup(s1, k) == lookup(s2, k),
    decreases s1.len(),
{
    if s1.len() > 0 {
        if s1[0].key@ == k {
        } else {
            assert(forall|j: int|
                0 <= j < s1.drop_first().len() ==> entry_agrees(
                    #[trigger] s1.drop_first()[j],
                    s2.drop_first()[j],
                    k,
                ));
            lemma_lookup_agree(s1.drop_first(), s2.drop_first(), k);
        }
    }
}

/// Per-key consecutive-failure tracking with a trip threshold: each key
/// starts permitted (`Open`); three failures in a row close it until an
/// operator revives it.  Every key is tracked independently.
pub struct CircuitBreaker {
    entries: Vec<Entry>,
}

impl CircuitBreaker {
    /// Distinct keys, counts capped at the threshold, and a permitted key is
    /// always strictly below the threshold.
    pub closed spec fn wf(&self) -> bool {
        &&& (forall|i: int, j: int|
            0 <= i < self.entries@.len() && 0 <= j < self.entries@.len() && i != j
                ==> (#[trigger] self.entries@[i]).key@ != (#[trigger] self.entries@[j]).key@)
        &&& (forall|i: int|
            0 <= i < self.entries@.len() ==> (#[trigger] self.entries@[i]).fails
                <= TRIP_THRESHOLD)
        &&& (forall|i: int|
            0 <= i < self.entries@.len() && (#[trigger] self.entries@[i]).state is Open
                ==> self.entries@[i].fails < TRIP_THRESHOLD)
    }

    /// The key's consecutive-failure count; an untouched key counts 0.
    pub closed spec fn spec_fail_count(&self, k: Seq<char>) -> u32 {
        match lookup(self.entries@, k) {
            Some(e) => e.fails,
            None => 0,
        }
    }

    /// The key's state; an untouched key is `Open` (permitted).
    pub closed spec fn spec_state(&self, k: Seq<char>) -> State {
        match lookup(self.entries@, k) {
            Some(e) => e.state,
            None => State::Open,
        }
    }

    /// The breaker's ghost view over all keys.
    pub open spec fn model(&self) -> BreakerModel {
        BreakerModel {
            counts: Map::new(|k: Seq<char>| true, |k: Seq<char>| self.spec_fail_count(k)),
            states: Map::new(|k: Seq<char>| true, |k: Seq<char>| self.spec_state(k)),
        }
    }

    /// A fresh breaker: every key permitted with a zero counter.
    pub fn new() -> (r: Self)
        ensures
            r.wf(),
            r.model() == BreakerModel::init(),
    {
        let r = CircuitBreaker { entries: Vec::new() };
        proof {
            assert(forall|k: Seq<char>| r.spec_fail_count(k) == 0 && r.spec_state(k) is Open);
            assert(r.model().counts =~= BreakerModel::init().counts);
            assert(r.model().states =~= BreakerModel::init().states);
        }
        r
    }

    /// The index of the key's entry, if one exists.
    fn find(&self, key: &String) -> (r: Option<usize>)
        ensures
            match r {
                Some(i) => i < self.entries@.len() && self.entries@[i as int].key@ == key@
                    && (forall|j: int|
                    0 <= j < i ==> (#[trigger] self.entries@[j]).key@ != key@),
                None => forall|j: int|
                    0 <= j < self.entries@.len() ==> (#[trigger] self.entries@[j]).key@ != key@,
            },
    {
        let mut i: usize = 0;
        while i < self.entries.len()
            invariant
                i <= self.entries@.len(),
                forall|j: int| 0 <= j < i ==> (#[trigger] self.entries@[j]).key@ != key@,
            decreases self.entries@.len() - i,
        {
            if self.entries[i].key == *key {
                return Some(i);
            }
            i += 1;
        }
        None
    }

    /// The key's consecutive-failure count.
    fn fails(&self, key: &String) -> (r: u32)
        requires
            self.wf(),
        ensures
            r == self.spec_fail_count(key@),
            r <= TRIP_THRESHOLD,
            self.spec_state(key@) is Open ==> r < TRIP_THRESHOLD,
    {
        match self.find(key) {
            Some(i) => {
                proof {
                    lemma_lookup_at(self.entries@, i as int, key@);
                }
                self.entries[i].fails
            },
            None => {
                proof {
                    lemma_lookup_none(self.entries@, key@);
                }
                0
            },
        }
    }

    /// The key's state.
    pub fn state(&self, key: &String) -> (r: State)
        requires
            self.wf(),
        ensures
            r == self.spec_state(key@),
    {
        match self.find(key) {
            Some(i) => {
                proof {
                    lemma_lookup_at(self.entries@, i as int, key@);
                }
                self.entries[i].state
            },
            None => {
                proof {
                    lemma_lookup_none(self.entries@, key@);
                }
                State::Open
            },
        }
    }

    /// Whether a call for the key would be allowed through.
    pub fn is_call_permitted(&self, key: &String) -> (r: bool)
        requires
            self.wf(),
        ensures
            r == (self.spec_state(key@) is Open),
    {
        match self.state(key) {
            State::Open => true,
            State::Closed => false,
        }
    }

    /// Writes the key's record, creating it if missing.
    fn upsert(&mut self, key: &String, fails: u32, state: State)
        requires
            old(self).wf(),
            fails <= TRIP_THRESHOLD,
            state is Open ==> fails < TRIP_THRESHOLD,
        ensures
            final(self).wf(),
            final(self).spec_fail_count(key@) == fails,
            final(self).spec_state(key@) == state,
            forall|k: Seq<char>|
                k != key@ ==> #[trigger] final(self).spec_fail_count(k) == old(
                    self,
                ).spec_fail_count(k),
            forall|k: Seq<char>|
                k != key@ ==> #[trigger] final(self).spec_state(k) == old(self).spec_state(k),
    {
        let ghost s1 = self.entries@;
        match self.find(key) {
            Some(i) => {
                let entry = Entry { key: key.clone(), fails, state };
                self.entries[i] = entry;
                proof {
                    let s2 = self.entries@;
                    lemma_lookup_at(s2, i as int, key@);
                    assert forall|k: Seq<char>| k != key@ implies #[trigger] lookup(s2, k)
                        == lookup(s1, k) by {
                        assert(forall|j: int|
                            0 <= j < s1.len() ==> entry_agrees(#[trigger] s1[j], s2[j], k));
                        lemma_lookup_agree(s1, s2, k);
                    }
                }
            },
            None => {
                let entry = Entry { key: key.clone(), fails, state };
                self.entries.push(entry);
                proof {
                    let s2 = self.entries@;
                    lemma_lookup_at(s2, s1.len() as int, key@);
                    assert forall|k: Seq<char>| k != key@ implies #[trigger] lookup(s2, k)
                        == lookup(s1, k) by {
                        lemma_lookup_push_other(s1, s2.last(), k);
                        assert(s2 =~= s1.push(s2.last()));
                    }
                }
            },
        }
    }

    /// Resets the key's counter to zero; its state and every other key are
    /// untouched.
    pub fn reset_counter(&mut self, key: &String)
        requires
            old(self).wf(),
        ensures
            final(self).wf(),
            final(self).model() == old(self).model().on_success(key@),
    {
        let ghost m0 = self.model();
        let st = self.state(key);
        self.upsert(key, 0, st);
        proof {
            assert(self.model().counts =~= m0.on_success(key@).counts);
            assert(self.model().states =~= m0.on_success(key@).states);
        }
    }

    /// Sets the key's state, leaving its counter and every other key alone.
    pub fn update(&mut self, key: &String, state: State)
        requires
            old(self).wf(),
            state is Open ==> old(self).spec_fail_count(key@) < TRIP_THRESHOLD,
        ensures
            final(self).wf(),
            final(self).model() == (BreakerModel {
                counts: old(self).model().counts,
                states: old(self).model().states.insert(key@, state),
            }),
    {
        let ghost m0 = self.model();
        let f = self.fails(key);
        self.upsert(key, f, state);
        proof {
            assert(self.model().counts =~= m0.counts);
            assert(self.model().states =~= m0.states.insert(key@, state));
        }
    }

    /// Revive-on-enable: a closed key gets back permission and a zero
    /// counter; an open key is left exactly as it was.
    pub fn revive(&mut self, key: &String)
        requires
            old(self).wf(),
        ensures
            final(self).wf(),
            final(self).model() == old(self).model().on_revive(key@),
    {
        let ghost m0 = self.model();
        let closed = match self.state(key) {
            State::Closed => true,
            State::Open => false,
        };
        if closed {
            self.upsert(key, 0, State::Open);
            proof {
                assert(self.model().counts =~= m0.on_revive(key@).counts);
                assert(self.model().states =~= m0.on_revive(key@).states);
            }
        }
    }

    /// The call combinator.  A tripped key rejects without invoking the
    /// operation.  Otherwise the operation runs once: success resets the
    /// key's counter; failure increments it, and the failure that reaches the
    /// threshold closes the key and is reported as `Closed`.
    pub fn call<T, E, F: FnOnce() -> Result<T, E>>(&mut self, key: &String, function: F) -> (r:
        Result<T, Error<E>>)
        requires
            old(self).wf(),
            function.requires(()),
        ensures
            final(self).wf(),
            old(self).spec_state(key@) is Closed ==> (r matches Err(Error::Rejected)
                && final(self).model() == old(self).model()),
            old(self).spec_state(key@) is Open ==> match r {
                Ok(v) => function.ensures((), Ok(v))
                    && final(self).model() == old(self).model().on_success(key@),
                Err(Error::Open(e)) => function.ensures((), Err(e))
                    && final(self).model() == old(self).model().on_failure(key@)
                    && old(self).spec_fail_count(key@) + 1 < TRIP_THRESHOLD,
                Err(Error::Closed(e)) => function.ensures((), Err(e))
                    && final(self).model() == old(self).model().on_failure(key@)
                    && old(self).spec_fail_count(key@) + 1 >= TRIP_THRESHOLD,
                Err(Error::Rejected) => false,
            },
    {
        let ghost m0 = self.model();
        if !self.is_call_permitted(key) {
            return Err(Error::Rejected);
        }
        match function() {
            Ok(ok) => {
                self.reset_counter(key);
                Ok(ok)
            },
            Err(err) => {
                let f = self.fails(key);
                let new_fails = f + 1;
                if new_fails >= TRIP_THRESHOLD {
                    self.upsert(key, new_fails, State::Closed);
                    proof {
                        assert(self.model().counts =~= m0.on_failure(key@).counts);
                        assert(self.model().states =~= m0.on_failure(key@).states);
                    }
                    Err(Error::Closed(err))
                } else {
                    self.upsert(key, new_fails, State::Open);
                    proof {
                        assert(self.model().counts =~= m0.on_failure(key@).counts);
                        assert(self.model().states =~= m0.on_failure(key@).states);
                    }
                    Err(Error::Open(err))
                }
            },
        }
    }
}

proof fn lemma_lookup_push_other(s: Seq<Entry>, e: Entry, k: Seq<char>)
    requires
        e.key@ != k,
    ensures
        lookup(s.push(e), k) == lookup(s, k),
    decreases s.len(),
{
    let sp = s.push(e);
    if s.len() == 0 {
        assert(sp[0] == e);
        assert(sp.drop_first() =~= Seq::<Entry>::empty());
        assert(lookup(sp, k) is None);
    } else {
        assert(sp[0] == s[0]);
        assert(sp.drop_first() =~= s.drop_first().push(e));
        if s[0].key@ == k {
            assert(lookup(sp, k) == Some(sp[0]));
        } else {
            lemma_lookup_push_other(s.drop_first(), e, k);
            assert(lookup(sp, k) == lookup(sp.drop_first(), k));
        }
    }
}

/// Trip-count law: on a key with a zero counter and permission, three
/// consecutive failures leave the breaker closed for that key — so the next
/// call is rejected without running — and reviving it then restores
/// permission with a zero counter.
pub proof fn lemma_breaker_trip_count(m0: BreakerModel, k: Seq<char>)
    requires
        m0.counts[k] == 0,
        m0.states[k] is Open,
    ensures
        ({
            let m1 = m0.on_failure(k);
            let m2 = m1.on_failure(k);
            let m3 = m2.on_failure(k);
            &&& m1.states[k] is Open
            &&& m2.states[k] is Open
            &&& m3.states[k] is Closed
            &&& m3.counts[k] == TRIP_THRESHOLD
            &&& m3.on_revive(k).states[k] is Open
            &&& m3.on_revive(k).counts[k] == 0
        }),
{
}

/// Independence law: a failure, success or revive on key `a` leaves the
/// count and state of every other key `b` exactly as they were.
pub proof fn lemma_breaker_independence(m: BreakerModel, a: Seq<char>, b: Seq<char>)
    requires
        a != b,
    ensures
        m.on_failure(a).counts[b] == m.counts[b],
        m.on_failure(a).states[b] == m.states[b],
        m.on_success(a).counts[b] == m.counts[b],
        m.on_success(a).states[b] == m.states[b],
        m.on_revive(a).counts[b] == m.counts[b],
        m.on_revive(a).states[b] == m.states[b],
{
}

/// A success between failures resets the counter: after it, the key needs
/// the full run of three fresh failures again before it trips.
pub proof fn lemma_breaker_success_resets(m: BreakerModel, k: Seq<char>)
    ensures
        m.on_success(k).counts[k] == 0,
        m.on_success(k).states[k] == m.states[k],
{
}

} // verus!
