use crate::clock::{
    duration_as_nanos, duration_from_secs, duration_of_secs, instant_elapsed, instant_now, nanos_in,
};
use std::time::{Duration, Instant};
use vstd::prelude::*;

verus! {

/// Whether a bridge is idle (no subscribed topics) or actively streaming.
#[derive(Debug, Clone, Copy, PartialEq, Eq, Structural)]
pub enum BridgeState {
    Idle,
    Active,
}

impl Default for BridgeState {
    fn default() -> (s: Self)
        ensures
            s == BridgeState::Idle,
    {
        BridgeState::Idle
    }
}

/// The state a wire value stands for: `2` is active, every other value
/// (unspecified, idle, unknown) is idle.
pub open spec fn state_of_wire(value: i32) -> BridgeState {
    if value == 2 {
        BridgeState::Active
    } else {
        BridgeState::Idle
    }
}

impl From<i32> for BridgeState {
    fn from(value: i32) -> (s: Self)
        ensures
            s == state_of_wire(value),
    {
        match value {
            2 => BridgeState::Active,
            _ => BridgeState::Idle,
        }
    }
}

impl vstd::std_specs::convert::FromSpecImpl<i32> for BridgeState {
    open spec fn obeys_from_spec() -> bool {
        true
    }

    open spec fn from_spec(v: i32) -> Self {
        state_of_wire(v)
    }
}

/// The later of two moments.
pub open spec fn later(a: u128, b: u128) -> u128 {
    if a > b {
        a
    } else {
        b
    }
}

/// What the tracker holds of one bridge: the moment of its last beat, in
/// nanoseconds on the tracker's own clock, and the state it reported.
pub type BridgeRecord = (u128, BridgeState);

/// Whether a beat at `last_seen` is still alive at `now`: the time elapsed since
/// it (zero if `last_seen` lies after `now`) is under the staleness threshold.
pub open spec fn is_fresh(last_seen: u128, now: u128, threshold: u128) -> bool {
    let elapsed: int = if now >= last_seen { now - last_seen } else { 0 };
    elapsed < threshold
}

/// The bridges that a status query at `now` keeps: those whose last beat is
/// fresh, with their records unchanged.
pub open spec fn pruned(
    bridges: Map<Seq<char>, BridgeRecord>,
    now: u128,
    threshold: u128,
) -> Map<Seq<char>, BridgeRecord> {
    Map::new(
        |id: Seq<char>| bridges.dom().contains(id) && is_fresh(bridges[id].0, now, threshold),
        |id: Seq<char>| bridges[id],
    )
}

/// The aggregate state of a set of bridges: active when any bridge is active.
pub open spec fn aggregate(bridges: Map<Seq<char>, BridgeRecord>) -> BridgeState {
    if exists|id: Seq<char>| bridges.dom().contains(id) && #[trigger] bridges[id].1 == BridgeState::Active {
        BridgeState::Active
    } else {
        BridgeState::Idle
    }
}

/// What a status query reports of the bridges it kept:
/// `(connected, bridge_count, aggregate_state)`.
pub open spec fn report(bridges: Map<Seq<char>, BridgeRecord>) -> (bool, nat, BridgeState) {
    (bridges.len() > 0, bridges.len(), aggregate(bridges))
}

struct BridgeEntry {
    id: String,
    last_seen: u128,
    state: BridgeState,
}

spec fn record_of(e: BridgeEntry) -> BridgeRecord {
    (e.last_seen, e.state)
}

spec fn ids_of(entries: Seq<BridgeEntry>) -> Seq<Seq<char>> {
    entries.map_values(|e: BridgeEntry| e.id@)
}

spec fn has_id(entries: Seq<BridgeEntry>, id: Seq<char>) -> bool {
    exists|i: int| 0 <= i < entries.len() && #[trigger] entries[i].id@ == id
}

spec fn index_of_id(entries: Seq<BridgeEntry>, id: Seq<char>) -> int {
    choose|i: int| 0 <= i < entries.len() && #[trigger] entries[i].id@ == id
}

spec fn map_of(entries: Seq<BridgeEntry>) -> Map<Seq<char>, BridgeRecord> {
    Map::new(
        |id: Seq<char>| has_id(entries, id),
        |id: Seq<char>| record_of(entries[index_of_id(entries, id)]),
    )
}

/// With distinct ids, the map has one key per entry and each entry's record.
proof fn lemma_map_of(entries: Seq<BridgeEntry>)
    requires
        ids_of(entries).no_duplicates(),
    ensures
        map_of(entries).dom() == ids_of(entries).to_set(),
        map_of(entries).dom().finite(),
        map_of(entries).len() == entries.len(),
        forall|i: int|
            0 <= i < entries.len() ==> #[trigger] map_of(entries)[entries[i].id@] == record_of(
                entries[i],
            ),
{
    let ids = ids_of(entries);
    assert forall|id: Seq<char>| map_of(entries).dom().contains(id) <==> ids.to_set().contains(id) by {
        if has_id(entries, id) {
            let i = choose|i: int| 0 <= i < entries.len() && #[trigger] entries[i].id@ == id;
            assert(ids[i] == id);
        }
        if ids.to_set().contains(id) {
            let i = choose|i: int| 0 <= i < ids.len() && ids[i] == id;
            assert(entries[i].id@ == id);
        }
    }
    assert(map_of(entries).dom() =~= ids.to_set());
    ids.unique_seq_to_set();
    assert forall|i: int| 0 <= i < entries.len() implies #[trigger] map_of(entries)[entries[i].id@]
        == record_of(entries[i]) by {
        let id = entries[i].id@;
        assert(has_id(entries, id));
        let j = index_of_id(entries, id);
        assert(ids[i] == ids[j]);
    }
}

fn find_entry(entries: &Vec<BridgeEntry>, id: &String) -> (r: Option<usize>)
    ensures
        match r {
            Some(i) => i < entries.len() && entries@[i as int].id@ == id@,
            None => !has_id(entries@, id@),
        },
{
    let n = entries.len();
    let mut i: usize = 0;
    while i < n
        invariant
            i <= n,
            n == entries.len(),
            forall|j: int| 0 <= j < i ==> entries@[j].id@ != id@,
        decreases n - i,
    {
        if entries[i].id == *id {
            return Some(i);
        }
        i = i + 1;
    }
    None
}

/// Tracks heartbeats from connected bridge instances.
///
/// Each bridge sends periodic beats identified by a unique string ID.
/// The tracker prunes stale entries when queried for status, using a
/// configurable staleness threshold (default: 5 seconds).
pub struct HeartbeatTracker {
    bridges: Vec<BridgeEntry>,
    staleness: Duration,
    staleness_nanos: u128,
    origin: Instant,
    latest: u128,
    readings: Ghost<Seq<u128>>,
}

impl View for HeartbeatTracker {
    type V = Map<Seq<char>, BridgeRecord>;

    /// The bridges the tracker holds, by ID.
    closed spec fn view(&self) -> Map<Seq<char>, BridgeRecord> {
        map_of(self.bridges@)
    }
}

impl HeartbeatTracker {
    #[verifier::type_invariant]
    spec fn well_formed(self) -> bool {
        &&& ids_of(self.bridges@).no_duplicates()
        &&& self.staleness_nanos == nanos_in(self.staleness)
    }

    /// The staleness threshold in nanoseconds.
    pub closed spec fn threshold(&self) -> u128 {
        self.staleness_nanos
    }

    /// The staleness threshold as the tracker was given it.
    pub closed spec fn staleness_spec(&self) -> Duration {
        self.staleness
    }

    /// The latest reading of the tracker's clock that [`beat`](Self::beat) or
    /// [`status`](Self::status) used, in nanoseconds since the tracker was
    /// created (zero before the first).
    pub closed spec fn latest_reading(&self) -> u128 {
        self.latest
    }

    /// The readings of the tracker's clock taken so far, in the order taken:
    /// one by each call of [`beat`](Self::beat) and [`status`](Self::status).
    pub closed spec fn clock_readings(&self) -> Seq<u128> {
        self.readings@
    }

    /// Creates a tracker with a custom staleness threshold.
    ///
    /// Bridges that haven't sent a beat within this duration are considered
    /// disconnected and pruned on the next [`status`](Self::status) call.
    pub fn with_staleness(staleness: Duration) -> (t: Self)
        ensures
            t@ == Map::<Seq<char>, BridgeRecord>::empty(),
            t.threshold() == nanos_in(staleness),
            t.staleness_spec() == staleness,
            t.latest_reading() == 0,
            t.clock_readings() == Seq::<u128>::empty(),
            t.threshold() == nanos_in(t.staleness_spec()),
    {
        let staleness_nanos = duration_as_nanos(&staleness);
        let t = HeartbeatTracker {
            bridges: Vec::new(),
            staleness,
            staleness_nanos,
            origin: instant_now(),
            latest: 0,
            readings: Ghost(Seq::empty()),
        };
        assert(map_of(t.bridges@) =~= Map::empty());
        t
    }

    /// The staleness threshold.
    pub fn staleness(&self) -> (d: Duration)
        ensures
            d == self.staleness_spec(),
            nanos_in(d) == self.threshold(),
    {
        proof {
            use_type_invariant(self);
        }
        self.staleness
    }

    /// Records a heartbeat from the given bridge, taken at `now` on the
    /// tracker's clock. An existing bridge has its time and state replaced;
    /// another one is added.
    pub fn beat_at(&mut self, bridge_id: &str, state: BridgeState, now: u128)
        ensures
            final(self)@ == old(self)@.insert(bridge_id@, (now, state)),
            final(self)@.len() == old(self)@.len() + (if old(self)@.dom().contains(bridge_id@) {
                0int
            } else {
                1int
            }),
            final(self).threshold() == old(self).threshold(),
            final(self).staleness_spec() == old(self).staleness_spec(),
            final(self).latest_reading() == old(self).latest_reading(),
            final(self).clock_readings() == old(self).clock_readings(),
            final(self).threshold() == nanos_in(final(self).staleness_spec()),
            final(self)@.dom().finite(),
    {
        proof {
            use_type_invariant(&*self);
        }
        let id = bridge_id.to_owned();
        let mut bridges: Vec<BridgeEntry> = Vec::new();
        std::mem::swap(&mut bridges, &mut self.bridges);
        let ghost before = bridges@;
        let entry = BridgeEntry { id, last_seen: now, state };
        match find_entry(&bridges, &entry.id) {
            Some(i) => {
                bridges.set(i, entry);
                proof {
                    let after = bridges@;
                    assert(ids_of(after) =~= ids_of(before));
                    lemma_map_of(before);
                    lemma_map_of(after);
                    assert forall|k: Seq<char>| #[trigger] map_of(after).dom().contains(k) <==> map_of(
                        before,
                    ).insert(bridge_id@, (now, state)).dom().contains(k) by {
                        assert(ids_of(after).to_set().contains(k) <==> ids_of(
                            before,
                        ).to_set().contains(k));
                        assert(ids_of(before)[i as int] == bridge_id@);
                    }
                    assert forall|k: Seq<char>| #[trigger] map_of(after).dom().contains(k) implies map_of(
                        after,
                    )[k] == map_of(before).insert(bridge_id@, (now, state))[k] by {
                        let j = choose|j: int| 0 <= j < after.len() && #[trigger] after[j].id@ == k;
                        assert(map_of(after)[after[j].id@] == record_of(after[j]));
                        if j != i {
                            assert(before[j] == after[j]);
                            assert(map_of(before)[before[j].id@] == record_of(before[j]));
                            assert(ids_of(before)[j] != ids_of(before)[i as int]);
                        }
                    }
                    assert(map_of(after) =~= map_of(before).insert(bridge_id@, (now, state)));
                }
            },
            None => {
                bridges.push(entry);
                proof {
                    let after = bridges@;
                    assert(ids_of(after) =~= ids_of(before).push(bridge_id@));
                    assert(ids_of(after).no_duplicates()) by {
                        assert forall|a: int, b: int|
                            0 <= a < ids_of(after).len() && 0 <= b < ids_of(after).len() && a != b
                            implies ids_of(after)[a] != ids_of(after)[b] by {
                            if a < before.len() && b < before.len() {
                                assert(ids_of(before)[a] != ids_of(before)[b]);
                            } else if a < before.len() {
                                assert(before[a].id@ != bridge_id@);
                            } else {
                                assert(before[b].id@ != bridge_id@);
                            }
                        }
                    }
                    lemma_map_of(before);
                    lemma_map_of(after);
                    assert forall|k: Seq<char>| #[trigger] map_of(after).dom().contains(k) <==> map_of(
                        before,
                    ).insert(bridge_id@, (now, state)).dom().contains(k) by {
                        if ids_of(after).to_set().contains(k) {
                            let j = choose|j: int| 0 <= j < ids_of(after).len() && ids_of(after)[j] == k;
                            if j < before.len() {
                                assert(ids_of(before)[j] == k);
                            }
                        }
                        if ids_of(before).to_set().contains(k) {
                            let j = choose|j: int| 0 <= j < ids_of(before).len() && ids_of(before)[j] == k;
                            assert(ids_of(after)[j] == k);
                        }
                        assert(ids_of(after)[before.len() as int] == bridge_id@);
                    }
                    assert forall|k: Seq<char>| #[trigger] map_of(after).dom().contains(k) implies map_of(
                        after,
                    )[k] == map_of(before).insert(bridge_id@, (now, state))[k] by {
                        let j = choose|j: int| 0 <= j < after.len() && #[trigger] after[j].id@ == k;
                        assert(map_of(after)[after[j].id@] == record_of(after[j]));
                        if j < before.len() {
                            assert(before[j] == after[j]);
                            assert(map_of(before)[before[j].id@] == record_of(before[j]));
                        }
                    }
                    assert(map_of(after) =~= map_of(before).insert(bridge_id@, (now, state)));
                }
            },
        }
        self.bridges = bridges;
        proof {
            use_type_invariant(&*self);
            lemma_map_of(self.bridges@);
            lemma_map_of(before);
        }
    }

    /// Drops the bridges whose last beat is stale at `now`.
    fn prune_at(&mut self, now: u128)
        ensures
            final(self)@ == pruned(old(self)@, now, old(self).threshold()),
            final(self).threshold() == old(self).threshold(),
            final(self).staleness_spec() == old(self).staleness_spec(),
            final(self).latest_reading() == old(self).latest_reading(),
            final(self).clock_readings() == old(self).clock_readings(),
            final(self).threshold() == nanos_in(final(self).staleness_spec()),
            final(self)@.dom().finite(),
    {
        proof {
            use_type_invariant(&*self);
        }
        let threshold = self.staleness_nanos;
        let mut bridges: Vec<BridgeEntry> = Vec::new();
        std::mem::swap(&mut bridges, &mut self.bridges);
        let ghost before = bridges@;
        let mut kept: Vec<BridgeEntry> = Vec::new();
        let n = bridges.len();
        let mut i: usize = 0;
        while i < n
            invariant
                i <= n,
                n == bridges.len(),
                bridges@ == before,
                ids_of(before).no_duplicates(),
                ids_of(kept@).no_duplicates(),
                forall|a: int| #![trigger kept@[a]]
                    0 <= a < kept.len() ==> exists|j: int|
                        0 <= j < i && #[trigger] before[j] == kept@[a] && is_fresh(
                            before[j].last_seen,
                            now,
                            threshold,
                        ),
                forall|j: int| #![trigger before[j]]
                    0 <= j < i && is_fresh(before[j].last_seen, now, threshold) ==> exists|a: int|
                        0 <= a < kept.len() && #[trigger] kept@[a] == before[j],
            decreases n - i,
        {
            let e = &bridges[i];
            let elapsed: u128 = if now >= e.last_seen {
                now - e.last_seen
            } else {
                0
            };
            if elapsed < threshold {
                let ghost old_kept = kept@;
                kept.push(BridgeEntry { id: e.id.clone(), last_seen: e.last_seen, state: e.state });
                proof {
                    assert(kept@[old_kept.len() as int] == before[i as int]);
                    assert forall|a: int, b: int|
                        0 <= a < ids_of(kept@).len() && 0 <= b < ids_of(kept@).len() && a != b
                        implies ids_of(kept@)[a] != ids_of(kept@)[b] by {
                        if a < old_kept.len() && b < old_kept.len() {
                            assert(ids_of(old_kept)[a] != ids_of(old_kept)[b]);
                        } else if a < old_kept.len() {
                            let j = choose|j: int| 0 <= j < i && #[trigger] before[j] == kept@[a] && is_fresh(before[j].last_seen, now, threshold);
                            assert(ids_of(before)[j] != ids_of(before)[i as int]);
                        } else {
                            let j = choose|j: int| 0 <= j < i && #[trigger] before[j] == kept@[b] && is_fresh(before[j].last_seen, now, threshold);
                            assert(ids_of(before)[j] != ids_of(before)[i as int]);
                        }
                    }
                    assert forall|a: int| #![trigger kept@[a]] 0 <= a < kept.len() implies exists|j: int|
                        0 <= j < i + 1 && #[trigger] before[j] == kept@[a] && is_fresh(
                            before[j].last_seen,
                            now,
                            threshold,
                        ) by {
                        if a < old_kept.len() {
                            assert(kept@[a] == old_kept[a]);
                        } else {
                            assert(before[i as int] == kept@[a]);
                        }
                    }
                    assert forall|j: int| #![trigger before[j]]
                        0 <= j < i + 1 && is_fresh(before[j].last_seen, now, threshold) implies exists|a: int|
                        0 <= a < kept.len() && #[trigger] kept@[a] == before[j] by {
                        if j < i {
                            let a = choose|a: int| 0 <= a < old_kept.len() && #[trigger] old_kept[a] == before[j];
                            assert(kept@[a] == old_kept[a]);
                        } else {
                            assert(kept@[old_kept.len() as int] == before[j]);
                        }
                    }
                }
            }
            i = i + 1;
        }
        proof {
            lemma_map_of(before);
            lemma_map_of(kept@);
            let m = map_of(before);
            let p = pruned(m, now, threshold);
            assert forall|k: Seq<char>| #[trigger] map_of(kept@).dom().contains(k) <==> p.dom().contains(k) by {
                if has_id(kept@, k) {
                    let a = choose|a: int| 0 <= a < kept@.len() && #[trigger] kept@[a].id@ == k;
                    let j = choose|j: int| 0 <= j < n && #[trigger] before[j] == kept@[a] && is_fresh(before[j].last_seen, now, threshold);
                    assert(m[before[j].id@] == record_of(before[j]));
                    assert(has_id(before, k));
                }
                if p.dom().contains(k) {
                    let j = choose|j: int| 0 <= j < before.len() && #[trigger] before[j].id@ == k;
                    assert(m[before[j].id@] == record_of(before[j]));
                    let a = choose|a: int| 0 <= a < kept.len() && #[trigger] kept@[a] == before[j];
                    assert(kept@[a].id@ == k);
                }
            }
            assert forall|k: Seq<char>| #[trigger] map_of(kept@).dom().contains(k) implies map_of(kept@)[k] == p[k] by {
                let a = choose|a: int| 0 <= a < kept@.len() && #[trigger] kept@[a].id@ == k;
                let j = choose|j: int| 0 <= j < n && #[trigger] before[j] == kept@[a] && is_fresh(before[j].last_seen, now, threshold);
                assert(m[before[j].id@] == record_of(before[j]));
                assert(map_of(kept@)[kept@[a].id@] == record_of(kept@[a]));
            }
            assert(map_of(kept@) =~= p);
        }
        self.bridges = kept;
        proof {
            use_type_invariant(&*self);
            lemma_map_of(self.bridges@);
        }
    }

    /// Returns `(connected, bridge_count, aggregate_state)` at `now` on the
    /// tracker's clock, after pruning the bridges that are stale at `now`.
    ///
    /// `connected` is `true` when at least one bridge is alive. The aggregate
    /// state is [`BridgeState::Active`] when any bridge is active,
    /// [`BridgeState::Idle`] otherwise.
    pub fn status_at(&mut self, now: u128) -> (r: (bool, usize, BridgeState))
        ensures
            final(self)@ == pruned(old(self)@, now, old(self).threshold()),
            (r.0, r.1 as nat, r.2) == report(final(self)@),
            final(self).threshold() == old(self).threshold(),
            final(self).staleness_spec() == old(self).staleness_spec(),
            final(self).latest_reading() == old(self).latest_reading(),
            final(self).clock_readings() == old(self).clock_readings(),
            final(self).threshold() == nanos_in(final(self).staleness_spec()),
            final(self)@.dom().finite(),
    {
        self.prune_at(now);
        proof {
            use_type_invariant(&*self);
            lemma_map_of(self.bridges@);
        }
        let count = self.bridges.len();
        let mut any_active = false;
        let mut i: usize = 0;
        while i < count
            invariant
                i <= count,
                count == self.bridges.len(),
                any_active <==> exists|j: int| 0 <= j < i && #[trigger] self.bridges@[j].state == BridgeState::Active,
            decreases count - i,
        {
            if self.bridges[i].state == BridgeState::Active {
                any_active = true;
            }
            i = i + 1;
        }
        let state = if any_active {
            BridgeState::Active
        } else {
            BridgeState::Idle
        };
        proof {
            let s = self.bridges@;
            let m = map_of(s);
            if any_active {
                let j = choose|j: int| 0 <= j < count && #[trigger] s[j].state == BridgeState::Active;
                assert(m[s[j].id@] == record_of(s[j]));
                assert(m.dom().contains(s[j].id@));
                assert(m[s[j].id@].1 == BridgeState::Active);
            } else {
                assert forall|id: Seq<char>| m.dom().contains(id) implies #[trigger] m[id].1 != BridgeState::Active by {
                    let j = choose|j: int| 0 <= j < s.len() && #[trigger] s[j].id@ == id;
                    assert(m[s[j].id@] == record_of(s[j]));
                }
            }
        }
        (count > 0, count, state)
    }

    /// Reads the tracker's clock: the time since the tracker was created, in
    /// nanoseconds. The reading is added to the readings taken so far; the
    /// result is the later of it and the latest reading, and becomes the
    /// latest reading.
    fn clock_now(&mut self) -> (now: u128)
        ensures
            final(self).clock_readings().len() == old(self).clock_readings().len() + 1,
            final(self).clock_readings().drop_last() == old(self).clock_readings(),
            now == later(final(self).clock_readings().last(), old(self).latest_reading()),
            now >= old(self).latest_reading(),
            final(self).latest_reading() == now,
            final(self)@ == old(self)@,
            final(self).threshold() == old(self).threshold(),
            final(self).staleness_spec() == old(self).staleness_spec(),
    {
        proof {
            use_type_invariant(&*self);
        }
        let elapsed = instant_elapsed(&self.origin);
        let reading = duration_as_nanos(&elapsed);
        self.readings = Ghost(self.readings@.push(reading));
        let now = if reading > self.latest {
            reading
        } else {
            self.latest
        };
        self.latest = now;
        now
    }

    /// Records a heartbeat from the given bridge, taken now.
    ///
    /// If the bridge already exists, its timestamp and state are updated.
    /// Otherwise a new entry is created.
    pub fn beat(&mut self, bridge_id: &str, state: BridgeState)
        ensures
            final(self)@.dom().contains(bridge_id@),
            final(self)@ == old(self)@.insert(bridge_id@, (final(self).latest_reading(), state)),
            final(self).clock_readings().len() == old(self).clock_readings().len() + 1,
            final(self).clock_readings().drop_last() == old(self).clock_readings(),
            final(self).latest_reading() == later(
                final(self).clock_readings().last(),
                old(self).latest_reading(),
            ),
            final(self)@.len() == old(self)@.len() + (if old(self)@.dom().contains(bridge_id@) {
                0int
            } else {
                1int
            }),
            final(self).threshold() == old(self).threshold(),
            final(self).staleness_spec() == old(self).staleness_spec(),
            final(self).latest_reading() >= old(self).latest_reading(),
            final(self).threshold() == nanos_in(final(self).staleness_spec()),
            final(self)@.dom().finite(),
    {
        let now = self.clock_now();
        self.beat_at(bridge_id, state, now);
    }

    /// Returns `(connected, bridge_count, aggregate_state)` after pruning
    /// stale entries.
    ///
    /// A bridge is considered connected if its last beat is within the
    /// staleness threshold. `connected` is `true` when at least one bridge
    /// is alive. The aggregate state is [`BridgeState::Active`] when any
    /// bridge is active, [`BridgeState::Idle`] otherwise. Which bridges are
    /// still alive depends on the moment of the query, read from the clock.
    pub fn status(&mut self) -> (r: (bool, usize, BridgeState))
        ensures
            final(self)@ == pruned(old(self)@, final(self).latest_reading(), old(self).threshold()),
            final(self).clock_readings().len() == old(self).clock_readings().len() + 1,
            final(self).clock_readings().drop_last() == old(self).clock_readings(),
            final(self).latest_reading() == later(
                final(self).clock_readings().last(),
                old(self).latest_reading(),
            ),
            (r.0, r.1 as nat, r.2) == report(final(self)@),
            final(self).threshold() == old(self).threshold(),
            final(self).staleness_spec() == old(self).staleness_spec(),
            final(self).latest_reading() >= old(self).latest_reading(),
            final(self).threshold() == nanos_in(final(self).staleness_spec()),
            final(self)@.dom().finite(),
    {
        let now = self.clock_now();
        self.status_at(now)
    }
}

impl Default for HeartbeatTracker {
    /// A tracker with no bridges and the default staleness of 5 seconds.
    fn default() -> (t: Self)
        ensures
            t@ == Map::<Seq<char>, BridgeRecord>::empty(),
            t.staleness_spec() == duration_of_secs(5),
            t.latest_reading() == 0,
            t.clock_readings() == Seq::<u128>::empty(),
            t.threshold() == nanos_in(t.staleness_spec()),
            t.threshold() == 5_000_000_000,
    {
        HeartbeatTracker::with_staleness(duration_from_secs(5))
    }
}

/// A bridge that has just beaten is seen by a status query at the same
/// moment: it is kept with the record of that beat, the tracker reports
/// itself connected, and an active beat makes the aggregate state active.
/// This needs a positive threshold; with a zero threshold no beat is ever
/// fresh.
pub proof fn law_beat_then_status_sees_bridge(
    bridges: Map<Seq<char>, BridgeRecord>,
    id: Seq<char>,
    state: BridgeState,
    now: u128,
    threshold: u128,
)
    requires
        bridges.dom().finite(),
        threshold > 0,
    ensures
        pruned(bridges.insert(id, (now, state)), now, threshold).dom().contains(id),
        pruned(bridges.insert(id, (now, state)), now, threshold)[id] == (now, state),
        report(pruned(bridges.insert(id, (now, state)), now, threshold)).0,
        state == BridgeState::Active ==> report(
            pruned(bridges.insert(id, (now, state)), now, threshold),
        ).2 == BridgeState::Active,
{
    let inserted = bridges.insert(id, (now, state));
    let kept = pruned(inserted, now, threshold);
    lemma_pruned_finite(inserted, now, threshold);
    assert(kept.dom().contains(id));
    assert(kept.dom().remove(id).len() + 1 == kept.dom().len());
    if state == BridgeState::Active {
        assert(kept[id].1 == BridgeState::Active);
    }
}

/// Pruning keeps a finite set of bridges finite, and never adds one.
pub proof fn lemma_pruned_finite(bridges: Map<Seq<char>, BridgeRecord>, now: u128, threshold: u128)
    requires
        bridges.dom().finite(),
    ensures
        pruned(bridges, now, threshold).dom().finite(),
        pruned(bridges, now, threshold).len() <= bridges.len(),
{
    let kept = pruned(bridges, now, threshold);
    assert(kept.dom().subset_of(bridges.dom()));
    vstd::set_lib::lemma_len_subset(kept.dom(), bridges.dom());
}

/// Beating a bridge that the tracker already holds does not change how many
/// bridges it holds: duplicate beats do not increase the count.
pub proof fn law_rebeat_keeps_count(
    bridges: Map<Seq<char>, BridgeRecord>,
    id: Seq<char>,
    record: BridgeRecord,
)
    requires
        bridges.dom().finite(),
        bridges.dom().contains(id),
    ensures
        bridges.insert(id, record).len() == bridges.len(),
{
    assert(bridges.insert(id, record).dom() =~= bridges.dom());
}

/// A second status query at the same moment prunes nothing more and reports
/// the same.
pub proof fn law_status_idempotent(bridges: Map<Seq<char>, BridgeRecord>, now: u128, threshold: u128)
    ensures
        pruned(pruned(bridges, now, threshold), now, threshold) == pruned(bridges, now, threshold),
{
    assert(pruned(pruned(bridges, now, threshold), now, threshold) =~= pruned(
        bridges,
        now,
        threshold,
    ));
}

/// A status query keeps exactly the bridges whose last beat lies within the
/// staleness threshold, with their records unchanged.
pub proof fn law_status_keeps_exactly_fresh(
    bridges: Map<Seq<char>, BridgeRecord>,
    id: Seq<char>,
    now: u128,
    threshold: u128,
)
    requires
        bridges.dom().contains(id),
    ensures
        pruned(bridges, now, threshold).dom().contains(id) <==> is_fresh(
            bridges[id].0,
            now,
            threshold,
        ),
        is_fresh(bridges[id].0, now, threshold) ==> pruned(bridges, now, threshold)[id]
            == bridges[id],
{
}

/// When every bridge is stale, a status query reports disconnected, no
/// bridges and the idle state.
pub proof fn law_all_stale_reports_disconnected(
    bridges: Map<Seq<char>, BridgeRecord>,
    now: u128,
    threshold: u128,
)
    requires
        forall|id: Seq<char>|
            bridges.dom().contains(id) ==> !is_fresh(#[trigger] bridges[id].0, now, threshold),
    ensures
        report(pruned(bridges, now, threshold)) == (false, 0nat, BridgeState::Idle),
{
    assert(pruned(bridges, now, threshold) =~= Map::empty());
}

/// When every bridge reported the idle state, the aggregate state is idle.
pub proof fn law_all_idle_reports_idle(bridges: Map<Seq<char>, BridgeRecord>)
    requires
        forall|id: Seq<char>|
            bridges.dom().contains(id) ==> #[trigger] bridges[id].1 == BridgeState::Idle,
    ensures
        aggregate(bridges) == BridgeState::Idle,
{
}


/// A status query at `now` keeps a bridge last seen at `l <= now` exactly when
/// less than the threshold has elapsed since that beat, `now - l < threshold`;
/// a bridge whose last beat is the threshold or more before the query is
/// dropped, and so not counted. A bridge whose last beat lies after the query
/// counts as just seen: it is kept whenever the threshold is positive. A kept
/// bridge keeps its record.
pub proof fn law_status_prunes_by_elapsed_time(
    bridges: Map<Seq<char>, BridgeRecord>,
    id: Seq<char>,
    now: u128,
    threshold: u128,
)
    requires
        bridges.dom().contains(id),
    ensures
        now >= bridges[id].0 ==> (pruned(bridges, now, threshold).dom().contains(id) <==> now
            - bridges[id].0 < threshold),
        now < bridges[id].0 ==> (pruned(bridges, now, threshold).dom().contains(id) <==> threshold
            > 0),
        pruned(bridges, now, threshold).dom().contains(id) ==> pruned(bridges, now, threshold)[id]
            == bridges[id],
{
}

/// A bridge that beats is kept by any later status query made less than the
/// threshold after the beat: the query's reading is never earlier than the
/// beat's stamp (both `beat` and `status` move the latest reading forward),
/// so the time elapsed between them is the difference of the two readings.
pub proof fn law_beat_is_fresh_until_threshold(
    bridges: Map<Seq<char>, BridgeRecord>,
    id: Seq<char>,
    state: BridgeState,
    stamp: u128,
    now: u128,
    threshold: u128,
)
    requires
        stamp <= now,
        now - stamp < threshold,
    ensures
        pruned(bridges.insert(id, (stamp, state)), now, threshold).dom().contains(id),
        pruned(bridges.insert(id, (stamp, state)), now, threshold)[id] == (stamp, state),
{
}

} // verus!
