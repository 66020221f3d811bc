use vstd::prelude::*;

verus! {

/// A key of the keypad, wired to columns C1..C4.
#[derive(Clone, Copy, Debug, PartialEq, Eq, Structural)]
pub enum Key {
    K1,
    K2,
    K3,
    K4,
}

/// The key wired to column `idx`, if there is one.
pub open spec fn key_at(idx: int) -> Option<Key> {
    if idx == 0 {
        Some(Key::K1)
    } else if idx == 1 {
        Some(Key::K2)
    } else if idx == 2 {
        Some(Key::K3)
    } else if idx == 3 {
        Some(Key::K4)
    } else {
        None
    }
}

/// The column index of a key.
pub open spec fn key_index(k: Key) -> int {
    match k {
        Key::K1 => 0,
        Key::K2 => 1,
        Key::K3 => 2,
        Key::K4 => 3,
    }
}

/// The printable name of a key.
pub open spec fn key_name(k: Key) -> Seq<char> {
    match k {
        Key::K1 => "KEY1"@,
        Key::K2 => "KEY2"@,
        Key::K3 => "KEY3"@,
        Key::K4 => "KEY4"@,
    }
}

impl Key {
    pub fn from_index(idx: usize) -> (r: Option<Self>)
        ensures
            r == key_at(idx as int),
    {
        match idx {
            0 => Some(Key::K1),
            1 => Some(Key::K2),
            2 => Some(Key::K3),
            3 => Some(Key::K4),
            _ => None,
        }
    }

    pub fn name(self) -> (s: &'static str)
        ensures
            s@ == key_name(self),
    {
        match self {
            Key::K1 => "KEY1",
            Key::K2 => "KEY2",
            Key::K3 => "KEY3",
            Key::K4 => "KEY4",
        }
    }
}


/// A key event: the debounced level of a key changed.
#[derive(Clone, Copy, Debug, PartialEq, Eq, Structural)]
pub enum KeyEvent {
    Pressed(Key),
    Released(Key),
}

/// Number of consecutive scans that must disagree with the stable level
/// of a key before the new level is accepted.
pub const DEBOUNCE_THRESHOLD: u8 = 3;

/// The list of events that one scan returns.
pub type EventList = heapless::Vec<KeyEvent, 4>;

/// `heapless::Vec`, the fixed-capacity list that a scan returns.
#[verifier::external_type_specification]
#[verifier::external_body]
#[verifier::reject_recursive_types(T)]
pub struct ExHeaplessVec<T, const N: usize>(heapless::Vec<T, N>);

/// The events held by a list of key events, in order.
pub uninterp spec fn event_list_items(v: heapless::Vec<KeyEvent, 4>) -> Seq<KeyEvent>;

/// Calls `heapless::Vec::new`, which makes a list holding nothing.
#[verifier::external_body]
fn event_list_new() -> (v: heapless::Vec<KeyEvent, 4>)
    ensures
        event_list_items(v) == Seq::<KeyEvent>::empty(),
{
    heapless::Vec::new()
}

/// Calls `heapless::Vec::push`: below the capacity of 4 the event is
/// appended and `Ok(())` returned; at the capacity the list is unchanged
/// and the event is handed back in `Err`.
#[verifier::external_body]
fn event_list_push(v: &mut EventList, ev: KeyEvent) -> (pushed: Result<(), KeyEvent>)
    ensures
        event_list_items(*old(v)).len() < 4 ==> pushed is Ok,
        event_list_items(*old(v)).len() < 4 ==> event_list_items(*final(v)) == event_list_items(*old(v)).push(ev),
        event_list_items(*old(v)).len() >= 4 ==> (pushed matches Err(e) && e == ev),
        event_list_items(*old(v)).len() >= 4 ==> event_list_items(*final(v)) == event_list_items(*old(v)),
{
    v.push(ev)
}

/// One scan of one key: the new (stable level, debounce count) after
/// reading `raw`.  A reading that differs from the stable level counts up;
/// the third such reading in a row is accepted and the count restarts.
/// A reading that agrees with the stable level restarts the count.
pub open spec fn key_step(stable: bool, count: u8, raw: bool) -> (bool, u8) {
    if raw != stable {
        if count + 1 >= DEBOUNCE_THRESHOLD {
            (raw, 0u8)
        } else {
            ((stable, (count + 1) as u8))
        }
    } else {
        (stable, 0u8)
    }
}

/// The event, if any, that a change of the stable level of key `i` gives.
pub open spec fn edge_event(i: int, before: bool, after: bool) -> Option<KeyEvent> {
    if after && !before {
        Some(KeyEvent::Pressed(key_at(i).unwrap()))
    } else if !after && before {
        Some(KeyEvent::Released(key_at(i).unwrap()))
    } else {
        None
    }
}

/// The events for keys `0..n`, in key order.
pub open spec fn edge_events(before: Seq<bool>, after: Seq<bool>, n: nat) -> Seq<KeyEvent>
    decreases n,
{
    if n == 0 {
        Seq::empty()
    } else {
        let prev = edge_events(before, after, (n - 1) as nat);
        match edge_event(n - 1, before[n - 1], after[n - 1]) {
            Some(ev) => prev.push(ev),
            None => prev,
        }
    }
}

proof fn lemma_edge_events_len(before: Seq<bool>, after: Seq<bool>, n: nat)
    ensures
        edge_events(before, after, n).len() <= n,
    decreases n,
{
    if n > 0 {
        lemma_edge_events_len(before, after, (n - 1) as nat);
    }
}

/// Debouncing driver for four keys.  The column levels are read by the
/// caller and handed to `scan`.
pub struct Keypad {
    /// Debounced (stable) level of each key.
    state: [bool; 4],
    /// Stable level at the end of the previous scan, for edge detection.
    last_state: [bool; 4],
    /// Consecutive readings that disagreed with the stable level.
    debounce: [u8; 4],
}

impl Keypad {
    /// The stable levels.
    pub closed spec fn levels(&self) -> Seq<bool> {
        self.state@
    }

    /// The debounce counters.
    pub closed spec fn counters(&self) -> Seq<u8> {
        self.debounce@
    }

    /// The keypad's invariant: the previous stable levels are the current
    /// ones between scans, and no counter has reached the threshold.
    #[verifier::type_invariant]
    spec fn wf(&self) -> bool {
        &&& self.last_state@ == self.state@
        &&& forall|i: int| 0 <= i < 4 ==> #[trigger] self.debounce@[i] < DEBOUNCE_THRESHOLD
    }

    /// A keypad with every key released and settled.
    pub fn new() -> (k: Self)
        ensures
            k.levels() == seq![false, false, false, false],
            k.counters() == seq![0u8, 0u8, 0u8, 0u8],
    {
        let k = Keypad { state: [false; 4], last_state: [false; 4], debounce: [0u8; 4] };
        assert(k.state@ =~= seq![false, false, false, false]);
        assert(k.debounce@ =~= seq![0u8, 0u8, 0u8, 0u8]);
        k
    }

    /// One scan: `raw[i]` is the level read on column `i` (true when the
    /// key is held).  Each key is debounced by `key_step`; the returned
    /// events are the changes of the stable levels, in key order.
    pub fn scan(&mut self, raw: [bool; 4]) -> (events: heapless::Vec<KeyEvent, 4>)
        ensures
            old(self).levels().len() == 4,
            old(self).counters().len() == 4,
            forall|i: int| 0 <= i < 4 ==> #[trigger] old(self).counters()[i] < DEBOUNCE_THRESHOLD,
            forall|i: int|
                0 <= i < 4 ==> (#[trigger] final(self).levels()[i], final(self).counters()[i])
                    == key_step(old(self).levels()[i], old(self).counters()[i], raw@[i]),
            final(self).levels().len() == 4,
            final(self).counters().len() == 4,
            forall|i: int| 0 <= i < 4 ==> #[trigger] final(self).counters()[i] < DEBOUNCE_THRESHOLD,
            event_list_items(events) == edge_events(old(self).levels(), final(self).levels(), 4),
    {
        proof {
            use_type_invariant(&*self);
        }
        let mut state = self.state;
        let mut last_state = self.last_state;
        let mut debounce = self.debounce;
        let mut events = event_list_new();
        let ghost before = state@;
        let ghost counts = debounce@;
        let mut i: usize = 0;
        while i < 4
            invariant
                0 <= i <= 4,
                before.len() == 4,
                counts.len() == 4,
                forall|j: int| i <= j < 4 ==> state@[j] == before[j] && debounce@[j] == counts[j],
                forall|j: int| i <= j < 4 ==> #[trigger] last_state@[j] == before[j],
                forall|j: int|
                    0 <= j < i ==> (#[trigger] state@[j], debounce@[j]) == key_step(
                        before[j],
                        counts[j],
                        raw@[j],
                    ),
                forall|j: int| 0 <= j < i ==> #[trigger] last_state@[j] == state@[j],
                forall|j: int| 0 <= j < 4 ==> #[trigger] debounce@[j] < DEBOUNCE_THRESHOLD,
                forall|j: int| 0 <= j < 4 ==> #[trigger] counts[j] < DEBOUNCE_THRESHOLD,
                event_list_items(events) == edge_events(before, state@, i as nat),
                event_list_items(events).len() <= i,
            decreases 4 - i,
        {
            let ghost s0 = state@;
            let r = raw[i];
            if r != state[i] {
                debounce[i] = debounce[i] + 1;
                if debounce[i] >= DEBOUNCE_THRESHOLD {
                    state[i] = r;
                    debounce[i] = 0;
                }
            } else {
                debounce[i] = 0;
            }
            let ghost prefix = state@;
            proof {
                lemma_edge_events_prefix(before, s0, prefix, i as nat);
            }
            if state[i] && !last_state[i] {
                let _ = event_list_push(&mut events, KeyEvent::Pressed(Key::from_index(i).unwrap()));
            } else if !state[i] && last_state[i] {
                let _ = event_list_push(
                    &mut events,
                    KeyEvent::Released(Key::from_index(i).unwrap()),
                );
            }
            assert(event_list_items(events) == edge_events(before, prefix, (i + 1) as nat));
            let s = state[i];
            last_state[i] = s;
            i = i + 1;
        }
        proof {
            assert(last_state@ =~= state@);
        }
        *self = Keypad { state, last_state, debounce };
        events
    }
}

/// Debouncing: a key that has settled takes a new level only at the third
/// consecutive reading of that level; the first two leave the stable level
/// as it was.
pub proof fn law_new_level_needs_three_readings(stable: bool, raw: bool)
    requires
        raw != stable,
    ensures
        key_step(stable, 0, raw).0 == stable,
        key_step(key_step(stable, 0, raw).0, key_step(stable, 0, raw).1, raw).0 == stable,
        ({
            let s1 = key_step(stable, 0, raw);
            let s2 = key_step(s1.0, s1.1, raw);
            key_step(s2.0, s2.1, raw) == (raw, 0u8)
        }),
{
}

/// A bounce is filtered out: one reading that agrees with the stable
/// level, whatever the count so far, keeps the level and restarts the
/// count.
pub proof fn law_agreeing_reading_restarts_count(stable: bool, count: u8)
    requires
        count < DEBOUNCE_THRESHOLD,
    ensures
        key_step(stable, count, stable) == (stable, 0u8),
{
}

/// The debounce counter never reaches the threshold, so every reading is
/// counted.
pub proof fn law_counter_stays_below_threshold(stable: bool, count: u8, raw: bool)
    requires
        count < DEBOUNCE_THRESHOLD,
    ensures
        key_step(stable, count, raw).1 < DEBOUNCE_THRESHOLD,
{
}

/// A scan reports each key at most once: a press exactly when the stable
/// level of that key rose, a release exactly when it fell, nothing else;
/// so one scan reports at most four events.
pub proof fn law_events_are_level_edges(before: Seq<bool>, after: Seq<bool>, n: nat, i: int)
    requires
        n <= 4,
        n <= before.len(),
        n <= after.len(),
        0 <= i < n,
    ensures
        edge_events(before, after, n).len() <= n,
        edge_events(before, after, n).contains(KeyEvent::Pressed(key_at(i).unwrap())) <==> (after[i]
            && !before[i]),
        edge_events(before, after, n).contains(KeyEvent::Released(key_at(i).unwrap())) <==> (!after[i]
            && before[i]),
    decreases n,
{
    lemma_edge_events_len(before, after, n);
    lemma_edge_events_keys(before, after, n);
    let prev = edge_events(before, after, (n - 1) as nat);
    if i < n - 1 {
        law_events_are_level_edges(before, after, (n - 1) as nat, i);
    }
    match edge_event(n - 1, before[n - 1], after[n - 1]) {
        Some(ev) => {
            assert(edge_events(before, after, n) == prev.push(ev));
            if i < n - 1 {
                assert(key_at(i) != key_at(n - 1));
                assert(prev.push(ev).contains(KeyEvent::Pressed(key_at(i).unwrap())) ==> prev.contains(
                    KeyEvent::Pressed(key_at(i).unwrap()),
                )) by {
                    if prev.push(ev).contains(KeyEvent::Pressed(key_at(i).unwrap())) {
                        let k = choose|k: int|
                            0 <= k < prev.push(ev).len() && prev.push(ev)[k] == KeyEvent::Pressed(
                                key_at(i).unwrap(),
                            );
                        if k < prev.len() {
                            assert(prev[k] == prev.push(ev)[k]);
                        }
                    }
                }
                assert(prev.push(ev).contains(KeyEvent::Released(key_at(i).unwrap())) ==> prev.contains(
                    KeyEvent::Released(key_at(i).unwrap()),
                )) by {
                    if prev.push(ev).contains(KeyEvent::Released(key_at(i).unwrap())) {
                        let k = choose|k: int|
                            0 <= k < prev.push(ev).len() && prev.push(ev)[k] == KeyEvent::Released(
                                key_at(i).unwrap(),
                            );
                        if k < prev.len() {
                            assert(prev[k] == prev.push(ev)[k]);
                        }
                    }
                }
                assert(prev.contains(KeyEvent::Pressed(key_at(i).unwrap())) ==> prev.push(ev).contains(
                    KeyEvent::Pressed(key_at(i).unwrap()),
                )) by {
                    if prev.contains(KeyEvent::Pressed(key_at(i).unwrap())) {
                        let k = choose|k: int|
                            0 <= k < prev.len() && prev[k] == KeyEvent::Pressed(key_at(i).unwrap());
                        assert(prev.push(ev)[k] == prev[k]);
                    }
                }
                assert(prev.contains(KeyEvent::Released(key_at(i).unwrap())) ==> prev.push(ev).contains(
                    KeyEvent::Released(key_at(i).unwrap()),
                )) by {
                    if prev.contains(KeyEvent::Released(key_at(i).unwrap())) {
                        let k = choose|k: int|
                            0 <= k < prev.len() && prev[k] == KeyEvent::Released(key_at(i).unwrap());
                        assert(prev.push(ev)[k] == prev[k]);
                    }
                }
            } else {
                assert(prev.push(ev)[prev.len() as int] == ev);
                lemma_last_key_not_in_prefix(before, after, n);
                assert(prev.push(ev).contains(KeyEvent::Pressed(key_at(i).unwrap())) ==> ev
                    == KeyEvent::Pressed(key_at(i).unwrap())) by {
                    if prev.push(ev).contains(KeyEvent::Pressed(key_at(i).unwrap())) {
                        let k = choose|k: int|
                            0 <= k < prev.push(ev).len() && prev.push(ev)[k] == KeyEvent::Pressed(
                                key_at(i).unwrap(),
                            );
                        if k < prev.len() {
                            assert(prev[k] == prev.push(ev)[k]);
                        }
                    }
                }
                assert(prev.push(ev).contains(KeyEvent::Released(key_at(i).unwrap())) ==> ev
                    == KeyEvent::Released(key_at(i).unwrap())) by {
                    if prev.push(ev).contains(KeyEvent::Released(key_at(i).unwrap())) {
                        let k = choose|k: int|
                            0 <= k < prev.push(ev).len() && prev.push(ev)[k] == KeyEvent::Released(
                                key_at(i).unwrap(),
                            );
                        if k < prev.len() {
                            assert(prev[k] == prev.push(ev)[k]);
                        }
                    }
                }
            }
        },
        None => {
            if i == n - 1 {
                lemma_last_key_not_in_prefix(before, after, n);
            }
        },
    }
}

/// No event of the first `n - 1` keys names key `n - 1`.
proof fn lemma_last_key_not_in_prefix(before: Seq<bool>, after: Seq<bool>, n: nat)
    requires
        1 <= n <= 4,
    ensures
        !edge_events(before, after, (n - 1) as nat).contains(KeyEvent::Pressed(key_at(n - 1).unwrap())),
        !edge_events(before, after, (n - 1) as nat).contains(KeyEvent::Released(key_at(n - 1).unwrap())),
{
    let prev = edge_events(before, after, (n - 1) as nat);
    lemma_edge_events_keys(before, after, (n - 1) as nat);
    let key = key_at(n - 1).unwrap();
    assert(key_index(key) == n - 1);
    if prev.contains(KeyEvent::Pressed(key)) {
        let k = choose|k: int| 0 <= k < prev.len() && prev[k] == KeyEvent::Pressed(key);
        assert(key_index(key) < n - 1);
    }
    if prev.contains(KeyEvent::Released(key)) {
        let k = choose|k: int| 0 <= k < prev.len() && prev[k] == KeyEvent::Released(key);
        assert(key_index(key) < n - 1);
    }
}

/// A scan that leaves every stable level as it was reports nothing: a key
/// held (or left released) steadily gives exactly one event, when its
/// level changed.
pub proof fn law_unchanged_levels_are_quiet(levels: Seq<bool>, n: nat)
    requires
        n <= levels.len(),
    ensures
        edge_events(levels, levels, n) == Seq::<KeyEvent>::empty(),
    decreases n,
{
    if n > 0 {
        law_unchanged_levels_are_quiet(levels, (n - 1) as nat);
    }
}

/// The (stable level, debounce count) of one key after the readings
/// `r[0..n]` of successive scans, from the released, settled key that
/// `Keypad::new` makes: each scan applies `key_step` to every key (see
/// `Keypad::scan`).
pub open spec fn key_trace(r: Seq<bool>, n: nat) -> (bool, u8)
    decreases n,
{
    if n == 0 {
        (false, 0u8)
    } else {
        let p = key_trace(r, (n - 1) as nat);
        key_step(p.0, p.1, r[n - 1])
    }
}

/// How many of the readings just before position `n` differ, in a row,
/// from `level`.
pub open spec fn trailing_differing(r: Seq<bool>, n: nat, level: bool) -> nat
    decreases n,
{
    if n == 0 || r[n - 1] == level {
        0
    } else {
        1 + trailing_differing(r, (n - 1) as nat, level)
    }
}

/// The debounce count is the number of readings in a row, up to the
/// current one, that differ from the stable level; it stays below the
/// threshold.
proof fn lemma_trace_count(r: Seq<bool>, n: nat)
    requires
        n <= r.len(),
    ensures
        key_trace(r, n).1 < DEBOUNCE_THRESHOLD,
        key_trace(r, n).1 == trailing_differing(r, n, key_trace(r, n).0),
    decreases n,
{
    if n > 0 {
        lemma_trace_count(r, (n - 1) as nat);
    }
}

/// Debouncing over any history of scans: the stable level of a key
/// changes at scan `t` only if the readings of scans `t - 2`, `t - 1` and
/// `t` all show the new level, while the old level held through them; so a
/// pulse shorter than three scans is never reported.
pub proof fn law_change_needs_three_consecutive_readings(r: Seq<bool>, t: nat)
    requires
        t < r.len(),
        key_trace(r, t + 1).0 != key_trace(r, t).0,
    ensures
        t >= 2,
        r[t as int] == key_trace(r, t + 1).0,
        r[t - 1] == key_trace(r, t + 1).0,
        r[t - 2] == key_trace(r, t + 1).0,
        key_trace(r, (t - 2) as nat).0 == key_trace(r, t).0,
        key_trace(r, (t - 1) as nat).0 == key_trace(r, t).0,
{
    lemma_trace_count(r, t);
    let p = key_trace(r, t);
    assert(p.1 == 2);
    assert(t >= 1);
    lemma_trace_count(r, (t - 1) as nat);
    let q = key_trace(r, (t - 1) as nat);
    assert(key_trace(r, t) == key_step(q.0, q.1, r[t - 1]));
    assert(q.0 == p.0 && q.1 == 1);
    assert(t >= 2);
    lemma_trace_count(r, (t - 2) as nat);
    let o = key_trace(r, (t - 2) as nat);
    assert(key_trace(r, (t - 1) as nat) == key_step(o.0, o.1, r[t - 2]));
    assert(o.0 == q.0 && o.1 == 0);
}

/// Debouncing over any history of scans: three scans in a row that read
/// the same level leave the key at that level, whatever came before; a
/// level held for three scans is therefore always reported by the third.
pub proof fn law_three_equal_readings_set_the_level(r: Seq<bool>, t: nat, v: bool)
    requires
        2 <= t < r.len(),
        r[t as int] == v,
        r[t - 1] == v,
        r[t - 2] == v,
    ensures
        key_trace(r, t + 1).0 == v,
{
    lemma_trace_count(r, (t - 2) as nat);
    let o = key_trace(r, (t - 2) as nat);
    assert(key_trace(r, (t - 1) as nat) == key_step(o.0, o.1, r[t - 2]));
    let q = key_trace(r, (t - 1) as nat);
    assert(key_trace(r, t) == key_step(q.0, q.1, r[t - 1]));
    let p = key_trace(r, t);
    assert(key_trace(r, t + 1) == key_step(p.0, p.1, r[t as int]));
}

/// The events of key `i` over the scans that read `r[0..n]`, in order:
/// each scan contributes `edge_event` of the key's level before and after
/// it, as in `Keypad::scan`.
pub open spec fn key_event_history(i: int, r: Seq<bool>, n: nat) -> Seq<KeyEvent>
    decreases n,
{
    if n == 0 {
        Seq::empty()
    } else {
        let prev = key_event_history(i, r, (n - 1) as nat);
        match edge_event(i, key_trace(r, (n - 1) as nat).0, key_trace(r, n).0) {
            Some(ev) => prev.push(ev),
            None => prev,
        }
    }
}

/// Over any history of scans, the events of one key alternate Pressed,
/// Released, Pressed, ..., starting with Pressed; the key is held exactly
/// when its last event was a press.
pub proof fn law_events_of_a_key_alternate(i: int, r: Seq<bool>, n: nat)
    requires
        0 <= i < 4,
        n <= r.len(),
    ensures
        forall|j: int|
            0 <= j < key_event_history(i, r, n).len() ==> #[trigger] key_event_history(i, r, n)[j] == (if j
                % 2 == 0 {
                KeyEvent::Pressed(key_at(i).unwrap())
            } else {
                KeyEvent::Released(key_at(i).unwrap())
            }),
        key_trace(r, n).0 <==> key_event_history(i, r, n).len() % 2 == 1,
    decreases n,
{
    if n > 0 {
        law_events_of_a_key_alternate(i, r, (n - 1) as nat);
        let prev = key_event_history(i, r, (n - 1) as nat);
        match edge_event(i, key_trace(r, (n - 1) as nat).0, key_trace(r, n).0) {
            Some(ev) => {
                assert forall|j: int| 0 <= j < prev.push(ev).len() implies #[trigger] prev.push(ev)[j] == (if j
                    % 2 == 0 {
                    KeyEvent::Pressed(key_at(i).unwrap())
                } else {
                    KeyEvent::Released(key_at(i).unwrap())
                }) by {
                    if j < prev.len() {
                        assert(prev.push(ev)[j] == prev[j]);
                    }
                }
            },
            None => {},
        }
    }
}

/// Every event among the first `n` keys names one of those keys.
proof fn lemma_edge_events_keys(before: Seq<bool>, after: Seq<bool>, n: nat)
    requires
        n <= 4,
    ensures
        forall|k: int|
            0 <= k < edge_events(before, after, n).len() ==> match #[trigger] edge_events(
                before,
                after,
                n,
            )[k] {
                KeyEvent::Pressed(key) => key_index(key) < n,
                KeyEvent::Released(key) => key_index(key) < n,
            },
    decreases n,
{
    if n > 0 {
        lemma_edge_events_keys(before, after, (n - 1) as nat);
    }
}

proof fn lemma_edge_events_prefix(before: Seq<bool>, a: Seq<bool>, b: Seq<bool>, n: nat)
    requires
        n <= a.len(),
        n <= b.len(),
        forall|j: int| 0 <= j < n ==> a[j] == b[j],
    ensures
        edge_events(before, a, n) == edge_events(before, b, n),
    decreases n,
{
    if n > 0 {
        lemma_edge_events_prefix(before, a, b, (n - 1) as nat);
    }
}

} // verus!
