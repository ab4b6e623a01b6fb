//! A table of per-key cooldowns: each key may be admitted at most once per
//! cooldown window. Both rate limiters of the library are built on it.

use vstd::hash_map::StringHashMap;
use vstd::prelude::*;

verus! {

/// The state of a table: for each key seen so far, the instant (in
/// milliseconds of a monotonic clock) of its last admission.
pub type Stamps = Map<Seq<char>, u64>;

/// Time since `last`, saturating at zero when `now` reads earlier.
pub open spec fn elapsed(now: u64, last: u64) -> nat {
    if now >= last {
        (now - last) as nat
    } else {
        0
    }
}

/// A key is cooling when it was admitted less than `cooldown` ago.
pub open spec fn is_cooling(m: Stamps, key: Seq<char>, now: u64, cooldown: u64) -> bool {
    m.contains_key(key) && elapsed(now, m[key]) < cooldown
}

/// What one request for `key` at `now` yields.
pub open spec fn decision(m: Stamps, key: Seq<char>, now: u64, cooldown: u64) -> Admission {
    if is_cooling(m, key, now, cooldown) {
        Admission::Cooling { elapsed_ms: elapsed(now, m[key]) as u64 }
    } else {
        Admission::Admitted
    }
}

/// The instant an admission at `now` records: `now`, unless the key already
/// holds a later one (a clock read out of order), which it keeps.
pub open spec fn newer(m: Stamps, key: Seq<char>, now: u64) -> u64 {
    if m.contains_key(key) && m[key] > now {
        m[key]
    } else {
        now
    }
}

/// The table after one request for `key` at `now`: an admission records
/// `now` (never moving the key's instant backwards), a rejection changes
/// nothing.
pub open spec fn after(m: Stamps, key: Seq<char>, now: u64, cooldown: u64) -> Stamps {
    if is_cooling(m, key, now, cooldown) {
        m
    } else {
        m.insert(key, newer(m, key, now))
    }
}

/// The number of admissions among requests for one key presented to the
/// table in the given order, at the given instants.
pub open spec fn admissions(m: Stamps, key: Seq<char>, times: Seq<u64>, cooldown: u64) -> nat
    decreases times.len(),
{
    if times.len() == 0 {
        0
    } else {
        let rest = times.drop_first();
        if is_cooling(m, key, times[0], cooldown) {
            admissions(m, key, rest, cooldown)
        } else {
            1 + admissions(after(m, key, times[0], cooldown), key, rest, cooldown)
        }
    }
}

/// Two requests for one key, the second strictly inside the cooldown window
/// opened by the first, give one admission then one rejection, provided the
/// key was free when the first came.
pub proof fn lemma_single_key_exclusive(m: Stamps, key: Seq<char>, t1: u64, t2: u64, cooldown: u64)
    requires
        !is_cooling(m, key, t1, cooldown),
        t1 <= t2,
        t2 - t1 < cooldown,
    ensures
        decision(m, key, t1, cooldown) == Admission::Admitted,
        decision(after(m, key, t1, cooldown), key, t2, cooldown) is Cooling,
        admissions(m, key, seq![t1, t2], cooldown) == 1,
{
    let m1 = after(m, key, t1, cooldown);
    assert(m1[key] == t1);
    assert(seq![t1, t2].drop_first() =~= seq![t2]);
    assert(seq![t2].drop_first() =~= Seq::<u64>::empty());
    assert(seq![t2][0] == t2);
    assert(is_cooling(m1, key, t2, cooldown));
    assert(admissions(m1, key, Seq::<u64>::empty(), cooldown) == 0);
    assert(admissions(m1, key, seq![t2], cooldown) == 0);
}

/// A key rejected at `t` is admitted at any `t2 >= t + cooldown`: the
/// rejection leaves the table as it was, and the window has passed by then.
/// The instants are read from one clock, so the key's last admission is not
/// later than `t`.
pub proof fn lemma_cooldown_recovery(m: Stamps, key: Seq<char>, t: u64, t2: u64, cooldown: u64)
    requires
        is_cooling(m, key, t, cooldown),
        m[key] <= t,
        t2 >= t + cooldown,
    ensures
        after(m, key, t, cooldown) == m,
        decision(after(m, key, t, cooldown), key, t2, cooldown) == Admission::Admitted,
{
}

/// Once a key has been admitted at `t0`, every later request for it before
/// `t0 + cooldown` is rejected.
proof fn lemma_all_rejected(m: Stamps, key: Seq<char>, t0: u64, times: Seq<u64>, cooldown: u64)
    requires
        m.contains_key(key),
        m[key] == t0,
        cooldown > 0,
        forall|i: int| 0 <= i < times.len() ==> #[trigger] times[i] < t0 + cooldown,
    ensures
        admissions(m, key, times, cooldown) == 0,
    decreases times.len(),
{
    if times.len() > 0 {
        assert(times[0] < t0 + cooldown);
        assert(is_cooling(m, key, times[0], cooldown));
        let rest = times.drop_first();
        assert forall|i: int| 0 <= i < rest.len() implies #[trigger] rest[i] < t0 + cooldown by {
            assert(rest[i] == times[i + 1]);
        }
        lemma_all_rejected(m, key, t0, rest, cooldown);
    }
}

/// Requests for a key never seen before, all taken within one cooldown of the
/// first to reach the table, are serialised by the table into exactly one
/// admission; every other one is rejected.
pub proof fn lemma_race_free(m: Stamps, key: Seq<char>, times: Seq<u64>, cooldown: u64)
    requires
        !m.contains_key(key),
        times.len() >= 1,
        forall|i: int| 0 <= i < times.len() ==> #[trigger] times[i] < times[0] + cooldown,
    ensures
        admissions(m, key, times, cooldown) == 1,
{
    let t0 = times[0];
    let rest = times.drop_first();
    assert forall|i: int| 0 <= i < rest.len() implies #[trigger] rest[i] < t0 + cooldown by {
        assert(rest[i] == times[i + 1]);
    }
    assert(after(m, key, t0, cooldown) == m.insert(key, t0));
    lemma_all_rejected(after(m, key, t0, cooldown), key, t0, rest, cooldown);
}

/// A request for one key changes neither the record nor the decision of any
/// other key.
pub proof fn lemma_keys_independent(
    m: Stamps,
    key: Seq<char>,
    other: Seq<char>,
    now: u64,
    later: u64,
    cooldown: u64,
)
    requires
        key != other,
    ensures
        after(m, key, now, cooldown).contains_key(other) == m.contains_key(other),
        m.contains_key(other) ==> after(m, key, now, cooldown)[other] == m[other],
        decision(after(m, key, now, cooldown), other, later, cooldown) == decision(
            m,
            other,
            later,
            cooldown,
        ),
{
}

/// A request never moves a key's recorded instant backwards, and never
/// forgets a key.
pub proof fn lemma_stamps_monotone(m: Stamps, key: Seq<char>, now: u64, cooldown: u64, k: Seq<char>)
    requires
        m.contains_key(k),
    ensures
        after(m, key, now, cooldown).contains_key(k),
        after(m, key, now, cooldown)[k] >= m[k],
{
}

/// Outcome of presenting a key to a cooldown table.
#[derive(Clone, Copy, Debug, PartialEq, Eq, Structural)]
pub enum Admission {
    /// The key was free; the request goes on and the key starts cooling.
    Admitted,
    /// The key is cooling; `elapsed_ms` is the time since its last admission.
    Cooling { elapsed_ms: u64 },
}

/// Last-admission instants per key, with a fixed cooldown.
pub struct CooldownTable {
    stamps: StringHashMap<u64>,
    cooldown_ms: u64,
}

impl View for CooldownTable {
    type V = Stamps;

    closed spec fn view(&self) -> Stamps {
        self.stamps@
    }
}

impl CooldownTable {
    pub closed spec fn cooldown(&self) -> u64 {
        self.cooldown_ms
    }

    /// An empty table whose keys cool for `cooldown_ms` milliseconds.
    pub fn new(cooldown_ms: u64) -> (r: CooldownTable)
        ensures
            r@ == Map::<Seq<char>, u64>::empty(),
            r.cooldown() == cooldown_ms,
    {
        CooldownTable { stamps: StringHashMap::new(), cooldown_ms }
    }

    pub fn cooldown_ms(&self) -> (r: u64)
        ensures
            r == self.cooldown(),
    {
        self.cooldown_ms
    }

    /// Read, compare and record in one step: admit `key` at `now_ms` unless it
    /// is cooling, and record `now_ms` for it when admitted.
    pub fn request(&mut self, key: &str, now_ms: u64) -> (r: Admission)
        ensures
            r == decision(old(self)@, key@, now_ms, old(self).cooldown()),
            final(self)@ == after(old(self)@, key@, now_ms, old(self).cooldown()),
            final(self).cooldown() == old(self).cooldown(),
    {
        let mut stamp: u64 = now_ms;
        match self.stamps.get(key) {
            Some(last) => {
                let last: u64 = *last;
                let gap: u64 = if now_ms >= last { now_ms - last } else { 0 };
                if gap < self.cooldown_ms {
                    return Admission::Cooling { elapsed_ms: gap };
                }
                if last > now_ms {
                    stamp = last;
                }
            },
            None => {},
        }
        self.stamps.insert(key.to_string(), stamp);
        Admission::Admitted
    }
}

} // verus!
