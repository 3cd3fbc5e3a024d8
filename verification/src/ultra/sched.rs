use std::collections::HashMap;
use vstd::prelude::*;
use vstd::std_specs::iter::IteratorSpec;

verus! {

broadcast use vstd::std_specs::hash::group_hash_axioms;

/// A guest thread as the scheduler sees it: its priority and whether it may run.
#[derive(Clone, Copy, Debug)]
pub struct SchedEntry {
    pub pri: i32,
    pub ready: bool,
}

/// A thread may hold the run token only when it is READY with a priority above 0.
pub open spec fn runnable(e: SchedEntry) -> bool {
    e.ready && e.pri > 0
}

pub open spec fn has_runnable(m: Map<usize, SchedEntry>) -> bool {
    exists|j: usize| #[trigger] m.contains_key(j) && runnable(m[j])
}

/// `p` is the highest priority among the runnable threads.
pub open spec fn is_top_pri(m: Map<usize, SchedEntry>, p: i32) -> bool {
    &&& exists|j: usize| #[trigger] m.contains_key(j) && runnable(m[j]) && m[j].pri == p
    &&& forall|j: usize| #[trigger] m.contains_key(j) && runnable(m[j]) ==> m[j].pri <= p
}

/// The highest runnable priority (meaningful when some thread is runnable).
pub open spec fn top_pri(m: Map<usize, SchedEntry>) -> i32 {
    choose|p: i32| is_top_pri(m, p)
}

/// `id` is READY at priority `p`.
pub open spec fn at_pri(m: Map<usize, SchedEntry>, p: i32, id: usize) -> bool {
    m.contains_key(id) && m[id].ready && m[id].pri == p
}

/// `id` is the lowest thread key READY at priority `p`.
pub open spec fn is_first_at(m: Map<usize, SchedEntry>, p: i32, id: usize) -> bool {
    &&& at_pri(m, p, id)
    &&& forall|j: usize| #[trigger] at_pri(m, p, j) ==> id <= j
}

pub open spec fn first_at(m: Map<usize, SchedEntry>, p: i32) -> usize {
    choose|id: usize| is_first_at(m, p, id)
}

/// `id` is the lowest key above `after` READY at priority `p`.
pub open spec fn is_next_at(m: Map<usize, SchedEntry>, p: i32, after: usize, id: usize) -> bool {
    &&& at_pri(m, p, id)
    &&& after < id
    &&& forall|j: usize| #[trigger] at_pri(m, p, j) && after < j ==> id <= j
}

pub open spec fn has_next_at(m: Map<usize, SchedEntry>, p: i32, after: usize) -> bool {
    exists|j: usize| #[trigger] at_pri(m, p, j) && after < j
}

pub open spec fn next_at(m: Map<usize, SchedEntry>, p: i32, after: usize) -> usize {
    choose|id: usize| is_next_at(m, p, after, id)
}

/// The run-token choice: the highest-priority runnable thread, lowest key on a tie — except that
/// the current holder keeps the token when it is runnable at that top priority (cooperative:
/// an equal priority never preempts). `None` when nothing with priority above 0 is READY.
pub open spec fn spec_pick_next(m: Map<usize, SchedEntry>, current: Option<usize>) -> Option<usize> {
    if !has_runnable(m) {
        None
    } else if current is Some && at_pri(m, top_pri(m), current->0) {
        current
    } else {
        Some(first_at(m, top_pri(m)))
    }
}

/// The yield choice: among the threads READY at the top priority, the one after `caller` in key
/// order (wrapping to the lowest) when `caller` is one of them, else the lowest of them.
pub open spec fn spec_pick_next_yield(m: Map<usize, SchedEntry>, caller: usize) -> Option<usize> {
    if !has_runnable(m) {
        None
    } else if at_pri(m, top_pri(m), caller) && has_next_at(m, top_pri(m), caller) {
        Some(next_at(m, top_pri(m), caller))
    } else {
        Some(first_at(m, top_pri(m)))
    }
}

proof fn lemma_top_unique(m: Map<usize, SchedEntry>, p: i32)
    requires
        is_top_pri(m, p),
    ensures
        top_pri(m) == p,
        has_runnable(m),
{
    let j = choose|j: usize| #[trigger] m.contains_key(j) && runnable(m[j]) && m[j].pri == p;
    assert(m.contains_key(j) && runnable(m[j]));
    let q = top_pri(m);
    assert(is_top_pri(m, q));
    let k = choose|k: usize| #[trigger] m.contains_key(k) && runnable(m[k]) && m[k].pri == q;
    assert(m[k].pri <= p);
    assert(m[j].pri <= q);
}

proof fn lemma_first_unique(m: Map<usize, SchedEntry>, p: i32, id: usize)
    requires
        is_first_at(m, p, id),
    ensures
        first_at(m, p) == id,
{
    let f = first_at(m, p);
    assert(is_first_at(m, p, f));
    assert(f <= id);
    assert(id <= f);
}

proof fn lemma_next_unique(m: Map<usize, SchedEntry>, p: i32, after: usize, id: usize)
    requires
        is_next_at(m, p, after, id),
    ensures
        has_next_at(m, p, after),
        next_at(m, p, after) == id,
{
    assert(at_pri(m, p, id) && after < id);
    let f = next_at(m, p, after);
    assert(is_next_at(m, p, after, f));
    assert(f <= id);
    assert(id <= f);
}

/// The entries of a scheduler table as a list: each key once, with its entry, all keys present.
pub open spec fn lists_entries(v: Seq<(usize, SchedEntry)>, m: Map<usize, SchedEntry>) -> bool {
    &&& forall|i: int| 0 <= i < v.len() ==> #[trigger] m.contains_key(v[i].0) && m[v[i].0] == v[i].1
    &&& forall|k: usize| #[trigger] m.contains_key(k) ==> exists|i: int| 0 <= i < v.len() && #[trigger] v[i].0 == k
}

/// Walk the table once into a list (in the map's own order, which no result depends on).
fn entry_list(entries: &HashMap<usize, SchedEntry>) -> (v: Vec<(usize, SchedEntry)>)
    ensures
        lists_entries(v@, entries@),
{
    let ghost m = entries@;
    let ghost all = vstd::std_specs::hash::spec_hash_map_iter(entries).remaining();
    let mut v: Vec<(usize, SchedEntry)> = Vec::new();
    for (id, e) in it: entries.iter()
        invariant
            it.seq() == all,
            v@.len() == it.index(),
            forall|i: int| 0 <= i < v@.len() ==> #[trigger] v@[i] == (*all[i].0, *all[i].1),
            forall|i: int|
                0 <= i < all.len() ==> m.contains_key(*all[i].0) && m[*all[i].0] == *all[i].1,
            forall|key: usize| #[trigger] m.contains_key(key) ==> all.contains((&key, &m[key])),
    {
        v.push((*id, *e));
    }
    proof {
        assert(v@.len() == all.len());
        assert forall|key: usize| #[trigger] m.contains_key(key) implies exists|i: int|
            0 <= i < v@.len() && #[trigger] v@[i].0 == key by {
            assert(all.contains((&key, &m[key])));
            let i = choose|i: int| 0 <= i < all.len() && all[i] == (&key, &m[key]);
            assert(v@[i].0 == key);
        }
    }
    v
}

/// The highest runnable priority of the table, with the lowest key holding it; `None` when
/// nothing is runnable.
fn top_of(v: &Vec<(usize, SchedEntry)>, Ghost(m): Ghost<Map<usize, SchedEntry>>) -> (r: Option<(i32, usize)>)
    requires
        lists_entries(v@, m),
    ensures
        r is None <==> !has_runnable(m),
        r matches Some((p, id)) ==> is_top_pri(m, p) && is_first_at(m, p, id) && p > 0,
{
    let mut best: Option<(i32, usize)> = None;
    let mut i: usize = 0;
    while i < v.len()
        invariant
            lists_entries(v@, m),
            0 <= i <= v@.len(),
            best is None <==> (forall|k: int| 0 <= k < i ==> !runnable(#[trigger] v@[k].1)),
            best matches Some((bp, bid)) ==> {
                &&& m.contains_key(bid)
                &&& runnable(m[bid])
                &&& m[bid].pri == bp
                &&& forall|k: int|
                    0 <= k < i && runnable(#[trigger] v@[k].1) ==> {
                        ||| v@[k].1.pri < bp
                        ||| (v@[k].1.pri == bp && bid <= v@[k].0)
                    }
            },
        decreases v@.len() - i,
    {
        let (id, entry) = v[i];
        assert(m.contains_key(v@[i as int].0) && m[v@[i as int].0] == v@[i as int].1);
        if entry.ready && entry.pri > 0 {
            match best {
                Some((bp, bid)) if bp > entry.pri || (bp == entry.pri && bid <= id) => {},
                _ => {
                    best = Some((entry.pri, id));
                },
            }
        }
        i = i + 1;
    }
    proof {
        match best {
            None => {
                assert forall|j: usize| #[trigger] m.contains_key(j) implies !runnable(m[j]) by {
                    let k = choose|k: int| 0 <= k < v@.len() && #[trigger] v@[k].0 == j;
                    assert(!runnable(v@[k].1));
                }
            },
            Some((bp, bid)) => {
                assert forall|j: usize| #[trigger] m.contains_key(j) && runnable(m[j]) implies m[j].pri
                    <= bp by {
                    let k = choose|k: int| 0 <= k < v@.len() && #[trigger] v@[k].0 == j;
                    assert(runnable(v@[k].1));
                }
                assert(m.contains_key(bid) && runnable(m[bid]) && m[bid].pri == bp);
                assert forall|j: usize| #[trigger] at_pri(m, bp, j) implies bid <= j by {
                    let k = choose|k: int| 0 <= k < v@.len() && #[trigger] v@[k].0 == j;
                    assert(runnable(v@[k].1));
                }
            },
        }
    }
    best
}

/// Choose the next token holder (see `spec_pick_next`).
pub fn pick_next(entries: &HashMap<usize, SchedEntry>, current: Option<usize>) -> (r: Option<usize>)
    ensures
        r == spec_pick_next(entries@, current),
{
    let v = entry_list(entries);
    let (best_pri, best_id) = match top_of(&v, Ghost(entries@)) {
        None => return None,
        Some(b) => b,
    };
    proof {
        lemma_top_unique(entries@, best_pri);
        lemma_first_unique(entries@, best_pri, best_id);
    }
    if let Some(cur) = current {
        if let Some(entry) = entries.get(&cur) {
            if entry.ready && entry.pri > 0 && entry.pri == best_pri {
                return Some(cur);
            }
        }
    }
    Some(best_id)
}

/// osYieldThread's choice (see `spec_pick_next_yield`): round-robin among the threads READY at
/// the top priority, so an equal-priority peer is not starved.
pub fn pick_next_yield(entries: &HashMap<usize, SchedEntry>, caller: usize) -> (r: Option<usize>)
    ensures
        r == spec_pick_next_yield(entries@, caller),
{
    let ghost m = entries@;
    let v = entry_list(entries);
    let (best_pri, first) = match top_of(&v, Ghost(entries@)) {
        None => return None,
        Some(b) => b,
    };
    proof {
        lemma_top_unique(m, best_pri);
        lemma_first_unique(m, best_pri, first);
    }
    let mut caller_in = false;
    let mut next: Option<usize> = None;
    let mut i: usize = 0;
    while i < v.len()
        invariant
            lists_entries(v@, m),
            0 <= i <= v@.len(),
            caller_in ==> at_pri(m, best_pri, caller),
            !caller_in ==> forall|k: int|
                0 <= k < i && #[trigger] v@[k].0 == caller ==> !(v@[k].1.ready && v@[k].1.pri
                    == best_pri),
            next is None ==> forall|k: int|
                0 <= k < i && caller < #[trigger] v@[k].0 ==> !(v@[k].1.ready && v@[k].1.pri
                    == best_pri),
            next matches Some(n) ==> {
                &&& at_pri(m, best_pri, n)
                &&& caller < n
                &&& forall|k: int|
                    0 <= k < i && caller < #[trigger] v@[k].0 && v@[k].1.ready && v@[k].1.pri
                        == best_pri ==> n <= v@[k].0
            },
        decreases v@.len() - i,
    {
        let (id, entry) = v[i];
        assert(m.contains_key(v@[i as int].0) && m[v@[i as int].0] == v@[i as int].1);
        if entry.ready && entry.pri == best_pri {
            if id == caller {
                caller_in = true;
            } else if id > caller {
                match next {
                    Some(n) if n <= id => {},
                    _ => {
                        next = Some(id);
                    },
                }
            }
        }
        i = i + 1;
    }
    proof {
        if !caller_in {
            if at_pri(m, best_pri, caller) {
                let k = choose|k: int| 0 <= k < v@.len() && #[trigger] v@[k].0 == caller;
                assert(false);
            }
        }
        match next {
            Some(n) => {
                assert forall|j: usize| #[trigger] at_pri(m, best_pri, j) && caller < j implies n
                    <= j by {
                    let k = choose|k: int| 0 <= k < v@.len() && #[trigger] v@[k].0 == j;
                }
                lemma_next_unique(m, best_pri, caller, n);
            },
            None => {
                if has_next_at(m, best_pri, caller) {
                    let j = choose|j: usize| #[trigger] at_pri(m, best_pri, j) && caller < j;
                    let k = choose|k: int| 0 <= k < v@.len() && #[trigger] v@[k].0 == j;
                    assert(false);
                }
            },
        }
    }
    if caller_in {
        match next {
            Some(n) => Some(n),
            None => Some(first),
        }
    } else {
        Some(first)
    }
}

/// The scheduler's state as a value: the thread table, the run-token holder, and the wake
/// generation counter that releases a sole-runnable yielder.
pub struct SchedView {
    pub entries: Map<usize, SchedEntry>,
    pub running: Option<usize>,
    pub wake_gen: u64,
}

/// Set the READY flag of a known thread; an unknown key leaves the table as it is.
pub open spec fn with_ready(m: Map<usize, SchedEntry>, key: usize, ready: bool) -> Map<usize, SchedEntry> {
    if m.contains_key(key) {
        m.insert(key, SchedEntry { pri: m[key].pri, ready })
    } else {
        m
    }
}

pub open spec fn with_pri(m: Map<usize, SchedEntry>, key: usize, pri: i32) -> Map<usize, SchedEntry> {
    if m.contains_key(key) {
        m.insert(key, SchedEntry { pri, ready: m[key].ready })
    } else {
        m
    }
}

impl SchedView {
    pub open spec fn register(self, key: usize, pri: i32) -> SchedView {
        SchedView { entries: self.entries.insert(key, SchedEntry { pri, ready: false }), ..self }
    }

    pub open spec fn mark_ready(self, key: usize) -> SchedView {
        SchedView { entries: with_ready(self.entries, key, true), ..self }
    }

    pub open spec fn set_pri(self, key: usize, pri: i32) -> SchedView {
        SchedView { entries: with_pri(self.entries, key, pri), ..self }
    }

    /// A scheduling point: recompute the holder, the current one keeping it on a tie.
    pub open spec fn reschedule(self) -> SchedView {
        SchedView { running: spec_pick_next(self.entries, self.running), ..self }
    }

    /// A thread's entry returned: retire it and pass the token on.
    pub open spec fn on_exit(self, key: usize) -> SchedView {
        let e = with_ready(self.entries, key, false);
        SchedView { entries: e, running: spec_pick_next(e, None), ..self }
    }

    pub open spec fn set_blocked(self, id: usize) -> SchedView {
        SchedView { entries: with_ready(self.entries, id, false), ..self }
    }

    /// Mark a thread READY and bump the wake generation; the token is dispatched only when no
    /// thread holds it (a holder is never preempted: the woken thread waits for its next
    /// scheduling point).
    pub open spec fn wake(self, id: usize) -> SchedView {
        let e = with_ready(self.entries, id, true);
        SchedView {
            entries: e,
            running: if self.running is None { spec_pick_next(e, None) } else { self.running },
            wake_gen: if self.wake_gen == u64::MAX { 0 } else { (self.wake_gen + 1) as u64 },
        }
    }

    /// The holder blocks itself: hand the token to the next choice.
    pub open spec fn park(self) -> SchedView {
        self.reschedule()
    }

    /// osYieldThread: hand the token to the round-robin successor when that is another thread.
    pub open spec fn yield_from(self, me: usize) -> SchedView {
        match spec_pick_next_yield(self.entries, me) {
            Some(next) => if next != me {
                SchedView { running: Some(next), ..self }
            } else {
                self
            },
            None => self,
        }
    }

    pub open spec fn holds(self, key: usize) -> bool {
        self.running == Some(key)
    }
}

/// The cooperative-priority scheduler: a single run token over a table of guest threads.
/// Blocking on the token (waiting for `holds`) is the caller's part; every decision is here.
pub struct Scheduler {
    entries: HashMap<usize, SchedEntry>,
    running: Option<usize>,
    wake_gen: u64,
}

impl View for Scheduler {
    type V = SchedView;

    closed spec fn view(&self) -> SchedView {
        SchedView { entries: self.entries@, running: self.running, wake_gen: self.wake_gen }
    }
}

impl Default for Scheduler {
    fn default() -> (s: Scheduler)
        ensures
            s@.entries == Map::<usize, SchedEntry>::empty(),
            s@.running is None,
            s@.wake_gen == 0,
    {
        Scheduler::new()
    }
}

impl Scheduler {
    pub fn new() -> (s: Scheduler)
        ensures
            s@.entries == Map::<usize, SchedEntry>::empty(),
            s@.running is None,
            s@.wake_gen == 0,
    {
        Scheduler { entries: HashMap::new(), running: None, wake_gen: 0 }
    }

    fn set_ready_flag(&mut self, key: usize, ready: bool)
        ensures
            final(self)@ == (SchedView { entries: with_ready(old(self)@.entries, key, ready), ..old(self)@ }),
    {
        let pri = match self.entries.get(&key) {
            Some(e) => Some(e.pri),
            None => None,
        };
        if let Some(p) = pri {
            self.entries.insert(key, SchedEntry { pri: p, ready });
        }
    }

    /// Register a created-but-not-started thread: known, not yet runnable.
    pub fn register(&mut self, key: usize, pri: i32)
        ensures
            final(self)@ == old(self)@.register(key, pri),
    {
        self.entries.insert(key, SchedEntry { pri, ready: false });
    }

    /// Mark a thread runnable (osStartThread).
    pub fn mark_ready(&mut self, key: usize)
        ensures
            final(self)@ == old(self)@.mark_ready(key),
    {
        self.set_ready_flag(key, true);
    }

    /// Change a thread's priority (osSetThreadPri); no rescheduling by itself, and no thread's
    /// READY flag changes.
    pub fn set_pri(&mut self, key: usize, pri: i32)
        ensures
            final(self)@ == old(self)@.set_pri(key, pri),
            final(self)@.entries.dom() == old(self)@.entries.dom(),
            forall|k: usize| #[trigger] old(self)@.entries.contains_key(k) ==> final(self)@.entries[k].ready
                == old(self)@.entries[k].ready,
            old(self)@.entries.contains_key(key) ==> final(self)@.entries[key].pri == pri,
            final(self)@.running == old(self)@.running,
    {
        proof {
            assert forall|k: usize| #[trigger] old(self)@.entries.contains_key(k) implies old(self)@.set_pri(
                key,
                pri,
            ).entries[k].ready == old(self)@.entries[k].ready by {
                law_set_pri_keeps_readiness(old(self)@, key, pri, k);
            }
            law_set_pri_keeps_readiness(old(self)@, key, pri, key);
        }
        let ready = match self.entries.get(&key) {
            Some(e) => Some(e.ready),
            None => None,
        };
        if let Some(r) = ready {
            self.entries.insert(key, SchedEntry { pri, ready: r });
        }
    }

    /// Whether `key` holds the run token: a thread waits until this is true before running.
    pub fn acquire(&self, key: usize) -> (may_run: bool)
        ensures
            may_run == self@.holds(key),
    {
        self.running == Some(key)
    }

    /// A scheduling point. Recomputes the holder; the result says whether `caller` may go on
    /// (always for a tokenless caller, `None`; otherwise only while it holds the token).
    pub fn reschedule(&mut self, caller: Option<usize>) -> (may_run: bool)
        ensures
            final(self)@ == old(self)@.reschedule(),
            may_run == (caller is None || final(self)@.holds(caller->0)),
    {
        self.running = pick_next(&self.entries, self.running);
        match caller {
            None => true,
            Some(me) => self.running == Some(me),
        }
    }

    /// osYieldThread's handoff. True when the token went to another thread; false when the caller
    /// is the sole top choice and keeps it.
    pub fn reschedule_yield(&mut self, me: usize) -> (handed_off: bool)
        ensures
            final(self)@ == old(self)@.yield_from(me),
            handed_off == (spec_pick_next_yield(old(self)@.entries, me) matches Some(n) && n != me),
    {
        match pick_next_yield(&self.entries, me) {
            Some(next) => if next != me {
                self.running = Some(next);
                true
            } else {
                false
            },
            None => false,
        }
    }

    /// A thread's entry function returned: retire it and pass the token on.
    pub fn on_exit(&mut self, key: usize)
        ensures
            final(self)@ == old(self)@.on_exit(key),
    {
        self.set_ready_flag(key, false);
        self.running = pick_next(&self.entries, None);
    }

    pub fn wake_gen(&self) -> (g: u64)
        ensures
            g == self@.wake_gen,
    {
        self.wake_gen
    }

    pub fn running(&self) -> (r: Option<usize>)
        ensures
            r == self@.running,
    {
        self.running
    }
}

/// Mark a thread blocked (a receive on an empty queue). The token is not handed off here: the
/// holder follows with `park_self`.
pub fn set_blocked(s: &mut Scheduler, id: usize)
    ensures
        final(s)@ == old(s)@.set_blocked(id),
{
    s.set_ready_flag(id, false);
}

/// Wake a blocked thread; callable by any thread, including tokenless ones.
pub fn wake(s: &mut Scheduler, id: usize)
    ensures
        final(s)@ == old(s)@.wake(id),
{
    s.set_ready_flag(id, true);
    s.wake_gen = s.wake_gen.wrapping_add(1);
    if s.running.is_none() {
        s.running = pick_next(&s.entries, None);
    }
}

/// The holder blocks itself: hand the token on. The result says whether `me` still holds it (it
/// must wait for the token otherwise).
pub fn park_self(s: &mut Scheduler, me: usize) -> (may_run: bool)
    ensures
        final(s)@ == old(s)@.park(),
        may_run == final(s)@.holds(me),
{
    s.running = pick_next(&s.entries, s.running);
    s.running == Some(me)
}

proof fn lemma_top_exists(m: Map<usize, SchedEntry>)
    requires
        m.dom().finite(),
        has_runnable(m),
    ensures
        is_top_pri(m, top_pri(m)),
    decreases m.dom().len(),
{
    let j = choose|j: usize| #[trigger] m.contains_key(j) && runnable(m[j]);
    let m2 = m.remove(j);
    if has_runnable(m2) {
        lemma_top_exists(m2);
        let p2 = top_pri(m2);
        if m[j].pri <= p2 {
            let w = choose|w: usize| #[trigger] m2.contains_key(w) && runnable(m2[w]) && m2[w].pri == p2;
            assert(m.contains_key(w) && runnable(m[w]) && m[w].pri == p2);
            assert forall|k: usize| #[trigger] m.contains_key(k) && runnable(m[k]) implies m[k].pri <= p2 by {
                if k != j {
                    assert(m2.contains_key(k));
                }
            }
            assert(is_top_pri(m, p2));
        } else {
            assert forall|k: usize| #[trigger] m.contains_key(k) && runnable(m[k]) implies m[k].pri
                <= m[j].pri by {
                if k != j {
                    assert(m2.contains_key(k));
                }
            }
            assert(is_top_pri(m, m[j].pri));
        }
    } else {
        assert forall|k: usize| #[trigger] m.contains_key(k) && runnable(m[k]) implies m[k].pri
            <= m[j].pri by {
            if k != j {
                assert(m2.contains_key(k));
            }
        }
        assert(is_top_pri(m, m[j].pri));
    }
}

proof fn lemma_first_exists(m: Map<usize, SchedEntry>, p: i32, w: usize)
    requires
        m.dom().finite(),
        at_pri(m, p, w),
    ensures
        is_first_at(m, p, first_at(m, p)),
    decreases m.dom().len(),
{
    let m2 = m.remove(w);
    if exists|j: usize| #[trigger] at_pri(m2, p, j) {
        let j = choose|j: usize| #[trigger] at_pri(m2, p, j);
        lemma_first_exists(m2, p, j);
        let f2 = first_at(m2, p);
        let f = if f2 <= w { f2 } else { w };
        assert forall|k: usize| #[trigger] at_pri(m, p, k) implies f <= k by {
            if k != w {
                assert(at_pri(m2, p, k));
            }
        }
        assert(is_first_at(m, p, f));
    } else {
        assert forall|k: usize| #[trigger] at_pri(m, p, k) implies w <= k by {
            if k != w {
                assert(at_pri(m2, p, k));
            }
        }
        assert(is_first_at(m, p, w));
    }
}

proof fn lemma_next_exists(m: Map<usize, SchedEntry>, p: i32, after: usize, w: usize)
    requires
        m.dom().finite(),
        at_pri(m, p, w),
        after < w,
    ensures
        is_next_at(m, p, after, next_at(m, p, after)),
    decreases m.dom().len(),
{
    let m2 = m.remove(w);
    if exists|j: usize| #[trigger] at_pri(m2, p, j) && after < j {
        let j = choose|j: usize| #[trigger] at_pri(m2, p, j) && after < j;
        lemma_next_exists(m2, p, after, j);
        let f2 = next_at(m2, p, after);
        let f = if f2 <= w { f2 } else { w };
        assert forall|k: usize| #[trigger] at_pri(m, p, k) && after < k implies f <= k by {
            if k != w {
                assert(at_pri(m2, p, k));
            }
        }
        assert(is_next_at(m, p, after, f));
    } else {
        assert forall|k: usize| #[trigger] at_pri(m, p, k) && after < k implies w <= k by {
            if k != w {
                assert(at_pri(m2, p, k));
            }
        }
        assert(is_next_at(m, p, after, w));
    }
}

/// The run token only ever goes to a READY thread with priority above 0 that is at the highest
/// runnable priority; a pri-0 thread is never dispatched.
pub proof fn law_token_goes_to_top_runnable(m: Map<usize, SchedEntry>, current: Option<usize>)
    requires
        m.dom().finite(),
    ensures
        spec_pick_next(m, current) is None <==> !has_runnable(m),
        spec_pick_next(m, current) matches Some(x) ==> {
            &&& m.contains_key(x)
            &&& runnable(m[x])
            &&& forall|j: usize| #[trigger] m.contains_key(j) && runnable(m[j]) ==> m[j].pri <= m[x].pri
        },
{
    if has_runnable(m) {
        lemma_top_exists(m);
        let p = top_pri(m);
        let w = choose|j: usize| #[trigger] m.contains_key(j) && runnable(m[j]) && m[j].pri == p;
        assert(at_pri(m, p, w));
        lemma_first_exists(m, p, w);
    }
}

/// Equal priority never preempts: a holder that is runnable at the highest priority keeps the
/// token at a scheduling point, whoever else became READY at that priority.
pub proof fn law_tie_keeps_holder(s: SchedView, c: usize)
    requires
        s.entries.dom().finite(),
        s.running == Some(c),
        s.entries.contains_key(c),
        runnable(s.entries[c]),
        forall|j: usize| #[trigger] s.entries.contains_key(j) && runnable(s.entries[j]) ==> s.entries[j].pri
            <= s.entries[c].pri,
    ensures
        s.reschedule().holds(c),
{
    let m = s.entries;
    assert(is_top_pri(m, m[c].pri));
    lemma_top_unique(m, m[c].pri);
}

/// A strictly higher-priority READY thread takes the token at the next scheduling point.
pub proof fn law_higher_priority_preempts(s: SchedView, c: usize, h: usize)
    requires
        s.entries.dom().finite(),
        s.running == Some(c),
        s.entries.contains_key(c),
        s.entries.contains_key(h),
        runnable(s.entries[h]),
        s.entries[h].pri > s.entries[c].pri,
    ensures
        !s.reschedule().holds(c),
{
    let m = s.entries;
    law_token_goes_to_top_runnable(m, s.running);
    lemma_top_exists(m);
    let p = top_pri(m);
    assert(m[h].pri <= p);
    if spec_pick_next(m, s.running) == Some(c) {
        assert(m[c].pri >= m[h].pri);
    }
}

/// A wake that lands after a thread marked itself blocked but before it parked is not lost:
/// a thread at the highest priority that is woken there keeps the token when it parks.
pub proof fn law_wake_before_park_is_not_lost(s: SchedView, me: usize)
    requires
        s.entries.dom().finite(),
        s.running == Some(me),
        s.entries.contains_key(me),
        s.entries[me].pri > 0,
        forall|j: usize| #[trigger] s.entries.contains_key(j) && runnable(s.entries[j]) ==> s.entries[j].pri
            <= s.entries[me].pri,
    ensures
        s.set_blocked(me).wake(me).park().holds(me),
{
    let m = s.entries;
    let s1 = s.set_blocked(me).wake(me);
    let e = s1.entries;
    assert(e == m.insert(me, SchedEntry { pri: m[me].pri, ready: true }));
    assert(s1.running == Some(me));
    assert forall|j: usize| #[trigger] e.contains_key(j) && runnable(e[j]) implies e[j].pri <= e[me].pri by {
        if j != me {
            assert(m.contains_key(j) && m[j] == e[j]);
        }
    }
    assert(e.contains_key(me) && runnable(e[me]));
    assert(is_top_pri(e, e[me].pri));
    lemma_top_unique(e, e[me].pri);
}

/// A wake never preempts the thread holding the token: the woken thread is left READY for the
/// holder's next scheduling point.
pub proof fn law_wake_defers_to_holder(s: SchedView, id: usize)
    requires
        s.running is Some,
    ensures
        s.wake(id).running == s.running,
        s.wake(id).wake_gen != s.wake_gen,
{
}

/// A priority change (osSetThreadPri) sets that thread's priority and nothing else: every
/// thread stays exactly as READY as it was, so a created-but-not-started thread, or one blocked
/// on a queue, is not made runnable by it; the holder and the wake generation stay as they are.
pub proof fn law_set_pri_keeps_readiness(s: SchedView, key: usize, pri: i32, k: usize)
    ensures
        s.set_pri(key, pri).entries.dom() == s.entries.dom(),
        s.set_pri(key, pri).running == s.running,
        s.set_pri(key, pri).wake_gen == s.wake_gen,
        s.entries.contains_key(k) ==> s.set_pri(key, pri).entries[k].ready == s.entries[k].ready,
        s.entries.contains_key(k) && k != key ==> s.set_pri(key, pri).entries[k] == s.entries[k],
        s.entries.contains_key(key) ==> s.set_pri(key, pri).entries[key].pri == pri,
        s.entries.contains_key(k) && !s.entries[k].ready ==> !runnable(s.set_pri(key, pri).entries[k]),
{
    assert(s.set_pri(key, pri).entries.dom() =~= s.entries.dom());
}

/// A thread that was registered and then given a new priority, before it was started, is not
/// dispatched: with no other thread runnable, a scheduling point leaves the token unheld.
pub proof fn law_unstarted_thread_not_dispatched(s: SchedView, key: usize, p: i32, q: i32)
    requires
        s.entries.dom().finite(),
        s.running is None,
        !has_runnable(s.entries),
    ensures
        s.register(key, p).set_pri(key, q).reschedule().running is None,
{
    let s2 = s.register(key, p).set_pri(key, q);
    let m = s2.entries;
    assert(m.dom().finite()) by {
        assert(m.dom() =~= s.entries.dom().insert(key));
    }
    assert forall|j: usize| #[trigger] m.contains_key(j) implies !runnable(m[j]) by {
        if j != key {
            assert(m[j] == s.entries[j]);
            if runnable(s.entries[j]) {
                assert(s.entries.contains_key(j) && runnable(s.entries[j]));
            }
        }
    }
    law_token_goes_to_top_runnable(m, None);
}

/// Yield round-robins: a caller READY at the top priority hands the token to another thread
/// READY at that priority whenever there is one (so no equal-priority peer starves).
pub proof fn law_yield_rotates_among_equals(m: Map<usize, SchedEntry>, caller: usize, peer: usize)
    requires
        m.dom().finite(),
        has_runnable(m),
        at_pri(m, top_pri(m), caller),
        at_pri(m, top_pri(m), peer),
        peer != caller,
    ensures
        spec_pick_next_yield(m, caller) matches Some(n) && n != caller && at_pri(m, top_pri(m), n),
{
    let p = top_pri(m);
    lemma_top_exists(m);
    if has_next_at(m, p, caller) {
        let w = choose|j: usize| #[trigger] at_pri(m, p, j) && caller < j;
        lemma_next_exists(m, p, caller, w);
    } else {
        lemma_first_exists(m, p, peer);
        let f = first_at(m, p);
        if f == caller {
            assert(caller <= peer);
            assert(at_pri(m, p, peer) && caller < peer);
        }
    }
}

} // verus!
