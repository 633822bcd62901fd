//! Statistics Aggregator: one counter shard per worker, merged on read.
use vstd::prelude::*;

verus! {

/// Index of the entry for status `c`, searching from the end, or -1.
pub open spec fn code_index(s: Seq<(u16, u64)>, c: u16) -> int
    decreases s.len(),
{
    if s.len() == 0 {
        -1
    } else if s.last().0 == c {
        s.len() - 1
    } else {
        code_index(s.drop_last(), c)
    }
}

/// The count of status `c`: the sum of the counts of its entries.
pub open spec fn count_of(s: Seq<(u16, u64)>, c: u16) -> nat
    decreases s.len(),
{
    if s.len() == 0 {
        0
    } else {
        count_of(s.drop_last(), c) + if s.last().0 == c {
            s.last().1 as nat
        } else {
            0
        }
    }
}

/// The sum of all counts.
pub open spec fn total(s: Seq<(u16, u64)>) -> nat
    decreases s.len(),
{
    if s.len() == 0 {
        0
    } else {
        total(s.drop_last()) + s.last().1 as nat
    }
}

/// Whether no two entries share a status.
pub open spec fn codes_unique(s: Seq<(u16, u64)>) -> bool {
    forall|i: int, j: int| 0 <= i < j < s.len() ==> s[i].0 != s[j].0
}

/// Whether every count is positive.
pub open spec fn counts_positive(s: Seq<(u16, u64)>) -> bool {
    forall|i: int| 0 <= i < s.len() ==> (#[trigger] s[i]).1 > 0
}

/// `s` with `n` added to the count of status `c`.
pub open spec fn add_count(s: Seq<(u16, u64)>, c: u16, n: u64) -> Seq<(u16, u64)> {
    let i = code_index(s, c);
    if i >= 0 {
        s.update(i, (c, (s[i].1 + n) as u64))
    } else {
        s.push((c, n))
    }
}

pub proof fn lemma_code_index(s: Seq<(u16, u64)>, c: u16)
    ensures
        -1 <= code_index(s, c) < s.len(),
        code_index(s, c) >= 0 ==> s[code_index(s, c)].0 == c,
        code_index(s, c) == -1 ==> forall|j: int| 0 <= j < s.len() ==> s[j].0 != c,
    decreases s.len(),
{
    if s.len() > 0 && s.last().0 != c {
        lemma_code_index(s.drop_last(), c);
        if code_index(s, c) == -1 {
            assert forall|j: int| 0 <= j < s.len() implies s[j].0 != c by {
                if j < s.len() - 1 {
                    assert(s[j] == s.drop_last()[j]);
                }
            }
        }
    }
}

proof fn lemma_entry_le_total(s: Seq<(u16, u64)>, i: int)
    requires
        0 <= i < s.len(),
    ensures
        s[i].1 <= total(s),
    decreases s.len(),
{
    if i < s.len() - 1 {
        assert(s.drop_last()[i] == s[i]);
        lemma_entry_le_total(s.drop_last(), i);
    }
}

proof fn lemma_update(s: Seq<(u16, u64)>, i: int, v: u64)
    requires
        0 <= i < s.len(),
    ensures
        total(s.update(i, (s[i].0, v))) == total(s) - s[i].1 + v,
        forall|c: u16|
            #[trigger] count_of(s.update(i, (s[i].0, v)), c) == count_of(s, c) + if c == s[i].0 {
                v - s[i].1
            } else {
                0
            },
    decreases s.len(),
{
    let t = s.update(i, (s[i].0, v));
    if i < s.len() - 1 {
        assert(t.drop_last() =~= s.drop_last().update(i, (s[i].0, v)));
        assert(s.drop_last()[i] == s[i]);
        lemma_update(s.drop_last(), i, v);
        assert forall|c: u16| #[trigger] count_of(t, c) == count_of(s, c) + if c == s[i].0 {
            v - s[i].1
        } else {
            0
        } by {
            assert(count_of(t.drop_last(), c) == count_of(s.drop_last(), c) + if c == s[i].0 {
                v - s[i].1
            } else {
                0
            });
        }
    } else {
        assert(t.drop_last() =~= s.drop_last());
        assert forall|c: u16| #[trigger] count_of(t, c) == count_of(s, c) + if c == s[i].0 {
            v - s[i].1
        } else {
            0
        } by {
            assert(count_of(t.drop_last(), c) == count_of(s.drop_last(), c));
        }
    }
}

/// Adding `n` to status `c` adds `n` to the total and to the count of `c`
/// alone, and keeps statuses unique.
pub proof fn lemma_add_count(s: Seq<(u16, u64)>, c: u16, n: u64)
    requires
        total(s) + n <= u64::MAX,
    ensures
        total(add_count(s, c, n)) == total(s) + n,
        forall|d: u16|
            #[trigger] count_of(add_count(s, c, n), d) == count_of(s, d) + if d == c {
                n as nat
            } else {
                0
            },
        codes_unique(s) ==> codes_unique(add_count(s, c, n)),
        counts_positive(s) && n > 0 ==> counts_positive(add_count(s, c, n)),
{
    lemma_code_index(s, c);
    let i = code_index(s, c);
    if i >= 0 {
        lemma_entry_le_total(s, i);
        lemma_update(s, i, (s[i].1 + n) as u64);
    } else {
        let t = s.push((c, n));
        assert(t.drop_last() =~= s);
    }
}

/// The status counts of one worker.
#[derive(Debug, Clone)]
pub struct StatShard {
    counts: Vec<(u16, u64)>,
}

impl View for StatShard {
    type V = Seq<(u16, u64)>;

    closed spec fn view(&self) -> Seq<(u16, u64)> {
        self.counts@
    }
}

impl StatShard {
    /// Statuses are unique, counts positive, and the total fits in a `u64`.
    pub open spec fn wf(&self) -> bool {
        codes_unique(self@) && counts_positive(self@) && total(self@) <= u64::MAX
    }

    /// A shard that has counted nothing.
    pub fn new() -> (r: StatShard)
        ensures
            r.wf(),
            r@ == Seq::<(u16, u64)>::empty(),
    {
        StatShard { counts: Vec::new() }
    }

    fn find(&self, code: u16) -> (r: Option<usize>)
        ensures
            r.is_none() <==> code_index(self@, code) < 0,
            r.is_some() ==> r.unwrap() == code_index(self@, code),
    {
        proof {
            lemma_code_index(self@, code);
        }
        let mut i: usize = self.counts.len();
        assert(self@.take(i as int) =~= self@);
        while i > 0
            invariant
                i <= self@.len(),
                code_index(self@, code) == code_index(self@.take(i as int), code),
            decreases i,
        {
            assert(self@.take(i as int).drop_last() =~= self@.take(i - 1));
            if self.counts[i - 1].0 == code {
                return Some(i - 1);
            }
            i = i - 1;
        }
        None
    }

    /// Adds `n` to the count of status `code`.
    pub fn add(&mut self, code: u16, n: u64)
        requires
            old(self).wf(),
            n > 0,
            total(old(self)@) + n <= u64::MAX,
        ensures
            final(self).wf(),
            final(self)@ == add_count(old(self)@, code, n),
    {
        proof {
            lemma_code_index(self@, code);
            lemma_add_count(self@, code, n);
        }
        match self.find(code) {
            Some(i) => {
                proof {
                    lemma_entry_le_total(self@, i as int);
                }
                let c = self.counts[i].1;
                self.counts.set(i, (code, c + n));
            },
            None => {
                self.counts.push((code, n));
            },
        }
    }

    /// Counts one response with status `code`.
    pub fn record(&mut self, code: u16)
        requires
            old(self).wf(),
            total(old(self)@) < u64::MAX,
        ensures
            final(self).wf(),
            final(self)@ == add_count(old(self)@, code, 1),
            total(final(self)@) == total(old(self)@) + 1,
            forall|d: u16|
                #[trigger] count_of(final(self)@, d) == count_of(old(self)@, d) + if d == code {
                    1nat
                } else {
                    0nat
                },
    {
        proof {
            lemma_add_count(self@, code, 1);
        }
        self.add(code, 1);
    }

    /// The number of responses counted.
    pub fn total(&self) -> (r: u64)
        requires
            self.wf(),
        ensures
            r == total(self@),
    {
        let mut sum: u64 = 0;
        let mut i: usize = 0;
        while i < self.counts.len()
            invariant
                i <= self@.len(),
                total(self@) <= u64::MAX,
                sum == total(self@.take(i as int)),
            decreases self@.len() - i,
        {
            assert(self@.take(i + 1).drop_last() =~= self@.take(i as int));
            proof {
                lemma_prefix_total(self@, i + 1);
            }
            sum = sum + self.counts[i].1;
            i = i + 1;
        }
        assert(self@.take(i as int) =~= self@);
        sum
    }

    /// The counts, one entry per status.
    pub fn entries(&self) -> (r: &Vec<(u16, u64)>)
        ensures
            r@ == self@,
    {
        &self.counts
    }
}

proof fn lemma_prefix_total(s: Seq<(u16, u64)>, j: int)
    requires
        0 <= j <= s.len(),
    ensures
        total(s.take(j)) <= total(s),
    decreases s.len(),
{
    if j < s.len() {
        assert(s.drop_last().take(j) =~= s.take(j));
        lemma_prefix_total(s.drop_last(), j);
    } else {
        assert(s.take(j) =~= s);
    }
}

/// The sum of the totals of all shards.
pub open spec fn all_total(ss: Seq<Seq<(u16, u64)>>) -> nat
    decreases ss.len(),
{
    if ss.len() == 0 {
        0
    } else {
        all_total(ss.drop_last()) + total(ss.last())
    }
}

/// The sum over all shards of the count of status `c`.
pub open spec fn all_count(ss: Seq<Seq<(u16, u64)>>, c: u16) -> nat
    decreases ss.len(),
{
    if ss.len() == 0 {
        0
    } else {
        all_count(ss.drop_last(), c) + count_of(ss.last(), c)
    }
}

/// Whether every shard has unique statuses.
pub open spec fn shards_wf(ss: Seq<Seq<(u16, u64)>>) -> bool {
    forall|k: int| 0 <= k < ss.len() ==> codes_unique(#[trigger] ss[k])
}

/// Index of worker `w`, searching from the end, or -1.
pub open spec fn worker_index(ws: Seq<u64>, w: u64) -> int
    decreases ws.len(),
{
    if ws.len() == 0 {
        -1
    } else if ws.last() == w {
        ws.len() - 1
    } else {
        worker_index(ws.drop_last(), w)
    }
}

/// The workers after worker `w` records: a new worker gets its own shard.
pub open spec fn record_workers(ws: Seq<u64>, w: u64) -> Seq<u64> {
    if worker_index(ws, w) >= 0 {
        ws
    } else {
        ws.push(w)
    }
}

/// The shards after worker `w` records status `c`: only `w`'s shard changes.
pub open spec fn record_shards(ws: Seq<u64>, ss: Seq<Seq<(u16, u64)>>, w: u64, c: u16) -> Seq<
    Seq<(u16, u64)>,
> {
    let i = worker_index(ws, w);
    if i >= 0 {
        ss.update(i, add_count(ss[i], c, 1))
    } else {
        ss.push(add_count(seq![], c, 1))
    }
}

pub proof fn lemma_worker_index(ws: Seq<u64>, w: u64)
    ensures
        -1 <= worker_index(ws, w) < ws.len(),
        worker_index(ws, w) >= 0 ==> ws[worker_index(ws, w)] == w,
    decreases ws.len(),
{
    if ws.len() > 0 && ws.last() != w {
        lemma_worker_index(ws.drop_last(), w);
    }
}

proof fn lemma_shard_le_all(ss: Seq<Seq<(u16, u64)>>, i: int)
    requires
        0 <= i < ss.len(),
    ensures
        total(ss[i]) <= all_total(ss),
    decreases ss.len(),
{
    if i < ss.len() - 1 {
        assert(ss.drop_last()[i] == ss[i]);
        lemma_shard_le_all(ss.drop_last(), i);
    }
}

proof fn lemma_prefix_all(ss: Seq<Seq<(u16, u64)>>, j: int)
    requires
        0 <= j <= ss.len(),
    ensures
        all_total(ss.take(j)) <= all_total(ss),
    decreases ss.len(),
{
    if j < ss.len() {
        assert(ss.drop_last().take(j) =~= ss.take(j));
        lemma_prefix_all(ss.drop_last(), j);
    } else {
        assert(ss.take(j) =~= ss);
    }
}

proof fn lemma_all_update(ss: Seq<Seq<(u16, u64)>>, i: int, s: Seq<(u16, u64)>)
    requires
        0 <= i < ss.len(),
    ensures
        all_total(ss.update(i, s)) == all_total(ss) - total(ss[i]) + total(s),
        forall|c: u16|
            #[trigger] all_count(ss.update(i, s), c) == all_count(ss, c) - count_of(ss[i], c)
                + count_of(s, c),
    decreases ss.len(),
{
    let t = ss.update(i, s);
    if i < ss.len() - 1 {
        assert(t.drop_last() =~= ss.drop_last().update(i, s));
        assert(ss.drop_last()[i] == ss[i]);
        lemma_all_update(ss.drop_last(), i, s);
        assert forall|c: u16| #[trigger] all_count(t, c) == all_count(ss, c) - count_of(ss[i], c)
            + count_of(s, c) by {
            assert(all_count(t.drop_last(), c) == all_count(ss.drop_last(), c) - count_of(ss[i], c)
                + count_of(s, c));
        }
    } else {
        assert(t.drop_last() =~= ss.drop_last());
        assert forall|c: u16| #[trigger] all_count(t, c) == all_count(ss, c) - count_of(ss[i], c)
            + count_of(s, c) by {
            assert(all_count(t.drop_last(), c) == all_count(ss.drop_last(), c));
        }
    }
}

/// Recording one status adds one to the grand total and to that status's
/// count, whichever worker records it.
pub proof fn lemma_record(ws: Seq<u64>, ss: Seq<Seq<(u16, u64)>>, w: u64, c: u16)
    requires
        ws.len() == ss.len(),
        shards_wf(ss),
        all_total(ss) < u64::MAX,
    ensures
        record_workers(ws, w).len() == record_shards(ws, ss, w, c).len(),
        shards_wf(record_shards(ws, ss, w, c)),
        all_total(record_shards(ws, ss, w, c)) == all_total(ss) + 1,
        forall|d: u16|
            #[trigger] all_count(record_shards(ws, ss, w, c), d) == all_count(ss, d) + if d == c {
                1nat
            } else {
                0nat
            },
{
    lemma_worker_index(ws, w);
    let i = worker_index(ws, w);
    let t = record_shards(ws, ss, w, c);
    if i >= 0 {
        lemma_shard_le_all(ss, i);
        lemma_add_count(ss[i], c, 1);
        lemma_all_update(ss, i, add_count(ss[i], c, 1));
        assert(shards_wf(t));
    } else {
        lemma_add_count(seq![], c, 1);
        assert(t.drop_last() =~= ss);
        assert(shards_wf(t));
        assert forall|d: u16| #[trigger] all_count(t, d) == all_count(ss, d) + if d == c {
            1nat
        } else {
            0nat
        } by {
            assert(count_of(Seq::<(u16, u64)>::empty(), d) == 0);
        }
    }
}

/// The workers and shards after recording `events` (worker, status) in turn,
/// starting from no shards.
pub open spec fn replay(events: Seq<(u64, u16)>) -> (Seq<u64>, Seq<Seq<(u16, u64)>>)
    decreases events.len(),
{
    if events.len() == 0 {
        (seq![], seq![])
    } else {
        let prev = replay(events.drop_last());
        let e = events.last();
        (record_workers(prev.0, e.0), record_shards(prev.0, prev.1, e.0, e.1))
    }
}

/// The number of events that record status `c`.
pub open spec fn events_with(events: Seq<(u64, u16)>, c: u16) -> nat
    decreases events.len(),
{
    if events.len() == 0 {
        0
    } else {
        events_with(events.drop_last(), c) + if events.last().1 == c {
            1nat
        } else {
            0nat
        }
    }
}

/// However requests are spread over workers, the counts of all shards sum
/// to the number of statuses recorded, and each status's count summed over
/// the shards is the number of events that recorded it.
pub proof fn lemma_every_record_counted(events: Seq<(u64, u16)>)
    requires
        events.len() <= u64::MAX,
    ensures
        all_total(replay(events).1) == events.len(),
        forall|c: u16| #[trigger] all_count(replay(events).1, c) == events_with(events, c),
        replay(events).0.len() == replay(events).1.len(),
        shards_wf(replay(events).1),
    decreases events.len(),
{
    if events.len() > 0 {
        let prev = replay(events.drop_last());
        lemma_every_record_counted(events.drop_last());
        lemma_record(prev.0, prev.1, events.last().0, events.last().1);
    }
}

/// The counts merged over all shards: one entry per status, each with the
/// sum of that status's counts, and the grand total kept.
pub fn merge_shards(shards: &Vec<StatShard>) -> (r: Vec<(u16, u64)>)
    requires
        forall|k: int| 0 <= k < shards@.len() ==> (#[trigger] shards@[k]).wf(),
        all_total(shards@.map_values(|s: StatShard| s@)) <= u64::MAX,
    ensures
        codes_unique(r@),
        counts_positive(r@),
        total(r@) == all_total(shards@.map_values(|s: StatShard| s@)),
        forall|c: u16|
            #[trigger] count_of(r@, c) == all_count(shards@.map_values(|s: StatShard| s@), c),
{
    let ghost ss = shards@.map_values(|s: StatShard| s@);
    let mut acc = StatShard::new();
    let mut i: usize = 0;
    while i < shards.len()
        invariant
            i <= shards@.len(),
            ss == shards@.map_values(|s: StatShard| s@),
            forall|k: int| 0 <= k < shards@.len() ==> (#[trigger] shards@[k]).wf(),
            all_total(ss) <= u64::MAX,
            acc.wf(),
            total(acc@) == all_total(ss.take(i as int)),
            forall|c: u16| #[trigger] count_of(acc@, c) == all_count(ss.take(i as int), c),
        decreases shards@.len() - i,
    {
        let entries = shards[i].entries();
        let ghost cur = ss[i as int];
        assert(cur == entries@);
        assert(ss.take(i + 1).drop_last() =~= ss.take(i as int));
        assert(shards@[i as int].wf());
        assert(counts_positive(cur));
        assert(ss.take(i + 1).last() == cur);
        assert(all_total(ss.take(i + 1)) == all_total(ss.take(i as int)) + total(cur));
        proof {
            lemma_prefix_all(ss, i + 1);
        }
        let mut j: usize = 0;
        while j < entries.len()
            invariant
                i < shards@.len(),
                j <= cur.len(),
                cur == entries@,
                cur == ss[i as int],
                counts_positive(cur),
                ss.take(i + 1).drop_last() == ss.take(i as int),
                all_total(ss.take(i + 1)) <= u64::MAX,
                all_total(ss.take(i + 1)) == all_total(ss.take(i as int)) + total(cur),
                acc.wf(),
                total(acc@) == all_total(ss.take(i as int)) + total(cur.take(j as int)),
                forall|c: u16|
                    #[trigger] count_of(acc@, c) == all_count(ss.take(i as int), c) + count_of(
                        cur.take(j as int),
                        c,
                    ),
            decreases cur.len() - j,
        {
            assert(cur.take(j + 1).drop_last() =~= cur.take(j as int));
            assert(cur.take(j + 1).last() == cur[j as int]);
            assert(total(cur.take(j + 1)) == total(cur.take(j as int)) + cur[j as int].1);
            proof {
                lemma_prefix_total(cur, j + 1);
                lemma_add_count(acc@, entries[j as int].0, entries[j as int].1);
            }
            let (code, n) = entries[j];
            acc.add(code, n);
            j = j + 1;
        }
        assert(cur.take(j as int) =~= cur);
        i = i + 1;
    }
    assert(ss.take(i as int) =~= ss);
    acc.counts
}

/// Response counts by worker, and the number of accepted connections.
#[derive(Debug)]
pub struct Statistics {
    workers: Vec<u64>,
    shards: Vec<StatShard>,
    connections: u64,
}

impl Statistics {
    /// The worker of each shard.
    pub closed spec fn worker_ids(&self) -> Seq<u64> {
        self.workers@
    }

    /// The counts of each worker's shard.
    pub closed spec fn shard_counts(&self) -> Seq<Seq<(u16, u64)>> {
        self.shards@.map_values(|s: StatShard| s@)
    }

    /// The number of connections accepted so far.
    pub closed spec fn connections_spec(&self) -> u64 {
        self.connections
    }

    /// One shard per worker, each well formed, and the grand total fits a `u64`.
    pub closed spec fn wf(&self) -> bool {
        &&& self.workers@.len() == self.shards@.len()
        &&& forall|k: int| 0 <= k < self.shards@.len() ==> (#[trigger] self.shards@[k]).wf()
        &&& all_total(self.shard_counts()) <= u64::MAX
    }

    /// No shards and no connections.
    pub fn new() -> (r: Statistics)
        ensures
            r.wf(),
            r.worker_ids() == Seq::<u64>::empty(),
            r.shard_counts() == Seq::<Seq<(u16, u64)>>::empty(),
            r.connections_spec() == 0,
    {
        let r = Statistics { workers: Vec::new(), shards: Vec::new(), connections: 0 };
        assert(r.shard_counts() =~= Seq::<Seq<(u16, u64)>>::empty());
        r
    }

    fn find_worker(&self, worker: u64) -> (r: Option<usize>)
        ensures
            r.is_none() <==> worker_index(self.workers@, worker) < 0,
            r.is_some() ==> r.unwrap() == worker_index(self.workers@, worker),
    {
        proof {
            lemma_worker_index(self.workers@, worker);
        }
        let mut i: usize = self.workers.len();
        assert(self.workers@.take(i as int) =~= self.workers@);
        while i > 0
            invariant
                i <= self.workers@.len(),
                worker_index(self.workers@, worker) == worker_index(
                    self.workers@.take(i as int),
                    worker,
                ),
            decreases i,
        {
            assert(self.workers@.take(i as int).drop_last() =~= self.workers@.take(i - 1));
            if self.workers[i - 1] == worker {
                return Some(i - 1);
            }
            i = i - 1;
        }
        None
    }

    /// The grand total of responses counted.
    pub fn total(&self) -> (r: u64)
        requires
            self.wf(),
        ensures
            r == all_total(self.shard_counts()),
    {
        let snapshot = merge_shards(&self.shards);
        let mut sum: u64 = 0;
        let mut i: usize = 0;
        while i < snapshot.len()
            invariant
                i <= snapshot@.len(),
                total(snapshot@) <= u64::MAX,
                sum == total(snapshot@.take(i as int)),
            decreases snapshot@.len() - i,
        {
            assert(snapshot@.take(i + 1).drop_last() =~= snapshot@.take(i as int));
            proof {
                lemma_prefix_total(snapshot@, i + 1);
            }
            sum = sum + snapshot[i].1;
            i = i + 1;
        }
        assert(snapshot@.take(i as int) =~= snapshot@);
        sum
    }

    /// Counts one response with status `code` in `worker`'s shard, made on
    /// the worker's first record; no other shard is touched.
    pub fn record(&mut self, worker: u64, code: u16)
        requires
            old(self).wf(),
            all_total(old(self).shard_counts()) < u64::MAX,
        ensures
            final(self).wf(),
            final(self).worker_ids() == record_workers(old(self).worker_ids(), worker),
            final(self).shard_counts() == record_shards(
                old(self).worker_ids(),
                old(self).shard_counts(),
                worker,
                code,
            ),
            final(self).connections_spec() == old(self).connections_spec(),
            all_total(final(self).shard_counts()) == all_total(old(self).shard_counts()) + 1,
    {
        let ghost ws = self.workers@;
        let ghost ss = self.shard_counts();
        proof {
            lemma_worker_index(ws, worker);
            lemma_record(ws, ss, worker, code);
            assert(shards_wf(ss)) by {
                assert forall|k: int| 0 <= k < ss.len() implies codes_unique(#[trigger] ss[k]) by {
                    assert(ss[k] == self.shards@[k]@);
                }
            }
        }
        match self.find_worker(worker) {
            Some(i) => {
                proof {
                    lemma_shard_le_all(ss, i as int);
                    assert(ss[i as int] == self.shards@[i as int]@);
                }
                self.shards[i].record(code);
            },
            None => {
                let mut shard = StatShard::new();
                shard.record(code);
                self.workers.push(worker);
                self.shards.push(shard);
            },
        }
        assert(self.shard_counts() =~= record_shards(ws, ss, worker, code));
        proof {
            let t = self.shard_counts();
            assert forall|k: int| 0 <= k < self.shards@.len() implies (#[trigger] self.shards@[k]).wf() by {
                assert(t[k] == self.shards@[k]@);
                lemma_shard_le_all(t, k);
            }
        }
    }

    /// The response counts summed over all workers: one entry per status.
    pub fn snapshot(&self) -> (r: Vec<(u16, u64)>)
        requires
            self.wf(),
        ensures
            codes_unique(r@),
            counts_positive(r@),
            total(r@) == all_total(self.shard_counts()),
            forall|c: u16| #[trigger] count_of(r@, c) == all_count(self.shard_counts(), c),
    {
        merge_shards(&self.shards)
    }

    /// Counts one accepted connection.
    pub fn inc_connections(&mut self)
        requires
            old(self).wf(),
            old(self).connections_spec() < u64::MAX,
        ensures
            final(self).wf(),
            final(self).connections_spec() == old(self).connections_spec() + 1,
            final(self).worker_ids() == old(self).worker_ids(),
            final(self).shard_counts() == old(self).shard_counts(),
    {
        self.connections = self.connections + 1;
    }

    /// The number of connections accepted so far.
    pub fn total_connections(&self) -> (r: u64)
        ensures
            r == self.connections_spec(),
    {
        self.connections
    }
}

} // verus!
