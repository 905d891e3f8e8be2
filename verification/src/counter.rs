//! Counters that answer whether a next element exists, up to a limit.
use vstd::prelude::*;

verus! {

/// What a counter at `count` answers when asked for the next element:
/// whether the incremented count is still within `limit`.
pub open spec fn next_exists(limit: int, count: int) -> bool {
    count + 1 <= limit
}

/// The answers that `k` successive calls of `next` give on a counter with
/// limit `limit` that stands at `count`.
pub open spec fn answers(limit: int, count: int, k: nat) -> Seq<bool>
    decreases k,
{
    if k == 0 {
        Seq::empty()
    } else {
        answers(limit, count, (k - 1) as nat).push(next_exists(limit, count + k - 1))
    }
}

/// How many answers in `s` are "yes".
pub open spec fn count_yes(s: Seq<bool>) -> nat
    decreases s.len(),
{
    if s.len() == 0 {
        0
    } else {
        count_yes(s.drop_last()) + if s.last() {
            1nat
        } else {
            0nat
        }
    }
}

/// The `i`-th of `k` successive answers is whether `count + i + 1` is
/// within the limit.
pub proof fn lemma_answers(limit: int, count: int, k: nat)
    ensures
        answers(limit, count, k).len() == k,
        forall|i: int|
            0 <= i < k ==> #[trigger] answers(limit, count, k)[i] == next_exists(limit, count + i),
    decreases k,
{
    if k > 0 {
        lemma_answers(limit, count, (k - 1) as nat);
    }
}

/// Once a counter answers "no", every later answer is "no" too.
pub proof fn lemma_no_stays_no(limit: int, count: int, k: nat)
    ensures
        forall|i: int, j: int|
            0 <= i <= j < k && !#[trigger] answers(limit, count, k)[i] ==> !#[trigger] answers(
                limit,
                count,
                k,
            )[j],
{
    lemma_answers(limit, count, k);
}

/// A fresh counter with limit `limit` answers "yes" to exactly the first
/// `limit` of its calls of `next`: of `k` calls, `min(k, limit)` say "yes".
pub proof fn lemma_fresh_counter_yes_count(limit: u16, k: nat)
    ensures
        count_yes(answers(limit as int, 0, k)) == if k <= limit {
            k
        } else {
            limit as nat
        },
    decreases k,
{
    if k > 0 {
        lemma_fresh_counter_yes_count(limit, (k - 1) as nat);
        let s = answers(limit as int, 0, k);
        assert(s.drop_last() =~= answers(limit as int, 0, (k - 1) as nat));
    }
}

/// The limit of the counter that `CounterImpl::run_fast` drives.
pub const RUN_FAST_LIMIT: u16 = 20;

/// A counter whose `next` hands out its answer inside a `BoolBoxImpl`.
pub struct CounterImpl {
    limit: u16,
    c: u16,
}

impl CounterImpl {
    /// The limit it was made with.
    pub closed spec fn limit(&self) -> u16 {
        self.limit
    }

    /// How many times `next` was called.
    pub closed spec fn count(&self) -> u16 {
        self.c
    }

    pub fn new(limit: u16) -> (counter: Self)
        ensures
            counter.limit() == limit,
            counter.count() == 0,
    {
        CounterImpl { limit, c: 0 }
    }

    /// Counts one more and answers whether the new count is within the limit.
    pub fn next(&mut self) -> (exist: BoolBoxImpl)
        requires
            old(self).count() < u16::MAX,
        ensures
            final(self).limit() == old(self).limit(),
            final(self).count() == old(self).count() + 1,
            exist@ == next_exists(old(self).limit() as int, old(self).count() as int),
    {
        self.c = self.c + 1;
        let b = self.c <= self.limit;
        BoolBoxImpl::new(b)
    }

    /// How many times `next` was called.
    pub fn get_count(&self) -> (c: u16)
        ensures
            c == self.count(),
    {
        self.c
    }

    /// Drives a fresh counter with limit `RUN_FAST_LIMIT` until it answers
    /// that no next element exists, and gives back, in order, the counts it
    /// reads after each "yes": 1, 2, ..., `RUN_FAST_LIMIT`.
    pub fn run_fast(&self) -> (counts: Vec<u16>)
        ensures
            counts@ == counts_read(0, RUN_FAST_LIMIT),
            counts@.len() == RUN_FAST_LIMIT,
            forall|i: int| 0 <= i < counts@.len() ==> #[trigger] counts@[i] == i + 1,
            counts@.last() == RUN_FAST_LIMIT,
    {
        let mut counter = CounterImpl::new(RUN_FAST_LIMIT);
        count_while_exists(&mut counter)
    }
}

/// The counts that the loop of `count_while_exists` reads from a counter with
/// limit `limit` that stands at `count`: `count + 1` up to `limit`, in order.
pub open spec fn counts_read(count: u16, limit: u16) -> Seq<u16> {
    if count < limit {
        Seq::new((limit - count) as nat, |i: int| (count + i + 1) as u16)
    } else {
        Seq::empty()
    }
}

/// The counts read are, in order, one above the start up to the limit: the
/// `i`-th is `count + i + 1`, and there are `limit - count` of them, or none
/// when the counter starts at or above its limit.
pub proof fn lemma_counts_read(count: u16, limit: u16)
    ensures
        counts_read(count, limit).len() == if count < limit {
            (limit - count) as nat
        } else {
            0
        },
        forall|i: int|
            0 <= i < counts_read(count, limit).len() ==> #[trigger] counts_read(count, limit)[i]
                == count + i + 1,
{
}

/// Calls `next` on `counter` as long as it answers that a next element
/// exists, reading the count after each such answer; gives back the counts
/// read, in order. The answers it sees are "yes" once per count read, then
/// one "no".
pub fn count_while_exists(counter: &mut CounterImpl) -> (reads: Vec<u16>)
    requires
        if old(counter).count() < old(counter).limit() {
            old(counter).limit() < u16::MAX
        } else {
            old(counter).count() < u16::MAX
        },
    ensures
        final(counter).limit() == old(counter).limit(),
        reads@ == counts_read(old(counter).count(), old(counter).limit()),
        reads@.len() == if old(counter).count() < old(counter).limit() {
            (old(counter).limit() - old(counter).count()) as nat
        } else {
            0
        },
        forall|i: int|
            0 <= i < reads@.len() ==> #[trigger] reads@[i] == old(counter).count() + i + 1,
        final(counter).count() == old(counter).count() + reads@.len() + 1,
        answers(old(counter).limit() as int, old(counter).count() as int, reads@.len() + 1)
            == Seq::new(reads@.len(), |i: int| true).push(false),
{
    let ghost c0 = counter.count();
    let ghost limit = counter.limit();
    let mut reads: Vec<u16> = Vec::new();
    loop
        invariant_except_break
            counter.limit() == limit,
            c0 <= counter.count(),
            counter.count() == c0 || counter.count() <= limit,
            reads@ =~= Seq::new((counter.count() - c0) as nat, |i: int| (c0 + i + 1) as u16),
            if counter.count() < limit {
                limit < u16::MAX
            } else {
                counter.count() < u16::MAX
            },
        ensures
            counter.limit() == limit,
            reads@ == counts_read(c0, limit),
            counter.count() == c0 + reads@.len() + 1,
        decreases u16::MAX - counter.count(),
    {
        let exist = counter.next();
        if !exist.get_raw() {
            assert(reads@ =~= counts_read(c0, limit));
            break;
        }
        let c = counter.get_count();
        reads.push(c);
    }
    proof {
        let n = reads@.len();
        lemma_answers(limit as int, c0 as int, n + 1);
        assert(answers(limit as int, c0 as int, n + 1) =~= Seq::new(n, |i: int| true).push(false));
    }
    reads
}

/// A box around one answer of `CounterImpl::next`.
pub struct BoolBoxImpl {
    b: bool,
}

impl View for BoolBoxImpl {
    type V = bool;

    closed spec fn view(&self) -> bool {
        self.b
    }
}

impl BoolBoxImpl {
    pub fn new(b: bool) -> (bool_box: Self)
        ensures
            bool_box@ == b,
    {
        BoolBoxImpl { b }
    }

    /// The answer it holds.
    pub fn get_raw(&self) -> (b: bool)
        ensures
            b == self@,
    {
        self.b
    }
}

/// A counter whose `next` answers with a plain `bool`.
pub struct NaiveCounterImpl {
    limit: u16,
    c: u16,
}

impl NaiveCounterImpl {
    /// The limit it was made with.
    pub closed spec fn limit(&self) -> u16 {
        self.limit
    }

    /// How many times `next` was called.
    pub closed spec fn count(&self) -> u16 {
        self.c
    }

    pub fn new(limit: u16) -> (counter: Self)
        ensures
            counter.limit() == limit,
            counter.count() == 0,
    {
        NaiveCounterImpl { limit, c: 0 }
    }

    /// Counts one more and answers whether the new count is within the limit.
    pub fn next(&mut self) -> (exist: bool)
        requires
            old(self).count() < u16::MAX,
        ensures
            final(self).limit() == old(self).limit(),
            final(self).count() == old(self).count() + 1,
            exist == next_exists(old(self).limit() as int, old(self).count() as int),
    {
        self.c = self.c + 1;
        self.c <= self.limit
    }

    /// How many times `next` was called.
    pub fn get_count(&self) -> (c: u16)
        ensures
            c == self.count(),
    {
        self.c
    }
}

} // verus!
