//! What the lock demonstrations compute: counting under a lock, adding
//! runs of numbers, naming the parts of a demonstration, and a producer and
//! a consumer passing numbers through a shared queue.

use std::collections::VecDeque;
use vstd::prelude::*;

verus! {

/// `v + n`, held at `max` when it would go past it: a saturating addition
/// in a type whose greatest value is `max`.
pub open spec fn sat_add(v: int, n: int, max: int) -> int {
    if v + n > max {
        max
    } else {
        v + n
    }
}

/// The value reached from `v` by saturating additions of `steps`, one
/// after another, in a type whose greatest value is `max`.
pub open spec fn apply_steps(v: int, steps: Seq<int>, max: int) -> int
    decreases steps.len(),
{
    if steps.len() == 0 {
        v
    } else {
        sat_add(apply_steps(v, steps.drop_last(), max), steps.last(), max)
    }
}

/// The sum of `s`.
pub open spec fn seq_sum(s: Seq<int>) -> int
    decreases s.len(),
{
    if s.len() == 0 {
        0
    } else {
        seq_sum(s.drop_last()) + s.last()
    }
}

/// Adds one to a counter held under a lock, saturating at `u16::MAX`.
pub fn lock_increment(guard: &mut u16)
    ensures
        *final(guard) == sat_add(*old(guard) as int, 1, u16::MAX as int),
{
    *guard = guard.saturating_add(1);
}

/// Adds a hundred to a counter held under a lock, saturating at
/// `u16::MAX`.
pub fn lock_add_hundred(guard: &mut u16)
    ensures
        *final(guard) == sat_add(*old(guard) as int, 100, u16::MAX as int),
{
    *guard = guard.saturating_add(100);
}

/// Adds one to a byte counter held under a lock, saturating at `u8::MAX`.
pub fn lock_increment_u8(guard: &mut u8)
    ensures
        *final(guard) == sat_add(*old(guard) as int, 1, u8::MAX as int),
{
    *guard = guard.saturating_add(1);
}

/// Saturating additions of non-negative amounts, in whatever order the
/// threads holding the lock make them, reach the saturating addition of
/// their total: the final count depends on the amounts only, not on the
/// order.
pub proof fn lemma_steps_reach_total(v: int, steps: Seq<int>, max: int)
    requires
        0 <= v <= max,
        forall|i: int| 0 <= i < steps.len() ==> steps[i] >= 0,
    ensures
        apply_steps(v, steps, max) == sat_add(v, seq_sum(steps), max),
        seq_sum(steps) >= 0,
    decreases steps.len(),
{
    if steps.len() > 0 {
        lemma_steps_reach_total(v, steps.drop_last(), max);
    }
}

/// The lock demonstration's counter: whatever order its unit increments
/// and its one addition of a hundred take the lock in, amounts that add up
/// to 200 take a `u16` counter from `v` to `v + 200`, or to `u16::MAX`
/// where that does not fit.
pub proof fn lemma_lock_attempt_total(v: u16, steps: Seq<int>)
    requires
        forall|i: int| 0 <= i < steps.len() ==> steps[i] >= 0,
        seq_sum(steps) == 200,
    ensures
        apply_steps(v as int, steps, u16::MAX as int) == if v as int + 200 > u16::MAX as int {
            u16::MAX as int
        } else {
            v as int + 200
        },
{
    lemma_steps_reach_total(v as int, steps, u16::MAX as int);
}

/// When only some of `n` unit increments get the lock (a `try_lock` may
/// fail), the count ends between where it started and where all `n` would
/// have taken it.
pub proof fn lemma_partial_increments_bounded(v: int, k: int, n: int, max: int)
    requires
        0 <= v <= max,
        0 <= k <= n,
    ensures
        v <= sat_add(v, k, max) <= sat_add(v, n, max),
{
}

/// `1 + 2 + ... + n`.
pub open spec fn triangle(n: nat) -> nat
    decreases n,
{
    if n == 0 {
        0
    } else {
        n + triangle((n - 1) as nat)
    }
}

/// The sum `1 + 2 + ... + n` grows with `n`.
pub proof fn lemma_triangle_monotonic(i: nat, j: nat)
    requires
        i <= j,
    ensures
        triangle(i) <= triangle(j),
    decreases j,
{
    if i < j {
        lemma_triangle_monotonic(i, (j - 1) as nat);
    }
}

/// The sum `1 + 2 + ... + n` is `n * (n + 1) / 2`.
pub proof fn lemma_triangle_closed_form(n: nat)
    ensures
        2 * triangle(n) == n * (n + 1),
    decreases n,
{
    if n > 0 {
        lemma_triangle_closed_form((n - 1) as nat);
        assert(2 * triangle(n) == 2 * n + (n - 1) * n);
        assert((n - 1) * n + 2 * n == n * (n + 1)) by (nonlinear_arith);
    } else {
        assert(n * (n + 1) == 0) by (nonlinear_arith)
            requires
                n == 0,
        ;
    }
}

/// Adds `1 + 2 + ... + n` to a counter held under a lock, one number at a
/// time. The total must fit the counter.
pub fn add_range(guard: &mut u64, n: u64)
    requires
        *old(guard) + triangle(n as nat) <= u64::MAX,
    ensures
        *final(guard) == *old(guard) + triangle(n as nat),
{
    let ghost start = *guard;
    let mut x: u64 = 0;
    while x < n
        invariant
            x <= n,
            start + triangle(n as nat) <= u64::MAX,
            *guard == start + triangle(x as nat),
        decreases n - x,
    {
        x = x + 1;
        proof {
            lemma_triangle_monotonic(x as nat, n as nat);
        }
        *guard = *guard + x;
    }
}

/// Adds one to a counter held under a lock, `times` times over. The total
/// must fit the counter.
pub fn add_ones(guard: &mut u64, times: u64)
    requires
        *old(guard) + times <= u64::MAX,
    ensures
        *final(guard) == *old(guard) + times,
{
    let ghost start = *guard;
    let mut i: u64 = 0;
    while i < times
        invariant
            i <= times,
            start + times <= u64::MAX,
            *guard == start + i,
        decreases times - i,
    {
        *guard = *guard + 1;
        i = i + 1;
    }
}

/// A part of the lock demonstration that can be asked for by name.
#[derive(Debug, Clone, Copy, PartialEq, Eq, Structural)]
pub enum Section {
    /// How a locked and an unlocked mutex look when printed.
    Display,
    /// Moving counted references into threads.
    Move,
    /// Threads adding to one counter under a lock.
    Loop,
}

/// Whether two texts are the same.
fn same_text(a: &str, b: &str) -> (r: bool)
    ensures
        r == (a@ == b@),
{
    let n = a.unicode_len();
    if n != b.unicode_len() {
        return false;
    }
    let mut i: usize = 0;
    while i < n
        invariant
            n == a@.len(),
            n == b@.len(),
            i <= n,
            forall|j: int| 0 <= j < i ==> a@[j] == b@[j],
        decreases n - i,
    {
        if a.get_char(i) != b.get_char(i) {
            return false;
        }
        i = i + 1;
    }
    assert(a@ == b@);
    true
}

/// The part named `name`: `"display"`, `"move"` or `"loop"`; any other
/// name names no part.
pub fn section_of(name: &str) -> (r: Option<Section>)
    ensures
        r == (if name@ == "display"@ {
            Some(Section::Display)
        } else if name@ == "move"@ {
            Some(Section::Move)
        } else if name@ == "loop"@ {
            Some(Section::Loop)
        } else {
            None
        }),
{
    if same_text(name, "display") {
        Some(Section::Display)
    } else if same_text(name, "move") {
        Some(Section::Move)
    } else if same_text(name, "loop") {
        Some(Section::Loop)
    } else {
        None
    }
}

/// What the consuming thread does with what it takes from the queue.
#[derive(Debug, Clone, Copy, PartialEq, Eq, Structural)]
pub enum ConsumerStep {
    /// A number came: record it.
    Record(u8),
    /// The end marker came: stop.
    Stop,
    /// The queue was empty: park until the producer wakes the thread.
    Park,
}

/// The consumer's decision on what it took from the back of the queue:
/// a number is recorded, the end marker stops it, an empty queue parks it.
pub fn consumer_step(value: Option<Option<u8>>) -> (r: ConsumerStep)
    ensures
        value matches Some(Some(v)) ==> r == ConsumerStep::Record(v),
        value matches Some(None) ==> r == ConsumerStep::Stop,
        value is None ==> r == ConsumerStep::Park,
{
    match value {
        Some(Some(val)) => ConsumerStep::Record(val),
        Some(None) => ConsumerStep::Stop,
        None => ConsumerStep::Park,
    }
}

/// One turn of the consuming thread on the queue and its record: it takes
/// from the back of the queue; a number is recorded at the front of the
/// record, the end marker stops it, and an empty queue parks it with both
/// left as they were. Gives the queue, the record and the decision after.
pub open spec fn consume_step(queue: Seq<Option<u8>>, recorded: Seq<Option<u8>>) -> (
    Seq<Option<u8>>,
    Seq<Option<u8>>,
    ConsumerStep,
) {
    if queue.len() == 0 {
        (queue, recorded, ConsumerStep::Park)
    } else {
        match queue.last() {
            Some(v) => (queue.drop_last(), seq![Some(v)] + recorded, ConsumerStep::Record(v)),
            None => (queue.drop_last(), recorded, ConsumerStep::Stop),
        }
    }
}

/// One turn of the consuming thread: see [`consume_step`].
pub fn consume(queue: &mut VecDeque<Option<u8>>, recorded: &mut VecDeque<Option<u8>>) -> (r:
    ConsumerStep)
    ensures
        (final(queue)@, final(recorded)@, r) == consume_step(old(queue)@, old(recorded)@),
        old(queue)@.len() == 0 ==> r == ConsumerStep::Park && final(queue)@ == old(queue)@
            && final(recorded)@ == old(recorded)@,
        forall|v: u8|
            old(queue)@.len() > 0 && old(queue)@.last() == Some(v) ==> r == ConsumerStep::Record(v)
                && final(queue)@ == old(queue)@.drop_last() && final(recorded)@ == seq![Some(v)]
                + old(recorded)@,
        r == ConsumerStep::Stop <==> old(queue)@.len() > 0 && old(queue)@.last() is None,
        r == ConsumerStep::Stop ==> final(queue)@ == old(queue)@.drop_last() && final(recorded)@
            == old(recorded)@,
{
    let value = queue.pop_back();
    let step = consumer_step(value);
    if let ConsumerStep::Record(v) = step {
        recorded.push_front(Some(v));
    }
    step
}

/// Every number the consumer takes is recorded, 0 included, and nothing
/// is lost: a turn on a queue whose back holds the number `v` gives
/// `Record(v)`, removes that entry and puts `Some(v)` at the front of the
/// record, keeping the rest of both in place; a turn stops only on the end
/// marker and parks only on an empty queue.
pub proof fn lemma_consume_step_records_every_number(
    queue: Seq<Option<u8>>,
    recorded: Seq<Option<u8>>,
    v: u8,
)
    ensures
        queue.len() > 0 && queue.last() == Some(v) ==> consume_step(queue, recorded) == (
            queue.drop_last(),
            seq![Some(v)] + recorded,
            ConsumerStep::Record(v),
        ),
        consume_step(queue, recorded).2 == ConsumerStep::Stop <==> queue.len() > 0
            && queue.last() is None,
        consume_step(queue, recorded).2 == ConsumerStep::Park <==> queue.len() == 0,
        consume_step(queue, recorded).1.len() + consume_step(queue, recorded).0.len()
            == recorded.len() + queue.len() - if consume_step(queue, recorded).2
            == ConsumerStep::Stop {
            1int
        } else {
            0int
        },
{
}

/// The queue while the producer has pushed `1, ..., k` to its front and the
/// consumer has taken `1, ..., j` from its back: the numbers from `k` down
/// to `j + 1`.
pub open spec fn in_flight(k: nat, j: nat) -> Seq<Option<u8>> {
    Seq::new((k - j) as nat, |i: int| Some((k - i) as u8))
}

/// The queue hands the numbers over in order, however the producer's
/// pushes and the consumer's turns interleave. Say the producer has pushed
/// `1, ..., k` and the consumer has recorded `1, ..., j` (the record reads
/// `j` down to 1) and the queue holds `k` down to `j + 1`, perhaps behind
/// the end marker. Then the producer's next push and the consumer's next
/// turn each lead to a state of the same form: a turn records `j + 1` when
/// one is waiting, parks on an empty queue, and stops on the end marker
/// only once every number has been recorded.
pub proof fn lemma_queue_keeps_order(k: nat, j: nat)
    requires
        j <= k <= u8::MAX,
    ensures
        k < u8::MAX ==> seq![Some((k + 1) as u8)] + in_flight(k, j) == in_flight(k + 1, j),
        consume_step(in_flight(k, j), pushed(j)) == if j < k {
            (in_flight(k, j + 1), pushed(j + 1), ConsumerStep::Record((j + 1) as u8))
        } else {
            (in_flight(k, j), pushed(j), ConsumerStep::Park)
        },
        consume_step(seq![None] + in_flight(k, j), pushed(j)) == if j < k {
            (seq![None] + in_flight(k, j + 1), pushed(j + 1), ConsumerStep::Record((j + 1) as u8))
        } else {
            (Seq::<Option<u8>>::empty(), pushed(k), ConsumerStep::Stop)
        },
{
    if k < u8::MAX {
        assert(seq![Some((k + 1) as u8)] + in_flight(k, j) =~= in_flight(k + 1, j));
    }
    if j < k {
        let q = in_flight(k, j);
        assert(q.last() == Some((j + 1) as u8));
        assert(q.drop_last() =~= in_flight(k, j + 1));
        assert(seq![Some((j + 1) as u8)] + pushed(j) =~= pushed(j + 1));
        let q2 = seq![None] + q;
        assert(q2.last() == q.last());
        assert(q2.drop_last() =~= seq![None] + in_flight(k, j + 1));
    } else {
        assert(in_flight(k, j) =~= Seq::<Option<u8>>::empty());
        assert((seq![None] + in_flight(k, j)).drop_last() =~= Seq::<Option<u8>>::empty());
    }
}

/// The numbers the consumer recorded, in the order it holds them. Every
/// entry must hold a number.
pub fn collect_recorded(v: &VecDeque<Option<u8>>) -> (r: Vec<u8>)
    requires
        forall|i: int| 0 <= i < v@.len() ==> v@[i] is Some,
    ensures
        r@.len() == v@.len(),
        forall|i: int| 0 <= i < v@.len() ==> v@[i] == Some(r@[i]),
{
    let mut r: Vec<u8> = Vec::new();
    let n = v.len();
    let mut i: usize = 0;
    while i < n
        invariant
            n == v@.len(),
            i <= n,
            forall|j: int| 0 <= j < v@.len() ==> v@[j] is Some,
            r@.len() == i,
            forall|j: int| 0 <= j < i ==> v@[j] == Some(r@[j]),
        decreases n - i,
    {
        match v[i] {
            Some(x) => r.push(x),
            None => r.push(0),
        }
        i = i + 1;
    }
    r
}

/// `n, n - 1, ..., 1`.
pub open spec fn descending(n: nat) -> Seq<u8> {
    Seq::new(n, |i: int| (n - i) as u8)
}

/// The queue after the producer pushed `1, ..., k` to its front: the
/// numbers from `k` down to 1.
pub open spec fn pushed(k: nat) -> Seq<Option<u8>> {
    Seq::new(k, |i: int| Some((k - i) as u8))
}

/// The numbers `1, ..., val` passed through a queue: the producer pushes
/// each to the front, then an end marker; the consumer takes from the back
/// and records each number at the front of its own list until the end
/// marker comes. It records them from `val` down to 1 (and nothing for 0).
pub fn drain_in_order(val: u8) -> (r: Option<Vec<u8>>)
    ensures
        r matches Some(v) && v@ == descending(val as nat),
{
    if val == 0 {
        return Some(Vec::new());
    }
    let mut queue: VecDeque<Option<u8>> = VecDeque::new();
    let mut x: u8 = 0;
    while x < val
        invariant
            x <= val,
            queue@ == pushed(x as nat),
        decreases val - x,
    {
        x = x + 1;
        queue.push_front(Some(x));
        assert(queue@ == pushed(x as nat));
    }
    queue.push_front(None);
    let mut recorded: VecDeque<Option<u8>> = VecDeque::new();
    let mut k: u8 = 0;
    loop
        invariant_except_break
            k <= val,
            queue@ == seq![None] + pushed(val as nat).subrange(0, val - k),
            recorded@ == pushed(k as nat),
        ensures
            k == val,
            recorded@ == pushed(val as nat),
        decreases val - k,
    {
        match consume(&mut queue, &mut recorded) {
            ConsumerStep::Record(v) => {
                assert(v == k + 1);
                k = k + 1;
                assert(recorded@ == pushed(k as nat));
                assert(queue@ == seq![None] + pushed(val as nat).subrange(0, val - k));
            },
            ConsumerStep::Stop => {
                break ;
            },
            ConsumerStep::Park => {
                break ;
            },
        }
    }
    let numbers = collect_recorded(&recorded);
    assert forall|i: int| 0 <= i < val implies numbers@[i] == descending(val as nat)[i] by {
        assert(recorded@[i] == Some(numbers@[i]));
    }
    assert(numbers@ == descending(val as nat));
    Some(numbers)
}

/// The sum of the numbers of `s`.
pub open spec fn byte_sum(s: Seq<u8>) -> int
    decreases s.len(),
{
    if s.len() == 0 {
        0
    } else {
        s[0] + byte_sum(s.drop_first())
    }
}

/// The numbers recorded by the consumer add up to `1 + 2 + ... + n`: every
/// number the producer sent arrives exactly once.
pub proof fn lemma_drained_sum(n: nat)
    requires
        n <= u8::MAX,
    ensures
        byte_sum(descending(n)) == triangle(n),
    decreases n,
{
    if n > 0 {
        assert(descending(n).drop_first() == descending((n - 1) as nat));
        lemma_drained_sum((n - 1) as nat);
    }
}

} // verus!
