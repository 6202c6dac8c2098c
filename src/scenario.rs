use vstd::prelude::*;
use crate::check::{assert_equal, assert_equal_list, assert_true, false_message, fails_with, unequal_message};
use crate::failure::{Failure, FailureKind};
use crate::text::{decimal, decimal_spec};

verus! {

/// Worker threads that a scenario spawns.
pub const THREAD_COUNT: u64 = 10;

/// Rounds that each worker of the counter scenarios performs.
pub const ITER_COUNT: u64 = 20;

/// What a worker adds to its index before storing it in its thread-local slot.
pub const LOCAL_OFFSET: u64 = 20;

/// The value of a thread-local slot in a thread that never wrote it.
pub const LOCAL_DEFAULT: u64 = 0;

// ---------------------------------------------------------------- counters

/// Checks the final value of a counter that `threads` workers each
/// incremented `iters` times under a lock: it must be their product.
pub fn counter_verdict(count: u64, threads: u64, iters: u64) -> (r: Result<(), Failure>)
    requires
        threads * iters <= u64::MAX,
    ensures
        r is Ok <==> count == threads * iters,
        count != threads * iters ==> fails_with(
            r,
            unequal_message(
                "counter == threads * iterations"@,
                decimal_spec(count as nat),
                decimal_spec((threads * iters) as nat),
            ),
        ),
{
    proof { reveal_strlit("counter == threads * iterations"); }
    assert_equal(count, threads * iters, "counter == threads * iterations")
}

/// The number of increments by worker `t` in a serialized schedule of
/// critical sections, each named by the worker that ran it.
pub open spec fn occurrences(schedule: Seq<nat>, t: nat) -> nat
    decreases schedule.len(),
{
    if schedule.len() == 0 {
        0
    } else {
        occurrences(schedule.drop_last(), t) + if schedule.last() == t { 1nat } else { 0nat }
    }
}

/// The counter after the critical sections of `schedule` each added one to it,
/// starting from `start`.
pub open spec fn counter_after(start: int, schedule: Seq<nat>) -> int
    decreases schedule.len(),
{
    if schedule.len() == 0 {
        start
    } else {
        counter_after(start, schedule.drop_last()) + 1
    }
}

/// The increments of workers `0..k` taken together.
pub open spec fn tally(schedule: Seq<nat>, k: nat) -> nat
    decreases k,
{
    if k == 0 {
        0
    } else {
        tally(schedule, (k - 1) as nat) + occurrences(schedule, (k - 1) as nat)
    }
}

proof fn lemma_tally_empty(k: nat)
    ensures
        tally(Seq::<nat>::empty(), k) == 0,
    decreases k,
{
    if k > 0 {
        lemma_tally_empty((k - 1) as nat);
    }
}

proof fn lemma_tally_push(s: Seq<nat>, x: nat, k: nat)
    ensures
        tally(s.push(x), k) == tally(s, k) + if x < k { 1nat } else { 0nat },
    decreases k,
{
    assert(s.push(x).drop_last() =~= s);
    if k > 0 {
        lemma_tally_push(s, x, (k - 1) as nat);
    }
}

proof fn lemma_tally_len(s: Seq<nat>, k: nat)
    requires
        forall|i: int| 0 <= i < s.len() ==> s[i] < k,
    ensures
        tally(s, k) == s.len(),
        counter_after(0, s) == s.len(),
    decreases s.len(),
{
    if s.len() == 0 {
        lemma_tally_empty(k);
        assert(s =~= Seq::<nat>::empty());
    } else {
        let init = s.drop_last();
        lemma_tally_len(init, k);
        lemma_tally_push(init, s.last(), k);
        assert(init.push(s.last()) =~= s);
    }
}

proof fn lemma_tally_uniform(s: Seq<nat>, k: nat, m: nat)
    requires
        forall|t: nat| t < k ==> occurrences(s, t) == m,
    ensures
        tally(s, k) == k * m,
    decreases k,
{
    if k > 0 {
        let j = (k - 1) as nat;
        lemma_tally_uniform(s, j, m);
        assert(occurrences(s, j) == m);
        assert(tally(s, k) == tally(s, j) + occurrences(s, j));
        assert(j * m + m == k * m) by (nonlinear_arith)
            requires j + 1 == k;
    } else {
        assert(k * m == 0) by (nonlinear_arith)
            requires k == 0;
    }
}

/// No update is lost: when `threads` workers each run `iters` critical
/// sections that add one to a counter, in any interleaving, the counter ends
/// at `threads * iters`.
pub proof fn lemma_no_lost_updates(schedule: Seq<nat>, threads: nat, iters: nat)
    requires
        forall|i: int| 0 <= i < schedule.len() ==> schedule[i] < threads,
        forall|t: nat| t < threads ==> occurrences(schedule, t) == iters,
    ensures
        counter_after(0, schedule) == threads * iters,
{
    lemma_tally_len(schedule, threads);
    lemma_tally_uniform(schedule, threads, iters);
}

// ---------------------------------------------------------------- scheduling

/// The message of a worker that began a round with the counter below the
/// round's band `low..high`.
pub open spec fn band_message(thread: nat, round: nat, observed: nat, low: nat, high: nat) -> Seq<
    char,
> {
    "Thread "@ + decimal_spec(thread) + ", loop iteration "@ + decimal_spec(round)
        + ": value "@ + decimal_spec(observed) + " not in expected range "@ + decimal_spec(low)
        + ".."@ + decimal_spec(high)
}

/// One round of the scheduling scenario, taken while the worker holds the lock:
/// worker `thread` begins round `round` and sees the shared counter at
/// `observed`. No worker may run a full round ahead of the others, so the
/// counter must already be at least `round * threads`; then the round adds one.
/// Only falling behind the band is refused: a counter above the band passes.
pub fn schedule_step(thread: u64, round: u64, observed: u64, threads: u64) -> (r: Result<u64, Failure>)
    requires
        round < u64::MAX,
        (round + 1) * threads <= u64::MAX,
        observed < u64::MAX,
    ensures
        r is Ok <==> observed >= round * threads,
        r is Ok ==> r->Ok_0 == observed + 1,
        r is Err ==> r->Err_0.kind == FailureKind::Assertion && r->Err_0.message@ == band_message(
            thread as nat,
            round as nat,
            observed as nat,
            (round * threads) as nat,
            ((round + 1) * threads) as nat,
        ),
{
    assert(round * threads <= (round + 1) * threads) by (nonlinear_arith);
    let low = round * threads;
    if observed >= low {
        return Ok(observed + 1);
    }
    let high = (round + 1) * threads;
    proof {
        reveal_strlit("Thread ");
        reveal_strlit(", loop iteration ");
        reveal_strlit(": value ");
        reveal_strlit(" not in expected range ");
        reveal_strlit("..");
    }
    let mut message = String::from_str("Thread ");
    message.append(decimal(thread).as_str());
    message.append(", loop iteration ");
    message.append(decimal(round).as_str());
    message.append(": value ");
    message.append(decimal(observed).as_str());
    message.append(" not in expected range ");
    message.append(decimal(low).as_str());
    message.append("..");
    message.append(decimal(high).as_str());
    Err(Failure { kind: FailureKind::Assertion, message })
}

// ---------------------------------------------------------------- channel

/// The sequence `0, 1, ..., n - 1`.
pub open spec fn ascending_spec(n: nat) -> Seq<u64> {
    Seq::new(n, |i: int| i as u64)
}

/// The integers `0..n` in ascending order: what the producer sends.
pub fn ascending(n: u64) -> (r: Vec<u64>)
    ensures
        r@ == ascending_spec(n as nat),
{
    let mut out: Vec<u64> = Vec::new();
    let mut i: u64 = 0;
    while i < n
        invariant
            i <= n,
            out@ == ascending_spec(i as nat),
        decreases n - i,
    {
        out.push(i);
        i = i + 1;
        assert(out@ =~= ascending_spec(i as nat));
    }
    out
}

/// Checks what the consumer received against what the producer sent: the
/// same values, in the order they were sent.
pub fn channel_verdict(received: &Vec<u64>, sent: &Vec<u64>) -> (r: Result<(), Failure>)
    ensures
        r is Ok <==> received@ == sent@,
        r is Ok ==> forall|i: int| 0 <= i < sent@.len() ==> received@[i] == sent@[i],
        received@ != sent@ ==> fails_with(
            r,
            unequal_message(
                "received == expected"@,
                crate::text::list_spec(received@),
                crate::text::list_spec(sent@),
            ),
        ),
{
    proof { reveal_strlit("received == expected"); }
    assert_equal_list(received, sent, "received == expected")
}

// ---------------------------------------------------------------- barrier

/// The message of worker `index` that left the barrier when only `arrived`
/// of `parties` workers had reached it.
pub open spec fn early_release_message(index: nat, arrived: nat, parties: nat) -> Seq<char> {
    "Thread "@ + decimal_spec(index) + " released after "@ + decimal_spec(arrived) + " of "@
        + decimal_spec(parties) + " arrivals"@
}

/// Checks a barrier of `parties` workers. Each worker counts its arrival
/// before it waits and, once released, reads how many have arrived;
/// `seen[i]` is what worker `i` read. Every worker must have been released,
/// and none before all had arrived. The failure names the first worker that
/// was released early.
pub fn barrier_verdict(seen: &Vec<u64>, parties: u64) -> (r: Result<(), Failure>)
    ensures
        r is Ok <==> seen@.len() == parties && forall|i: int| 0 <= i < seen@.len() ==> seen@[i]
            >= parties,
        seen@.len() != parties ==> fails_with(
            r,
            unequal_message(
                "released == parties"@,
                decimal_spec(seen@.len()),
                decimal_spec(parties as nat),
            ),
        ),
        r is Err && seen@.len() == parties ==> exists|i: int|
            0 <= i < seen@.len() && seen@[i] < parties && (forall|k: int|
                0 <= k < i ==> seen@[k] >= parties) && fails_with(
                r,
                early_release_message(i as nat, seen@[i] as nat, parties as nat),
            ),
{
    proof { reveal_strlit("released == parties"); }
    let released = seen.len() as u64;
    let counted = assert_equal(released, parties, "released == parties");
    if counted.is_err() {
        return counted;
    }
    let mut i: usize = 0;
    while i < seen.len()
        invariant
            i <= seen@.len(),
            seen@.len() == parties,
            forall|k: int| 0 <= k < i ==> seen@[k] >= parties,
        decreases seen.len() - i,
    {
        if seen[i] < parties {
            proof {
                reveal_strlit("Thread ");
                reveal_strlit(" released after ");
                reveal_strlit(" of ");
                reveal_strlit(" arrivals");
            }
            let mut message = String::from_str("Thread ");
            message.append(decimal(i as u64).as_str());
            message.append(" released after ");
            message.append(decimal(seen[i]).as_str());
            message.append(" of ");
            message.append(decimal(parties).as_str());
            message.append(" arrivals");
            let r = Err(Failure { kind: FailureKind::Assertion, message });
            assert(fails_with(r, early_release_message(i as nat, seen@[i as int] as nat, parties as nat)));
            return r;
        }
        i = i + 1;
    }
    Ok(())
}

// ---------------------------------------------------------------- thread-local storage

/// The value that worker `index` stores in its own thread-local slot.
pub open spec fn slot_value_spec(index: nat) -> nat {
    index + LOCAL_OFFSET as nat
}

/// The value that worker `index` stores in its own thread-local slot.
pub fn slot_value(index: u64) -> (r: u64)
    requires
        index + LOCAL_OFFSET <= u64::MAX,
    ensures
        r == slot_value_spec(index as nat),
{
    index + LOCAL_OFFSET
}

/// Checks what worker `index` read back from its slot after sleeping: the
/// value it stored itself, which no other worker stores and which is not the
/// untouched default.
pub fn local_verdict(index: u64, read_back: u64) -> (r: Result<(), Failure>)
    requires
        index + LOCAL_OFFSET <= u64::MAX,
    ensures
        r is Ok <==> read_back == slot_value_spec(index as nat),
        r is Ok ==> read_back != LOCAL_DEFAULT,
        r is Ok ==> forall|other: nat| other != index ==> read_back != slot_value_spec(other),
        r is Err ==> fails_with(
            r,
            unequal_message(
                "slot == index + offset"@,
                decimal_spec(read_back as nat),
                decimal_spec(slot_value_spec(index as nat)),
            ),
        ),
{
    proof { reveal_strlit("slot == index + offset"); }
    assert_equal(read_back, slot_value(index), "slot == index + offset")
}

/// Checks the slot as the main thread, which never wrote it, reads it: it
/// holds the default.
pub fn local_default_verdict(read_back: u64) -> (r: Result<(), Failure>)
    ensures
        r is Ok <==> read_back == LOCAL_DEFAULT,
        r is Err ==> fails_with(
            r,
            unequal_message(
                "slot == default"@,
                decimal_spec(read_back as nat),
                decimal_spec(LOCAL_DEFAULT as nat),
            ),
        ),
{
    proof { reveal_strlit("slot == default"); }
    assert_equal(read_back, LOCAL_DEFAULT, "slot == default")
}

/// Slots never leak: the values that two different workers store differ, and
/// none of them is the default that a thread which never wrote its slot reads.
pub proof fn lemma_slot_values_distinct(i: nat, j: nat)
    ensures
        i != j ==> slot_value_spec(i) != slot_value_spec(j),
        slot_value_spec(i) != LOCAL_DEFAULT,
{
}

// ---------------------------------------------------------------- sleeping

/// Checks a sleep of `nominal_ms` that took `elapsed_ms`: at least the nominal
/// time, and less than twice it.
pub fn sleep_verdict(elapsed_ms: u64, nominal_ms: u64) -> (r: Result<(), Failure>)
    requires
        2 * nominal_ms <= u64::MAX,
    ensures
        r is Ok <==> nominal_ms <= elapsed_ms < 2 * nominal_ms,
        elapsed_ms < nominal_ms ==> fails_with(r, false_message("elapsed >= nominal"@)),
        nominal_ms <= elapsed_ms && elapsed_ms >= 2 * nominal_ms ==> fails_with(
            r,
            false_message("elapsed < 2 * nominal"@),
        ),
{
    proof { reveal_strlit("elapsed >= nominal"); reveal_strlit("elapsed < 2 * nominal"); }
    let long_enough = assert_true(elapsed_ms >= nominal_ms, "elapsed >= nominal");
    if long_enough.is_err() {
        return long_enough;
    }
    assert_true(elapsed_ms < 2 * nominal_ms, "elapsed < 2 * nominal")
}

} // verus!
