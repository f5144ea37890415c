//! The generator state and the maintenance task, as an explicit state
//! machine.
//!
//! One `Generator` value exists per process. Its `count` field holds the
//! number of sequence draws in the current millisecond bucket, or -1 when
//! the maintenance task is not running. A request draws the next sequence
//! number; the request that observes -1 performs the cold start: it seeds
//! the bucket with a fresh clock sample and reports that a maintenance
//! task must be started. The maintenance task calls `tick` once per tick
//! interval to advance the bucket as real time passes and to retire
//! itself, setting `count` back to -1, after enough ticks without
//! activity.
//!
//! Each step of the protocol is one atomic transition, recorded by the
//! `spec_request` and `spec_tick` relations that the methods' contracts
//! promise; the shell that runs requests concurrently realizes the
//! transitions with its own synchronization.

use vstd::prelude::*;
use crate::codec::spec_construct_id;
use crate::codec::construct_id;
use crate::codec::lemma_same_bucket_distinct;
use crate::codec::lemma_later_bucket_greater;
use crate::codec::spec_sequence_field;
use crate::codec::MILLIS_LIMIT;
use crate::codec::SEQUENCE_MASK;

verus! {

/// Ticks without observed activity after which the maintenance task
/// retires itself.
pub const INACTIVITY_TICKS: u32 = 1000;

/// The process-wide generator state.
pub struct Generator {
    /// Sequence draws in the current bucket; -1 means the maintenance
    /// task is not running.
    pub count: i32,
    /// The 41-bit millisecond bucket assigned to identifiers being issued.
    pub millis: u64,
}

/// The maintenance task's private state.
pub struct Maintenance {
    /// Ticks seen in a row with no bucket change and no activity.
    pub inactivity: u32,
}

/// One request transition: from `pre`, a call that drew a sequence number
/// moved the generator to `post` and returned `id`, and `started` says
/// whether that call was the cold start that must launch a maintenance
/// task.
pub open spec fn spec_request(
    pre: Generator,
    post: Generator,
    machine_id: u16,
    now: u64,
    id: u64,
    started: bool,
) -> bool {
    &&& started == !pre.running()
    &&& if !pre.running() {
        &&& post.count == 1
        &&& post.millis == now
        &&& id == spec_construct_id(now, machine_id, 0)
    } else {
        &&& post.count == pre.count + 1
        &&& post.millis == pre.millis
        &&& id == spec_construct_id(pre.millis, machine_id, pre.count as u16)
    }
}

/// One maintenance tick transition: from `pre_g` and task state `pre_m`,
/// a tick with clock sample `now` moved them to `post_g` and `post_m`,
/// and `exit` says whether the task retired.
pub open spec fn spec_tick(
    pre_g: Generator,
    post_g: Generator,
    pre_m: Maintenance,
    post_m: Maintenance,
    now: u64,
    exit: bool,
) -> bool {
    &&& pre_g.running()
    &&& if now > pre_g.millis {
        &&& post_g.count == 0
        &&& post_g.millis == now
        &&& post_m == pre_m
        &&& !exit
    } else if pre_g.count > 0 {
        &&& post_g == pre_g
        &&& post_m.inactivity == 0
        &&& !exit
    } else {
        &&& post_m.inactivity == pre_m.inactivity + 1
        &&& post_g.millis == pre_g.millis
        &&& if pre_m.inactivity + 1 >= INACTIVITY_TICKS {
            &&& exit
            &&& post_g.count == -1
        } else {
            &&& !exit
            &&& post_g.count == pre_g.count
        }
    }
}

impl Generator {
    /// The state is well formed: the counter never goes below -1 and the
    /// bucket fits the 41-bit timestamp field.
    pub open spec fn inv(self) -> bool {
        &&& self.count >= -1
        &&& self.millis < MILLIS_LIMIT
    }

    /// The maintenance task is running exactly while the counter is
    /// nonnegative.
    pub open spec fn running(self) -> bool {
        self.count >= 0
    }

    /// A fresh generator: no task running, nothing issued yet.
    pub fn new() -> (g: Generator)
        ensures
            g.inv(),
            !g.running(),
            g.count == -1,
            g.millis == 0,
    {
        Generator { count: -1, millis: 0 }
    }

    /// Draws the next identifier. `now` is a fresh clock sample, read
    /// only when the call turns out to be the cold start; the second
    /// component of the result says whether the caller must start a
    /// maintenance task. The sequence number wraps at the 12-bit field
    /// boundary, a documented limitation rather than an error.
    pub fn next_id(&mut self, machine_id: u16, now: u64) -> (r: (u64, bool))
        requires
            old(self).inv(),
            old(self).count < 0x7FFF_FFFF,
            now < MILLIS_LIMIT,
        ensures
            final(self).inv(),
            final(self).running(),
            spec_request(*old(self), *final(self), machine_id, now, r.0, r.1),
    {
        if self.count == -1 {
            self.count = 1;
            self.millis = now;
            let id: u64 = construct_id(now, machine_id, 0);
            (id, true)
        } else {
            let sequence: u16 = #[verifier::truncate] (self.count as u16);
            let id: u64 = construct_id(self.millis, machine_id, sequence);
            self.count = self.count + 1;
            (id, false)
        }
    }
}

impl Maintenance {
    /// The task state is well formed: retirement fires as soon as the
    /// inactivity count reaches the threshold, so it never exceeds it.
    pub open spec fn inv(self) -> bool {
        self.inactivity < INACTIVITY_TICKS
    }

    /// The state of a freshly started maintenance task.
    pub fn new() -> (m: Maintenance)
        ensures
            m.inv(),
            m.inactivity == 0,
    {
        Maintenance { inactivity: 0 }
    }

    /// One tick of the maintenance task. If real time has passed the
    /// current bucket, the bucket advances and the counter resets to 0;
    /// otherwise a drawn sequence number counts as activity, and enough
    /// consecutive ticks without either retire the task, handing `count`
    /// back to -1 so that the next request cold-starts.
    pub fn tick(&mut self, gen: &mut Generator, now: u64) -> (exit: bool)
        requires
            old(gen).inv(),
            old(gen).running(),
            old(self).inv(),
            now < MILLIS_LIMIT,
        ensures
            final(gen).inv(),
            spec_tick(*old(gen), *final(gen), *old(self), *final(self), now, exit),
            !exit ==> final(gen).running() && final(self).inv(),
            exit ==> !final(gen).running(),
    {
        if now > gen.millis {
            gen.millis = now;
            gen.count = 0;
            false
        } else if gen.count > 0 {
            self.inactivity = 0;
            false
        } else {
            self.inactivity = self.inactivity + 1;
            if self.inactivity >= INACTIVITY_TICKS {
                gen.count = -1;
                true
            } else {
                false
            }
        }
    }
}

/// How many maintenance tasks exist beside a generator state: exactly one
/// while the counter is nonnegative, none once it reads -1.
pub open spec fn spec_lifecycle(g: Generator, tasks: int) -> bool {
    tasks == if g.running() { 1int } else { 0int }
}

/// A request preserves the task accounting: it starts a task exactly when
/// none was running, so at most one ever exists.
pub proof fn lemma_request_lifecycle(
    pre: Generator,
    post: Generator,
    machine_id: u16,
    now: u64,
    id: u64,
    started: bool,
    tasks: int,
)
    requires
        spec_lifecycle(pre, tasks),
        spec_request(pre, post, machine_id, now, id, started),
    ensures
        spec_lifecycle(post, tasks + if started { 1int } else { 0int }),
        started ==> tasks == 0,
{
}

/// A tick preserves the task accounting: only the one running task can
/// tick, and it is gone exactly when it retires.
pub proof fn lemma_tick_lifecycle(
    pre_g: Generator,
    post_g: Generator,
    pre_m: Maintenance,
    post_m: Maintenance,
    now: u64,
    exit: bool,
    tasks: int,
)
    requires
        spec_lifecycle(pre_g, tasks),
        spec_tick(pre_g, post_g, pre_m, post_m, now, exit),
    ensures
        tasks == 1,
        spec_lifecycle(post_g, tasks - if exit { 1int } else { 0int }),
{
}

/// After a retirement, no tick happens until a request: a retired
/// generator admits no tick transition at all.
pub proof fn lemma_no_tick_when_retired(
    pre_g: Generator,
    post_g: Generator,
    pre_m: Maintenance,
    post_m: Maintenance,
    now: u64,
    exit: bool,
)
    requires
        !pre_g.running(),
    ensures
        !spec_tick(pre_g, post_g, pre_m, post_m, now, exit),
{
}

/// The request that observes the retired counter is the cold start: it
/// reports that a task must be started and leaves the generator running.
pub proof fn lemma_request_restarts(
    pre: Generator,
    post: Generator,
    machine_id: u16,
    now: u64,
    id: u64,
    started: bool,
)
    requires
        !pre.running(),
        spec_request(pre, post, machine_id, now, id, started),
    ensures
        started,
        post.running(),
{
}

/// Any two draws of one millisecond bucket whose counts differ below the
/// 4096-value wraparound boundary give distinct identifiers, with
/// distinct sequence fields.
pub proof fn lemma_bucket_draws_distinct(millis: u64, machine_id: u16, count1: i32, count2: i32)
    requires
        0 <= count1 < 4096,
        0 <= count2 < 4096,
        count1 != count2,
    ensures
        spec_construct_id(millis, machine_id, count1 as u16)
            != spec_construct_id(millis, machine_id, count2 as u16),
        spec_sequence_field(spec_construct_id(millis, machine_id, count1 as u16))
            != spec_sequence_field(spec_construct_id(millis, machine_id, count2 as u16)),
{
    assert((count1 as u16) & SEQUENCE_MASK != (count2 as u16) & SEQUENCE_MASK) by (bit_vector)
        requires
            0 <= count1 < 4096,
            0 <= count2 < 4096,
            count1 != count2,
    ;
    lemma_same_bucket_distinct(millis, machine_id, count1 as u16, count2 as u16);
}

/// A bucket advance strictly orders the identifiers: a draw after a
/// tick that moved the bucket forward is numerically greater than any
/// draw from before it, whatever the machine identifiers and counters.
pub proof fn lemma_bucket_advance_orders_ids(
    g0: Generator,
    g1: Generator,
    g2: Generator,
    g3: Generator,
    m1: Maintenance,
    m2: Maintenance,
    machine1: u16,
    machine2: u16,
    now1: u64,
    tick_now: u64,
    now2: u64,
    id1: u64,
    id2: u64,
    started1: bool,
    started2: bool,
    exit: bool,
)
    requires
        tick_now < MILLIS_LIMIT,
        spec_request(g0, g1, machine1, now1, id1, started1),
        spec_tick(g1, g2, m1, m2, tick_now, exit),
        tick_now > g1.millis,
        spec_request(g2, g3, machine2, now2, id2, started2),
    ensures
        id2 > id1,
{
    let seq1: u16 = if started1 { 0 } else { g0.count as u16 };
    assert(id1 == spec_construct_id(g1.millis, machine1, seq1));
    assert(id2 == spec_construct_id(tick_now, machine2, g2.count as u16));
    lemma_later_bucket_greater(g1.millis, machine1, seq1, tick_now, machine2, g2.count as u16);
}

/// Two back-to-back requests, with no tick in between, return
/// identifiers with distinct sequence fields, whatever the counter stood
/// at.
pub proof fn lemma_successive_requests_distinct(
    g0: Generator,
    g1: Generator,
    g2: Generator,
    machine_id: u16,
    now1: u64,
    now2: u64,
    id1: u64,
    id2: u64,
    started1: bool,
    started2: bool,
)
    requires
        g0.inv(),
        spec_request(g0, g1, machine_id, now1, id1, started1),
        spec_request(g1, g2, machine_id, now2, id2, started2),
    ensures
        id1 != id2,
        spec_sequence_field(id1) != spec_sequence_field(id2),
{
    let c1: i32 = if started1 { 0 } else { g0.count };
    let c2: i32 = g1.count;
    assert(c2 == c1 + 1);
    assert((c1 as u16) & SEQUENCE_MASK != (c2 as u16) & SEQUENCE_MASK) by (bit_vector)
        requires
            0 <= c1 < 0x7FFF_FFFF,
            c2 == c1 + 1,
    ;
    lemma_same_bucket_distinct(g1.millis, machine_id, c1 as u16, c2 as u16);
}

} // verus!
