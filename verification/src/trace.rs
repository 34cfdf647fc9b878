use vstd::prelude::*;
use bounded_vec_deque::BoundedVecDeque;

verus! {

/// A position is recorded once every this many ticks.
pub const TRACE_RATE: i32 = 5;

#[verifier::external_type_specification]
#[verifier::external_body]
#[verifier::reject_recursive_types(T)]
pub struct ExBoundedVecDeque<T>(BoundedVecDeque<T>);

/// What a deque of recorded positions holds, front to back.
pub uninterp spec fn bvd_positions(q: BoundedVecDeque<(i64, i64)>) -> Seq<(i64, i64)>;

/// The length bound the deque was created with.
pub uninterp spec fn bvd_bound(q: BoundedVecDeque<(i64, i64)>) -> nat;

/// Relies on BoundedVecDeque::new: an empty deque with the given bound.
#[verifier::external_body]
fn bvd_new(max_len: usize) -> (q: BoundedVecDeque<(i64, i64)>)
    ensures
        bvd_positions(q) == Seq::<(i64, i64)>::empty(),
        bvd_bound(q) == max_len,
{
    BoundedVecDeque::new(max_len)
}

/// Relies on BoundedVecDeque::push_back: appends at the back; a full deque
/// first gives up its front element, and a zero-bound deque hands the value
/// straight back.
#[verifier::external_body]
fn bvd_push_back(q: &mut BoundedVecDeque<(i64, i64)>, value: (i64, i64)) -> (displaced: Option<
    (i64, i64),
>)
    ensures
        bvd_bound(*final(q)) == bvd_bound(*old(q)),
        bvd_bound(*old(q)) == 0 ==> bvd_positions(*final(q)) == bvd_positions(*old(q))
            && displaced == Some(value),
        bvd_bound(*old(q)) > 0 && bvd_positions(*old(q)).len() < bvd_bound(*old(q))
            ==> bvd_positions(*final(q)) == bvd_positions(*old(q)).push(value)
            && displaced is None,
        bvd_bound(*old(q)) > 0 && bvd_positions(*old(q)).len() >= bvd_bound(*old(q))
            ==> bvd_positions(*final(q)) == bvd_positions(*old(q)).subrange(
            1,
            bvd_positions(*old(q)).len() as int,
        ).push(value) && displaced == Some(bvd_positions(*old(q))[0]),
{
    q.push_back(value)
}

/// Relies on BoundedVecDeque::iter: yields the elements front to back.
#[verifier::external_body]
fn bvd_items(q: &BoundedVecDeque<(i64, i64)>) -> (items: Vec<(i64, i64)>)
    ensures
        items@ == bvd_positions(*q),
{
    q.iter().copied().collect()
}

/// The bounded history of recently visited positions of one projectile.
/// Only the most recently launched projectile (`last`) keeps recording.
pub struct Trace {
    pub balls: BoundedVecDeque<(i64, i64)>,
    pub counter: i32,
    pub last: bool,
}

/// The mathematical value of a `Trace`.
pub ghost struct TraceModel {
    pub positions: Seq<(i64, i64)>,
    pub bound: nat,
    pub counter: int,
    pub last: bool,
}

impl TraceModel {
    /// The counter cycles below the recording rate and the history never
    /// outgrows its bound.
    pub open spec fn wf(self) -> bool {
        &&& 0 <= self.counter < TRACE_RATE
        &&& self.positions.len() <= self.bound
    }
}

impl View for Trace {
    type V = TraceModel;

    open spec fn view(&self) -> TraceModel {
        TraceModel {
            positions: bvd_positions(self.balls),
            bound: bvd_bound(self.balls),
            counter: self.counter as int,
            last: self.last,
        }
    }
}

/// How one recorded position changes a bounded history: appended at the
/// back, displacing the oldest entry once the bound is reached.
pub open spec fn bounded_push(positions: Seq<(i64, i64)>, bound: nat, value: (i64, i64)) -> Seq<
    (i64, i64),
> {
    if bound == 0 {
        positions
    } else if positions.len() < bound {
        positions.push(value)
    } else {
        positions.subrange(1, positions.len() as int).push(value)
    }
}

/// One tick of trace bookkeeping: an inactive trace is untouched; an active
/// one advances its counter and records the given position on every
/// `TRACE_RATE`-th tick.
pub open spec fn trace_tick_spec(t: TraceModel, position: (i64, i64)) -> TraceModel {
    if !t.last {
        t
    } else if t.counter + 1 == TRACE_RATE {
        TraceModel {
            positions: bounded_push(t.positions, t.bound, position),
            counter: 0,
            ..t
        }
    } else {
        TraceModel { counter: t.counter + 1, ..t }
    }
}

impl Trace {
    /// A fresh recording trace, as attached to a newly launched projectile.
    pub fn new(bound: usize) -> (t: Trace)
        ensures
            t@ == (TraceModel {
                positions: Seq::<(i64, i64)>::empty(),
                bound: bound as nat,
                counter: 0,
                last: true,
            }),
            t@.wf(),
    {
        Trace { balls: bvd_new(bound), counter: 0, last: true }
    }

    /// A superseded projectile keeps only a minimal, inactive history.
    pub fn reset(&mut self)
        ensures
            final(self)@ == (TraceModel {
                positions: Seq::<(i64, i64)>::empty(),
                bound: 1,
                counter: old(self)@.counter,
                last: false,
            }),
    {
        self.balls = bvd_new(1);
        self.last = false;
    }

    /// One tick of bookkeeping before the position integration: the active
    /// trace counts ticks and records every `TRACE_RATE`-th position.
    pub fn record(&mut self, x: i64, y: i64)
        requires
            old(self)@.wf(),
        ensures
            final(self)@ == trace_tick_spec(old(self)@, (x, y)),
            final(self)@.wf(),
    {
        if self.last {
            self.counter = self.counter + 1;
            if self.counter == TRACE_RATE {
                self.counter = 0;
                let _ = bvd_push_back(&mut self.balls, (x, y));
            }
        }
    }

    /// The recorded positions, oldest first, for visualization.
    pub fn positions(&self) -> (items: Vec<(i64, i64)>)
        ensures
            items@ == self@.positions,
    {
        bvd_items(&self.balls)
    }
}

} // verus!
