//! Followers that walk in the footsteps of a leader, a fixed number of frames behind.
use std::collections::VecDeque;

use vstd::prelude::*;

verus! {

/// The abstract state of a follower: its delay in frames, the frames it has been given but
/// not yet taken (newest first), and the frame it is at.
pub struct FollowerView<F> {
    pub delay: nat,
    pub queue: Seq<F>,
    pub current: F,
}

impl<F> FollowerView<F> {
    /// A follower never holds more than `delay` frames.
    pub open spec fn wf(self) -> bool {
        self.queue.len() <= self.delay
    }

    /// A follower that has just been placed at `start`.
    pub open spec fn fresh(delay: nat, start: F) -> FollowerView<F> {
        FollowerView { delay, queue: Seq::empty(), current: start }
    }

    /// Giving the follower the frame `f`: it is queued in front; when the queue then holds
    /// more than `delay` frames, the oldest one leaves it, becomes the follower's frame and is
    /// handed back.
    pub open spec fn push(self, f: F) -> (FollowerView<F>, Option<F>) {
        let q = seq![f] + self.queue;
        if q.len() > self.delay {
            (FollowerView { delay: self.delay, queue: q.drop_last(), current: q.last() }, Some(q.last()))
        } else {
            (FollowerView { delay: self.delay, queue: q, current: self.current }, None)
        }
    }

    /// The frames waiting in the queue, oldest first.
    pub open spec fn pending(self) -> Seq<F> {
        self.queue.reverse()
    }
}

/// The frames a step hands on: none or one.
pub open spec fn emitted<F>(out: Option<F>) -> Seq<F> {
    match out {
        Some(g) => seq![g],
        None => Seq::empty(),
    }
}

/// A follower: it takes the frames of whoever it follows, `delay_frames` frames late.
pub struct Follower<F> {
    /// the number of frames until this starts following
    delay_frames: usize,
    /// the position queue
    frames: VecDeque<F>,
    /// the current frame
    current_frame: F,
}

impl<F> View for Follower<F> {
    type V = FollowerView<F>;

    closed spec fn view(&self) -> FollowerView<F> {
        FollowerView { delay: self.delay_frames as nat, queue: self.frames@, current: self.current_frame }
    }
}

impl<F: Copy> Follower<F> {
    /// A follower with the given delay, placed at `start_frame` (which the caller applies to
    /// the follower's node).
    pub fn new(delay_frames: usize, start_frame: F) -> (r: Self)
        ensures
            r@ == FollowerView::fresh(delay_frames as nat, start_frame),
    {
        Follower {
            delay_frames,
            frames: VecDeque::new(),
            current_frame: start_frame,
        }
    }

    /// The frame the follower is at.
    pub fn current_frame(&self) -> (r: F)
        ensures
            r == self@.current,
    {
        self.current_frame
    }

    /// Gives the follower a frame; returns the frame it moves to, if it moves (the caller
    /// applies that frame to the follower's node).
    pub fn push_frame(&mut self, frame: F) -> (r: Option<F>)
        ensures
            (final(self)@, r) == old(self)@.push(frame),
    {
        self.frames.push_front(frame);
        if self.frames.len() > self.delay_frames {
            let next = self.frames.pop_back().unwrap();
            self.current_frame = next;
            Some(next)
        } else {
            None
        }
    }
}

/// The frame that reaches follower `j` when `frame` is given to the first follower and
/// follower `k` hands on `applied[k]`.
pub open spec fn chain_input<F>(frame: F, applied: Seq<F>, j: int) -> F {
    if j == 0 {
        frame
    } else {
        applied[j - 1]
    }
}

/// `after` and `applied` are what giving `frame` to the first of the followers `before`
/// leads to: each follower in turn takes the frame the one ahead of it handed on, and the
/// first one that hands on nothing ends the chain; followers behind it are unchanged.
/// `applied[k]` is the frame follower `k` moved to.
pub open spec fn cascade<F>(
    before: Seq<FollowerView<F>>,
    after: Seq<FollowerView<F>>,
    frame: F,
    applied: Seq<F>,
) -> bool {
    &&& after.len() == before.len()
    &&& applied.len() <= before.len()
    &&& forall|j: int|
        0 <= j < applied.len() ==> #[trigger] before[j].push(chain_input(frame, applied, j)) == (
        after[j],
        Some(applied[j]),
    )
    &&& applied.len() < before.len() ==> before[applied.len() as int].push(
        chain_input(frame, applied, applied.len() as int),
    ) == (after[applied.len() as int], None::<F>)
    &&& forall|j: int| applied.len() < j < before.len() ==> #[trigger] after[j] == before[j]
}

/// The followers of a leader, each following the one ahead of it.
pub struct FollowerSet<F> {
    followers: Vec<Follower<F>>,
}

impl<F> View for FollowerSet<F> {
    type V = Seq<FollowerView<F>>;

    closed spec fn view(&self) -> Seq<FollowerView<F>> {
        self.followers@.map_values(|f: Follower<F>| f@)
    }
}

impl<F: Copy> Default for FollowerSet<F> {
    fn default() -> (r: Self)
        ensures
            r@ == Seq::<FollowerView<F>>::empty(),
    {
        Self::new()
    }
}

impl<F: Copy> FollowerSet<F> {
    /// No followers.
    pub fn new() -> (r: Self)
        ensures
            r@ == Seq::<FollowerView<F>>::empty(),
    {
        let r = FollowerSet { followers: Vec::new() };
        assert(r@ =~= Seq::<FollowerView<F>>::empty());
        r
    }

    /// The number of followers.
    pub fn len(&self) -> (r: usize)
        ensures
            r == self@.len(),
    {
        self.followers.len()
    }

    /// The frame that a new follower is placed behind: that of the last follower, or the
    /// leader's frame when there is no follower yet.
    pub fn anchor_frame(&self, leader_frame: F) -> (r: F)
        ensures
            r == if self@.len() == 0 { leader_frame } else { self@.last().current },
    {
        let n = self.followers.len();
        if n == 0 {
            leader_frame
        } else {
            self.followers[n - 1].current_frame()
        }
    }

    /// Adds a follower at the back, placed at `start` (which the caller applies to its node)
    /// and given `next`, the frame it should walk to first (normally the anchor frame);
    /// returns the frame it moves to at once, if any (when its delay is 0).
    pub fn push_follower(&mut self, delay_frames: usize, start: F, next: F) -> (r: Option<F>)
        ensures
            final(self)@ == old(self)@.push(FollowerView::fresh(delay_frames as nat, start).push(next).0),
            r == FollowerView::fresh(delay_frames as nat, start).push(next).1,
    {
        let mut res = Follower::new(delay_frames, start);
        let moved = res.push_frame(next);
        self.followers.push(res);
        assert(self@ =~= old(self)@.push(FollowerView::fresh(delay_frames as nat, start).push(next).0));
        moved
    }

    /// Gives `frame`, the leader's new frame, to the first follower, and each frame a
    /// follower moves to to the follower behind it; returns the frames the followers moved
    /// to, in order (the caller applies them to the followers' nodes).
    pub fn push_frame(&mut self, frame: F) -> (applied: Vec<F>)
        ensures
            cascade(old(self)@, final(self)@, frame, applied@),
    {
        let n = self.followers.len();
        let mut applied: Vec<F> = Vec::new();
        let mut cur = frame;
        let mut i: usize = 0;
        while i < n
            invariant_except_break
                forall|j: int| i <= j < n ==> #[trigger] self@[j] == old(self)@[j],
            invariant
                n == self.followers.len(),
                0 <= i <= n,
                applied.len() == i,
                cur == chain_input(frame, applied@, i as int),
                self@.len() == old(self)@.len(),
                forall|j: int|
                    0 <= j < i ==> #[trigger] old(self)@[j].push(chain_input(frame, applied@, j)) == (
                    self@[j],
                    Some(applied@[j]),
                ),
            ensures
                cascade(old(self)@, self@, frame, applied@),
            decreases n - i,
        {
            let ghost before = self@;
            let moved = self.followers[i].push_frame(cur);
            assert(self@ =~= before.update(i as int, self.followers@[i as int]@));
            assert(before[i as int] == old(self)@[i as int]);
            assert(before[i as int].push(cur) == (self@[i as int], moved));
            match moved {
                Some(next) => {
                    let ghost applied_before = applied@;
                    applied.push(next);
                    assert forall|j: int| 0 <= j < i + 1 implies #[trigger] old(self)@[j].push(
                        chain_input(frame, applied@, j),
                    ) == (self@[j], Some(applied@[j])) by {
                        assert(chain_input(frame, applied@, j) == chain_input(frame, applied_before, j));
                        if j < i {
                            assert(self@[j] == before[j]);
                        }
                    }
                    cur = next;
                    i = i + 1;
                },
                None => {
                    assert forall|j: int| i < j < n implies #[trigger] self@[j] == old(self)@[j] by {
                        assert(self@[j] == before[j]);
                    }
                    assert forall|j: int| 0 <= j < i implies #[trigger] old(self)@[j].push(
                        chain_input(frame, applied@, j),
                    ) == (self@[j], Some(applied@[j])) by {
                        assert(self@[j] == before[j]);
                    }
                    break ;
                },
            }
        }
        applied
    }
}

/// A fresh follower holds no frames, and taking a frame never lets the queue grow beyond the
/// delay.
pub proof fn lemma_queue_bounded<F>(v: FollowerView<F>, f: F, delay: nat, start: F)
    ensures
        FollowerView::fresh(delay, start).wf(),
        v.wf() ==> v.push(f).0.wf(),
        v.push(f).0.delay == v.delay,
{
}

/// Giving a frame to a chain of followers keeps every follower's queue within its delay, and
/// keeps each follower's delay.
pub proof fn lemma_cascade_keeps_bounds<F>(
    before: Seq<FollowerView<F>>,
    after: Seq<FollowerView<F>>,
    frame: F,
    applied: Seq<F>,
)
    requires
        cascade(before, after, frame, applied),
        forall|j: int| 0 <= j < before.len() ==> #[trigger] before[j].wf(),
    ensures
        forall|j: int|
            #![trigger after[j]]
            0 <= j < after.len() ==> after[j].wf() && after[j].delay == before[j].delay,
{
    assert forall|j: int| #![trigger after[j]] 0 <= j < after.len() implies after[j].wf() && after[j].delay
        == before[j].delay by {
        if j < applied.len() {
            assert(before[j].push(chain_input(frame, applied, j)) == (after[j], Some(applied[j])));
            lemma_queue_bounded(before[j], chain_input(frame, applied, j), 0, frame);
        } else if j == applied.len() {
            lemma_queue_bounded(before[j], chain_input(frame, applied, j), 0, frame);
        } else {
            assert(after[j] == before[j]);
        }
    }
}

/// A follower loses no frame and reorders none: the frames it hands on, followed by those
/// still waiting, are the frames that were waiting followed by the new one. Its frame only
/// changes to the frame it hands on.
pub proof fn lemma_first_in_first_out<F>(v: FollowerView<F>, f: F)
    ensures
        v.pending().push(f) == emitted(v.push(f).1) + v.push(f).0.pending(),
        v.push(f).1 matches Some(g) ==> v.push(f).0.current == g,
        v.push(f).1 is None ==> v.push(f).0.current == v.current,
{
    let q = seq![f] + v.queue;
    assert(q.reverse() =~= v.pending().push(f));
    if q.len() > v.delay {
        assert(q.reverse() =~= seq![q.last()] + q.drop_last().reverse());
    } else {
        assert(emitted(v.push(f).1) + q.reverse() =~= q.reverse());
    }
}

/// A follower with a delay of `d` hands on nothing while fewer than `d` frames wait, and once
/// `d` frames wait it hands on the oldest one at every frame it takes, keeping `d` waiting.
pub proof fn lemma_lag<F>(v: FollowerView<F>, f: F)
    ensures
        v.queue.len() < v.delay ==> v.push(f).1 is None && v.push(f).0.queue.len() == v.queue.len() + 1,
        v.queue.len() == v.delay ==> v.push(f).1 == Some(if v.queue.len() == 0 { f } else { v.queue.last() })
            && v.push(f).0.queue.len() == v.queue.len(),
{
}

/// The follower after taking the frames `xs` in order, and what each of them made it hand on.
pub open spec fn run<F>(v: FollowerView<F>, xs: Seq<F>) -> (FollowerView<F>, Seq<Option<F>>)
    decreases xs.len(),
{
    if xs.len() == 0 {
        (v, Seq::empty())
    } else {
        let (w, outs) = run(v, xs.drop_last());
        let (w2, o) = w.push(xs.last());
        (w2, outs.push(o))
    }
}

/// A follower with a delay of `d`, placed at `start` and given the frames `xs` in order,
/// trails them by exactly `d` frames: the first `d` frames hand on nothing, the `i`-th frame
/// after that hands on the frame given `d` frames earlier, the follower then stands at the
/// frame given `d` frames before the last one (or still at `start`), and the last `d` frames
/// given still wait.
pub proof fn lemma_trails_by_delay<F>(d: nat, start: F, xs: Seq<F>)
    ensures
        ({
            let (w, outs) = run(FollowerView::fresh(d, start), xs);
            &&& outs.len() == xs.len()
            &&& forall|i: int| 0 <= i < xs.len() ==> #[trigger] outs[i] == if i >= d {
                Some(xs[i - d])
            } else {
                None
            }
            &&& w.delay == d
            &&& w.current == if xs.len() > d { xs[xs.len() - d - 1] } else { start }
            &&& w.pending() == if xs.len() > d { xs.subrange(xs.len() - d, xs.len() as int) } else { xs }
        }),
    decreases xs.len(),
{
    if xs.len() > 0 {
        let ys = xs.drop_last();
        lemma_trails_by_delay(d, start, ys);
        let (w, outs) = run(FollowerView::fresh(d, start), ys);
        let x = xs.last();
        let q = seq![x] + w.queue;
        assert(w.queue =~= w.pending().reverse());
        assert(q.reverse() =~= w.pending().push(x));
        let (w2, o) = w.push(x);
        if ys.len() >= d {
            assert(w.pending() =~= ys.subrange(ys.len() - d, ys.len() as int));
            assert(q.len() == d + 1);
            assert(q.last() == q.reverse()[0]);
            assert(q.reverse()[0] == xs[xs.len() - d - 1]);
            assert(w2.pending() =~= q.drop_last().reverse());
            assert(q.drop_last().reverse() =~= q.reverse().drop_first());
            assert(w2.pending() =~= xs.subrange(xs.len() - d, xs.len() as int));
        } else {
            assert(w2.pending() =~= xs);
        }
        let (w3, outs3) = run(FollowerView::fresh(d, start), xs);
        assert(outs3 == outs.push(o));
        assert forall|i: int| 0 <= i < xs.len() implies #[trigger] outs3[i] == if i >= d {
            Some(xs[i - d])
        } else {
            None
        } by {
            if i < ys.len() {
                assert(outs3[i] == outs[i]);
            }
        }
    }
}

} // verus!
