use vstd::prelude::*;

verus! {

/// The mathematical state of a latch: the remaining count, and the waiters
/// registered so far, oldest first.
#[verifier::ext_equal]
#[verifier::reject_recursive_types(W)]
pub struct LatchView<W> {
    pub count: nat,
    pub waiters: Seq<W>,
}

impl<W> LatchView<W> {
    /// A latch freshly created with `count`: nobody is waiting yet.
    pub open spec fn fresh(count: nat) -> LatchView<W> {
        LatchView { count, waiters: Seq::empty() }
    }

    /// The latch has been released: waiting on it completes at once.
    pub open spec fn is_released(self) -> bool {
        self.count == 0
    }

    /// Once released, no waiter is left behind.
    pub open spec fn wf(self) -> bool {
        self.count == 0 ==> self.waiters.len() == 0
    }

    /// The state after one count-down: the count drops by one while it is
    /// positive; the count-down that reaches zero takes every waiter away.
    pub open spec fn after_count_down(self) -> LatchView<W> {
        if self.count == 0 {
            self
        } else if self.count == 1 {
            LatchView { count: 0, waiters: Seq::empty() }
        } else {
            LatchView { count: (self.count - 1) as nat, waiters: self.waiters }
        }
    }

    /// The waiters that one count-down wakes, in the order in which they are
    /// woken: all of them, newest first, by the count-down that reaches zero;
    /// none otherwise.
    pub open spec fn woken_by_count_down(self) -> Seq<W> {
        if self.count == 1 {
            self.waiters.reverse()
        } else {
            Seq::empty()
        }
    }

    /// The state after a waiter asks whether the latch is released: while it
    /// is not, the waiter is registered, to be woken later.
    pub open spec fn after_poll(self, waiter: W) -> LatchView<W> {
        if self.count > 0 {
            LatchView { count: self.count, waiters: self.waiters.push(waiter) }
        } else {
            self
        }
    }

    /// The state after the waiters `ws` poll one after the other, in order.
    pub open spec fn after_polls(self, ws: Seq<W>) -> LatchView<W>
        decreases ws.len(),
    {
        if ws.len() == 0 {
            self
        } else {
            self.after_polls(ws.drop_last()).after_poll(ws.last())
        }
    }

    /// The state after `k` count-downs in a row.
    pub open spec fn after_count_downs(self, k: nat) -> LatchView<W>
        decreases k,
    {
        if k == 0 {
            self
        } else {
            self.after_count_down().after_count_downs((k - 1) as nat)
        }
    }

    /// Every waiter woken by `k` count-downs in a row, in waking order.
    pub open spec fn woken_by_count_downs(self, k: nat) -> Seq<W>
        decreases k,
    {
        if k == 0 {
            Seq::empty()
        } else {
            self.woken_by_count_down() + self.after_count_down().woken_by_count_downs(
                (k - 1) as nat,
            )
        }
    }
}

/// The shared state of a count-down latch. `W` stands for whatever wakes a
/// waiting task; the latch only stores and hands back such values.
pub struct CountDownState<W> {
    count: usize,
    waiters: Vec<W>,
}

impl<W> View for CountDownState<W> {
    type V = LatchView<W>;

    closed spec fn view(&self) -> LatchView<W> {
        LatchView { count: self.count as nat, waiters: self.waiters@ }
    }
}

impl<W> CountDownState<W> {
    #[verifier::type_invariant]
    spec fn inv(self) -> bool {
        self@.wf()
    }

    /// Creates the state of a latch with the given count and no waiter.
    pub fn new(count: usize) -> (s: Self)
        ensures
            s@ == LatchView::<W>::fresh(count as nat),
            s@.count == count,
            s@.waiters.len() == 0,
    {
        CountDownState { count, waiters: Vec::new() }
    }

    /// Returns the current count.
    pub fn count(&self) -> (c: usize)
        ensures
            c == self@.count,
            self@.wf(),
    {
        proof {
            use_type_invariant(self);
        }
        self.count
    }

    /// Decrements the count by one unit, unless it is already zero. The
    /// count-down that brings it to zero releases every registered waiter:
    /// they are removed from the state and returned, newest first, to be woken.
    pub fn count_down(&mut self) -> (woken: Vec<W>)
        ensures
            old(self)@.wf(),
            final(self)@.wf(),
            final(self)@ == old(self)@.after_count_down(),
            woken@ == old(self)@.woken_by_count_down(),
            old(self)@.count == 0 ==> final(self)@ == old(self)@ && woken@.len() == 0,
            old(self)@.count == 1 ==> {
                &&& final(self)@.count == 0
                &&& final(self)@.waiters.len() == 0
                &&& woken@.len() == old(self)@.waiters.len()
                &&& forall|i: int|
                    0 <= i < woken@.len() ==> woken@[i] == old(self)@.waiters[old(
                        self,
                    )@.waiters.len() - 1 - i]
            },
            old(self)@.count > 1 ==> {
                &&& final(self)@.count == old(self)@.count - 1
                &&& final(self)@.waiters == old(self)@.waiters
                &&& woken@.len() == 0
            },
    {
        proof {
            use_type_invariant(&*self);
        }
        if self.count == 1 {
            let mut taken: Vec<W> = Vec::new();
            std::mem::swap(&mut taken, &mut self.waiters);
            self.count = 0;
            let ghost ws = taken@;
            let mut woken: Vec<W> = Vec::new();
            while taken.len() > 0
                invariant
                    woken.len() + taken.len() == ws.len(),
                    taken@ == ws.take(taken.len() as int),
                    forall|i: int| 0 <= i < woken.len() ==> woken@[i] == ws[ws.len() - 1 - i],
                decreases taken.len(),
            {
                let w = taken.pop().unwrap();
                woken.push(w);
            }
            assert(woken@ =~= ws.reverse());
            woken
        } else if self.count > 1 {
            self.count = self.count - 1;
            Vec::new()
        } else {
            Vec::new()
        }
    }

    /// Asks on behalf of a waiter whether the latch is released. If it is,
    /// `true` is returned and the waker is dropped; otherwise the waker is
    /// registered, to be handed back by the count-down that reaches zero,
    /// and `false` is returned.
    pub fn poll_wait(&mut self, waker: W) -> (released: bool)
        ensures
            old(self)@.wf(),
            final(self)@.wf(),
            released == old(self)@.is_released(),
            released <==> old(self)@.count == 0,
            final(self)@ == old(self)@.after_poll(waker),
            final(self)@.count == old(self)@.count,
            old(self)@.count > 0 ==> final(self)@.waiters == old(self)@.waiters.push(waker),
            old(self)@.count == 0 ==> final(self)@ == old(self)@,
    {
        proof {
            use_type_invariant(&*self);
        }
        if self.count > 0 {
            let mut registered: Vec<W> = Vec::new();
            std::mem::swap(&mut registered, &mut self.waiters);
            registered.push(waker);
            std::mem::swap(&mut registered, &mut self.waiters);
            false
        } else {
            true
        }
    }
}

/// Which of the two races in a wait with timeout finished first.
pub enum TimedWaitOutcome {
    /// The timeout elapsed before the latch was released.
    TimedOut,
    /// The latch was released before the timeout elapsed.
    Released,
}

/// The answer of a wait with timeout: `false` when the timeout elapsed
/// first, `true` when the latch was released first.
pub fn wait_for_outcome(first: TimedWaitOutcome) -> (released: bool)
    ensures
        released <==> first is Released,
{
    match first {
        TimedWaitOutcome::TimedOut => false,
        TimedWaitOutcome::Released => true,
    }
}

} // verus!
