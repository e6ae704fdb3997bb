//! Properties of the latch that span several operations, stated over the
//! transitions that the operations of `CountDownState` are proved to follow.
use vstd::prelude::*;

use crate::latch::LatchView;

verus! {

/// Every operation keeps the latch well formed: once the count is zero, no
/// waiter is registered.
pub proof fn law_operations_keep_well_formed<W>(s: LatchView<W>, waiter: W, k: nat)
    requires
        s.wf(),
    ensures
        s.after_count_down().wf(),
        s.after_poll(waiter).wf(),
        s.after_count_downs(k).wf(),
    decreases k,
{
    if k > 0 {
        law_operations_keep_well_formed(s.after_count_down(), waiter, (k - 1) as nat);
    }
}

/// The count never grows: a count-down lowers it by one while it is
/// positive and leaves it at zero afterwards, and polling leaves it alone.
/// After `k` count-downs the count is `count - k`, or zero once `k` reaches
/// the count.
pub proof fn law_count_downs_saturate<W>(s: LatchView<W>, waiter: W, k: nat)
    ensures
        s.after_count_down().count <= s.count,
        s.after_poll(waiter).count == s.count,
        s.after_count_downs(k).count == (if k >= s.count {
            0
        } else {
            (s.count - k) as nat
        }),
    decreases k,
{
    if k > 0 {
        law_count_downs_saturate(s.after_count_down(), waiter, (k - 1) as nat);
    }
}

/// A latch created with count `n` is released by exactly `n` count-downs:
/// after fewer it still holds its waiters back, after `n` or more it lets
/// every waiter through.
pub proof fn law_released_after_count_count_downs<W>(n: nat, k: nat)
    ensures
        LatchView::<W>::fresh(n).after_count_downs(k).is_released() <==> k >= n,
{
    law_count_downs_saturate(LatchView::<W>::fresh(n), arbitrary(), k);
}

/// Once released, a latch stays as it is: a count-down changes nothing and
/// wakes nobody, and a waiter is let through without being registered.
pub proof fn law_release_is_final<W>(s: LatchView<W>, waiter: W, k: nat)
    requires
        s.wf(),
        s.is_released(),
    ensures
        s.after_count_down() == s,
        s.woken_by_count_down() == Seq::<W>::empty(),
        s.after_poll(waiter) == s,
        s.after_count_downs(k) == s,
        s.woken_by_count_downs(k) == Seq::<W>::empty(),
    decreases k,
{
    if k > 0 {
        law_release_is_final(s, waiter, (k - 1) as nat);
        assert(Seq::<W>::empty() + Seq::<W>::empty() =~= Seq::<W>::empty());
    }
}

/// Count-downs wake each registered waiter exactly once, all together, at the
/// count-down that brings the count to zero: over `k` count-downs the woken
/// waiters are none while `k` is below the count, and every registered
/// waiter, newest first, from then on; the waiters still registered after
/// them are all of them, or none once released.
pub proof fn law_waiters_woken_once_at_release<W>(s: LatchView<W>, k: nat)
    requires
        s.wf(),
    ensures
        s.woken_by_count_downs(k) == (if s.count > 0 && k >= s.count {
            s.waiters.reverse()
        } else {
            Seq::<W>::empty()
        }),
        s.after_count_downs(k).waiters == (if k >= s.count {
            Seq::<W>::empty()
        } else {
            s.waiters
        }),
    decreases k,
{
    if s.count == 0 {
        law_release_is_final(s, arbitrary(), k);
        assert(s.waiters =~= Seq::<W>::empty());
    } else if k > 0 {
        let t = s.after_count_down();
        law_waiters_woken_once_at_release(t, (k - 1) as nat);
        if s.count == 1 {
            assert(s.woken_by_count_downs(k) =~= s.waiters.reverse());
        } else {
            assert(s.woken_by_count_downs(k) =~= t.woken_by_count_downs((k - 1) as nat));
        }
    }
}

/// A waiter that registers while the latch is not yet released is woken by
/// the count-down that releases it, and only then.
pub proof fn law_registered_waiter_is_woken<W>(s: LatchView<W>, waiter: W, k: nat)
    requires
        s.wf(),
        !s.is_released(),
    ensures
        s.after_poll(waiter).woken_by_count_downs(k).contains(waiter) <==> k >= s.count,
{
    let t = s.after_poll(waiter);
    law_waiters_woken_once_at_release(t, k);
    if k >= s.count {
        let r = t.waiters.reverse();
        assert(r[0] == waiter);
    }
}

/// A latch is released exactly when its count is zero, and a released latch
/// holds no waiter.
pub proof fn law_released_iff_count_zero<W>(s: LatchView<W>)
    ensures
        s.is_released() <==> s.count == 0,
        s.wf() && s.count == 0 ==> s.waiters.len() == 0,
{
}

/// A poll never changes the count. While the latch is not released, it keeps
/// every waiter registered before it, in order, and adds the new one at the
/// end; once released, it changes nothing.
pub proof fn law_poll_appends_waiter<W>(s: LatchView<W>, waiter: W)
    ensures
        s.after_poll(waiter).count == s.count,
        s.count > 0 ==> s.after_poll(waiter).waiters == s.waiters.push(waiter),
        s.count > 0 ==> s.after_poll(waiter).waiters.len() == s.waiters.len() + 1,
        s.count > 0 ==> forall|i: int|
            0 <= i < s.waiters.len() ==> #[trigger] s.after_poll(waiter).waiters[i]
                == s.waiters[i],
        s.count == 0 ==> s.after_poll(waiter) == s,
{
}

/// One count-down: at zero it changes nothing and wakes nobody; at one it
/// brings the count to zero, leaves no waiter registered and wakes every
/// registered waiter, newest first; above one it lowers the count by one,
/// keeps every waiter registered and wakes nobody.
pub proof fn law_count_down_step<W>(s: LatchView<W>)
    ensures
        s.count == 0 ==> s.after_count_down() == s && s.woken_by_count_down().len() == 0,
        s.count == 1 ==> {
            &&& s.after_count_down().count == 0
            &&& s.after_count_down().waiters.len() == 0
            &&& s.woken_by_count_down().len() == s.waiters.len()
            &&& forall|i: int|
                0 <= i < s.waiters.len() ==> #[trigger] s.woken_by_count_down()[i]
                    == s.waiters[s.waiters.len() - 1 - i]
        },
        s.count > 1 ==> {
            &&& s.after_count_down().count == s.count - 1
            &&& s.after_count_down().waiters == s.waiters
            &&& s.woken_by_count_down().len() == 0
        },
{
}

/// Waiters that poll one after the other while the latch is not released are
/// all kept, in the order in which they came, after those already
/// registered; the count is untouched; and the count-downs that release the
/// latch wake every one of them, newest first, leaving none registered.
pub proof fn law_polled_waiters_all_woken<W>(s: LatchView<W>, ws: Seq<W>)
    requires
        s.wf(),
        !s.is_released(),
    ensures
        s.after_polls(ws).count == s.count,
        s.after_polls(ws).waiters == s.waiters + ws,
        s.after_polls(ws).woken_by_count_downs(s.count) == (s.waiters + ws).reverse(),
        s.after_polls(ws).after_count_downs(s.count).waiters.len() == 0,
        forall|w: W| #[trigger] ws.contains(w) ==> s.after_polls(ws).woken_by_count_downs(
            s.count,
        ).contains(w),
    decreases ws.len(),
{
    if ws.len() > 0 {
        law_polled_waiters_all_woken(s, ws.drop_last());
        assert(s.waiters + ws =~= (s.waiters + ws.drop_last()).push(ws.last()));
    }
    let t = s.after_polls(ws);
    law_waiters_woken_once_at_release(t, s.count);
    assert forall|w: W| #[trigger] ws.contains(w) implies t.woken_by_count_downs(
        s.count,
    ).contains(w) by {
        let j = choose|j: int| 0 <= j < ws.len() && ws[j] == w;
        let all = s.waiters + ws;
        let r = all.reverse();
        let idx = all.len() - 1 - (s.waiters.len() + j);
        assert(r[idx] == all[s.waiters.len() + j]);
    }
}

} // verus!
