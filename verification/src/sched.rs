//! The cooperative yield scheduler: the single blocking primitive. A yield
//! trap suspends the process until the kernel has a callback to deliver; the
//! callback then runs on the process's own stack before the yield returns.
//! `yieldk` is one such trap, handing back the delivered callback for its
//! trampoline to run; `yieldk_for` is the wait idiom built on it, yielding
//! once per failed check of the callback's wait condition until the condition
//! holds.

use vstd::prelude::*;
use crate::kernel::Callback;
use crate::kernel::Kernel;
use crate::kernel::cmds_unchanged;
use crate::kernel::leases_unchanged;
use crate::kernel::memops_unchanged;
use crate::kernel::subs_unchanged;
use crate::subscription::SubscribableCallback;
use crate::subscription::c_callback;

verus! {

/// Issues one yield trap. The process stays suspended until the kernel has a
/// callback ready; the simulated kernel serves the oldest queued callback,
/// which comes back for its trampoline to run exactly when its slot still
/// holds a registration. A revoked slot's callback is discarded undelivered,
/// and with nothing queued the yield returns empty-handed.
pub fn yieldk(kernel: &mut Kernel) -> (delivered: Option<Callback>)
    requires
        old(kernel).yield_count() < u64::MAX,
    ensures
        final(kernel).yield_count() == old(kernel).yield_count() + 1,
        subs_unchanged(*old(kernel), *final(kernel)),
        leases_unchanged(*old(kernel), *final(kernel)),
        cmds_unchanged(*old(kernel), *final(kernel)),
        memops_unchanged(*old(kernel), *final(kernel)),
        old(kernel).pending_events().len() == 0 ==> delivered is None
            && final(kernel).pending_events() == old(kernel).pending_events(),
        old(kernel).pending_events().len() > 0 ==> ({
            let head = old(kernel).pending_events()[0];
            &&& final(kernel).pending_events() == old(kernel).pending_events().drop_first()
            &&& old(kernel).is_subscribed(head.driver, head.slot) ==> delivered == Some(head)
            &&& !old(kernel).is_subscribed(head.driver, head.slot) ==> delivered is None
        }),
{
    kernel.trap_yield()
}

/// The state a callback object reaches after the events for its (driver,
/// slot) pair among `events` have been handed to it in order; events for
/// other pairs pass it by.
pub open spec fn fold_events<CB: SubscribableCallback>(
    callback: CB,
    events: Seq<Callback>,
    driver: u32,
    slot: u32,
) -> CB
    decreases events.len(),
{
    if events.len() == 0 {
        callback
    } else {
        let head = events[0];
        let folded = if head.driver == driver && head.slot == slot {
            callback.after_event(head.arg0, head.arg1, head.arg2)
        } else {
            callback
        };
        fold_events(folded, events.drop_first(), driver, slot)
    }
}

proof fn lemma_fold_events_push<CB: SubscribableCallback>(
    callback: CB,
    events: Seq<Callback>,
    event: Callback,
    driver: u32,
    slot: u32,
)
    ensures
        fold_events(callback, events.push(event), driver, slot) == (
        if event.driver == driver && event.slot == slot {
            fold_events(callback, events, driver, slot).after_event(
                event.arg0,
                event.arg1,
                event.arg2,
            )
        } else {
            fold_events(callback, events, driver, slot)
        }),
    decreases events.len(),
{
    if events.len() == 0 {
        let folded = if event.driver == driver && event.slot == slot {
            callback.after_event(event.arg0, event.arg1, event.arg2)
        } else {
            callback
        };
        assert(events.push(event)[0] == event);
        assert(events.push(event).drop_first() =~= Seq::<Callback>::empty());
        assert(fold_events(callback, events, driver, slot) == callback);
        assert(fold_events(callback, events.push(event), driver, slot) == fold_events(
            folded,
            events.push(event).drop_first(),
            driver,
            slot,
        ));
        assert(fold_events(folded, Seq::<Callback>::empty(), driver, slot) == folded);
    } else {
        let head = events[0];
        let folded = if head.driver == driver && head.slot == slot {
            callback.after_event(head.arg0, head.arg1, head.arg2)
        } else {
            callback
        };
        assert(events.push(event)[0] == events[0]);
        assert(events.push(event).drop_first() =~= events.drop_first().push(event));
        assert(fold_events(callback, events.push(event), driver, slot) == fold_events(
            folded,
            events.push(event).drop_first(),
            driver,
            slot,
        ));
        assert(fold_events(callback, events, driver, slot) == fold_events(
            folded,
            events.drop_first(),
            driver,
            slot,
        ));
        lemma_fold_events_push(folded, events.drop_first(), event, driver, slot);
    }
}

/// Yields until the callback's wait condition holds, running each delivered
/// callback for (driver, slot) on the way. If the condition already holds not
/// one yield trap is issued and nothing changes; otherwise every failed check
/// costs exactly one yield trap, so the yield count grows by exactly the
/// number of callbacks the kernel served. Returns whether the condition was
/// reached; with the simulated kernel's queue drained and the condition still
/// false it gives up and returns false, where real hardware would keep the
/// process suspended. A slot whose registration was revoked never reaches the
/// callback object.
pub fn yieldk_for<CB: SubscribableCallback>(
    kernel: &mut Kernel,
    driver: u32,
    slot: u32,
    callback: &mut CB,
) -> (completed: bool)
    requires
        old(kernel).yield_count() + old(kernel).pending_events().len() <= u64::MAX,
    ensures
        completed == final(callback).done(),
        old(callback).done() ==> *final(kernel) == *old(kernel) && *final(callback) == *old(
            callback,
        ) && completed,
        final(kernel).yield_count() - old(kernel).yield_count() == old(
            kernel,
        ).pending_events().len() - final(kernel).pending_events().len(),
        final(kernel).pending_events() == old(kernel).pending_events().skip(
            final(kernel).yield_count() - old(kernel).yield_count(),
        ),
        !completed ==> final(kernel).pending_events().len() == 0,
        final(kernel).yield_count() == old(kernel).yield_count() ==> *final(kernel)
            == *old(kernel) && *final(callback) == *old(callback),
        !old(callback).done() && old(kernel).pending_events().len() > 0
            ==> final(kernel).yield_count() > old(kernel).yield_count(),
        subs_unchanged(*old(kernel), *final(kernel)),
        leases_unchanged(*old(kernel), *final(kernel)),
        cmds_unchanged(*old(kernel), *final(kernel)),
        memops_unchanged(*old(kernel), *final(kernel)),
        old(kernel).is_subscribed(driver, slot) ==> *final(callback) == fold_events(
            *old(callback),
            old(kernel).pending_events().take(
                final(kernel).yield_count() - old(kernel).yield_count(),
            ),
            driver,
            slot,
        ),
        !old(kernel).is_subscribed(driver, slot) ==> *final(callback) == *old(callback),
{
    loop
        invariant
            kernel.yield_count() + kernel.pending_events().len() <= u64::MAX,
            kernel.yield_count() >= old(kernel).yield_count(),
            kernel.yield_count() - old(kernel).yield_count() == old(
                kernel,
            ).pending_events().len() - kernel.pending_events().len(),
            kernel.pending_events() == old(kernel).pending_events().skip(
                kernel.yield_count() - old(kernel).yield_count(),
            ),
            subs_unchanged(*old(kernel), *kernel),
            leases_unchanged(*old(kernel), *kernel),
            cmds_unchanged(*old(kernel), *kernel),
            memops_unchanged(*old(kernel), *kernel),
            old(callback).done() ==> *kernel == *old(kernel) && *callback == *old(callback),
            kernel.yield_count() == old(kernel).yield_count() ==> *kernel == *old(kernel)
                && *callback == *old(callback),
            old(kernel).is_subscribed(driver, slot) ==> *callback == fold_events(
                *old(callback),
                old(kernel).pending_events().take(
                    kernel.yield_count() - old(kernel).yield_count(),
                ),
                driver,
                slot,
            ),
            !old(kernel).is_subscribed(driver, slot) ==> *callback == *old(callback),
        decreases kernel.pending_events().len(),
    {
        if callback.is_done() {
            return true;
        }
        if kernel.pending_count() == 0 {
            return false;
        }
        let ghost pre = *kernel;
        let delivered = yieldk(kernel);
        proof {
            assert(pre.pending_events().skip(1) =~= kernel.pending_events());
            assert(old(kernel).pending_events().skip(
                kernel.yield_count() - old(kernel).yield_count(),
            ) =~= pre.pending_events().skip(1));
            let served: int = pre.yield_count() - old(kernel).yield_count();
            let head = pre.pending_events()[0];
            assert(head == old(kernel).pending_events()[served]);
            assert(old(kernel).pending_events().take(served + 1) =~= old(
                kernel,
            ).pending_events().take(served).push(head));
            lemma_fold_events_push(
                *old(callback),
                old(kernel).pending_events().take(served),
                head,
                driver,
                slot,
            );
        }
        if let Some(event) = delivered {
            if event.driver == driver && event.slot == slot {
                c_callback(callback, &event);
            }
        }
    }
}

} // verus!
