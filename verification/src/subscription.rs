//! The callback subscription manager: registers a process-side callback
//! against a (driver, slot) pair through the subscribe trap, hands back a
//! handle that owns the registration, and revokes the registration when the
//! handle is released. On real hardware the registration carries a trampoline
//! pointer and an opaque user-data word; against the simulated kernel the
//! registration is the kernel-side record itself, and a delivered callback is
//! run by handing its argument words to the callback object.

use vstd::prelude::*;
use crate::error::Error;
use crate::error::error_of_code;
use crate::error::result_from_code;
use crate::kernel::Callback;
use crate::kernel::Kernel;
use crate::kernel::cmds_unchanged;
use crate::kernel::leases_unchanged;
use crate::kernel::memops_unchanged;
use crate::kernel::subs_unchanged_except;

verus! {

/// A process-side callback that can be bound to a subscription slot. The
/// kernel re-enters the process through `call_rust`, handing over the three
/// driver-specific argument words of the delivered callback. `done` is the
/// callback's own notion of the event it is waiting for having arrived; the
/// cooperative yield scheduler blocks on it.
pub trait SubscribableCallback: Sized {
    /// Whether the condition this callback waits for has been met.
    spec fn done(&self) -> bool;

    /// The state this callback moves to on receiving one delivered
    /// callback's argument words.
    spec fn after_event(self, arg0: usize, arg1: usize, arg2: usize) -> Self;

    /// Receives one delivered callback's argument words.
    fn call_rust(&mut self, arg0: usize, arg1: usize, arg2: usize)
        ensures
            *final(self) == old(self).after_event(arg0, arg1, arg2),
    ;

    /// Tests the wait condition.
    fn is_done(&self) -> (b: bool)
        ensures
            b == self.done(),
    ;
}

/// Runs a delivered callback: hands the event's argument words to the
/// process-side callback object, exactly once and in order, as the
/// kernel-invoked trampoline does on real hardware.
pub fn c_callback<CB: SubscribableCallback>(callback: &mut CB, event: &Callback)
    ensures
        *final(callback) == old(callback).after_event(event.arg0, event.arg1, event.arg2),
{
    callback.call_rust(event.arg0, event.arg1, event.arg2);
}

/// A ready-made callback for clients that wait for the next event on their
/// slot: it records the argument words of the most recent delivered callback
/// and is done as soon as any callback has arrived.
#[derive(Clone, Copy, PartialEq, Eq, Structural, Debug)]
pub struct EventSink {
    pub fired: bool,
    pub arg0: usize,
    pub arg1: usize,
    pub arg2: usize,
}

impl EventSink {
    /// A sink that has seen no callback yet.
    pub fn new() -> (sink: EventSink)
        ensures
            !sink.fired,
            sink.arg0 == 0 && sink.arg1 == 0 && sink.arg2 == 0,
    {
        EventSink { fired: false, arg0: 0, arg1: 0, arg2: 0 }
    }
}

impl SubscribableCallback for EventSink {
    open spec fn done(&self) -> bool {
        self.fired
    }

    open spec fn after_event(self, arg0: usize, arg1: usize, arg2: usize) -> EventSink {
        EventSink { fired: true, arg0, arg1, arg2 }
    }

    fn call_rust(&mut self, arg0: usize, arg1: usize, arg2: usize) {
        self.fired = true;
        self.arg0 = arg0;
        self.arg1 = arg1;
        self.arg2 = arg2;
    }

    fn is_done(&self) -> (b: bool) {
        self.fired
    }
}

/// Ownership of one live callback registration for a (driver, slot) pair.
/// While the handle lives the slot cannot be subscribed a second time;
/// releasing the handle revokes the registration.
pub struct CallbackSubscription {
    driver: u32,
    slot: u32,
}

impl CallbackSubscription {
    /// The driver this subscription is registered with.
    pub closed spec fn spec_driver(self) -> u32 {
        self.driver
    }

    /// The subscription slot this subscription occupies.
    pub closed spec fn spec_slot(self) -> u32 {
        self.slot
    }

    /// The driver this subscription is registered with.
    pub fn driver_number(&self) -> (d: u32)
        ensures
            d == self.spec_driver(),
    {
        self.driver
    }

    /// The subscription slot this subscription occupies.
    pub fn subscribe_number(&self) -> (s: u32)
        ensures
            s == self.spec_slot(),
    {
        self.slot
    }

    /// Ends the subscription's life: issues the revoking subscribe trap — the
    /// null trampoline for the same slot — so that no later callback delivery
    /// can reach the callback object. Models the handle going out of scope.
    /// Revocation is best-effort and reports nothing.
    pub fn release(self, kernel: &mut Kernel)
        ensures
            !final(kernel).is_subscribed(self.spec_driver(), self.spec_slot()),
            subs_unchanged_except(*old(kernel), *final(kernel), self.spec_driver(), self.spec_slot()),
            leases_unchanged(*old(kernel), *final(kernel)),
            cmds_unchanged(*old(kernel), *final(kernel)),
            memops_unchanged(*old(kernel), *final(kernel)),
            final(kernel).pending_events() == old(kernel).pending_events(),
            final(kernel).yield_count() == old(kernel).yield_count(),
    {
        kernel.trap_subscribe(self.driver, self.slot, false);
    }
}

/// Registers a callback against (driver, slot) through the subscribe trap.
/// Succeeds exactly when the slot holds no live subscription, returning the
/// handle that now owns the slot; an occupied slot answers with the
/// already-set error and the first registration stands untouched. The caller
/// keeps the callback object itself and presents it at each yield.
pub fn subscribe(kernel: &mut Kernel, driver_number: u32, subscribe_number: u32) -> (r: Result<
    CallbackSubscription,
    Error,
>)
    ensures
        old(kernel).is_subscribed(driver_number, subscribe_number) ==> r == Err::<
            CallbackSubscription,
            Error,
        >(Error::Already) && *final(kernel) == *old(kernel),
        !old(kernel).is_subscribed(driver_number, subscribe_number) ==> ({
            &&& r matches Ok(sub)
            &&& (r matches Ok(sub) ==> sub.spec_driver() == driver_number && sub.spec_slot()
                == subscribe_number)
            &&& final(kernel).is_subscribed(driver_number, subscribe_number)
        }),
        subs_unchanged_except(*old(kernel), *final(kernel), driver_number, subscribe_number),
        leases_unchanged(*old(kernel), *final(kernel)),
        cmds_unchanged(*old(kernel), *final(kernel)),
        memops_unchanged(*old(kernel), *final(kernel)),
        final(kernel).pending_events() == old(kernel).pending_events(),
        final(kernel).yield_count() == old(kernel).yield_count(),
{
    let code = kernel.trap_subscribe(driver_number, subscribe_number, true);
    match result_from_code(code) {
        Ok(_) => Ok(CallbackSubscription { driver: driver_number, slot: subscribe_number }),
        Err(e) => {
            proof {
                assert(error_of_code(-3) == Error::Already);
            }
            Err(e)
        },
    }
}

} // verus!
