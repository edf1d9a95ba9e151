//! The trap primitive against a simulated kernel. A `Kernel` value stands for
//! the kernel-side state a process can observe through the five trap
//! operations: which (driver, slot) pairs hold a registered callback
//! trampoline, which hold a shared buffer and of what length, what status code
//! each command or memory operation answers with, and the queue of callbacks
//! awaiting delivery at the next yield. On real hardware each operation is a
//! single trap instruction; here each is a total function on the kernel state
//! with an exact contract.

use vstd::prelude::*;
use std::collections::HashMap;
use std::collections::HashSet;
use crate::error::Error;
use crate::error::error_of_code;
use crate::error::result_from_code;

verus! {

broadcast use vstd::std_specs::hash::group_hash_axioms;

/// A callback the kernel has queued for delivery: the (driver, slot) pair it
/// was raised on and the three argument words its trampoline will receive.
#[derive(Clone, Copy, PartialEq, Eq, Structural, Debug)]
pub struct Callback {
    pub driver: u32,
    pub slot: u32,
    pub arg0: usize,
    pub arg1: usize,
    pub arg2: usize,
}

/// Packs a (driver, slot) pair into one table key word.
pub open spec fn spec_slot_key(driver: u32, slot: u32) -> u64 {
    (driver as int * 0x1_0000_0000 + slot as int) as u64
}

fn slot_key(driver: u32, slot: u32) -> (k: u64)
    ensures
        k == spec_slot_key(driver, slot),
{
    driver as u64 * 0x1_0000_0000 + slot as u64
}

proof fn lemma_slot_key_injective(d1: u32, s1: u32, d2: u32, s2: u32)
    requires
        spec_slot_key(d1, s1) == spec_slot_key(d2, s2),
    ensures
        d1 == d2 && s1 == s2,
{
}

/// The simulated kernel state.
pub struct Kernel {
    subs: HashSet<u64>,
    allows: HashMap<u64, usize>,
    cmds: HashMap<u64, i32>,
    memops: HashMap<u32, i32>,
    pending: Vec<Callback>,
    yields: u64,
}

impl Kernel {
    /// Whether a callback trampoline is registered for (driver, slot).
    pub closed spec fn is_subscribed(self, driver: u32, slot: u32) -> bool {
        self.subs@.contains(spec_slot_key(driver, slot))
    }

    /// Whether a buffer is currently shared for (driver, slot).
    pub closed spec fn is_leased(self, driver: u32, slot: u32) -> bool {
        self.allows@.contains_key(spec_slot_key(driver, slot))
    }

    /// The kernel's view of the shared buffer length for (driver, slot);
    /// zero where nothing is shared.
    pub closed spec fn lease_len(self, driver: u32, slot: u32) -> int {
        if self.allows@.contains_key(spec_slot_key(driver, slot)) {
            self.allows@[spec_slot_key(driver, slot)] as int
        } else {
            0
        }
    }

    /// The status code the kernel answers with for (driver, command). A
    /// status code is one 32-bit word on the wire, so the model holds it as
    /// `i32`: a success payload never exceeds `u32::MAX` once reinterpreted.
    pub closed spec fn command_code(self, driver: u32, command: u32) -> i32 {
        if self.cmds@.contains_key(spec_slot_key(driver, command)) {
            self.cmds@[spec_slot_key(driver, command)]
        } else {
            -11i32
        }
    }

    /// The status code the kernel answers with for a memory operation kind,
    /// as one 32-bit status word.
    pub closed spec fn memop_code(self, kind: u32) -> i32 {
        if self.memops@.contains_key(kind) {
            self.memops@[kind]
        } else {
            -10i32
        }
    }

    /// The callbacks queued for delivery, oldest first.
    pub closed spec fn pending_events(self) -> Seq<Callback> {
        self.pending@
    }

    /// How many yield traps the kernel has served.
    pub closed spec fn yield_count(self) -> u64 {
        self.yields
    }
}

/// No (driver, slot) pair changed its subscription state between `pre` and `post`.
pub open spec fn subs_unchanged(pre: Kernel, post: Kernel) -> bool {
    forall|d: u32, s: u32|
        #![trigger pre.is_subscribed(d, s)]
        #![trigger post.is_subscribed(d, s)]
        post.is_subscribed(d, s) == pre.is_subscribed(d, s)
}

/// No (driver, slot) pair but the named one changed its subscription state.
pub open spec fn subs_unchanged_except(pre: Kernel, post: Kernel, driver: u32, slot: u32) -> bool {
    forall|d: u32, s: u32|
        #![trigger pre.is_subscribed(d, s)]
        #![trigger post.is_subscribed(d, s)]
        (d, s) != (driver, slot) ==> post.is_subscribed(d, s) == pre.is_subscribed(d, s)
}

/// No (driver, slot) pair changed its lease state or length.
pub open spec fn leases_unchanged(pre: Kernel, post: Kernel) -> bool {
    forall|d: u32, s: u32|
        #![trigger pre.lease_len(d, s)]
        #![trigger post.lease_len(d, s)]
        #![trigger pre.is_leased(d, s)]
        #![trigger post.is_leased(d, s)]
        post.is_leased(d, s) == pre.is_leased(d, s) && post.lease_len(d, s) == pre.lease_len(d, s)
}

/// No (driver, slot) pair but the named one changed its lease state or length.
pub open spec fn leases_unchanged_except(pre: Kernel, post: Kernel, driver: u32, slot: u32) -> bool {
    forall|d: u32, s: u32|
        #![trigger pre.lease_len(d, s)]
        #![trigger post.lease_len(d, s)]
        #![trigger pre.is_leased(d, s)]
        #![trigger post.is_leased(d, s)]
        (d, s) != (driver, slot) ==> post.is_leased(d, s) == pre.is_leased(d, s)
            && post.lease_len(d, s) == pre.lease_len(d, s)
}

/// No (driver, command) pair changed its configured status code.
pub open spec fn cmds_unchanged(pre: Kernel, post: Kernel) -> bool {
    forall|d: u32, c: u32|
        #![trigger pre.command_code(d, c)]
        #![trigger post.command_code(d, c)]
        post.command_code(d, c) == pre.command_code(d, c)
}

/// No memory-operation kind changed its configured status code.
pub open spec fn memops_unchanged(pre: Kernel, post: Kernel) -> bool {
    forall|k: u32|
        #![trigger pre.memop_code(k)]
        #![trigger post.memop_code(k)]
        post.memop_code(k) == pre.memop_code(k)
}

impl Kernel {
    /// A freshly booted simulated kernel: nothing subscribed, nothing shared,
    /// every command answering "no such device", every memory operation
    /// answering "unsupported", nothing pending, no yields served.
    pub fn new() -> (k: Kernel)
        ensures
            forall|d: u32, s: u32| !(#[trigger] k.is_subscribed(d, s)),
            forall|d: u32, s: u32| !(#[trigger] k.is_leased(d, s)),
            forall|d: u32, s: u32| #[trigger] k.lease_len(d, s) == 0,
            forall|d: u32, c: u32| #[trigger] k.command_code(d, c) == -11,
            forall|m: u32| #[trigger] k.memop_code(m) == -10,
            k.pending_events() == Seq::<Callback>::empty(),
            k.yield_count() == 0,
    {
        Kernel {
            subs: HashSet::new(),
            allows: HashMap::new(),
            cmds: HashMap::new(),
            memops: HashMap::new(),
            pending: Vec::new(),
            yields: 0,
        }
    }

    /// Configures the status code the simulated kernel answers with for a
    /// (driver, command) pair.
    pub fn set_command_code(&mut self, driver: u32, command: u32, code: i32)
        ensures
            final(self).command_code(driver, command) == code,
            forall|d: u32, c: u32|
                (d, c) != (driver, command) ==> #[trigger] final(self).command_code(d, c)
                    == old(self).command_code(d, c),
            subs_unchanged(*old(self), *final(self)),
            leases_unchanged(*old(self), *final(self)),
            memops_unchanged(*old(self), *final(self)),
            final(self).pending_events() == old(self).pending_events(),
            final(self).yield_count() == old(self).yield_count(),
    {
        let key = slot_key(driver, command);
        self.cmds.insert(key, code);
        proof {
            assert forall|d: u32, c: u32| (d, c) != (driver, command) implies #[trigger] self
                .command_code(d, c) == old(self).command_code(d, c) by {
                if spec_slot_key(d, c) == spec_slot_key(driver, command) {
                    lemma_slot_key_injective(d, c, driver, command);
                }
            }
        }
    }

    /// Configures the status code the simulated kernel answers with for a
    /// memory-operation kind.
    pub fn set_memop_code(&mut self, kind: u32, code: i32)
        ensures
            final(self).memop_code(kind) == code,
            forall|m: u32|
                m != kind ==> #[trigger] final(self).memop_code(m) == old(self).memop_code(m),
            subs_unchanged(*old(self), *final(self)),
            leases_unchanged(*old(self), *final(self)),
            cmds_unchanged(*old(self), *final(self)),
            final(self).pending_events() == old(self).pending_events(),
            final(self).yield_count() == old(self).yield_count(),
    {
        self.memops.insert(kind, code);
    }

    /// Queues a callback for delivery at a later yield trap. This is the
    /// kernel side of a peripheral raising an event.
    pub fn post_callback(&mut self, event: Callback)
        ensures
            final(self).pending_events() == old(self).pending_events().push(event),
            subs_unchanged(*old(self), *final(self)),
            leases_unchanged(*old(self), *final(self)),
            cmds_unchanged(*old(self), *final(self)),
            memops_unchanged(*old(self), *final(self)),
            final(self).yield_count() == old(self).yield_count(),
    {
        self.pending.push(event);
    }

    /// The subscribe trap. `register` stands for handing the kernel a non-null
    /// trampoline pointer; `!register` stands for the null trampoline that
    /// revokes the slot. Registering an occupied slot fails with the
    /// already-set code rather than silently replacing the first registration;
    /// revocation always succeeds.
    pub fn trap_subscribe(&mut self, driver: u32, slot: u32, register: bool) -> (code: isize)
        ensures
            register && old(self).is_subscribed(driver, slot) ==> code == -3 && *final(self)
                == *old(self),
            register && !old(self).is_subscribed(driver, slot) ==> code == 0
                && final(self).is_subscribed(driver, slot),
            !register ==> code == 0 && !final(self).is_subscribed(driver, slot),
            subs_unchanged_except(*old(self), *final(self), driver, slot),
            leases_unchanged(*old(self), *final(self)),
            cmds_unchanged(*old(self), *final(self)),
            memops_unchanged(*old(self), *final(self)),
            final(self).pending_events() == old(self).pending_events(),
            final(self).yield_count() == old(self).yield_count(),
    {
        let key = slot_key(driver, slot);
        let code: isize = if register {
            if self.subs.contains(&key) {
                -3
            } else {
                self.subs.insert(key);
                0
            }
        } else {
            self.subs.remove(&key);
            0
        };
        proof {
            assert forall|d: u32, s: u32| (d, s) != (driver, slot) implies #[trigger] self
                .is_subscribed(d, s) == old(self).is_subscribed(d, s) by {
                if spec_slot_key(d, s) == spec_slot_key(driver, slot) {
                    lemma_slot_key_injective(d, s, driver, slot);
                }
            }
        }
        code
    }

    /// The allow trap. A strictly positive length lends a buffer of that
    /// length to the kernel for (driver, slot); lending an occupied slot fails
    /// with the already-set code. Length zero is the revoking reassignment: it
    /// clears the kernel's view of the slot and always succeeds.
    pub fn trap_allow(&mut self, driver: u32, slot: u32, len: usize) -> (code: isize)
        ensures
            len == 0 ==> code == 0 && !final(self).is_leased(driver, slot)
                && final(self).lease_len(driver, slot) == 0,
            len > 0 && old(self).is_leased(driver, slot) ==> code == -3
                && *final(self) == *old(self),
            len > 0 && !old(self).is_leased(driver, slot) ==> code == 0
                && final(self).is_leased(driver, slot)
                && final(self).lease_len(driver, slot) == len,
            leases_unchanged_except(*old(self), *final(self), driver, slot),
            subs_unchanged(*old(self), *final(self)),
            cmds_unchanged(*old(self), *final(self)),
            memops_unchanged(*old(self), *final(self)),
            final(self).pending_events() == old(self).pending_events(),
            final(self).yield_count() == old(self).yield_count(),
    {
        let key = slot_key(driver, slot);
        let code: isize = if len == 0 {
            self.allows.remove(&key);
            0
        } else {
            if self.allows.contains_key(&key) {
                -3
            } else {
                self.allows.insert(key, len);
                0
            }
        };
        proof {
            assert forall|d: u32, s: u32| (d, s) != (driver, slot) implies #[trigger] self
                .is_leased(d, s) == old(self).is_leased(d, s) && #[trigger] self.lease_len(d, s)
                == old(self).lease_len(d, s) by {
                if spec_slot_key(d, s) == spec_slot_key(driver, slot) {
                    lemma_slot_key_injective(d, s, driver, slot);
                }
            }
        }
        code
    }

    /// The command trap: answers with the configured status code for
    /// (driver, command) and changes nothing. The two argument words are
    /// carried to the kernel but the simulated drivers ignore them.
    pub fn trap_command(&self, driver: u32, command: u32, _arg1: usize, _arg2: usize) -> (code:
        isize)
        ensures
            code == self.command_code(driver, command) as isize,
    {
        let key = slot_key(driver, command);
        match self.cmds.get(&key) {
            Some(c) => *c as isize,
            None => -11,
        }
    }

    /// The memory-operation trap: answers with the configured status code for
    /// the operation kind and changes nothing.
    pub fn trap_memop(&self, kind: u32, _arg1: usize) -> (code: isize)
        ensures
            code == self.memop_code(kind) as isize,
    {
        match self.memops.get(&kind) {
            Some(c) => *c as isize,
            None => -10,
        }
    }

    /// The yield trap: suspends the process until the kernel has a callback to
    /// deliver. The simulated kernel serves one queued callback per yield: the
    /// oldest pending callback leaves the queue, and it is delivered — handed
    /// back for its trampoline to run — exactly when its slot still holds a
    /// registration; a callback whose slot was revoked is discarded
    /// undelivered. With nothing pending the trap returns empty-handed, where
    /// real hardware would keep the process suspended.
    pub fn trap_yield(&mut self) -> (delivered: Option<Callback>)
        requires
            old(self).yield_count() < u64::MAX,
        ensures
            final(self).yield_count() == old(self).yield_count() + 1,
            subs_unchanged(*old(self), *final(self)),
            leases_unchanged(*old(self), *final(self)),
            cmds_unchanged(*old(self), *final(self)),
            memops_unchanged(*old(self), *final(self)),
            old(self).pending_events().len() == 0 ==> delivered is None
                && final(self).pending_events() == old(self).pending_events(),
            old(self).pending_events().len() > 0 ==> ({
                let head = old(self).pending_events()[0];
                &&& final(self).pending_events() == old(self).pending_events().drop_first()
                &&& old(self).is_subscribed(head.driver, head.slot) ==> delivered == Some(head)
                &&& !old(self).is_subscribed(head.driver, head.slot) ==> delivered is None
            }),
    {
        self.yields = self.yields + 1;
        if self.pending.len() == 0 {
            return None;
        }
        let head = self.pending.remove(0);
        proof {
            assert(self.pending@ =~= old(self).pending@.drop_first());
        }
        let key = slot_key(head.driver, head.slot);
        if self.subs.contains(&key) {
            Some(head)
        } else {
            None
        }
    }

    /// Whether a callback trampoline is registered for (driver, slot), as the
    /// trap layer's mock records it.
    pub fn has_subscription(&self, driver: u32, slot: u32) -> (b: bool)
        ensures
            b == self.is_subscribed(driver, slot),
    {
        let key = slot_key(driver, slot);
        self.subs.contains(&key)
    }

    /// The kernel's view of the shared buffer length for (driver, slot);
    /// zero where nothing is shared.
    pub fn shared_len(&self, driver: u32, slot: u32) -> (n: usize)
        ensures
            n as int == self.lease_len(driver, slot),
    {
        let key = slot_key(driver, slot);
        match self.allows.get(&key) {
            Some(n) => *n,
            None => 0,
        }
    }

    /// How many callbacks are queued for delivery.
    pub fn pending_count(&self) -> (n: usize)
        ensures
            n == self.pending_events().len(),
    {
        self.pending.len()
    }

    /// How many yield traps the kernel has served.
    pub fn yields_taken(&self) -> (n: u64)
        ensures
            n == self.yield_count(),
    {
        self.yields
    }
}

/// Issues a command trap and translates its status word: the payload on a
/// non-negative answer, the semantic error on a negative one. The status
/// word is 32 bits, so a non-negative code is its own payload exactly.
pub fn command(kernel: &Kernel, driver_number: u32, command_number: u32, arg1: usize, arg2: usize)
    -> (r: Result<u32, Error>)
    ensures
        kernel.command_code(driver_number, command_number) >= 0 ==> r == Ok::<u32, Error>(
            kernel.command_code(driver_number, command_number) as u32,
        ),
        kernel.command_code(driver_number, command_number) < 0 ==> r == Err::<u32, Error>(
            error_of_code(kernel.command_code(driver_number, command_number) as int),
        ),
{
    let code = kernel.trap_command(driver_number, command_number, arg1, arg2);
    result_from_code(code)
}

/// Issues a memory-operation trap and translates its status word.
pub fn memop(kernel: &Kernel, kind: u32, arg1: usize) -> (r: Result<u32, Error>)
    ensures
        kernel.memop_code(kind) >= 0 ==> r == Ok::<u32, Error>(kernel.memop_code(kind) as u32),
        kernel.memop_code(kind) < 0 ==> r == Err::<u32, Error>(
            error_of_code(kernel.memop_code(kind) as int),
        ),
{
    let code = kernel.trap_memop(kind, arg1);
    result_from_code(code)
}

} // verus!
