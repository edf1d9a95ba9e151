//! The shared-memory lease manager: lends a buffer to the kernel for a
//! (driver, slot) pair through the allow trap, hands back a lease that owns
//! the lending, and revokes it — the zero-length reassignment — when the
//! lease is released, so the kernel never retains a view of a buffer the
//! process has taken back.

use vstd::prelude::*;
use crate::error::Error;
use crate::error::error_of_code;
use crate::error::result_from_code;
use crate::kernel::Kernel;
use crate::kernel::cmds_unchanged;
use crate::kernel::leases_unchanged_except;
use crate::kernel::memops_unchanged;
use crate::kernel::subs_unchanged;

verus! {

/// Ownership of one live buffer lending for a (driver, slot) pair. While the
/// lease lives the slot cannot be lent a second time; releasing the lease
/// clears the kernel's view of the slot.
pub struct SharedMemory {
    driver: u32,
    slot: u32,
    len: usize,
}

impl SharedMemory {
    /// The driver this buffer is lent to.
    pub closed spec fn spec_driver(self) -> u32 {
        self.driver
    }

    /// The allow slot this lease occupies.
    pub closed spec fn spec_slot(self) -> u32 {
        self.slot
    }

    /// The length of the lent buffer.
    pub closed spec fn spec_len(self) -> usize {
        self.len
    }

    /// The driver this buffer is lent to.
    pub fn driver_number(&self) -> (d: u32)
        ensures
            d == self.spec_driver(),
    {
        self.driver
    }

    /// The allow slot this lease occupies.
    pub fn allow_number(&self) -> (s: u32)
        ensures
            s == self.spec_slot(),
    {
        self.slot
    }

    /// The length of the lent buffer.
    pub fn len(&self) -> (n: usize)
        ensures
            n == self.spec_len(),
    {
        self.len
    }

    /// Ends the lease's life: issues the revoking allow trap — a zero-length
    /// reassignment of the same slot — so the kernel's view of the slot's
    /// buffer length drops to zero before the buffer may be reused or freed.
    /// Models the lease going out of scope. Revocation is best-effort and
    /// reports nothing.
    pub fn release(self, kernel: &mut Kernel)
        ensures
            !final(kernel).is_leased(self.spec_driver(), self.spec_slot()),
            final(kernel).lease_len(self.spec_driver(), self.spec_slot()) == 0,
            leases_unchanged_except(*old(kernel), *final(kernel), self.spec_driver(), self.spec_slot()),
            subs_unchanged(*old(kernel), *final(kernel)),
            cmds_unchanged(*old(kernel), *final(kernel)),
            memops_unchanged(*old(kernel), *final(kernel)),
            final(kernel).pending_events() == old(kernel).pending_events(),
            final(kernel).yield_count() == old(kernel).yield_count(),
    {
        kernel.trap_allow(self.driver, self.slot, 0);
    }
}

/// Lends a buffer to the kernel for (driver, slot) through the allow trap.
/// Succeeds exactly when the slot holds no live lease, returning the lease
/// that now owns the slot, with the kernel's view of the slot set to the
/// buffer's length; an occupied slot answers with the already-set error and
/// the first lending stands untouched. The buffer must stay in place for the
/// lease's whole life; an empty buffer is the revoking reassignment and
/// leaves the slot clear.
pub fn allow(kernel: &mut Kernel, driver_number: u32, allow_number: u32, buffer_to_share: &Vec<u8>)
    -> (r: Result<SharedMemory, Error>)
    ensures
        buffer_to_share.len() > 0 && old(kernel).is_leased(driver_number, allow_number) ==> r
            == Err::<SharedMemory, Error>(Error::Already) && *final(kernel) == *old(kernel),
        buffer_to_share.len() > 0 && !old(kernel).is_leased(driver_number, allow_number) ==> ({
            &&& r matches Ok(lease)
            &&& (r matches Ok(lease) ==> lease.spec_driver() == driver_number && lease.spec_slot()
                == allow_number && lease.spec_len() == buffer_to_share.len())
            &&& final(kernel).is_leased(driver_number, allow_number)
            &&& final(kernel).lease_len(driver_number, allow_number) == buffer_to_share.len()
        }),
        buffer_to_share.len() == 0 ==> ({
            &&& r matches Ok(lease)
            &&& (r matches Ok(lease) ==> lease.spec_driver() == driver_number && lease.spec_slot()
                == allow_number && lease.spec_len() == 0)
            &&& !final(kernel).is_leased(driver_number, allow_number)
            &&& final(kernel).lease_len(driver_number, allow_number) == 0
        }),
        leases_unchanged_except(*old(kernel), *final(kernel), driver_number, allow_number),
        subs_unchanged(*old(kernel), *final(kernel)),
        cmds_unchanged(*old(kernel), *final(kernel)),
        memops_unchanged(*old(kernel), *final(kernel)),
        final(kernel).pending_events() == old(kernel).pending_events(),
        final(kernel).yield_count() == old(kernel).yield_count(),
{
    let len = buffer_to_share.len();
    let code = kernel.trap_allow(driver_number, allow_number, len);
    match result_from_code(code) {
        Ok(_) => Ok(SharedMemory { driver: driver_number, slot: allow_number, len }),
        Err(e) => {
            proof {
                assert(error_of_code(-3) == Error::Already);
            }
            Err(e)
        },
    }
}

} // verus!
