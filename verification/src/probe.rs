//! Capability probe: picking a suitable GPU adapter and resolving the
//! queue families that satisfy a required capability mask.

use vstd::prelude::*;

use crate::errors::BootError;

verus! {

/// Raw code of the integrated device class. Adapter selection is
/// deliberately narrowed to this class and to no other.
pub const DEVICE_CLASS_INTEGRATED: u32 = 1;
/// Capability bit of graphics-capable queue families.
pub const QUEUE_GRAPHICS: u32 = 1;

/// What the probe reads off one enumerated adapter: its device class and
/// the capability flags of each of its queue families, in enumeration
/// order.
#[derive(Clone, Debug)]
pub struct AdapterInfo {
    pub device_class: u32,
    pub queue_family_flags: Vec<u32>,
}

/// Whether a family's capability flags are a superset of the mask.
pub open spec fn flags_contain(flags: u32, mask: u32) -> bool {
    flags & mask == mask
}

/// Whether at least one of the adapter's queue families satisfies the
/// capability mask.
pub open spec fn has_matching_family(a: AdapterInfo, mask: u32) -> bool {
    exists|j: int| 0 <= j < a.queue_family_flags@.len() && flags_contain(#[trigger] a.queue_family_flags@[j], mask)
}

/// An adapter is suitable exactly when its device class is the integrated
/// class and at least one of its queue families satisfies the mask.
pub open spec fn adapter_suitable(a: AdapterInfo, mask: u32) -> bool {
    a.device_class == DEVICE_CLASS_INTEGRATED && has_matching_family(a, mask)
}

/// The indices of the families whose flags contain the mask, in
/// enumeration order.
pub open spec fn matching_family_indices(flags: Seq<u32>, mask: u32) -> Seq<usize>
    decreases flags.len(),
{
    if flags.len() == 0 {
        Seq::empty()
    } else if flags_contain(flags.last(), mask) {
        matching_family_indices(flags.drop_last(), mask) + seq![(flags.len() - 1) as usize]
    } else {
        matching_family_indices(flags.drop_last(), mask)
    }
}

/// Whether one of the adapter's queue families satisfies the mask.
pub fn has_family_with(a: &AdapterInfo, mask: u32) -> (r: bool)
    ensures
        r == has_matching_family(*a, mask),
{
    let n = a.queue_family_flags.len();
    let mut i: usize = 0;
    while i < n
        invariant
            n == a.queue_family_flags@.len(),
            i <= n,
            forall|k: int| 0 <= k < i ==> !flags_contain(#[trigger] a.queue_family_flags@[k], mask),
        decreases n - i,
    {
        if a.queue_family_flags[i] & mask == mask {
            assert(flags_contain(a.queue_family_flags@[i as int], mask));
            return true;
        }
        i = i + 1;
    }
    false
}

/// Whether the adapter meets the hardware-class and capability predicate.
pub fn adapter_is_suitable(a: &AdapterInfo, mask: u32) -> (r: bool)
    ensures
        r == adapter_suitable(*a, mask),
{
    a.device_class == DEVICE_CLASS_INTEGRATED && has_family_with(a, mask)
}

/// Selects the first suitable adapter in enumeration order; no scoring
/// across candidates. Reports `AdapterNotFound` exactly when no
/// enumerated adapter qualifies.
pub fn select_adapter(adapters: &Vec<AdapterInfo>, capability_mask: u32) -> (r: Result<
    usize,
    BootError,
>)
    ensures
        (r matches Ok(i) ==> 0 <= i < adapters@.len() && adapter_suitable(
            adapters@[i as int],
            capability_mask,
        ) && (forall|k: int| 0 <= k < i ==> !adapter_suitable(adapters@[k], capability_mask))),
        (r is Err ==> r == Err::<usize, BootError>(BootError::AdapterNotFound) && (forall|k: int|
            0 <= k < adapters@.len() ==> !adapter_suitable(adapters@[k], capability_mask))),
{
    let n = adapters.len();
    let mut i: usize = 0;
    while i < n
        invariant
            n == adapters@.len(),
            i <= n,
            forall|k: int| 0 <= k < i ==> !adapter_suitable(#[trigger] adapters@[k], capability_mask),
        decreases n - i,
    {
        if adapter_is_suitable(&adapters[i], capability_mask) {
            return Ok(i);
        }
        i = i + 1;
    }
    Err(BootError::AdapterNotFound)
}

/// Scans all of the adapter's queue families in enumeration order and
/// keeps the indices whose flags fully contain the mask. The order is
/// enumeration order, not capability-ranked.
pub fn find_queue_families(a: &AdapterInfo, mask: u32) -> (r: Vec<usize>)
    ensures
        r@ == matching_family_indices(a.queue_family_flags@, mask),
{
    let n = a.queue_family_flags.len();
    let mut r: Vec<usize> = Vec::new();
    let mut i: usize = 0;
    while i < n
        invariant
            n == a.queue_family_flags@.len(),
            i <= n,
            r@ == matching_family_indices(a.queue_family_flags@.take(i as int), mask),
        decreases n - i,
    {
        proof {
            let s = a.queue_family_flags@;
            assert(s.take(i + 1).drop_last() =~= s.take(i as int));
            assert(s.take(i + 1).last() == s[i as int]);
        }
        if a.queue_family_flags[i] & mask == mask {
            r.push(i);
        }
        i = i + 1;
    }
    proof {
        assert(a.queue_family_flags@.take(n as int) =~= a.queue_family_flags@);
    }
    r
}

} // verus!
