//! Model of guest-physical memory as seen by the control plane.
//!
//! Guest memory is an ordered set of disjoint regions, each mapped somewhere
//! in the host's address space. The set is fixed when a device session is
//! created; the protocol driver only consults it for bounds checks and for
//! translating guest addresses to host addresses.

use vstd::prelude::*;

verus! {

/// An address in the guest's physical address space.
#[derive(Clone, Copy, Debug, PartialEq, Eq, Structural)]
pub struct GuestAddress(pub u64);

impl GuestAddress {
    /// The raw address value.
    pub fn offset(self) -> (r: u64)
        ensures
            r == self.0,
    {
        self.0
    }

    /// The address `offset` bytes past this one, unless that leaves the
    /// 64-bit address space.
    pub fn checked_add(self, offset: u64) -> (r: Option<GuestAddress>)
        ensures
            match r {
                Some(a) => self.0 + offset <= u64::MAX && a.0 == self.0 + offset,
                None => self.0 + offset > u64::MAX,
            },
    {
        match self.0.checked_add(offset) {
            Some(v) => Some(GuestAddress(v)),
            None => None,
        }
    }
}

/// One region of guest-physical memory and the host address it is mapped at.
#[derive(Clone, Copy, Debug, PartialEq, Eq, Structural)]
pub struct GuestRegion {
    /// First guest-physical address of the region.
    pub guest_base: u64,
    /// Length of the region in bytes.
    pub size: u64,
    /// Host virtual address the region is mapped at.
    pub host_address: u64,
}

/// `addr` lies inside the region: `guest_base <= addr < guest_base + size`.
pub open spec fn region_contains(r: GuestRegion, addr: u64) -> bool {
    r.guest_base <= addr < r.guest_base + r.size
}

/// The host address that `addr` maps to, for `addr` inside the region.
pub open spec fn region_host(r: GuestRegion, addr: u64) -> u64 {
    (r.host_address + (addr - r.guest_base)) as u64
}

/// Neither the guest-side end nor the host-side end of the region wraps the
/// 64-bit address space.
pub open spec fn region_fits(r: GuestRegion) -> bool {
    r.guest_base + r.size <= u64::MAX && r.host_address + r.size <= u64::MAX
}

/// The guest-address ranges of `a` and `b` have no byte in common.
pub open spec fn regions_disjoint(a: GuestRegion, b: GuestRegion) -> bool {
    a.guest_base + a.size <= b.guest_base || b.guest_base + b.size <= a.guest_base
}

/// A region set the kernel can be handed: every region fits the address
/// space and no two regions overlap.
pub open spec fn wf_regions(rs: Seq<GuestRegion>) -> bool {
    &&& forall|i: int| 0 <= i < rs.len() ==> #[trigger] region_fits(rs[i])
    &&& forall|i: int, j: int|
        0 <= i < rs.len() && 0 <= j < rs.len() && i != j ==> #[trigger] regions_disjoint(
            rs[i],
            rs[j],
        )
}

/// Some mapped region contains `addr`.
pub open spec fn spec_address_in_range(rs: Seq<GuestRegion>, addr: u64) -> bool {
    exists|i: int| 0 <= i < rs.len() && #[trigger] region_contains(rs[i], addr)
}

/// The host address for `addr` under the first region that contains it, or
/// `None` when no region does.
pub open spec fn translate(rs: Seq<GuestRegion>, addr: u64) -> Option<u64>
    decreases rs.len(),
{
    if rs.len() == 0 {
        None
    } else if region_contains(rs[0], addr) {
        Some(region_host(rs[0], addr))
    } else {
        translate(rs.subrange(1, rs.len() as int), addr)
    }
}

/// Why a region set was rejected or an address could not be used.
#[derive(Clone, Copy, Debug, PartialEq, Eq, Structural)]
pub enum GuestMemoryError {
    /// No mapped region backs the address.
    InvalidGuestAddress(GuestAddress),
    /// Two regions overlap in guest-physical space.
    MemoryRegionOverlap,
    /// A region's guest-side or host-side end wraps the address space.
    MemoryRegionTooLarge,
}

/// An ordered set of disjoint guest memory regions, fixed at construction.
#[derive(Debug)]
pub struct GuestMemory {
    regions: Vec<GuestRegion>,
}

impl View for GuestMemory {
    type V = Seq<GuestRegion>;

    closed spec fn view(&self) -> Seq<GuestRegion> {
        self.regions@
    }
}

impl GuestMemory {
    /// Holds of every constructed value: `new` is the only constructor and
    /// rejects region sets that are not well formed.
    #[verifier::type_invariant]
    pub open spec fn well_formed(self) -> bool {
        wf_regions(self@)
    }

    /// Accepts the region set if every region fits the address space and no
    /// two overlap; says which of the two checks failed otherwise.
    pub fn new(regions: Vec<GuestRegion>) -> (r: Result<GuestMemory, GuestMemoryError>)
        ensures
            match r {
                Ok(m) => m@ == regions@ && wf_regions(regions@),
                Err(GuestMemoryError::MemoryRegionTooLarge) => exists|i: int|
                    0 <= i < regions@.len() && !#[trigger] region_fits(regions@[i]),
                Err(GuestMemoryError::MemoryRegionOverlap) => (forall|i: int|
                    0 <= i < regions@.len() ==> #[trigger] region_fits(regions@[i])) && exists|
                    i: int,
                    j: int,
                |
                    0 <= i < regions@.len() && 0 <= j < regions@.len() && i != j
                        && !#[trigger] regions_disjoint(regions@[i], regions@[j]),
                _ => false,
            },
    {
        let n = regions.len();
        let mut i: usize = 0;
        while i < n
            invariant
                n == regions@.len(),
                i <= n,
                forall|k: int| 0 <= k < i ==> #[trigger] region_fits(regions@[k]),
            decreases n - i,
        {
            let r = regions[i];
            if !(r.size <= u64::MAX - r.guest_base && r.size <= u64::MAX - r.host_address) {
                proof {
                    assert(!region_fits(regions@[i as int]));
                }
                return Err(GuestMemoryError::MemoryRegionTooLarge);
            }
            i += 1;
        }
        let mut i: usize = 0;
        while i < n
            invariant
                n == regions@.len(),
                i <= n,
                forall|k: int| 0 <= k < n ==> #[trigger] region_fits(regions@[k]),
                forall|k: int, l: int|
                    0 <= k < l < i ==> #[trigger] regions_disjoint(regions@[k], regions@[l]),
            decreases n - i,
        {
            let a = regions[i];
            let mut j: usize = 0;
            while j < i
                invariant
                    n == regions@.len(),
                    i < n,
                    j <= i,
                    a == regions@[i as int],
                    forall|k: int| 0 <= k < n ==> #[trigger] region_fits(regions@[k]),
                    forall|k: int, l: int|
                        0 <= k < l < i ==> #[trigger] regions_disjoint(regions@[k], regions@[l]),
                    forall|k: int|
                        0 <= k < j ==> #[trigger] regions_disjoint(regions@[k], regions@[i as int]),
                decreases i - j,
            {
                let b = regions[j];
                proof {
                    assert(region_fits(regions@[i as int]));
                    assert(region_fits(regions@[j as int]));
                }
                if !(b.guest_base + b.size <= a.guest_base || a.guest_base + a.size
                    <= b.guest_base) {
                    proof {
                        assert(!regions_disjoint(regions@[j as int], regions@[i as int]));
                    }
                    return Err(GuestMemoryError::MemoryRegionOverlap);
                }
                j += 1;
            }
            i += 1;
        }
        proof {
            assert forall|k: int, l: int|
                0 <= k < regions@.len() && 0 <= l < regions@.len() && k
                    != l implies #[trigger] regions_disjoint(regions@[k], regions@[l]) by {
                if k < l {
                    assert(regions_disjoint(regions@[k], regions@[l]));
                } else {
                    assert(regions_disjoint(regions@[l], regions@[k]));
                }
            }
        }
        Ok(GuestMemory { regions })
    }

    /// How many regions the set holds.
    pub fn num_regions(&self) -> (r: usize)
        ensures
            r == self@.len(),
    {
        self.regions.len()
    }

    /// The region at `index`, in the set's stable enumeration order.
    pub fn region(&self, index: usize) -> (r: GuestRegion)
        requires
            index < self@.len(),
        ensures
            r == self@[index as int],
    {
        self.regions[index]
    }

    /// Whether some mapped region contains `addr`.
    pub fn address_in_range(&self, addr: GuestAddress) -> (r: bool)
        ensures
            r == spec_address_in_range(self@, addr.0),
    {
        let n = self.regions.len();
        let mut i: usize = 0;
        while i < n
            invariant
                n == self@.len(),
                i <= n,
                forall|j: int| 0 <= j < i ==> !#[trigger] region_contains(self@[j], addr.0),
            decreases n - i,
        {
            let r = self.regions[i];
            if r.guest_base <= addr.0 && addr.0 - r.guest_base < r.size {
                proof {
                    assert(region_contains(self@[i as int], addr.0));
                }
                return true;
            }
            i += 1;
        }
        false
    }

    /// Translates a guest-physical address to the host address it is mapped
    /// at; fails when no region backs it.
    pub fn get_host_address(&self, addr: GuestAddress) -> (r: Result<u64, GuestMemoryError>)
        ensures
            match translate(self@, addr.0) {
                Some(h) => r == Ok::<u64, GuestMemoryError>(h),
                None => r == Err::<u64, GuestMemoryError>(
                    GuestMemoryError::InvalidGuestAddress(addr),
                ),
            },
    {
        proof {
            use_type_invariant(self);
            assert(self@.skip(0) =~= self@);
        }
        let n = self.regions.len();
        let mut i: usize = 0;
        while i < n
            invariant
                wf_regions(self@),
                n == self@.len(),
                i <= n,
                translate(self@, addr.0) == translate(self@.skip(i as int), addr.0),
            decreases n - i,
        {
            let r = self.regions[i];
            proof {
                assert(self@.skip(i as int)[0] == self@[i as int]);
                assert(self@.skip(i as int).subrange(1, self@.skip(i as int).len() as int)
                    =~= self@.skip(i as int + 1));
            }
            if r.guest_base <= addr.0 && addr.0 - r.guest_base < r.size {
                proof {
                    assert(region_fits(self@[i as int]));
                }
                return Ok(r.host_address + (addr.0 - r.guest_base));
            }
            i += 1;
        }
        proof {
            assert(self@.skip(n as int) =~= Seq::<GuestRegion>::empty());
        }
        Err(GuestMemoryError::InvalidGuestAddress(addr))
    }
}

} // verus!
