//! The vhost protocol driver.
//!
//! Setting up a kernel-offloaded virtio device is a fixed sequence of ioctl
//! calls, each carrying a fixed-layout structure: claim ownership, negotiate
//! features, install the guest memory table, then configure each queue's
//! size, ring addresses, base index and notification descriptors. This
//! module builds every one of those requests byte-exactly, and guards the
//! ring-address request with the address validator so the kernel is never
//! given an unvalidated guest address.
//!
//! Structure fields are serialized little-endian at their kernel offsets.
//! The required call order (owner, then features, then memory table, then
//! the per-queue group) is the caller's obligation; it is not tracked here.

use vstd::arithmetic::power2::is_pow2;
use vstd::prelude::*;

use crate::endian::{le32, le64, push_le32, push_le64};
use crate::guest_mem::{
    spec_address_in_range, translate, wf_regions, GuestAddress, GuestMemory, GuestMemoryError,
    GuestRegion,
};

verus! {

/// Request code for claiming the device file descriptor.
pub const VHOST_SET_OWNER: u64 = 0x0000_AF01;

/// Request code for reading the kernel's supported feature bitmask.
pub const VHOST_GET_FEATURES: u64 = 0x8008_AF00;

/// Request code for negotiating the enabled feature subset.
pub const VHOST_SET_FEATURES: u64 = 0x4008_AF00;

/// Request code for installing the guest memory table.
pub const VHOST_SET_MEM_TABLE: u64 = 0x4008_AF03;

/// Request code for a queue's negotiated descriptor count.
pub const VHOST_SET_VRING_NUM: u64 = 0x4008_AF10;

/// Request code for a queue's ring addresses.
pub const VHOST_SET_VRING_ADDR: u64 = 0x4028_AF11;

/// Request code for a queue's first descriptor index.
pub const VHOST_SET_VRING_BASE: u64 = 0x4008_AF12;

/// Request code for a queue's guest-to-host notification descriptor.
pub const VHOST_SET_VRING_KICK: u64 = 0x4008_AF20;

/// Request code for a queue's host-to-guest notification descriptor.
pub const VHOST_SET_VRING_CALL: u64 = 0x4008_AF21;

/// What a configuration step can fail with.
#[derive(Clone, Copy, Debug, PartialEq, Eq, Structural)]
pub enum Error {
    /// Error opening vhost device.
    VhostOpen(i32),
    /// The kernel refused a request; carries its error code.
    IoctlError(i32),
    /// Invalid queue geometry or ring placement.
    InvalidQueue,
    /// Invalid descriptor table address.
    DescriptorTableAddress(GuestMemoryError),
    /// Invalid used ring address.
    UsedAddress(GuestMemoryError),
    /// Invalid available ring address.
    AvailAddress(GuestMemoryError),
    /// Invalid log address.
    LogAddress(GuestMemoryError),
}

/// One kernel call, fully assembled: the ioctl request code and the bytes of
/// its fixed-layout argument structure. An empty payload means the request
/// takes no input structure.
#[derive(Clone, Debug, PartialEq, Eq)]
pub struct IoctlRequest {
    /// The fixed numeric ioctl request code.
    pub code: u64,
    /// The argument structure, serialized field by field.
    pub payload: Vec<u8>,
}

/// The `vhost_vring_state` structure: queue index, then value.
pub open spec fn vring_state_bytes(index: u32, num: u32) -> Seq<u8> {
    le32(index) + le32(num)
}

/// The `vhost_vring_file` structure: queue index, then descriptor.
pub open spec fn vring_file_bytes(index: u32, fd: i32) -> Seq<u8> {
    le32(index) + le32(fd as u32)
}

/// The `vhost_vring_addr` structure: queue index, flags, then the host
/// addresses of the descriptor table, used ring and available ring, then the
/// log address (zero when logging is off).
pub open spec fn vring_addr_bytes(
    index: u32,
    flags: u32,
    desc: u64,
    used: u64,
    avail: u64,
    log: u64,
) -> Seq<u8> {
    le32(index) + le32(flags) + le64(desc) + le64(used) + le64(avail) + le64(log)
}

/// One memory table record: guest-physical base, size, host address, and a
/// zero flags/padding field.
pub open spec fn region_record_bytes(r: GuestRegion) -> Seq<u8> {
    le64(r.guest_base) + le64(r.size) + le64(r.host_address) + le64(0u64)
}

/// The table records of all regions, in enumeration order.
pub open spec fn regions_bytes(rs: Seq<GuestRegion>) -> Seq<u8>
    decreases rs.len(),
{
    if rs.len() == 0 {
        Seq::empty()
    } else {
        regions_bytes(rs.drop_last()) + region_record_bytes(rs.last())
    }
}

/// The full memory table: a header carrying the region count and a zero
/// padding word, immediately followed by one record per region.
pub open spec fn mem_table_bytes(rs: Seq<GuestRegion>) -> Seq<u8> {
    le32(rs.len() as u32) + le32(0u32) + regions_bytes(rs)
}

/// Bytes of the descriptor table for a queue of `queue_size` descriptors.
pub open spec fn desc_table_len(queue_size: u16) -> int {
    16 * queue_size
}

/// Bytes of the available ring for a queue of `queue_size` descriptors.
pub open spec fn avail_ring_len(queue_size: u16) -> int {
    6 + 2 * queue_size
}

/// Bytes of the used ring for a queue of `queue_size` descriptors.
pub open spec fn used_ring_len(queue_size: u16) -> int {
    6 + 8 * queue_size
}

/// A ring of `len` bytes at `base` passes the placement check: computing its
/// end address does not overflow, and the end lies in mapped guest memory.
pub open spec fn ring_range_ok(rs: Seq<GuestRegion>, base: GuestAddress, len: int) -> bool {
    base.0 + len <= u64::MAX && spec_address_in_range(rs, (base.0 + len) as u64)
}

/// The whole span of a ring at `base` of `len` bytes, including the
/// one-past-end address, lies inside region `r`.
pub open spec fn region_covers_span(r: GuestRegion, base: GuestAddress, len: int) -> bool {
    r.guest_base <= base.0 && base.0 + len < r.guest_base + r.size
}

/// The address validator's acceptance condition: the size is a nonzero power
/// of two no larger than the device maximum, and each of the three rings,
/// sized by the kernel's formulas, passes the placement check.
pub open spec fn spec_is_valid(
    rs: Seq<GuestRegion>,
    queue_max_size: u16,
    queue_size: u16,
    desc_addr: GuestAddress,
    avail_addr: GuestAddress,
    used_addr: GuestAddress,
) -> bool {
    &&& queue_size <= queue_max_size
    &&& queue_size != 0
    &&& is_pow2(queue_size as int)
    &&& ring_range_ok(rs, desc_addr, desc_table_len(queue_size))
    &&& ring_range_ok(rs, avail_addr, avail_ring_len(queue_size))
    &&& ring_range_ok(rs, used_addr, used_ring_len(queue_size))
}

/// What configuring a queue's ring addresses comes to: the validator's
/// validator first, then the translation of each ring address in a fixed
/// order, each failure mapped to the error of its ring.
pub open spec fn vring_addr_outcome(
    rs: Seq<GuestRegion>,
    queue_max_size: u16,
    queue_size: u16,
    queue_index: usize,
    flags: u32,
    desc_addr: GuestAddress,
    used_addr: GuestAddress,
    avail_addr: GuestAddress,
    log_addr: Option<GuestAddress>,
) -> Result<Seq<u8>, Error> {
    if !spec_is_valid(rs, queue_max_size, queue_size, desc_addr, avail_addr, used_addr) {
        Err(Error::InvalidQueue)
    } else {
        match translate(rs, desc_addr.0) {
            None => Err(
                Error::DescriptorTableAddress(GuestMemoryError::InvalidGuestAddress(desc_addr)),
            ),
            Some(desc) => match translate(rs, used_addr.0) {
                None => Err(Error::UsedAddress(GuestMemoryError::InvalidGuestAddress(used_addr))),
                Some(used) => match translate(rs, avail_addr.0) {
                    None => Err(
                        Error::AvailAddress(GuestMemoryError::InvalidGuestAddress(avail_addr)),
                    ),
                    Some(avail) => match log_addr {
                        None => Ok(
                            vring_addr_bytes(queue_index as u32, flags, desc, used, avail, 0),
                        ),
                        Some(log) => match translate(rs, log.0) {
                            None => Err(
                                Error::LogAddress(GuestMemoryError::InvalidGuestAddress(log)),
                            ),
                            Some(log_host) => Ok(
                                vring_addr_bytes(
                                    queue_index as u32,
                                    flags,
                                    desc,
                                    used,
                                    avail,
                                    log_host,
                                ),
                            ),
                        },
                    },
                },
            },
        }
    }
}

proof fn lemma_regions_bytes_len(rs: Seq<GuestRegion>)
    ensures
        regions_bytes(rs).len() == 32 * rs.len(),
    decreases rs.len(),
{
    if rs.len() > 0 {
        lemma_regions_bytes_len(rs.drop_last());
    }
}

/// The table is sized exactly to its fixed header plus one fixed-size
/// record per region: never under- or over-allocated, since the kernel
/// reads exactly as many records as the header's count declares.
pub proof fn lemma_mem_table_len(rs: Seq<GuestRegion>)
    ensures
        mem_table_bytes(rs).len() == 8 + 32 * rs.len(),
{
    lemma_regions_bytes_len(rs);
}

/// Serializes the guest memory view into the kernel's memory table layout.
/// The buffer is sized exactly to the header plus one record per region; a
/// view with no regions yields a well-formed table with count zero.
pub fn build_mem_table(mem: &GuestMemory) -> (r: Vec<u8>)
    ensures
        r@ == mem_table_bytes(mem@),
        r@.len() == 8 + 32 * mem@.len(),
{
    proof {
        lemma_mem_table_len(mem@);
    }
    let n = mem.num_regions();
    let mut buf: Vec<u8> = Vec::new();
    push_le32(&mut buf, #[verifier::truncate] (n as u32));
    push_le32(&mut buf, 0);
    proof {
        assert(mem@.take(0) =~= Seq::<GuestRegion>::empty());
    }
    let mut i: usize = 0;
    while i < n
        invariant
            n == mem@.len(),
            i <= n,
            buf@ == le32(mem@.len() as u32) + le32(0u32) + regions_bytes(mem@.take(i as int)),
        decreases n - i,
    {
        let r = mem.region(i);
        push_le64(&mut buf, r.guest_base);
        push_le64(&mut buf, r.size);
        push_le64(&mut buf, r.host_address);
        push_le64(&mut buf, 0);
        proof {
            assert(mem@.take(i + 1).drop_last() =~= mem@.take(i as int));
            assert(mem@.take(i + 1).last() == mem@[i as int]);
        }
        i += 1;
    }
    proof {
        assert(mem@.take(n as int) =~= mem@);
    }
    buf
}

/// An interface for setting up vhost-based virtio devices. Vhost-based
/// devices are different from regular virtio devices because the host kernel
/// takes care of handling all the data transfer. The device itself only
/// needs to deal with setting up the kernel driver and managing the control
/// channel: each method here assembles the request for one configuration
/// step, and the embedding program issues it as a single ioctl on the
/// device's file descriptor, reporting a kernel refusal as
/// [`Error::IoctlError`] with the kernel's error code.
pub trait Vhost: Sized {
    /// The guest memory view the device was created with.
    spec fn mem_view(&self) -> Seq<GuestRegion>;

    /// Get the guest memory mapping.
    fn mem(&self) -> (m: &GuestMemory)
        ensures
            m@ == self.mem_view(),
            wf_regions(self.mem_view()),
    ;

    /// Set the current process as the owner of this file descriptor.
    /// This request must be issued before any other vhost request.
    fn set_owner(&self) -> (r: IoctlRequest)
        ensures
            r.code == VHOST_SET_OWNER,
            r.payload@ == Seq::<u8>::empty(),
    {
        IoctlRequest { code: VHOST_SET_OWNER, payload: Vec::new() }
    }

    /// Ask the kernel for a bitmask of supported virtio/vhost features; the
    /// kernel writes the 64-bit mask through the request's argument.
    fn get_features(&self) -> (r: IoctlRequest)
        ensures
            r.code == VHOST_GET_FEATURES,
            r.payload@ == Seq::<u8>::empty(),
    {
        IoctlRequest { code: VHOST_GET_FEATURES, payload: Vec::new() }
    }

    /// Inform the vhost subsystem which features to enable. This should be a
    /// subset of supported features from the feature query — a contract the
    /// caller upholds; it is not checked here.
    ///
    /// # Arguments
    /// * `features` - Bitmask of features to set.
    fn set_features(&self, features: u64) -> (r: IoctlRequest)
        ensures
            r.code == VHOST_SET_FEATURES,
            r.payload@ == le64(features),
    {
        let mut payload: Vec<u8> = Vec::new();
        push_le64(&mut payload, features);
        IoctlRequest { code: VHOST_SET_FEATURES, payload }
    }

    /// Build the guest memory table for vhost to use. The table is rebuilt
    /// in full from the device's memory view on every call, so issuing it
    /// again with an unchanged view carries byte-identical payload.
    fn set_mem_table(&self) -> (r: IoctlRequest)
        ensures
            r.code == VHOST_SET_MEM_TABLE,
            r.payload@ == mem_table_bytes(self.mem_view()),
    {
        IoctlRequest { code: VHOST_SET_MEM_TABLE, payload: build_mem_table(self.mem()) }
    }

    /// Set the number of descriptors in the vring.
    ///
    /// # Arguments
    /// * `queue_index` - Index of the queue to set descriptor count for.
    /// * `num` - Number of descriptors in the queue.
    fn set_vring_num(&self, queue_index: usize, num: u16) -> (r: IoctlRequest)
        ensures
            r.code == VHOST_SET_VRING_NUM,
            r.payload@ == vring_state_bytes(queue_index as u32, num as u32),
    {
        let mut payload: Vec<u8> = Vec::new();
        push_le32(&mut payload, #[verifier::truncate] (queue_index as u32));
        push_le32(&mut payload, num as u32);
        IoctlRequest { code: VHOST_SET_VRING_NUM, payload }
    }

    /// Check that a queue's geometry and ring placement are safe to hand to
    /// the kernel; all three rings must pass.
    fn is_valid(
        &self,
        queue_max_size: u16,
        queue_size: u16,
        desc_addr: GuestAddress,
        avail_addr: GuestAddress,
        used_addr: GuestAddress,
    ) -> (r: bool)
        ensures
            r == spec_is_valid(
                self.mem_view(),
                queue_max_size,
                queue_size,
                desc_addr,
                avail_addr,
                used_addr,
            ),
    {
        if queue_size > queue_max_size || queue_size == 0 {
            return false;
        }
        proof {
            lemma_is_pow2_bit_trick(queue_size);
        }
        if (queue_size & (queue_size - 1)) != 0 {
            return false;
        }
        let m = self.mem();
        let desc_ok = match desc_addr.checked_add(16 * (queue_size as u64)) {
            Some(end) => m.address_in_range(end),
            None => false,
        };
        let avail_ok = match avail_addr.checked_add(6 + 2 * (queue_size as u64)) {
            Some(end) => m.address_in_range(end),
            None => false,
        };
        let used_ok = match used_addr.checked_add(6 + 8 * (queue_size as u64)) {
            Some(end) => m.address_in_range(end),
            None => false,
        };
        desc_ok && avail_ok && used_ok
    }

    /// Set the addresses for a given vring: run the validator, and on
    /// success translate each ring address to its host mapping, failing with
    /// the error of the first ring whose address has no backing. The kernel
    /// is never given unvalidated addresses: no request is produced on any
    /// failure.
    ///
    /// # Arguments
    /// * `queue_max_size` - Maximum queue size supported by the device.
    /// * `queue_size` - Actual queue size negotiated by the driver.
    /// * `queue_index` - Index of the queue to set addresses for.
    /// * `flags` - Bitmask of vring flags.
    /// * `desc_addr` - Descriptor table address.
    /// * `used_addr` - Used ring buffer address.
    /// * `avail_addr` - Available ring buffer address.
    /// * `log_addr` - Optional address for logging.
    fn set_vring_addr(
        &self,
        queue_max_size: u16,
        queue_size: u16,
        queue_index: usize,
        flags: u32,
        desc_addr: GuestAddress,
        used_addr: GuestAddress,
        avail_addr: GuestAddress,
        log_addr: Option<GuestAddress>,
    ) -> (r: Result<IoctlRequest, Error>)
        ensures
            match vring_addr_outcome(
                self.mem_view(),
                queue_max_size,
                queue_size,
                queue_index,
                flags,
                desc_addr,
                used_addr,
                avail_addr,
                log_addr,
            ) {
                Ok(bytes) => r matches Ok(req) && req.code == VHOST_SET_VRING_ADDR
                    && req.payload@ == bytes,
                Err(e) => r == Err::<IoctlRequest, Error>(e),
            },
    {
        if !self.is_valid(queue_max_size, queue_size, desc_addr, avail_addr, used_addr) {
            return Err(Error::InvalidQueue);
        }
        let m = self.mem();
        let desc = match m.get_host_address(desc_addr) {
            Ok(host) => host,
            Err(e) => {
                return Err(Error::DescriptorTableAddress(e));
            },
        };
        let used = match m.get_host_address(used_addr) {
            Ok(host) => host,
            Err(e) => {
                return Err(Error::UsedAddress(e));
            },
        };
        let avail = match m.get_host_address(avail_addr) {
            Ok(host) => host,
            Err(e) => {
                return Err(Error::AvailAddress(e));
            },
        };
        let log = match log_addr {
            None => 0u64,
            Some(addr) => match m.get_host_address(addr) {
                Ok(host) => host,
                Err(e) => {
                    return Err(Error::LogAddress(e));
                },
            },
        };
        let mut payload: Vec<u8> = Vec::new();
        push_le32(&mut payload, #[verifier::truncate] (queue_index as u32));
        push_le32(&mut payload, flags);
        push_le64(&mut payload, desc);
        push_le64(&mut payload, used);
        push_le64(&mut payload, avail);
        push_le64(&mut payload, log);
        Ok(IoctlRequest { code: VHOST_SET_VRING_ADDR, payload })
    }

    /// Set the first index to look for available descriptors.
    ///
    /// # Arguments
    /// * `queue_index` - Index of the queue to modify.
    /// * `num` - Index where available descriptors start.
    fn set_vring_base(&self, queue_index: usize, num: u16) -> (r: IoctlRequest)
        ensures
            r.code == VHOST_SET_VRING_BASE,
            r.payload@ == vring_state_bytes(queue_index as u32, num as u32),
    {
        let mut payload: Vec<u8> = Vec::new();
        push_le32(&mut payload, #[verifier::truncate] (queue_index as u32));
        push_le32(&mut payload, num as u32);
        IoctlRequest { code: VHOST_SET_VRING_BASE, payload }
    }

    /// Set the notification descriptor to trigger when buffers have been
    /// used by the host.
    ///
    /// # Arguments
    /// * `queue_index` - Index of the queue to modify.
    /// * `fd` - Descriptor of the notification primitive to trigger.
    fn set_vring_call(&self, queue_index: usize, fd: i32) -> (r: IoctlRequest)
        ensures
            r.code == VHOST_SET_VRING_CALL,
            r.payload@ == vring_file_bytes(queue_index as u32, fd),
    {
        let mut payload: Vec<u8> = Vec::new();
        push_le32(&mut payload, #[verifier::truncate] (queue_index as u32));
        push_le32(&mut payload, #[verifier::truncate] (fd as u32));
        IoctlRequest { code: VHOST_SET_VRING_CALL, payload }
    }

    /// Set the notification descriptor that the guest signals when buffers
    /// are available for the host to process.
    ///
    /// # Arguments
    /// * `queue_index` - Index of the queue to modify.
    /// * `fd` - Descriptor that will be signaled from the guest.
    fn set_vring_kick(&self, queue_index: usize, fd: i32) -> (r: IoctlRequest)
        ensures
            r.code == VHOST_SET_VRING_KICK,
            r.payload@ == vring_file_bytes(queue_index as u32, fd),
    {
        let mut payload: Vec<u8> = Vec::new();
        push_le32(&mut payload, #[verifier::truncate] (queue_index as u32));
        push_le32(&mut payload, #[verifier::truncate] (fd as u32));
        IoctlRequest { code: VHOST_SET_VRING_KICK, payload }
    }
}

/// A protocol session: the guest memory view that one open vhost device is
/// configured from. The embedding program pairs it with the device's file
/// descriptor; exactly one session drives each kernel vhost instance.
#[derive(Debug)]
pub struct VhostSession {
    mem: GuestMemory,
}

impl VhostSession {
    /// Creates the session over a fixed guest memory view.
    pub fn new(mem: GuestMemory) -> (s: VhostSession)
        ensures
            s.mem_view() == mem@,
    {
        VhostSession { mem }
    }
}

impl Vhost for VhostSession {
    closed spec fn mem_view(&self) -> Seq<GuestRegion> {
        self.mem@
    }

    fn mem(&self) -> (m: &GuestMemory) {
        proof {
            use_type_invariant(&self.mem);
        }
        &self.mem
    }
}

/// Relates the `size & (size - 1)` trick used by the validator to the
/// mathematical power-of-two predicate.
pub proof fn lemma_is_pow2_bit_trick(s: u16)
    ensures
        (s != 0 && (s & ((s - 1) as u16)) == 0) <==> is_pow2(s as int),
{
    reveal_with_fuel(is_pow2, 18);
    assert((s != 0 && (s & ((s - 1) as u16)) == 0) <==> (s == 1 || s == 2 || s == 4 || s == 8 || s == 16
        || s == 32 || s == 64 || s == 128 || s == 256 || s == 512 || s == 1024 || s == 2048
        || s == 4096 || s == 8192 || s == 16384 || s == 32768)) by (bit_vector);
}

/// With all three rings sufficiently backed, validation succeeds exactly
/// when the negotiated size is a nonzero power of two no larger than the
/// device maximum.
pub proof fn lemma_is_valid_size_criterion(
    rs: Seq<GuestRegion>,
    queue_max_size: u16,
    queue_size: u16,
    desc_addr: GuestAddress,
    avail_addr: GuestAddress,
    used_addr: GuestAddress,
)
    requires
        ring_range_ok(rs, desc_addr, desc_table_len(queue_size)),
        ring_range_ok(rs, avail_addr, avail_ring_len(queue_size)),
        ring_range_ok(rs, used_addr, used_ring_len(queue_size)),
    ensures
        spec_is_valid(rs, queue_max_size, queue_size, desc_addr, avail_addr, used_addr) <==> (
        queue_size != 0 && is_pow2(queue_size as int) && queue_size <= queue_max_size),
{
}

/// A ring whose end computation overflows the address type is rejected,
/// independent of what memory is mapped.
pub proof fn lemma_overflow_rejected(
    rs: Seq<GuestRegion>,
    queue_max_size: u16,
    queue_size: u16,
    desc_addr: GuestAddress,
    avail_addr: GuestAddress,
    used_addr: GuestAddress,
)
    requires
        desc_addr.0 + desc_table_len(queue_size) > u64::MAX || avail_addr.0 + avail_ring_len(
            queue_size,
        ) > u64::MAX || used_addr.0 + used_ring_len(queue_size) > u64::MAX,
    ensures
        !spec_is_valid(rs, queue_max_size, queue_size, desc_addr, avail_addr, used_addr),
{
}

/// Rings whose whole spans, one-past-end address included, lie inside
/// mapped regions pass validation whenever the queue geometry does.
pub proof fn lemma_contained_rings_valid(
    rs: Seq<GuestRegion>,
    queue_max_size: u16,
    queue_size: u16,
    desc_addr: GuestAddress,
    avail_addr: GuestAddress,
    used_addr: GuestAddress,
)
    requires
        wf_regions(rs),
        queue_size != 0,
        is_pow2(queue_size as int),
        queue_size <= queue_max_size,
        exists|i: int|
            0 <= i < rs.len() && #[trigger] region_covers_span(
                rs[i],
                desc_addr,
                desc_table_len(queue_size),
            ),
        exists|i: int|
            0 <= i < rs.len() && #[trigger] region_covers_span(
                rs[i],
                avail_addr,
                avail_ring_len(queue_size),
            ),
        exists|i: int|
            0 <= i < rs.len() && #[trigger] region_covers_span(
                rs[i],
                used_addr,
                used_ring_len(queue_size),
            ),
    ensures
        spec_is_valid(rs, queue_max_size, queue_size, desc_addr, avail_addr, used_addr),
{
    lemma_covered_ring_range_ok(rs, desc_addr, desc_table_len(queue_size));
    lemma_covered_ring_range_ok(rs, avail_addr, avail_ring_len(queue_size));
    lemma_covered_ring_range_ok(rs, used_addr, used_ring_len(queue_size));
}

proof fn lemma_covered_ring_range_ok(rs: Seq<GuestRegion>, base: GuestAddress, len: int)
    requires
        wf_regions(rs),
        0 <= len,
        exists|i: int| 0 <= i < rs.len() && #[trigger] region_covers_span(rs[i], base, len),
    ensures
        ring_range_ok(rs, base, len),
{
    let i = choose|i: int| 0 <= i < rs.len() && #[trigger] region_covers_span(rs[i], base, len);
    assert(crate::guest_mem::region_fits(rs[i]));
    assert(crate::guest_mem::region_contains(rs[i], ((base.0 + len) as u64)));
}

/// A ring whose computed end lies at or past the end of every mapped region
/// fails validation.
pub proof fn lemma_ring_end_unmapped(
    rs: Seq<GuestRegion>,
    queue_max_size: u16,
    queue_size: u16,
    desc_addr: GuestAddress,
    avail_addr: GuestAddress,
    used_addr: GuestAddress,
)
    requires
        forall|i: int|
            0 <= i < rs.len() ==> #[trigger] rs[i].guest_base + rs[i].size <= desc_addr.0
                + desc_table_len(queue_size),
    ensures
        !spec_is_valid(rs, queue_max_size, queue_size, desc_addr, avail_addr, used_addr),
{
    if spec_is_valid(rs, queue_max_size, queue_size, desc_addr, avail_addr, used_addr) {
        let end = (desc_addr.0 + desc_table_len(queue_size)) as u64;
        assert(spec_address_in_range(rs, end));
        let i = choose|i: int|
            0 <= i < rs.len() && #[trigger] crate::guest_mem::region_contains(rs[i], end);
        assert(false);
    }
}

/// The kernel is never given unvalidated ring addresses: a ring-address
/// request exists only for a queue the validator accepted, and on any
/// validation failure the outcome is the invalid-queue error, with no
/// request at all.
pub proof fn lemma_no_unvalidated_request(
    rs: Seq<GuestRegion>,
    queue_max_size: u16,
    queue_size: u16,
    queue_index: usize,
    flags: u32,
    desc_addr: GuestAddress,
    used_addr: GuestAddress,
    avail_addr: GuestAddress,
    log_addr: Option<GuestAddress>,
)
    ensures
        vring_addr_outcome(
            rs,
            queue_max_size,
            queue_size,
            queue_index,
            flags,
            desc_addr,
            used_addr,
            avail_addr,
            log_addr,
        ) matches Ok(_) ==> spec_is_valid(
            rs,
            queue_max_size,
            queue_size,
            desc_addr,
            avail_addr,
            used_addr,
        ),
        !spec_is_valid(rs, queue_max_size, queue_size, desc_addr, avail_addr, used_addr)
            ==> vring_addr_outcome(
            rs,
            queue_max_size,
            queue_size,
            queue_index,
            flags,
            desc_addr,
            used_addr,
            avail_addr,
            log_addr,
        ) == Err::<Seq<u8>, Error>(Error::InvalidQueue),
{
}

/// Installing the memory table is idempotent: two requests built from the
/// same guest memory view carry byte-identical payloads.
pub proof fn lemma_set_mem_table_idempotent(
    first: IoctlRequest,
    second: IoctlRequest,
    rs: Seq<GuestRegion>,
)
    requires
        first.code == VHOST_SET_MEM_TABLE,
        first.payload@ == mem_table_bytes(rs),
        second.code == VHOST_SET_MEM_TABLE,
        second.payload@ == mem_table_bytes(rs),
    ensures
        first.code == second.code,
        first.payload@ == second.payload@,
{
}

} // verus!
