use vhost::guest_mem::{GuestAddress, GuestMemory, GuestMemoryError, GuestRegion};
use vhost::vhost::{
    Error, Vhost, VhostSession, VHOST_GET_FEATURES, VHOST_SET_FEATURES, VHOST_SET_MEM_TABLE,
    VHOST_SET_OWNER, VHOST_SET_VRING_ADDR, VHOST_SET_VRING_BASE, VHOST_SET_VRING_CALL,
    VHOST_SET_VRING_KICK, VHOST_SET_VRING_NUM,
};

const HOST_A: u64 = 0x7f10_0000_0000;
const HOST_B: u64 = 0x7f20_0000_0000;

fn region(guest_base: u64, size: u64, host_address: u64) -> GuestRegion {
    GuestRegion {
        guest_base,
        size,
        host_address,
    }
}

/// The two-region map used throughout: `[(0x0, 0x100), (0x100, 0x400)]`.
fn create_guest_memory() -> Result<GuestMemory, GuestMemoryError> {
    GuestMemory::new(vec![
        region(0x0, 0x100, HOST_A),
        region(0x100, 0x400, HOST_B),
    ])
}

fn create_session() -> VhostSession {
    VhostSession::new(create_guest_memory().unwrap())
}

/// A single large region for geometry-only tests.
fn create_large_session() -> VhostSession {
    let gm = GuestMemory::new(vec![region(0x0, 0x10_0000, HOST_A)]).unwrap();
    VhostSession::new(gm)
}

fn le32_of(bytes: &[u8]) -> u32 {
    u32::from_le_bytes(bytes.try_into().unwrap())
}

fn le64_of(bytes: &[u8]) -> u64 {
    u64::from_le_bytes(bytes.try_into().unwrap())
}

#[test]
fn set_owner() {
    let vhost_net = create_session();
    let req = vhost_net.set_owner();
    assert_eq!(req.code, VHOST_SET_OWNER);
    assert_eq!(req.code, 0x0000_AF01);
    assert!(req.payload.is_empty());
}

#[test]
fn get_features() {
    let vhost_net = create_session();
    let req = vhost_net.get_features();
    assert_eq!(req.code, VHOST_GET_FEATURES);
    assert_eq!(req.code, 0x8008_AF00);
    assert!(req.payload.is_empty());
}

#[test]
fn set_features() {
    let vhost_net = create_session();
    let req = vhost_net.set_features(0);
    assert_eq!(req.code, VHOST_SET_FEATURES);
    assert_eq!(req.code, 0x4008_AF00);
    assert_eq!(req.payload, vec![0u8; 8]);

    let req = vhost_net.set_features(0x0102_0304_0506_0708);
    assert_eq!(
        req.payload,
        vec![0x08, 0x07, 0x06, 0x05, 0x04, 0x03, 0x02, 0x01]
    );
}

#[test]
fn guest_memory_rejects_overlap() {
    let err = GuestMemory::new(vec![
        region(0x0, 0x200, HOST_A),
        region(0x100, 0x400, HOST_B),
    ])
    .unwrap_err();
    assert_eq!(err, GuestMemoryError::MemoryRegionOverlap);
}

#[test]
fn guest_memory_rejects_wrapping_region() {
    let err = GuestMemory::new(vec![region(u64::MAX - 0x10, 0x100, HOST_A)]).unwrap_err();
    assert_eq!(err, GuestMemoryError::MemoryRegionTooLarge);
}

#[test]
fn guest_memory_translates_addresses() {
    let gm = create_guest_memory().unwrap();
    assert_eq!(gm.num_regions(), 2);
    assert!(gm.address_in_range(GuestAddress(0x0)));
    assert!(gm.address_in_range(GuestAddress(0x4ff)));
    assert!(!gm.address_in_range(GuestAddress(0x500)));
    assert_eq!(gm.get_host_address(GuestAddress(0x20)), Ok(HOST_A + 0x20));
    assert_eq!(gm.get_host_address(GuestAddress(0x120)), Ok(HOST_B + 0x20));
    assert_eq!(
        gm.get_host_address(GuestAddress(0x500)),
        Err(GuestMemoryError::InvalidGuestAddress(GuestAddress(0x500)))
    );
}

#[test]
fn is_valid_size_criterion() {
    let session = create_large_session();
    let desc = GuestAddress(0x0);
    let avail = GuestAddress(0x2000);
    let used = GuestAddress(0x3000);
    for bad in [0u16, 3, 5, 17] {
        assert!(!session.is_valid(256, bad, desc, avail, used), "size {bad}");
    }
    for good in [1u16, 2, 4, 256] {
        assert!(session.is_valid(256, good, desc, avail, used), "size {good}");
    }
    // Over the device maximum, or not a power of two, even with backing.
    assert!(!session.is_valid(256, 512, desc, avail, used));
    assert!(!session.is_valid(256, 12, desc, avail, used));
}

#[test]
fn is_valid_rejects_end_overflow() {
    let session = create_large_session();
    let near_top = GuestAddress(u64::MAX - 0x10);
    let avail = GuestAddress(0x2000);
    let used = GuestAddress(0x3000);
    // Each ring in turn placed so that its end computation overflows.
    assert!(!session.is_valid(256, 16, near_top, avail, used));
    assert!(!session.is_valid(256, 16, GuestAddress(0x0), near_top, used));
    assert!(!session.is_valid(256, 16, GuestAddress(0x0), avail, near_top));
}

#[test]
fn is_valid_checks_ring_placement() {
    // Two regions [(0x0, 0x100), (0x100, 0x400)]: guest memory ends at 0x500.
    let session = create_session();
    let avail = GuestAddress(0x200);
    let used = GuestAddress(0x300);
    // A 16-entry descriptor table needs 256 bytes: at 0x4F8 its end 0x5F8
    // exceeds 0x500 and validation fails.
    assert!(!session.is_valid(16, 16, GuestAddress(0x4F8), avail, used));
    // At 0x100 its end 0x200 is mapped and validation succeeds.
    assert!(session.is_valid(16, 16, GuestAddress(0x100), avail, used));
}

#[test]
fn mem_table_round_trip() {
    let session = create_session();
    let req = session.set_mem_table();
    assert_eq!(req.code, VHOST_SET_MEM_TABLE);
    assert_eq!(req.code, 0x4008_AF03);

    let bytes = &req.payload;
    // Header: region count, then a zero padding word.
    assert_eq!(bytes.len(), 8 + 2 * 32);
    assert_eq!(le32_of(&bytes[0..4]), 2);
    assert_eq!(le32_of(&bytes[4..8]), 0);
    // Record 0: (0x0, 0x100, HOST_A), zero flags.
    assert_eq!(le64_of(&bytes[8..16]), 0x0);
    assert_eq!(le64_of(&bytes[16..24]), 0x100);
    assert_eq!(le64_of(&bytes[24..32]), HOST_A);
    assert_eq!(le64_of(&bytes[32..40]), 0);
    // Record 1: (0x100, 0x400, HOST_B), zero flags.
    assert_eq!(le64_of(&bytes[40..48]), 0x100);
    assert_eq!(le64_of(&bytes[48..56]), 0x400);
    assert_eq!(le64_of(&bytes[56..64]), HOST_B);
    assert_eq!(le64_of(&bytes[64..72]), 0);
}

#[test]
fn mem_table_empty_is_well_formed() {
    let gm = GuestMemory::new(Vec::new()).unwrap();
    let session = VhostSession::new(gm);
    let req = session.set_mem_table();
    assert_eq!(req.payload, vec![0u8; 8]);
}

#[test]
fn set_mem_table_is_idempotent() {
    let session = create_session();
    let first = session.set_mem_table();
    let second = session.set_mem_table();
    assert_eq!(first.code, second.code);
    assert_eq!(first.payload, second.payload);
}

#[test]
fn set_vring_num_layout() {
    let session = create_session();
    let req = session.set_vring_num(3, 256);
    assert_eq!(req.code, VHOST_SET_VRING_NUM);
    assert_eq!(req.code, 0x4008_AF10);
    assert_eq!(req.payload, vec![3, 0, 0, 0, 0, 1, 0, 0]);
}

#[test]
fn set_vring_base_layout() {
    let session = create_session();
    let req = session.set_vring_base(1, 0x1234);
    assert_eq!(req.code, VHOST_SET_VRING_BASE);
    assert_eq!(req.code, 0x4008_AF12);
    assert_eq!(req.payload, vec![1, 0, 0, 0, 0x34, 0x12, 0, 0]);
}

#[test]
fn set_vring_call_and_kick_layout() {
    let session = create_session();
    let call = session.set_vring_call(0, 5);
    assert_eq!(call.code, VHOST_SET_VRING_CALL);
    assert_eq!(call.code, 0x4008_AF21);
    assert_eq!(call.payload, vec![0, 0, 0, 0, 5, 0, 0, 0]);

    let kick = session.set_vring_kick(2, -1);
    assert_eq!(kick.code, VHOST_SET_VRING_KICK);
    assert_eq!(kick.code, 0x4008_AF20);
    assert_eq!(kick.payload, vec![2, 0, 0, 0, 0xff, 0xff, 0xff, 0xff]);
}

#[test]
fn set_vring_addr_translates_rings() {
    let session = create_session();
    // A 16-entry queue: descriptor table 256 bytes at 0x100, available ring
    // 38 bytes at 0x200, used ring 134 bytes at 0x300; all in region 1.
    let req = session
        .set_vring_addr(
            16,
            16,
            0,
            0,
            GuestAddress(0x100),
            GuestAddress(0x300),
            GuestAddress(0x200),
            None,
        )
        .unwrap();
    assert_eq!(req.code, VHOST_SET_VRING_ADDR);
    assert_eq!(req.code, 0x4028_AF11);
    assert_eq!(req.payload.len(), 40);
    assert_eq!(le32_of(&req.payload[0..4]), 0);
    assert_eq!(le32_of(&req.payload[4..8]), 0);
    assert_eq!(le64_of(&req.payload[8..16]), HOST_B); // descriptor table
    assert_eq!(le64_of(&req.payload[16..24]), HOST_B + 0x200); // used ring
    assert_eq!(le64_of(&req.payload[24..32]), HOST_B + 0x100); // available ring
    assert_eq!(le64_of(&req.payload[32..40]), 0); // no logging
}

#[test]
fn set_vring_addr_rejects_invalid_queue() {
    let session = create_session();
    // Valid geometry, but the descriptor table's end is past mapped memory.
    let r = session.set_vring_addr(
        16,
        16,
        0,
        0,
        GuestAddress(0x4F8),
        GuestAddress(0x300),
        GuestAddress(0x200),
        None,
    );
    assert_eq!(r.unwrap_err(), Error::InvalidQueue);
    // A size that is not a power of two.
    let r = session.set_vring_addr(
        16,
        6,
        0,
        0,
        GuestAddress(0x100),
        GuestAddress(0x300),
        GuestAddress(0x200),
        None,
    );
    assert_eq!(r.unwrap_err(), Error::InvalidQueue);
}

#[test]
fn set_vring_addr_distinguishes_translation_failures() {
    // One region starting at 0x100: an address below it can still pass the
    // end-address check while its start is unmapped.
    let gm = GuestMemory::new(vec![region(0x100, 0x400, HOST_B)]).unwrap();
    let session = VhostSession::new(gm);
    let in_range = GuestAddress(0x200);
    // Each address starts below the mapped region but ends inside it, so it
    // passes the end-address validation and fails only its own translation:
    // descriptor table 256 bytes, used ring 134 bytes, available ring 38.
    let desc_bad = GuestAddress(0x50);
    let used_bad = GuestAddress(0x80);
    let avail_bad = GuestAddress(0xE0);

    let r = session.set_vring_addr(16, 16, 0, 0, desc_bad, in_range, in_range, None);
    assert_eq!(
        r.unwrap_err(),
        Error::DescriptorTableAddress(GuestMemoryError::InvalidGuestAddress(desc_bad))
    );

    let r = session.set_vring_addr(16, 16, 0, 0, in_range, used_bad, in_range, None);
    assert_eq!(
        r.unwrap_err(),
        Error::UsedAddress(GuestMemoryError::InvalidGuestAddress(used_bad))
    );

    let r = session.set_vring_addr(16, 16, 0, 0, in_range, in_range, avail_bad, None);
    assert_eq!(
        r.unwrap_err(),
        Error::AvailAddress(GuestMemoryError::InvalidGuestAddress(avail_bad))
    );

    let r = session.set_vring_addr(
        16,
        16,
        0,
        0,
        in_range,
        in_range,
        in_range,
        Some(GuestAddress(0x1000)),
    );
    assert_eq!(
        r.unwrap_err(),
        Error::LogAddress(GuestMemoryError::InvalidGuestAddress(GuestAddress(0x1000)))
    );

    let r = session.set_vring_addr(16, 16, 0, 0, in_range, in_range, in_range, Some(in_range));
    assert!(r.is_ok());
}

#[test]
fn configuration_sequence() {
    // A freshly opened session is driven through the required order:
    // owner, features, memory table, then per-queue configuration.
    let session = create_large_session();
    assert_eq!(session.set_owner().code, VHOST_SET_OWNER);
    assert_eq!(session.set_features(0).code, VHOST_SET_FEATURES);
    assert_eq!(session.set_mem_table().code, VHOST_SET_MEM_TABLE);
    assert_eq!(session.set_vring_num(0, 256).code, VHOST_SET_VRING_NUM);
    let r = session.set_vring_addr(
        256,
        256,
        0,
        0,
        GuestAddress(0x0),
        GuestAddress(0x3000),
        GuestAddress(0x2000),
        None,
    );
    assert!(r.is_ok());

    // Against a session whose memory has nothing mapped at the requested
    // addresses, the same per-queue call fails with the invalid-queue error.
    let empty = VhostSession::new(GuestMemory::new(Vec::new()).unwrap());
    let r = empty.set_vring_addr(
        256,
        256,
        0,
        0,
        GuestAddress(0x0),
        GuestAddress(0x3000),
        GuestAddress(0x2000),
        None,
    );
    assert_eq!(r.unwrap_err(), Error::InvalidQueue);
}

#[test]
fn guest_address_checked_add() {
    assert_eq!(
        GuestAddress(0x100).checked_add(0x20),
        Some(GuestAddress(0x120))
    );
    assert_eq!(GuestAddress(u64::MAX).checked_add(1), None);
    assert_eq!(GuestAddress(0x42).offset(), 0x42);
}
