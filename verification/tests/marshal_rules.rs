use dee::marshal::{allocation_request, guest_offset, result_region, GuestRegion};
use dee::{DeeError, JsonDocument, MemoryAccess};

#[test]
fn allocation_request_is_the_length_while_it_fits() {
    assert_eq!(allocation_request(0), Ok(0));
    assert_eq!(allocation_request(8), Ok(8));
    assert_eq!(allocation_request(65_536), Ok(65_536));
    assert_eq!(allocation_request(i32::MAX as usize - 1), Ok(i32::MAX - 1));
    assert_eq!(allocation_request(i32::MAX as usize), Ok(i32::MAX));
}

#[test]
fn allocation_request_refuses_a_length_the_guest_cannot_be_told() {
    let refused = Err(DeeError::Serialization(JsonDocument::Input));
    assert_eq!(allocation_request(0x8000_0000), refused);
    assert_eq!(allocation_request(0x8000_0001), refused);
    assert_eq!(allocation_request(0xffff_ffff), refused);
    assert_eq!(allocation_request(0x1_0000_0000), refused);
    assert_eq!(allocation_request(0x1_0000_0005), refused);
    assert_eq!(allocation_request(usize::MAX), refused);
}

#[test]
fn guest_offset_of_a_natural_number_is_itself() {
    assert_eq!(guest_offset(0), 0);
    assert_eq!(guest_offset(1024), 1024);
    assert_eq!(guest_offset(i32::MAX), i32::MAX as usize);
}

#[test]
fn guest_offset_of_a_negative_number_lies_at_the_top() {
    assert_eq!(guest_offset(-1), usize::MAX);
    assert_eq!(guest_offset(-2), usize::MAX - 1);
    assert_eq!(guest_offset(i32::MIN), usize::MAX - (i32::MAX as usize));
    for value in [-1i32, -65_536, i32::MIN, i32::MAX, 0, 17] {
        assert_eq!(guest_offset(value), value as usize);
    }
}

#[test]
fn region_within_memory_is_located() {
    assert_eq!(result_region(1024, 8, 65_536), Ok(GuestRegion { offset: 1024, len: 8 }));
    assert_eq!(result_region(0, 0, 0), Ok(GuestRegion { offset: 0, len: 0 }));
}

#[test]
fn region_may_end_where_memory_ends() {
    assert_eq!(result_region(65_528, 8, 65_536), Ok(GuestRegion { offset: 65_528, len: 8 }));
    assert_eq!(result_region(65_536, 0, 65_536), Ok(GuestRegion { offset: 65_536, len: 0 }));
    assert_eq!(result_region(0, 65_536, 65_536), Ok(GuestRegion { offset: 0, len: 65_536 }));
}

#[test]
fn region_beyond_memory_is_refused() {
    let refused = Err(DeeError::MemoryAccess(MemoryAccess::ReadResult));
    assert_eq!(result_region(65_529, 8, 65_536), refused);
    assert_eq!(result_region(65_537, 0, 65_536), refused);
    assert_eq!(result_region(0, 65_537, 65_536), refused);
    assert_eq!(result_region(i32::MAX, i32::MAX, 65_536), refused);
    assert_eq!(result_region(0, 1, 0), refused);
}

#[test]
fn negative_pointer_or_length_is_refused() {
    let refused = Err(DeeError::MemoryAccess(MemoryAccess::ReadResult));
    assert_eq!(result_region(-1, 0, 65_536), refused);
    assert_eq!(result_region(0, -1, 65_536), refused);
    assert_eq!(result_region(-1, -1, usize::MAX), refused);
    assert_eq!(result_region(i32::MIN, 4, 1 << 32), refused);
}
