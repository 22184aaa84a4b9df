use sync_edit::os::{ExecutableBuf, ExecutableMemory, ExecutablePage, IoError, Process, ProcessMemorySlice};

#[test]
fn executable_page_allocations_are_consecutive_and_disjoint() {
    let mut page = ExecutablePage::from_allocation(0x10000, 4096).unwrap();
    let a = page.allocate(100).unwrap();
    let b = page.allocate(50).unwrap();
    assert_eq!(a, 0x10000);
    assert_eq!(b, 0x10000 + 100);
    assert!(a + 100 <= b);
    assert_eq!(page.allocated, 150);
}

#[test]
fn executable_page_refuses_when_full_and_stays_unchanged() {
    let mut page = ExecutablePage::from_allocation(0x20000, 64).unwrap();
    assert_eq!(page.allocate(60), Ok(0x20000));
    assert_eq!(page.allocate(5), Err(IoError::OutOfMemory));
    assert_eq!(page.allocated, 60);
    assert_eq!(page.allocate(4), Ok(0x20000 + 60));
    assert_eq!(page.allocate(0), Ok(0x20000 + 64));
    assert_eq!(page.allocate(1), Err(IoError::OutOfMemory));
}

#[test]
fn null_allocations_are_errors() {
    assert!(ExecutablePage::from_allocation(0, 4096).is_err());
    assert!(ExecutableMemory::from_allocation(0).is_none());
    assert!(ExecutableBuf::from_allocation(0, 10).is_err());
    assert!(Process::from_handle(0).is_none());
}

#[test]
fn executable_memory_and_buf_keep_their_address() {
    let m = ExecutableMemory::from_allocation(0x1234).unwrap();
    assert_eq!(m.as_ptr(), 0x1234);
    let b = ExecutableBuf::from_allocation(0x5678, 9).unwrap();
    assert_eq!(b.as_ptr(), 0x5678);
    assert_eq!(b.len(), 9);
    let p = Process::from_handle(-1).unwrap();
    assert_eq!(p.handle(), -1);
}

#[test]
fn process_memory_slice_sub_slices_and_write_check() {
    let s = ProcessMemorySlice { ptr: 0x4000, len: 100 };
    assert_eq!(s.slice(10..30), Ok(ProcessMemorySlice { ptr: 0x400a, len: 20 }));
    assert_eq!(s.slice(100..100), Ok(ProcessMemorySlice { ptr: 0x4064, len: 0 }));
    assert_eq!(s.slice(90..101), Err(IoError::Other));
    let sub = s.slice(0..3).unwrap();
    assert_eq!(sub.write_check(&[1, 2, 3]), Ok(()));
    assert_eq!(sub.write_check(&[1, 2]), Err(IoError::Other));
}
