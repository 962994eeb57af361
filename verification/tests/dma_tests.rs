use virtio_transport::dma::{mmio_phys_to_virt, Direction, DmaAllocator};
use virtio_transport::transport::VirtioError;

#[test]
fn alloc_then_dealloc_restores_free_accounting() {
    let mut a = DmaAllocator::new(0x10_0000, 8);
    let before = a.free_page_count();
    assert_eq!(before, 8);

    let region = a.dma_alloc(3).expect("alloc");
    assert_eq!(region.pages, 3);
    assert_eq!(region.vaddr, region.paddr);
    assert_eq!(a.free_page_count(), 5);

    let status = a.dma_dealloc(region.paddr, region.vaddr, region.pages);
    assert_eq!(status, 0);
    assert_eq!(a.free_page_count(), before);
}

#[test]
fn alloc_is_first_fit_and_page_sized() {
    let mut a = DmaAllocator::new(0x10_0000, 8);
    let r1 = a.dma_alloc(2).expect("first");
    let r2 = a.dma_alloc(1).expect("second");
    assert_eq!(r1.paddr, 0x10_0000);
    assert_eq!(r2.paddr, 0x10_0000 + 2 * 4096);

    // Free the first two pages: the next two-page request reuses them.
    a.dma_dealloc(r1.paddr, r1.vaddr, r1.pages);
    let r3 = a.dma_alloc(2).expect("third");
    assert_eq!(r3.paddr, 0x10_0000);
}

#[test]
fn alloc_exhaustion_is_recoverable() {
    let mut a = DmaAllocator::new(0x10_0000, 4);
    let r1 = a.dma_alloc(3).expect("alloc");
    assert_eq!(a.dma_alloc(2), Err(VirtioError::AllocationFailed));
    // The failed attempt changed nothing: one page is still free.
    assert_eq!(a.free_page_count(), 1);
    a.dma_dealloc(r1.paddr, r1.vaddr, r1.pages);
    assert!(a.dma_alloc(2).is_ok());
}

#[test]
fn share_registers_and_unshare_closes() {
    let mut a = DmaAllocator::new(0x10_0000, 8);
    let before = a.free_page_count();

    let paddr = a.share(5000, Direction::DeviceToDriver).expect("share");
    assert_eq!(paddr, 0x10_0000);
    assert_eq!(a.shared.len(), 1);
    assert_eq!(a.shared[0].pages, 2); // 5000 bytes need two pages
    assert_eq!(a.free_page_count(), before - 2);

    a.unshare(paddr, 5000, Direction::DeviceToDriver);
    assert_eq!(a.shared.len(), 0);
    assert_eq!(a.free_page_count(), before);
}

#[test]
fn share_failure_leaves_pool_unchanged() {
    let mut a = DmaAllocator::new(0x10_0000, 1);
    let r = a.share(5000, Direction::DriverToDevice);
    assert_eq!(r, Err(VirtioError::AllocationFailed));
    assert_eq!(a.shared.len(), 0);
    assert_eq!(a.free_page_count(), 1);
}

#[test]
fn phys_to_virt_is_identity_mapped() {
    assert_eq!(mmio_phys_to_virt(0x8000_0000, 0x1000), 0x8000_0000);
    assert_eq!(mmio_phys_to_virt(0, 1), 0);
}
