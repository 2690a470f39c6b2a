use vmm::memory::memorymap::{MemoryMmap, RegionMmap};
use vmm::memory::{Addressable, Error, MemoryAddr, Region};

#[test]
fn memorymap_basic() {
    let m = RegionMmap::new(256).unwrap();
    assert_eq!(256, m.size());
}

#[test]
fn memorymap_write_all() {
    let mut m = RegionMmap::new(4).unwrap();
    let to_write = &[4, 5, 4, 3];
    let addr = MemoryAddr(0);
    let n = m.write(to_write, addr.clone()).unwrap();
    assert_eq!(4, n);
    let mut buf = vec![0u8; 4];
    let n = m.read(&mut buf, addr).unwrap();
    assert_eq!(4, n);
    assert_eq!(to_write, &buf[..]);
}

#[test]
fn new_region_is_zeroed() {
    let m = RegionMmap::new(8).unwrap();
    let mut buf = vec![0xffu8; 8];
    let n = m.read(&mut buf, MemoryAddr(0)).unwrap();
    assert_eq!(8, n);
    assert_eq!(vec![0u8; 8], buf);
}

#[test]
fn read_out_of_bounds() {
    let m = RegionMmap::new(4).unwrap();
    let mut buf = vec![0u8; 2];
    assert_eq!(Err(Error::OutOfBounds), m.read(&mut buf, MemoryAddr(4)));
    assert_eq!(Err(Error::OutOfBounds), m.read(&mut buf, MemoryAddr(100)));
}

#[test]
fn write_out_of_bounds() {
    let mut m = RegionMmap::new(4).unwrap();
    assert_eq!(Err(Error::OutOfBounds), m.write(&[1], MemoryAddr(4)));
}

#[test]
fn short_read_and_write_at_end() {
    let mut m = RegionMmap::new(4).unwrap();
    // Only two bytes fit from offset 2; the rest is dropped.
    let n = m.write(&[7, 8, 9], MemoryAddr(2)).unwrap();
    assert_eq!(2, n);
    let mut buf = vec![0xaau8; 3];
    let n = m.read(&mut buf, MemoryAddr(2)).unwrap();
    assert_eq!(2, n);
    // The third buffer byte is beyond the region and keeps its old value.
    assert_eq!(vec![7u8, 8, 0xaa], buf);
}

#[test]
fn read_from_copies_exactly() {
    let mut m = RegionMmap::new(8).unwrap();
    let src = [1u8, 2, 3, 4, 5];
    let n = m.read_from(MemoryAddr(2), &src, 3).unwrap();
    assert_eq!(3, n);
    let mut buf = vec![0u8; 8];
    m.read(&mut buf, MemoryAddr(0)).unwrap();
    assert_eq!(vec![0u8, 0, 1, 2, 3, 0, 0, 0], buf);
}

#[test]
fn read_from_out_of_bounds_changes_nothing() {
    let mut m = RegionMmap::new(4).unwrap();
    m.write(&[9, 9, 9, 9], MemoryAddr(0)).unwrap();
    assert_eq!(
        Err(Error::OutOfBounds),
        m.read_from(MemoryAddr(2), &[1, 2, 3], 3)
    );
    let mut buf = vec![0u8; 4];
    m.read(&mut buf, MemoryAddr(0)).unwrap();
    assert_eq!(vec![9u8, 9, 9, 9], buf);
}

#[test]
fn read_from_short_source_fails() {
    let mut m = RegionMmap::new(8).unwrap();
    assert_eq!(
        Err(Error::ReadFailed),
        m.read_from(MemoryAddr(0), &[1, 2], 3)
    );
    let mut buf = vec![0xffu8; 2];
    m.read(&mut buf, MemoryAddr(0)).unwrap();
    assert_eq!(vec![0u8, 0], buf);
}

#[test]
fn memory_mmap_wraps_region() {
    let mut m = MemoryMmap::new(16).unwrap();
    assert_eq!(16, m.size());
    assert_eq!(16, m.as_slice().len());
    m.write(&[5, 6], MemoryAddr(10)).unwrap();
    assert_eq!(&[5u8, 6], &m.as_slice()[10..12]);
}

#[test]
fn add_offset_moves_address() {
    let a = MemoryAddr(0x100);
    assert_eq!(MemoryAddr(0x140), a.add_offset(0x40));
    assert_eq!(MemoryAddr(0x100), a.add_offset(0));
}
