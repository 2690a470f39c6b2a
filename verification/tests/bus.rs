use vmm::device::legacy::Serial;
use vmm::device::{Bus, Device, Error, Range};
use vmm::memory::memorymap::MemoryMmap;
use vmm::memory::MemoryAddr;

fn four_byte_device_bus() -> Bus {
    let mem = MemoryMmap::new(4).unwrap();
    let mut bus = Bus::new();
    bus.insert(Range(MemoryAddr(0), 4), Device::Memory(mem))
        .unwrap();
    bus
}

#[test]
fn bus_round_trip() {
    let mut bus = four_byte_device_bus();
    bus.write(MemoryAddr(0), &[1, 1, 1, 1]).unwrap();
    let mut buf = vec![0u8; 4];
    bus.read(MemoryAddr(0), &mut buf).unwrap();
    assert_eq!(vec![1u8, 1, 1, 1], buf);
    bus.write(MemoryAddr(2), &[2, 2]).unwrap();
    let mut buf = vec![0u8; 4];
    bus.read(MemoryAddr(0), &mut buf).unwrap();
    assert_eq!(vec![1u8, 1, 2, 2], buf);
}

#[test]
fn missing_device() {
    let mut bus = four_byte_device_bus();
    let mut buf = vec![0u8; 1];
    assert_eq!(Err(Error::MissingDevice), bus.read(MemoryAddr(4), &mut buf));
    assert_eq!(Err(Error::MissingDevice), bus.write(MemoryAddr(100), &[1]));
    let empty = Bus::new();
    let mut buf = vec![0u8; 1];
    assert_eq!(
        Err(Error::MissingDevice),
        empty.read(MemoryAddr(0), &mut buf)
    );
}

#[test]
fn overlap_rejected_and_bus_unchanged() {
    let mut bus = four_byte_device_bus();
    bus.write(MemoryAddr(0), &[9, 9, 9, 9]).unwrap();
    let other = MemoryMmap::new(8).unwrap();
    assert_eq!(
        Err(Error::Overlap),
        bus.insert(Range(MemoryAddr(2), 8), Device::Memory(other))
    );
    // The old binding still answers, with its old contents.
    let mut buf = vec![0u8; 4];
    bus.read(MemoryAddr(0), &mut buf).unwrap();
    assert_eq!(vec![9u8, 9, 9, 9], buf);
    // The rejected range's tail is still unmapped.
    let mut buf = vec![0u8; 1];
    assert_eq!(Err(Error::MissingDevice), bus.read(MemoryAddr(6), &mut buf));
}

#[test]
fn disjoint_ranges_accepted() {
    let mut bus = four_byte_device_bus();
    let other = MemoryMmap::new(4).unwrap();
    bus.insert(Range(MemoryAddr(4), 4), Device::Memory(other))
        .unwrap();
    bus.write(MemoryAddr(4), &[3]).unwrap();
    let mut buf = vec![0u8; 1];
    bus.read(MemoryAddr(4), &mut buf).unwrap();
    assert_eq!(vec![3u8], buf);
    // The first device is untouched by writes to the second.
    let mut buf = vec![0u8; 4];
    bus.read(MemoryAddr(0), &mut buf).unwrap();
    assert_eq!(vec![0u8, 0, 0, 0], buf);
}

#[test]
fn dispatch_translates_offset() {
    let mem = MemoryMmap::new(4).unwrap();
    let mut bus = Bus::new();
    bus.insert(Range(MemoryAddr(0x100), 4), Device::Memory(mem))
        .unwrap();
    bus.write(MemoryAddr(0x102), &[7]).unwrap();
    let mut buf = vec![0u8; 4];
    bus.read(MemoryAddr(0x100), &mut buf).unwrap();
    assert_eq!(vec![0u8, 0, 7, 0], buf);
}

#[test]
fn serial_accepts_and_transfers_nothing() {
    let mut bus = Bus::new();
    bus.insert(Range(MemoryAddr(0x3f8), 8), Device::Serial(Serial::new()))
        .unwrap();
    bus.write(MemoryAddr(0x3f8), &[b'a']).unwrap();
    let mut buf = vec![0x55u8; 4];
    bus.read(MemoryAddr(0x3f8), &mut buf).unwrap();
    assert_eq!(vec![0x55u8; 4], buf);
}

#[test]
fn device_failure_is_read_or_write_failed() {
    // The device is two bytes long but registered over four addresses, so
    // the last two dispatch fine yet fail inside the device.
    let mem = MemoryMmap::new(2).unwrap();
    let mut bus = Bus::new();
    bus.insert(Range(MemoryAddr(0), 4), Device::Memory(mem))
        .unwrap();
    let mut buf = vec![0u8; 1];
    assert_eq!(Err(Error::ReadFailed), bus.read(MemoryAddr(3), &mut buf));
    assert_eq!(Err(Error::WriteFailed), bus.write(MemoryAddr(3), &[1]));
}

#[test]
fn contains_addr_bounds() {
    let r = Range(MemoryAddr(10), 4);
    assert!(!r.contains_addr(&MemoryAddr(9)));
    assert!(r.contains_addr(&MemoryAddr(10)));
    assert!(r.contains_addr(&MemoryAddr(13)));
    assert!(!r.contains_addr(&MemoryAddr(14)));
    let empty = Range(MemoryAddr(10), 0);
    assert!(!empty.contains_addr(&MemoryAddr(10)));
}
