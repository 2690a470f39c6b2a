use vmm::device::legacy::Serial;
use vmm::device::{Bus, Device, Range};
use vmm::memory::memorymap::MemoryMmap;
use vmm::memory::MemoryAddr;
use vmm::vm::{Error, Vcpu, VcpuExit};

fn test_vcpu() -> Vcpu {
    let mut mmio_bus = Bus::new();
    let mem = MemoryMmap::new(0x100).unwrap();
    mmio_bus
        .insert(Range(MemoryAddr(0x8000), 0x100), Device::Memory(mem))
        .unwrap();
    let mut pio_bus = Bus::new();
    pio_bus
        .insert(Range(MemoryAddr(0x3f8), 8), Device::Serial(Serial::new()))
        .unwrap();
    Vcpu::new(mmio_bus, pio_bus)
}

#[test]
fn io_out_to_serial() {
    let mut vcpu = test_vcpu();
    let r = vcpu.handle_exit(VcpuExit::IoOut(0x3f8, vec![b'0']));
    assert_eq!(Ok(None), r);
}

#[test]
fn io_in_from_serial() {
    let mut vcpu = test_vcpu();
    let r = vcpu.handle_exit(VcpuExit::IoIn(0x3f8, 4));
    assert_eq!(Ok(Some(vec![0u8; 4])), r);
}

#[test]
fn mmio_write_then_read_round_trip() {
    let mut vcpu = test_vcpu();
    assert_eq!(
        Ok(None),
        vcpu.handle_exit(VcpuExit::MmioWrite(0x8010, vec![7, 8]))
    );
    assert_eq!(
        Ok(Some(vec![7u8, 8])),
        vcpu.handle_exit(VcpuExit::MmioRead(0x8010, 2))
    );
    // A fresh address still reads back the zero fill.
    assert_eq!(
        Ok(Some(vec![0u8, 0])),
        vcpu.handle_exit(VcpuExit::MmioRead(0x8000, 2))
    );
}

#[test]
fn unmapped_io_is_fatal() {
    let mut vcpu = test_vcpu();
    assert_eq!(
        Err(Error::VcpuFailedIO),
        vcpu.handle_exit(VcpuExit::MmioWrite(0x100, vec![1]))
    );
    assert_eq!(
        Err(Error::VcpuFailedIO),
        vcpu.handle_exit(VcpuExit::IoIn(0x10, 1))
    );
}

#[test]
fn halt_and_unknown_exits_are_unhandled() {
    let mut vcpu = test_vcpu();
    assert_eq!(Err(Error::VcpuUnhandled), vcpu.handle_exit(VcpuExit::Hlt));
    assert_eq!(Err(Error::VcpuUnhandled), vcpu.handle_exit(VcpuExit::Other));
}

#[test]
fn kernel_load_sets_instruction_pointer() {
    let vcpu = test_vcpu();
    let regs = vcpu.configure_kernel_load(MemoryAddr(0x10_0200));
    assert_eq!(0x10_0200, regs.rip);
}

#[test]
fn new_vcpu() {
    let pio_bus = Bus::new();
    let mmio_bus = Bus::new();
    let _vcpu = Vcpu::new(mmio_bus, pio_bus);
}
