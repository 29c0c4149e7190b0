//! Device-level tests: memory round trips, the size policy of each device,
//! the UART byte paths and the virtio transport registers.

use rvemu::bus::{Bus, DRAM_BASE, UART_BASE};
use rvemu::clint::{CLINT_MTIME, CLINT_MTIMECMP};
use rvemu::plic::{PLIC_PENDING, PLIC_SCLAIM, PLIC_SENABLE};
use rvemu::trap::Exception;
use rvemu::uart::{UART_LSR, UART_RHR, UART_THR};
use rvemu::virtio::{
    VIRTIO_DEVICE_ID, VIRTIO_MAGIC, VIRTIO_QUEUE_NUM_MAX, VIRTIO_QUEUE_PFN, VIRTIO_VENDOR_ID,
    VIRTIO_VERSION,
};

fn fresh_bus() -> Bus {
    Bus::new(Vec::new(), Vec::new())
}

#[test]
fn dram_store_then_load_round_trips() {
    let mut bus = fresh_bus();
    let a = DRAM_BASE + 0x1234;
    let v = 0xdead_beef_cafe_babe_u64;

    bus.store(a, 8, v).unwrap();
    assert_eq!(bus.load(a, 8).unwrap(), v & 0xff);

    bus.store(a, 16, v).unwrap();
    assert_eq!(bus.load(a, 16).unwrap(), v & 0xffff);

    bus.store(a, 32, v).unwrap();
    assert_eq!(bus.load(a, 32).unwrap(), v & 0xffff_ffff);

    bus.store(a, 64, v).unwrap();
    assert_eq!(bus.load(a, 64).unwrap(), v);
}

#[test]
fn dram_is_little_endian() {
    let mut bus = fresh_bus();
    bus.store(DRAM_BASE, 32, 0x0403_0201).unwrap();
    assert_eq!(bus.load(DRAM_BASE, 8).unwrap(), 0x01);
    assert_eq!(bus.load(DRAM_BASE + 1, 8).unwrap(), 0x02);
    assert_eq!(bus.load(DRAM_BASE + 2, 8).unwrap(), 0x03);
    assert_eq!(bus.load(DRAM_BASE + 3, 8).unwrap(), 0x04);
    assert_eq!(bus.load(DRAM_BASE + 1, 16).unwrap(), 0x0302);
}

#[test]
fn dram_load_preserves_loaded_binary() {
    let mut bus = Bus::new(vec![0x11, 0x22, 0x33], Vec::new());
    assert_eq!(bus.load(DRAM_BASE, 8).unwrap(), 0x11);
    assert_eq!(bus.load(DRAM_BASE + 1, 8).unwrap(), 0x22);
    assert_eq!(bus.load(DRAM_BASE + 2, 8).unwrap(), 0x33);
    assert_eq!(bus.load(DRAM_BASE + 3, 8).unwrap(), 0);
}

#[test]
fn unmapped_address_is_an_access_fault() {
    let mut bus = fresh_bus();
    assert_eq!(bus.load(0x100, 8), Err(Exception::LoadAccessFault));
    assert_eq!(bus.store(0x100, 8, 1), Err(Exception::StoreAMOAccessFault));
}

#[test]
fn clint_accepts_only_64_bit_accesses() {
    let mut bus = fresh_bus();
    bus.store(CLINT_MTIME, 64, 123).unwrap();
    assert_eq!(bus.load(CLINT_MTIME, 64).unwrap(), 123);
    bus.store(CLINT_MTIMECMP, 64, 456).unwrap();
    assert_eq!(bus.load(CLINT_MTIMECMP, 64).unwrap(), 456);
    assert_eq!(bus.load(CLINT_MTIME, 32), Err(Exception::LoadAccessFault));
    assert_eq!(
        bus.store(CLINT_MTIME, 32, 1),
        Err(Exception::StoreAMOAccessFault)
    );
    // Unmapped offsets in the region read zero and swallow writes.
    assert_eq!(bus.load(CLINT_MTIME + 8, 64).unwrap(), 0);
    bus.store(CLINT_MTIME + 8, 64, 9).unwrap();
    assert_eq!(bus.load(CLINT_MTIME + 8, 64).unwrap(), 0);
}

#[test]
fn plic_accepts_only_32_bit_accesses() {
    let mut bus = fresh_bus();
    bus.store(PLIC_SENABLE, 32, 0x400).unwrap();
    assert_eq!(bus.load(PLIC_SENABLE, 32).unwrap(), 0x400);
    bus.store(PLIC_SCLAIM, 32, 10).unwrap();
    assert_eq!(bus.load(PLIC_SCLAIM, 32).unwrap(), 10);
    assert_eq!(bus.load(PLIC_PENDING, 32).unwrap(), 0);
    assert_eq!(bus.load(PLIC_PENDING, 64), Err(Exception::LoadAccessFault));
    assert_eq!(
        bus.store(PLIC_PENDING, 8, 1),
        Err(Exception::StoreAMOAccessFault)
    );
}

#[test]
fn uart_accepts_only_8_bit_accesses() {
    let mut bus = fresh_bus();
    assert_eq!(bus.load(UART_LSR, 32), Err(Exception::LoadAccessFault));
    assert_eq!(
        bus.store(UART_THR, 16, 0x41),
        Err(Exception::StoreAMOAccessFault)
    );
}

#[test]
fn uart_line_status_asserts_transmitter_empty() {
    let mut bus = fresh_bus();
    let lsr = bus.load(UART_LSR, 8).unwrap();
    assert_eq!(lsr & (1 << 5), 1 << 5);
    assert_eq!(lsr & 1, 0);
}

#[test]
fn uart_echo() {
    // A stdin byte 'A' arrives; the kernel polls the line status register,
    // sees RX-ready, reads the receive holding register, and writes the
    // byte back to the transmit holding register; the host then drains 'A'.
    let mut bus = fresh_bus();
    assert!(bus.uart.recv_byte(0x41));
    assert!(bus.uart.is_interrupting());
    assert!(!bus.uart.is_interrupting());

    let lsr = bus.load(UART_LSR, 8).unwrap();
    assert_eq!(lsr & 1, 1);
    let byte = bus.load(UART_RHR, 8).unwrap();
    assert_eq!(byte, 0x41);
    // Reading the holding register cleared RX-ready.
    assert_eq!(bus.load(UART_LSR, 8).unwrap() & 1, 0);

    bus.store(UART_THR, 8, byte).unwrap();
    assert_eq!(bus.uart.take_output(), vec![0x41]);
    assert_eq!(bus.uart.take_output(), Vec::<u8>::new());
}

#[test]
fn uart_refuses_second_byte_until_read() {
    let mut bus = fresh_bus();
    assert!(bus.uart.recv_byte(0x41));
    // RX-ready is still set: the next byte must wait.
    assert!(!bus.uart.recv_byte(0x42));
    assert_eq!(bus.load(UART_RHR, 8).unwrap(), 0x41);
    // After the read the holding register is free again.
    assert!(bus.uart.recv_byte(0x42));
    assert_eq!(bus.load(UART_RHR, 8).unwrap(), 0x42);
}

#[test]
fn uart_scratch_registers_hold_bytes() {
    let mut bus = fresh_bus();
    bus.store(UART_BASE + 3, 8, 0x55).unwrap();
    assert_eq!(bus.load(UART_BASE + 3, 8).unwrap(), 0x55);
}

#[test]
fn virtio_identification_registers() {
    let mut bus = fresh_bus();
    assert_eq!(bus.load(VIRTIO_MAGIC, 32).unwrap(), 0x7472_6976);
    assert_eq!(bus.load(VIRTIO_VERSION, 32).unwrap(), 1);
    assert_eq!(bus.load(VIRTIO_DEVICE_ID, 32).unwrap(), 2);
    assert_eq!(bus.load(VIRTIO_VENDOR_ID, 32).unwrap(), 0x554d_4551);
    assert_eq!(bus.load(VIRTIO_QUEUE_NUM_MAX, 32).unwrap(), 8);
    assert_eq!(bus.load(VIRTIO_MAGIC, 16), Err(Exception::LoadAccessFault));
}

#[test]
fn virtio_queue_pfn_round_trips() {
    let mut bus = fresh_bus();
    bus.store(VIRTIO_QUEUE_PFN, 32, 0x80000).unwrap();
    assert_eq!(bus.load(VIRTIO_QUEUE_PFN, 32).unwrap(), 0x80000);
    // Writes to read-only identification registers are discarded.
    bus.store(VIRTIO_MAGIC, 32, 7).unwrap();
    assert_eq!(bus.load(VIRTIO_MAGIC, 32).unwrap(), 0x7472_6976);
}

#[test]
fn virtio_is_interrupting_clears_notification() {
    let mut bus = fresh_bus();
    assert!(!bus.virtio.is_interrupting());
    bus.store(rvemu::virtio::VIRTIO_QUEUE_NOTIFY, 32, 0).unwrap();
    assert!(bus.virtio.is_interrupting());
    assert!(!bus.virtio.is_interrupting());
}

#[test]
fn dram_sizes_are_rejected_elsewhere() {
    // An unsupported size on DRAM is a fault as well.
    let mut bus = fresh_bus();
    assert_eq!(bus.load(DRAM_BASE, 24), Err(Exception::LoadAccessFault));
    assert_eq!(
        bus.store(DRAM_BASE, 24, 0),
        Err(Exception::StoreAMOAccessFault)
    );
}
