use spiflash::{
    page_program_template, quad_read_template, Action, Address, DataPhase, DriverState, Error,
    Event, LineWidth, SpiFlash, Transaction, OP_READ_IDENTITY, OP_READ_STATUS,
};

/// Flash contents that answer page programs and reads.
struct Memory {
    bytes: Vec<u8>,
}

impl Memory {
    fn erased(len: usize) -> Self {
        Memory { bytes: vec![0xFF; len] }
    }

    fn apply(&mut self, t: &Transaction) -> Vec<u8> {
        let addr = match t.address {
            Address::U24(a) => (a & 0xFF_FFFF) as usize,
            _ => panic!("no address"),
        };
        match &t.data {
            DataPhase::Write(data) => {
                assert_eq!(t.opcode, 0x38);
                for (i, d) in data.iter().enumerate() {
                    self.bytes[addr + i] &= *d;
                }
                Vec::new()
            }
            DataPhase::Read(len) => self.bytes[addr..addr + len].to_vec(),
            DataPhase::Absent => Vec::new(),
        }
    }
}

fn ready_driver() -> SpiFlash {
    let mut flash = SpiFlash::new();
    let mut action = flash.init();
    loop {
        let event = match &action {
            Action::Finished(r) => {
                assert_eq!(*r, Ok(()));
                return flash;
            }
            Action::Transact(t) if t.opcode == OP_READ_IDENTITY => Event::Data(vec![0xC2, 0x25, 0x34]),
            Action::Transact(t) if t.opcode == OP_READ_STATUS => Event::Data(vec![0x40]),
            _ => Event::Completed,
        };
        action = flash.advance(event);
    }
}

#[test]
fn oversized_buffers_are_rejected() {
    let mut flash = SpiFlash::new();
    for len in 33..=300usize {
        assert_eq!(flash.read_bytes(0, len), Err(Error::BufferTooLarge));
        assert_eq!(flash.write_bytes(0, &vec![0u8; len]), Err(Error::BufferTooLarge));
    }
    assert_eq!(flash.read_bytes(0, usize::MAX), Err(Error::BufferTooLarge));
    flash = ready_driver();
    flash.set_quad_width().unwrap();
    flash.enable(quad_read_template(), page_program_template()).unwrap();
    assert_eq!(flash.read_bytes(0, 33), Err(Error::BufferTooLarge));
    assert_eq!(flash.write_bytes(0, &[0u8; 40]), Err(Error::BufferTooLarge));
}

#[test]
fn fifo_sized_buffers_are_accepted() {
    let flash = SpiFlash::new();
    assert!(flash.read_bytes(0, 32).is_ok());
    assert!(flash.read_bytes(0, 0).is_ok());
    assert!(flash.write_bytes(0, &[0u8; 32]).is_ok());
}

#[test]
fn random_access_refused_when_memory_mapped() {
    let mut flash = ready_driver();
    flash.set_quad_width().unwrap();
    flash.enable(quad_read_template(), page_program_template()).unwrap();
    assert_eq!(flash.state(), DriverState::MemoryMapped);
    assert_eq!(flash.read_bytes(0, 4), Err(Error::WrongState));
    assert_eq!(flash.write_bytes(0, &[1, 2]), Err(Error::WrongState));
}

#[test]
fn single_wire_read_before_quad_switch() {
    let flash = ready_driver();
    let t = flash.read_bytes(0x1234, 8).unwrap();
    assert_eq!(t.opcode, 0x03);
    assert_eq!(t.address, Address::U24(0x1234));
    assert_eq!(t.address_lines, LineWidth::Single);
    assert_eq!(t.data_lines, LineWidth::Single);
    assert_eq!(t.dummy_cycles, 0);
    assert_eq!(t.data, DataPhase::Read(8));
}

#[test]
fn quad_read_after_quad_switch() {
    let mut flash = ready_driver();
    flash.set_quad_width().unwrap();
    let t = flash.read_bytes(0x2000, 2).unwrap();
    assert_eq!(t.opcode, 0xEB);
    assert_eq!(t.address_lines, LineWidth::Quad);
    assert_eq!(t.data_lines, LineWidth::Quad);
    assert_eq!(t.dummy_cycles, 6);
    assert_eq!(t.data, DataPhase::Read(2));
    let w = flash.write_bytes(0x2000, &[9, 8, 7]).unwrap();
    assert_eq!(w.opcode, 0x38);
    assert_eq!(w.address, Address::U24(0x2000));
    assert_eq!(w.data, DataPhase::Write(vec![9, 8, 7]));
    assert_eq!(w.data_lines, LineWidth::Quad);
}

#[test]
fn write_then_read_round_trip() {
    let mut flash = ready_driver();
    flash.set_quad_width().unwrap();
    let mut mem = Memory::erased(4096);
    let data: Vec<u8> = (0..32u8).map(|i| i.wrapping_mul(37) ^ 0x5A).collect();
    let w = flash.write_bytes(100, &data).unwrap();
    mem.apply(&w);
    let r = flash.read_bytes(100, data.len()).unwrap();
    assert_eq!(mem.apply(&r), data);
}

#[test]
fn write_then_read_round_trip_single_wire() {
    let flash = SpiFlash::new();
    let mut mem = Memory::erased(256);
    let data = vec![0x00, 0xFF, 0x12, 0xAB];
    let w = flash.write_bytes(250, &data).unwrap();
    mem.apply(&w);
    let r = flash.read_bytes(250, 4).unwrap();
    assert_eq!(mem.apply(&r), data);
}
