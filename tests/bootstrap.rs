use spiflash::{
    is_expected_identity, page_program_template, quad_read_template, Action, BusFault,
    DataPhase, DriverState, Error, Event, LineWidth, SpiFlash, Transaction, OP_READ_IDENTITY,
    OP_READ_STATUS, OP_RESET, OP_RESET_ENABLE, OP_WRITE_STATUS, QUAD_ENABLE_MAX_WRITES,
};

const READY: u8 = 0x40;
const PENDING: u8 = 0x00;

/// What the mock bus saw, in order.
#[derive(Debug, Clone, PartialEq)]
enum Seen {
    Op(u8),
    Delay(u32),
    Poll,
}

struct MockChip {
    identity: Vec<u8>,
    writes_needed: usize,
    writes_done: usize,
    busy_polls: usize,
    fail_opcode: Option<(u8, BusFault)>,
    written: Vec<u8>,
    seen: Vec<Seen>,
}

impl MockChip {
    fn new() -> Self {
        MockChip {
            identity: vec![0xC2, 0x25, 0x34],
            writes_needed: 1,
            writes_done: 0,
            busy_polls: 0,
            fail_opcode: None,
            written: Vec::new(),
            seen: Vec::new(),
        }
    }

    fn status(&self) -> u8 {
        if self.writes_done >= self.writes_needed {
            READY
        } else {
            PENDING
        }
    }

    fn respond(&mut self, action: &Action) -> Event {
        match action {
            Action::Transact(t) => {
                self.seen.push(Seen::Op(t.opcode));
                if let Some((op, fault)) = self.fail_opcode {
                    if op == t.opcode {
                        return Event::Fault(fault);
                    }
                }
                self.transact(t)
            }
            Action::Delay(ms) => {
                self.seen.push(Seen::Delay(*ms));
                Event::Completed
            }
            Action::PollBusy => {
                self.seen.push(Seen::Poll);
                if self.busy_polls > 0 {
                    self.busy_polls -= 1;
                    Event::StillBusy
                } else {
                    Event::Completed
                }
            }
            Action::Finished(_) => panic!("a finished action is not performed"),
        }
    }

    fn transact(&mut self, t: &Transaction) -> Event {
        match t.opcode {
            OP_READ_IDENTITY => Event::Data(self.identity.clone()),
            OP_READ_STATUS => Event::Data(vec![self.status()]),
            OP_WRITE_STATUS => {
                if let DataPhase::Write(bytes) = &t.data {
                    self.written.extend_from_slice(bytes);
                }
                self.writes_done += 1;
                Event::Completed
            }
            _ => Event::Completed,
        }
    }
}

fn run_init(flash: &mut SpiFlash, chip: &mut MockChip) -> Result<(), Error> {
    let mut action = flash.init();
    for _ in 0..1000 {
        if let Action::Finished(r) = action {
            return r;
        }
        let event = chip.respond(&action);
        action = flash.advance(event);
    }
    panic!("the bootstrap did not finish");
}

fn opcodes(seen: &[Seen]) -> Vec<u8> {
    seen.iter()
        .filter_map(|s| match s {
            Seen::Op(op) => Some(*op),
            _ => None,
        })
        .collect()
}

#[test]
fn bring_up_reaches_memory_mapped() {
    let mut flash = SpiFlash::new();
    let mut chip = MockChip::new();
    assert_eq!(run_init(&mut flash, &mut chip), Ok(()));
    assert_eq!(flash.state(), DriverState::QuadReady);
    let setup = flash.set_quad_width().unwrap();
    assert_eq!(setup.widths.address, LineWidth::Quad);
    assert_eq!(setup.widths.data, LineWidth::Quad);
    assert_eq!(setup.geometry.device_size, 19);
    assert_eq!(setup.geometry.chip_select_high, 4);
    assert_eq!(setup.geometry.memory_type, 1);
    assert_eq!(flash.enable(quad_read_template(), page_program_template()), Ok(()));
    assert_eq!(flash.state(), DriverState::MemoryMapped);
    let window = flash.memory_window().unwrap();
    assert_eq!(window.read.opcode, 0xEB);
    assert_eq!(window.read.dummy_cycles, 6);
    assert_eq!(window.write.opcode, 0x38);
}

#[test]
fn identity_mismatch_then_retry() {
    let mut flash = SpiFlash::new();
    let mut chip = MockChip::new();
    chip.identity = vec![0xEF, 0x40, 0x18];
    assert_eq!(run_init(&mut flash, &mut chip), Err(Error::IdentityMismatch));
    assert_eq!(flash.state(), DriverState::Uninitialized);
    assert_eq!(opcodes(&chip.seen), vec![0x66, 0x99, 0x9F]);
    assert_eq!(flash.set_quad_width(), Err(Error::WrongState));
    chip.identity = vec![0xC2, 0x25, 0x34];
    assert_eq!(run_init(&mut flash, &mut chip), Ok(()));
    assert_eq!(flash.state(), DriverState::QuadReady);
}

#[test]
fn short_identity_is_a_mismatch() {
    let mut flash = SpiFlash::new();
    let mut chip = MockChip::new();
    chip.identity = vec![0xC2, 0x25];
    assert_eq!(run_init(&mut flash, &mut chip), Err(Error::IdentityMismatch));
    assert_eq!(flash.state(), DriverState::Uninitialized);
}

#[test]
fn quad_enable_takes_exactly_the_needed_writes() {
    for n in 1..=QUAD_ENABLE_MAX_WRITES as usize {
        let mut flash = SpiFlash::new();
        let mut chip = MockChip::new();
        chip.writes_needed = n;
        assert_eq!(run_init(&mut flash, &mut chip), Ok(()), "writes needed: {}", n);
        assert_eq!(chip.writes_done, n);
        assert_eq!(flash.state(), DriverState::QuadReady);
    }
}

#[test]
fn quad_enable_already_set_still_writes_once() {
    let mut flash = SpiFlash::new();
    let mut chip = MockChip::new();
    chip.writes_needed = 0;
    assert_eq!(run_init(&mut flash, &mut chip), Ok(()));
    assert_eq!(chip.writes_done, 1);
}

#[test]
fn quad_enable_beyond_bound_times_out() {
    let mut flash = SpiFlash::new();
    let mut chip = MockChip::new();
    chip.writes_needed = QUAD_ENABLE_MAX_WRITES as usize + 1;
    assert_eq!(run_init(&mut flash, &mut chip), Err(Error::QuadModeTimeout));
    assert_eq!(chip.writes_done, QUAD_ENABLE_MAX_WRITES as usize);
    assert_eq!(flash.state(), DriverState::Uninitialized);
}

#[test]
fn quad_enable_writes_back_status_with_bit_six() {
    let mut flash = SpiFlash::new();
    let mut chip = MockChip::new();
    chip.writes_needed = 3;
    assert_eq!(run_init(&mut flash, &mut chip), Ok(()));
    assert_eq!(chip.written, vec![0x40, 0x40, 0x40]);
}

#[test]
fn init_opcode_sequence_and_delays() {
    let mut flash = SpiFlash::new();
    let mut chip = MockChip::new();
    chip.writes_needed = 2;
    assert_eq!(run_init(&mut flash, &mut chip), Ok(()));
    assert_eq!(
        opcodes(&chip.seen),
        vec![0x66, 0x99, 0x9F, 0x05, 0x01, 0x05, 0x01, 0x05]
    );
    let expected = vec![
        Seen::Op(OP_RESET_ENABLE),
        Seen::Delay(2),
        Seen::Op(OP_RESET),
        Seen::Delay(20),
        Seen::Op(OP_READ_IDENTITY),
        Seen::Op(OP_READ_STATUS),
        Seen::Op(OP_WRITE_STATUS),
        Seen::Delay(20),
        Seen::Op(OP_READ_STATUS),
        Seen::Op(OP_WRITE_STATUS),
        Seen::Delay(20),
        Seen::Op(OP_READ_STATUS),
        Seen::Poll,
    ];
    assert_eq!(chip.seen, expected);
    for (i, s) in chip.seen.iter().enumerate() {
        if let Seen::Delay(ms) = s {
            let min = if chip.seen[i - 1] == Seen::Op(OP_RESET_ENABLE) { 2 } else { 20 };
            assert!(*ms >= min);
        }
    }
}

#[test]
fn busy_flag_is_polled_until_clear() {
    let mut flash = SpiFlash::new();
    let mut chip = MockChip::new();
    chip.busy_polls = 3;
    assert_eq!(run_init(&mut flash, &mut chip), Ok(()));
    let polls = chip.seen.iter().filter(|s| **s == Seen::Poll).count();
    assert_eq!(polls, 4);
    assert_eq!(flash.state(), DriverState::QuadReady);
}

#[test]
fn bus_fault_aborts_init() {
    let mut flash = SpiFlash::new();
    let mut chip = MockChip::new();
    chip.fail_opcode = Some((OP_RESET, BusFault::Timeout));
    assert_eq!(run_init(&mut flash, &mut chip), Err(Error::Bus(BusFault::Timeout)));
    assert_eq!(flash.state(), DriverState::Uninitialized);
    chip.fail_opcode = Some((OP_WRITE_STATUS, BusFault::Busy));
    assert_eq!(run_init(&mut flash, &mut chip), Err(Error::Bus(BusFault::Busy)));
    assert_eq!(flash.state(), DriverState::Uninitialized);
}

#[test]
fn wrong_event_kind_is_a_protocol_fault() {
    let mut flash = SpiFlash::new();
    let first = flash.init();
    assert_eq!(first, Action::Transact(spiflash::command(OP_RESET_ENABLE)));
    assert_eq!(flash.state(), DriverState::Resetting);
    let a = flash.advance(Event::Data(vec![1, 2, 3]));
    assert_eq!(a, Action::Finished(Err(Error::Bus(BusFault::ProtocolFault))));
    assert_eq!(flash.state(), DriverState::Uninitialized);
}

#[test]
fn status_read_of_wrong_length_is_a_protocol_fault() {
    let mut flash = SpiFlash::new();
    let mut a = flash.init();
    for _ in 0..4 {
        assert!(!matches!(a, Action::Finished(_)));
        a = flash.advance(Event::Completed);
    }
    a = flash.advance(Event::Data(vec![0xC2, 0x25, 0x34]));
    assert_eq!(flash.state(), DriverState::IdentityVerified);
    assert_eq!(a, Action::Transact(spiflash::register_read(OP_READ_STATUS, 1)));
    a = flash.advance(Event::Data(vec![]));
    assert_eq!(a, Action::Finished(Err(Error::Bus(BusFault::ProtocolFault))));
    assert_eq!(flash.state(), DriverState::Uninitialized);
}

#[test]
fn advance_without_init_is_rejected() {
    let mut flash = SpiFlash::new();
    assert_eq!(flash.advance(Event::Completed), Action::Finished(Err(Error::WrongState)));
    assert_eq!(flash.state(), DriverState::Uninitialized);
}

#[test]
fn mode_switch_before_init_is_rejected() {
    let mut flash = SpiFlash::new();
    assert_eq!(flash.set_quad_width(), Err(Error::WrongState));
    assert_eq!(flash.enable(quad_read_template(), page_program_template()), Err(Error::WrongState));
    assert_eq!(flash.state(), DriverState::Uninitialized);
    assert_eq!(flash.geometry(), None);
    let _ = flash.init();
    assert_eq!(flash.set_quad_width(), Err(Error::WrongState));
    assert_eq!(flash.enable(quad_read_template(), page_program_template()), Err(Error::WrongState));
    assert_eq!(flash.state(), DriverState::Resetting);
}

#[test]
fn enable_before_quad_width_is_rejected() {
    let mut flash = SpiFlash::new();
    let mut chip = MockChip::new();
    assert_eq!(run_init(&mut flash, &mut chip), Ok(()));
    assert_eq!(flash.enable(quad_read_template(), page_program_template()), Err(Error::WrongState));
    assert_eq!(flash.state(), DriverState::QuadReady);
    assert!(flash.set_quad_width().is_ok());
    assert_eq!(flash.enable(quad_read_template(), page_program_template()), Ok(()));
    assert_eq!(flash.set_quad_width(), Err(Error::WrongState));
}

#[test]
fn reinit_returns_to_single_wire() {
    let mut flash = SpiFlash::new();
    let mut chip = MockChip::new();
    assert_eq!(run_init(&mut flash, &mut chip), Ok(()));
    flash.set_quad_width().unwrap();
    flash.enable(quad_read_template(), page_program_template()).unwrap();
    let mut chip = MockChip::new();
    assert_eq!(run_init(&mut flash, &mut chip), Ok(()));
    assert_eq!(flash.state(), DriverState::QuadReady);
    assert_eq!(flash.phase_widths().data, LineWidth::Single);
    assert!(flash.memory_window().is_none());
    assert_eq!(flash.geometry(), None);
}

#[test]
fn mapped_address_only_in_memory_mapped_mode() {
    let mut flash = SpiFlash::new();
    assert_eq!(flash.mapped_address(0), None);
    let mut chip = MockChip::new();
    run_init(&mut flash, &mut chip).unwrap();
    flash.set_quad_width().unwrap();
    assert_eq!(flash.mapped_address(0), None);
    flash.enable(quad_read_template(), page_program_template()).unwrap();
    assert_eq!(flash.mapped_address(0), Some(0x9000_0000));
    assert_eq!(flash.mapped_address(0x1234), Some(0x9000_1234));
    assert_eq!(flash.mapped_address(0xF_FFFF), Some(0x900F_FFFF));
    assert_eq!(flash.mapped_address(0x10_0000), None);
}

#[test]
fn identity_check() {
    assert!(is_expected_identity(&[0xC2, 0x25, 0x34]));
    assert!(!is_expected_identity(&[0xC2, 0x25, 0x35]));
    assert!(!is_expected_identity(&[0xC2, 0x25, 0x34, 0x00]));
    assert!(!is_expected_identity(&[]));
}

#[test]
fn status_bits() {
    assert!(spiflash::quad_ready(0x40));
    assert!(spiflash::quad_ready(0x4C));
    assert!(!spiflash::quad_ready(0x42));
    assert!(!spiflash::quad_ready(0x00));
    assert_eq!(spiflash::with_quad_enable(0x02), 0x42);
    assert_eq!(spiflash::with_quad_enable(0x40), 0x40);
}
