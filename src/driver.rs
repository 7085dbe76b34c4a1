use vstd::prelude::*;
use vstd::slice::slice_to_vec;

use crate::command::{
    command, command_spec, register_read, register_read_spec, register_write,
    register_write_spec, Address, DataPhase, DataPhaseView, LineWidth, Transaction,
    TransactionView, FIFO_CAPACITY, OP_PAGE_PROGRAM, OP_QUAD_IO_READ, OP_READ,
    OP_READ_IDENTITY, OP_READ_STATUS, OP_RESET, OP_RESET_ENABLE, OP_WRITE_STATUS,
};
use crate::error::{BusFault, Error};
use crate::geometry::{quad_widths, single_widths, stock_geometry, BusGeometry, BusSetup, PhaseWidths};
use crate::status::{quad_ready, quad_ready_spec, with_quad_enable, with_quad_enable_spec};

verus! {

/// Wait after reset-enable before the reset itself, in milliseconds.
pub const RESET_ENABLE_SETTLE_MS: u32 = 2;

/// Wait after the reset for the chip to recover, in milliseconds.
pub const RESET_RECOVERY_MS: u32 = 20;

/// Wait after each status register write before reading it back, in milliseconds.
pub const STATUS_WRITE_SETTLE_MS: u32 = 20;

/// Status register writes tried before quad enabling is given up.
pub const QUAD_ENABLE_MAX_WRITES: u8 = 8;

/// Dummy cycles of the quad I/O read between its address and data phases.
pub const QUAD_READ_DUMMY_CYCLES: u8 = 6;

pub const JEDEC_MANUFACTURER: u8 = 0xC2;
pub const JEDEC_MEMORY_TYPE: u8 = 0x25;
pub const JEDEC_CAPACITY: u8 = 0x34;

/// Where the controller maps the chip's first byte in memory-mapped mode.
pub const MEMORY_WINDOW_BASE: u32 = 0x9000_0000;

/// Bytes of the stock chip, as its geometry's device size gives them.
pub const DEVICE_BYTES: u32 = 0x10_0000;

/// Bytes of the identity read.
pub const IDENTITY_LEN: usize = 3;

/// The identity the supported chip answers with.
pub open spec fn expected_identity() -> Seq<u8> {
    seq![JEDEC_MANUFACTURER, JEDEC_MEMORY_TYPE, JEDEC_CAPACITY]
}

pub fn is_expected_identity(id: &[u8]) -> (r: bool)
    ensures
        r == (id@ == expected_identity()),
{
    if id.len() != IDENTITY_LEN {
        return false;
    }
    let r = id[0] == JEDEC_MANUFACTURER && id[1] == JEDEC_MEMORY_TYPE && id[2] == JEDEC_CAPACITY;
    if r {
        assert(id@ =~= expected_identity());
    }
    r
}

/// The driver's place in its life cycle.
#[derive(Clone, Copy, Debug, PartialEq, Eq, Structural)]
pub enum DriverState {
    Uninitialized,
    Resetting,
    IdentityVerified,
    QuadEnabling,
    QuadReady,
    MemoryMapped,
}

/// What the bootstrap sequence waits for: the outcome of the action it last
/// handed out. `Idle` when no bootstrap is running.
#[derive(Clone, Copy, Debug, PartialEq, Eq, Structural)]
pub enum Phase {
    Idle,
    ResetEnable,
    ResetEnableSettle,
    Reset,
    ResetRecovery,
    Identity,
    Status,
    StatusWrite,
    StatusSettle,
    StatusReadBack,
    BusyPoll,
}

/// What the bus reported for the action last performed.
#[derive(Clone, Debug, PartialEq, Eq)]
pub enum Event {
    /// The transaction without read data, the delay, or the busy poll (the
    /// flag was clear) has completed.
    Completed,
    /// The read transaction completed with these bytes.
    Data(Vec<u8>),
    /// The busy poll found the controller still busy.
    StillBusy,
    /// The transaction failed.
    Fault(BusFault),
}

pub enum EventView {
    Completed,
    Data(Seq<u8>),
    StillBusy,
    Fault(BusFault),
}

impl View for Event {
    type V = EventView;

    open spec fn view(&self) -> EventView {
        match self {
            Event::Completed => EventView::Completed,
            Event::Data(bytes) => EventView::Data(bytes@),
            Event::StillBusy => EventView::StillBusy,
            Event::Fault(f) => EventView::Fault(*f),
        }
    }
}

/// What the owner of the bus must do next.
#[derive(Debug, PartialEq, Eq)]
pub enum Action {
    /// Run this transaction and report its outcome.
    Transact(Transaction),
    /// Wait this many milliseconds, then report `Completed`.
    Delay(u32),
    /// Read the controller's busy flag and report `StillBusy` or `Completed`.
    PollBusy,
    /// The operation is over, with this result.
    Finished(Result<(), Error>),
}

pub enum ActionView {
    Transact(TransactionView),
    Delay(u32),
    PollBusy,
    Finished(Result<(), Error>),
}

impl View for Action {
    type V = ActionView;

    open spec fn view(&self) -> ActionView {
        match self {
            Action::Transact(t) => ActionView::Transact(t@),
            Action::Delay(ms) => ActionView::Delay(*ms),
            Action::PollBusy => ActionView::PollBusy,
            Action::Finished(r) => ActionView::Finished(*r),
        }
    }
}

/// The two transaction templates the controller uses in memory-mapped mode;
/// the address of each access is substituted into them.
#[derive(Clone, Debug, PartialEq, Eq)]
pub struct MemoryWindow {
    pub read: Transaction,
    pub write: Transaction,
}

pub struct MemoryWindowView {
    pub read: TransactionView,
    pub write: TransactionView,
}

/// The driver as a mathematical value.
pub struct FlashView {
    pub state: DriverState,
    pub phase: Phase,
    /// Status register writes issued by the running quad-enable loop.
    pub writes: u8,
    /// The status value last written, or last read once quad mode is confirmed.
    pub status: u8,
    pub widths: PhaseWidths,
    pub geometry: Option<BusGeometry>,
    pub window: Option<MemoryWindowView>,
}

/// The life-cycle state that belongs to each running bootstrap phase.
pub open spec fn phase_state(phase: Phase) -> DriverState {
    match phase {
        Phase::Idle => DriverState::Uninitialized,
        Phase::ResetEnable | Phase::ResetEnableSettle | Phase::Reset | Phase::ResetRecovery
        | Phase::Identity => DriverState::Resetting,
        Phase::Status => DriverState::IdentityVerified,
        Phase::StatusWrite | Phase::StatusSettle | Phase::StatusReadBack | Phase::BusyPoll => {
            DriverState::QuadEnabling
        },
    }
}

impl FlashView {
    pub open spec fn initial() -> FlashView {
        FlashView {
            state: DriverState::Uninitialized,
            phase: Phase::Idle,
            writes: 0,
            status: 0,
            widths: single_widths(),
            geometry: None,
            window: None,
        }
    }

    pub open spec fn wf(self) -> bool {
        &&& if self.phase is Idle {
            ||| self.state is Uninitialized
            ||| self.state is QuadReady
            ||| self.state is MemoryMapped
        } else {
            self.state == phase_state(self.phase)
        }
        &&& self.writes <= QUAD_ENABLE_MAX_WRITES
        &&& self.widths == if self.geometry is Some {
            quad_widths()
        } else {
            single_widths()
        }
        &&& self.geometry is Some ==> (self.state is QuadReady || self.state is MemoryMapped)
        &&& self.window is Some <==> self.state is MemoryMapped
        &&& self.state is MemoryMapped ==> self.geometry is Some
    }

    /// The same driver, moved on to a running bootstrap phase.
    pub open spec fn at(self, phase: Phase) -> FlashView {
        FlashView { state: phase_state(phase), phase, ..self }
    }
}

/// A failed bootstrap: the driver falls back to `Uninitialized` and reports `err`.
pub open spec fn abort(v: FlashView, err: Error) -> (FlashView, ActionView) {
    (
        FlashView { state: DriverState::Uninitialized, phase: Phase::Idle, ..v },
        ActionView::Finished(Err(err)),
    )
}

/// The write of `status` with quad mode requested, as write number `writes`
/// of the quad-enable loop.
pub open spec fn write_status(v: FlashView, writes: u8, status: u8) -> (FlashView, ActionView) {
    let w = with_quad_enable_spec(status);
    (
        FlashView { writes, status: w, ..v.at(Phase::StatusWrite) },
        ActionView::Transact(register_write_spec(OP_WRITE_STATUS, seq![w])),
    )
}

/// Starting the bootstrap: from any state, the driver drops back to
/// single-wire command mode and sends reset-enable.
pub open spec fn start_init(v: FlashView) -> (FlashView, ActionView) {
    (
        FlashView {
            state: DriverState::Resetting,
            phase: Phase::ResetEnable,
            writes: 0,
            status: 0,
            widths: single_widths(),
            geometry: None,
            window: None,
        },
        ActionView::Transact(command_spec(OP_RESET_ENABLE)),
    )
}

/// One move of the bootstrap: the outcome `e` of the last action gives the
/// next driver value and the next action.
pub open spec fn step(v: FlashView, e: EventView) -> (FlashView, ActionView) {
    let protocol = Error::Bus(BusFault::ProtocolFault);
    if v.phase is Idle {
        (v, ActionView::Finished(Err(Error::WrongState)))
    } else if e is Fault {
        abort(v, Error::Bus(e->Fault_0))
    } else {
        match v.phase {
            Phase::ResetEnable => if e is Completed {
                (v.at(Phase::ResetEnableSettle), ActionView::Delay(RESET_ENABLE_SETTLE_MS))
            } else {
                abort(v, protocol)
            },
            Phase::ResetEnableSettle => if e is Completed {
                (v.at(Phase::Reset), ActionView::Transact(command_spec(OP_RESET)))
            } else {
                abort(v, protocol)
            },
            Phase::Reset => if e is Completed {
                (v.at(Phase::ResetRecovery), ActionView::Delay(RESET_RECOVERY_MS))
            } else {
                abort(v, protocol)
            },
            Phase::ResetRecovery => if e is Completed {
                (
                    v.at(Phase::Identity),
                    ActionView::Transact(register_read_spec(OP_READ_IDENTITY, IDENTITY_LEN as nat)),
                )
            } else {
                abort(v, protocol)
            },
            Phase::Identity => match e {
                EventView::Data(id) => if id == expected_identity() {
                    (v.at(Phase::Status), ActionView::Transact(register_read_spec(OP_READ_STATUS, 1)))
                } else {
                    abort(v, Error::IdentityMismatch)
                },
                _ => abort(v, protocol),
            },
            Phase::Status => match e {
                EventView::Data(s) => if s.len() == 1 {
                    write_status(v, 1, s[0])
                } else {
                    abort(v, protocol)
                },
                _ => abort(v, protocol),
            },
            Phase::StatusWrite => if e is Completed {
                (v.at(Phase::StatusSettle), ActionView::Delay(STATUS_WRITE_SETTLE_MS))
            } else {
                abort(v, protocol)
            },
            Phase::StatusSettle => if e is Completed {
                (v.at(Phase::StatusReadBack), ActionView::Transact(register_read_spec(OP_READ_STATUS, 1)))
            } else {
                abort(v, protocol)
            },
            Phase::StatusReadBack => match e {
                EventView::Data(s) => if s.len() != 1 {
                    abort(v, protocol)
                } else if quad_ready_spec(s[0]) {
                    (FlashView { status: s[0], ..v.at(Phase::BusyPoll) }, ActionView::PollBusy)
                } else if v.writes >= QUAD_ENABLE_MAX_WRITES {
                    abort(v, Error::QuadModeTimeout)
                } else {
                    write_status(v, (v.writes + 1) as u8, s[0])
                },
                _ => abort(v, protocol),
            },
            Phase::BusyPoll => match e {
                EventView::StillBusy => (v, ActionView::PollBusy),
                EventView::Completed => (
                    FlashView { state: DriverState::QuadReady, phase: Phase::Idle, ..v },
                    ActionView::Finished(Ok(())),
                ),
                _ => abort(v, protocol),
            },
            Phase::Idle => (v, ActionView::Finished(Err(Error::WrongState))),
        }
    }
}

/// Switching to quad-wide addressing, allowed only in `QuadReady`.
pub open spec fn switch_quad(v: FlashView) -> (FlashView, Result<BusSetup, Error>) {
    if v.state is QuadReady {
        (
            FlashView { widths: quad_widths(), geometry: Some(stock_geometry()), ..v },
            Ok(BusSetup { widths: quad_widths(), geometry: stock_geometry() }),
        )
    } else {
        (v, Err(Error::WrongState))
    }
}

/// Entering memory-mapped mode, allowed only in `QuadReady` after the switch to
/// quad-wide addressing.
pub open spec fn map_window(v: FlashView, read: TransactionView, write: TransactionView) -> (
    FlashView,
    Result<(), Error>,
) {
    if v.state is QuadReady && v.geometry is Some {
        (
            FlashView {
                state: DriverState::MemoryMapped,
                window: Some(MemoryWindowView { read, write }),
                ..v
            },
            Ok(()),
        )
    } else {
        (v, Err(Error::WrongState))
    }
}

/// A read of `len` bytes at `addr` in command mode: quad I/O read once the
/// address and data phases are quad-wide, plain read otherwise.
pub open spec fn read_transaction(widths: PhaseWidths, addr: u32, len: nat) -> TransactionView {
    let quad = widths.data is Quad;
    TransactionView {
        opcode: if quad { OP_QUAD_IO_READ } else { OP_READ },
        address: Address::U24(addr),
        address_lines: widths.address,
        dummy_cycles: if quad { QUAD_READ_DUMMY_CYCLES } else { 0 },
        data: DataPhaseView::Read(len),
        data_lines: widths.data,
    }
}

/// A page program of `data` at `addr` in command mode.
pub open spec fn write_transaction(widths: PhaseWidths, addr: u32, data: Seq<u8>) -> TransactionView {
    TransactionView {
        opcode: OP_PAGE_PROGRAM,
        address: Address::U24(addr),
        address_lines: widths.address,
        dummy_cycles: 0,
        data: DataPhaseView::Write(data),
        data_lines: widths.data,
    }
}

/// The read template of memory-mapped mode: a quad I/O read.
pub open spec fn quad_read_template_spec() -> TransactionView {
    read_transaction(quad_widths(), 0, 0)
}

/// The write template of memory-mapped mode: a quad page program.
pub open spec fn page_program_template_spec() -> TransactionView {
    write_transaction(quad_widths(), 0, Seq::empty())
}

pub fn quad_read_template() -> (t: Transaction)
    ensures
        t@ == quad_read_template_spec(),
{
    Transaction {
        opcode: OP_QUAD_IO_READ,
        address: Address::U24(0),
        address_lines: LineWidth::Quad,
        dummy_cycles: QUAD_READ_DUMMY_CYCLES,
        data: DataPhase::Read(0),
        data_lines: LineWidth::Quad,
    }
}

pub fn page_program_template() -> (t: Transaction)
    ensures
        t@ == page_program_template_spec(),
{
    let t = Transaction {
        opcode: OP_PAGE_PROGRAM,
        address: Address::U24(0),
        address_lines: LineWidth::Quad,
        dummy_cycles: 0,
        data: DataPhase::Write(Vec::new()),
        data_lines: LineWidth::Quad,
    };
    assert(t@.data == DataPhaseView::Write(Seq::<u8>::empty()));
    t
}

/// The flash driver. It owns the protocol state; the bus itself is driven by
/// whoever performs the actions it hands out.
pub struct SpiFlash {
    state: DriverState,
    phase: Phase,
    writes: u8,
    status: u8,
    widths: PhaseWidths,
    geometry: Option<BusGeometry>,
    window: Option<MemoryWindow>,
}

impl View for SpiFlash {
    type V = FlashView;

    closed spec fn view(&self) -> FlashView {
        FlashView {
            state: self.state,
            phase: self.phase,
            writes: self.writes,
            status: self.status,
            widths: self.widths,
            geometry: self.geometry,
            window: match self.window {
                Some(w) => Some(MemoryWindowView { read: w.read@, write: w.write@ }),
                None => None,
            },
        }
    }
}

impl SpiFlash {
    pub open spec fn wf(&self) -> bool {
        self@.wf()
    }

    /// A driver for a chip that has not been brought up yet.
    pub fn new() -> (r: SpiFlash)
        ensures
            r@ == FlashView::initial(),
            r.wf(),
    {
        SpiFlash {
            state: DriverState::Uninitialized,
            phase: Phase::Idle,
            writes: 0,
            status: 0,
            widths: PhaseWidths::single(),
            geometry: None,
            window: None,
        }
    }

    pub fn state(&self) -> (r: DriverState)
        ensures
            r == self@.state,
    {
        self.state
    }

    pub fn phase_widths(&self) -> (r: PhaseWidths)
        ensures
            r == self@.widths,
    {
        self.widths
    }

    pub fn geometry(&self) -> (r: Option<BusGeometry>)
        ensures
            r == self@.geometry,
    {
        self.geometry
    }

    pub fn memory_window(&self) -> (r: Option<&MemoryWindow>)
        ensures
            r is Some <==> self@.window is Some,
            r is Some ==> self@.window == Some(
                MemoryWindowView { read: r->Some_0.read@, write: r->Some_0.write@ },
            ),
    {
        match &self.window {
            Some(w) => Some(w),
            None => None,
        }
    }

    /// Where the chip's byte `offset` appears in memory-mapped mode: `None`
    /// outside `MemoryMapped` or past the end of the chip.
    pub fn mapped_address(&self, offset: u32) -> (r: Option<u32>)
        ensures
            r == if self@.state == DriverState::MemoryMapped && offset < DEVICE_BYTES {
                Some((MEMORY_WINDOW_BASE + offset) as u32)
            } else {
                None::<u32>
            },
    {
        match self.state {
            DriverState::MemoryMapped => if offset < DEVICE_BYTES {
                Some(MEMORY_WINDOW_BASE + offset)
            } else {
                None
            },
            _ => None,
        }
    }

    /// Starts the bootstrap sequence, from any state: the driver returns to
    /// single-wire command mode in `Resetting`, and the first action is the
    /// reset-enable command. Feed each action's outcome to `advance`.
    pub fn init(&mut self) -> (a: Action)
        requires
            old(self).wf(),
        ensures
            final(self).wf(),
            (final(self)@, a@) == start_init(old(self)@),
            final(self)@.state == DriverState::Resetting,
            a@ == ActionView::Transact(command_spec(OP_RESET_ENABLE)),
    {
        self.state = DriverState::Resetting;
        self.phase = Phase::ResetEnable;
        self.writes = 0;
        self.status = 0;
        self.widths = PhaseWidths::single();
        self.geometry = None;
        self.window = None;
        Action::Transact(command(OP_RESET_ENABLE))
    }

    fn abort(&mut self, err: Error) -> (a: Action)
        requires
            old(self).wf(),
            !(old(self)@.phase is Idle),
        ensures
            final(self).wf(),
            (final(self)@, a@) == abort(old(self)@, err),
    {
        self.state = DriverState::Uninitialized;
        self.phase = Phase::Idle;
        Action::Finished(Err(err))
    }

    fn enter(&mut self, phase: Phase)
        requires
            !(phase is Idle),
            old(self).geometry is None,
            old(self).window is None,
            old(self).writes <= QUAD_ENABLE_MAX_WRITES,
            old(self).widths == single_widths(),
        ensures
            final(self)@ == old(self)@.at(phase),
            final(self).wf(),
    {
        self.phase = phase;
        self.state = match phase {
            Phase::Idle => DriverState::Uninitialized,
            Phase::ResetEnable | Phase::ResetEnableSettle | Phase::Reset | Phase::ResetRecovery
            | Phase::Identity => DriverState::Resetting,
            Phase::Status => DriverState::IdentityVerified,
            Phase::StatusWrite | Phase::StatusSettle | Phase::StatusReadBack | Phase::BusyPoll => {
                DriverState::QuadEnabling
            },
        };
    }

    fn write_status(&mut self, writes: u8, status: u8) -> (a: Action)
        requires
            old(self).wf(),
            !(old(self)@.phase is Idle),
            writes <= QUAD_ENABLE_MAX_WRITES,
        ensures
            final(self).wf(),
            (final(self)@, a@) == write_status(old(self)@, writes, status),
    {
        let w = with_quad_enable(status);
        self.writes = writes;
        self.status = w;
        self.enter(Phase::StatusWrite);
        let mut bytes: Vec<u8> = Vec::new();
        bytes.push(w);
        assert(bytes@ =~= seq![w]);
        Action::Transact(register_write(OP_WRITE_STATUS, bytes))
    }

    /// Moves the bootstrap on by the outcome of the action it last handed out,
    /// and returns the next action. Any bus fault, an event of the wrong kind, a
    /// wrong identity or an exhausted quad-enable loop ends the bootstrap in
    /// `Uninitialized` with that error; a clear busy flag after quad mode is
    /// confirmed ends it in `QuadReady` with success. Outside a running
    /// bootstrap nothing changes and the answer is `WrongState`.
    pub fn advance(&mut self, event: Event) -> (a: Action)
        requires
            old(self).wf(),
        ensures
            final(self).wf(),
            (final(self)@, a@) == step(old(self)@, event@),
            old(self)@.phase is Idle ==> {
                &&& final(self)@ == old(self)@
                &&& a@ == ActionView::Finished(Err(Error::WrongState))
            },
            !(old(self)@.phase is Idle) && event@ is Fault ==> {
                &&& a@ == ActionView::Finished(Err(Error::Bus(event@->Fault_0)))
                &&& final(self)@.state == DriverState::Uninitialized
            },
            !(old(self)@.phase is Idle) && a@ is Finished ==> {
                &&& final(self)@.phase is Idle
                &&& (a@ == ActionView::Finished(Ok(()))) == (final(self)@.state
                    == DriverState::QuadReady)
                &&& (a@ != ActionView::Finished(Ok(()))) == (final(self)@.state
                    == DriverState::Uninitialized)
            },
    {
        let protocol = Error::Bus(BusFault::ProtocolFault);
        if let Phase::Idle = self.phase {
            return Action::Finished(Err(Error::WrongState));
        }
        if let Event::Fault(f) = event {
            return self.abort(Error::Bus(f));
        }
        match self.phase {
            Phase::ResetEnable => match event {
                Event::Completed => {
                    self.enter(Phase::ResetEnableSettle);
                    Action::Delay(RESET_ENABLE_SETTLE_MS)
                },
                _ => self.abort(protocol),
            },
            Phase::ResetEnableSettle => match event {
                Event::Completed => {
                    self.enter(Phase::Reset);
                    Action::Transact(command(OP_RESET))
                },
                _ => self.abort(protocol),
            },
            Phase::Reset => match event {
                Event::Completed => {
                    self.enter(Phase::ResetRecovery);
                    Action::Delay(RESET_RECOVERY_MS)
                },
                _ => self.abort(protocol),
            },
            Phase::ResetRecovery => match event {
                Event::Completed => {
                    self.enter(Phase::Identity);
                    Action::Transact(register_read(OP_READ_IDENTITY, IDENTITY_LEN))
                },
                _ => self.abort(protocol),
            },
            Phase::Identity => match event {
                Event::Data(id) => {
                    if is_expected_identity(id.as_slice()) {
                        self.enter(Phase::Status);
                        Action::Transact(register_read(OP_READ_STATUS, 1))
                    } else {
                        self.abort(Error::IdentityMismatch)
                    }
                },
                _ => self.abort(protocol),
            },
            Phase::Status => match event {
                Event::Data(s) => {
                    if s.len() == 1 {
                        self.write_status(1, s[0])
                    } else {
                        self.abort(protocol)
                    }
                },
                _ => self.abort(protocol),
            },
            Phase::StatusWrite => match event {
                Event::Completed => {
                    self.enter(Phase::StatusSettle);
                    Action::Delay(STATUS_WRITE_SETTLE_MS)
                },
                _ => self.abort(protocol),
            },
            Phase::StatusSettle => match event {
                Event::Completed => {
                    self.enter(Phase::StatusReadBack);
                    Action::Transact(register_read(OP_READ_STATUS, 1))
                },
                _ => self.abort(protocol),
            },
            Phase::StatusReadBack => match event {
                Event::Data(s) => {
                    if s.len() != 1 {
                        self.abort(protocol)
                    } else if quad_ready(s[0]) {
                        self.status = s[0];
                        self.enter(Phase::BusyPoll);
                        Action::PollBusy
                    } else if self.writes >= QUAD_ENABLE_MAX_WRITES {
                        self.abort(Error::QuadModeTimeout)
                    } else {
                        let next = self.writes + 1;
                        self.write_status(next, s[0])
                    }
                },
                _ => self.abort(protocol),
            },
            Phase::BusyPoll => match event {
                Event::StillBusy => Action::PollBusy,
                Event::Completed => {
                    self.state = DriverState::QuadReady;
                    self.phase = Phase::Idle;
                    Action::Finished(Ok(()))
                },
                _ => self.abort(protocol),
            },
            Phase::Idle => Action::Finished(Err(Error::WrongState)),
        }
    }

    /// Switches command-mode transactions to quad-wide address and data
    /// phases and records the device geometry. Allowed only in `QuadReady`,
    /// where the chip's quad-enable bit is confirmed; elsewhere it fails with
    /// `WrongState` and changes nothing. The returned setup is what the bus
    /// controller must be given.
    pub fn set_quad_width(&mut self) -> (r: Result<BusSetup, Error>)
        requires
            old(self).wf(),
        ensures
            final(self).wf(),
            (final(self)@, r) == switch_quad(old(self)@),
            r is Err <==> old(self)@.state != DriverState::QuadReady,
            r is Err ==> r == Err::<BusSetup, Error>(Error::WrongState),
    {
        if let DriverState::QuadReady = self.state {
            let setup = BusSetup { widths: PhaseWidths::quad(), geometry: BusGeometry::stock() };
            self.widths = setup.widths;
            self.geometry = Some(setup.geometry);
            Ok(setup)
        } else {
            Err(Error::WrongState)
        }
    }

    /// Installs the memory-mapped read and write templates and enters
    /// `MemoryMapped`. Allowed only in `QuadReady` after `set_quad_width`;
    /// elsewhere it fails with `WrongState` and changes nothing. The bus
    /// controller must then be given the templates from `memory_window` and its
    /// busy flag polled until clear.
    pub fn enable(&mut self, read: Transaction, write: Transaction) -> (r: Result<(), Error>)
        requires
            old(self).wf(),
        ensures
            final(self).wf(),
            (final(self)@, r) == map_window(old(self)@, read@, write@),
            r is Ok <==> (old(self)@.state == DriverState::QuadReady && old(self)@.geometry is Some),
            r is Ok ==> final(self)@.state == DriverState::MemoryMapped,
            r is Err ==> r == Err::<(), Error>(Error::WrongState),
    {
        match (self.state, self.geometry) {
            (DriverState::QuadReady, Some(_)) => {
                self.state = DriverState::MemoryMapped;
                self.window = Some(MemoryWindow { read, write });
                Ok(())
            },
            _ => Err(Error::WrongState),
        }
    }

    /// The transaction that reads `len` bytes at `addr` in command mode. A
    /// length over the FIFO capacity is refused with `BufferTooLarge`, in any
    /// state; in `MemoryMapped` the bus is no longer in command mode and the
    /// answer is `WrongState`.
    pub fn read_bytes(&self, addr: u32, len: usize) -> (r: Result<Transaction, Error>)
        ensures
            len > FIFO_CAPACITY ==> r == Err::<Transaction, Error>(Error::BufferTooLarge),
            len <= FIFO_CAPACITY && self@.state == DriverState::MemoryMapped ==> r
                == Err::<Transaction, Error>(Error::WrongState),
            len <= FIFO_CAPACITY && self@.state != DriverState::MemoryMapped ==> r is Ok
                && r->Ok_0@ == read_transaction(self@.widths, addr, len as nat),
    {
        if len > FIFO_CAPACITY {
            return Err(Error::BufferTooLarge);
        }
        if let DriverState::MemoryMapped = self.state {
            return Err(Error::WrongState);
        }
        let quad = match self.widths.data {
            LineWidth::Quad => true,
            LineWidth::Single => false,
        };
        Ok(
            Transaction {
                opcode: if quad { OP_QUAD_IO_READ } else { OP_READ },
                address: Address::U24(addr),
                address_lines: self.widths.address,
                dummy_cycles: if quad { QUAD_READ_DUMMY_CYCLES } else { 0 },
                data: DataPhase::Read(len),
                data_lines: self.widths.data,
            },
        )
    }

    /// The page-program transaction that writes `data` at `addr` in command
    /// mode. A payload over the FIFO capacity is refused with `BufferTooLarge`,
    /// in any state; in `MemoryMapped` the answer is `WrongState`. The region
    /// must have been erased: programming only clears bits.
    pub fn write_bytes(&self, addr: u32, data: &[u8]) -> (r: Result<Transaction, Error>)
        ensures
            data@.len() > FIFO_CAPACITY ==> r == Err::<Transaction, Error>(Error::BufferTooLarge),
            data@.len() <= FIFO_CAPACITY && self@.state == DriverState::MemoryMapped ==> r
                == Err::<Transaction, Error>(Error::WrongState),
            data@.len() <= FIFO_CAPACITY && self@.state != DriverState::MemoryMapped ==> r is Ok
                && r->Ok_0@ == write_transaction(self@.widths, addr, data@),
    {
        if data.len() > FIFO_CAPACITY {
            return Err(Error::BufferTooLarge);
        }
        if let DriverState::MemoryMapped = self.state {
            return Err(Error::WrongState);
        }
        Ok(
            Transaction {
                opcode: OP_PAGE_PROGRAM,
                address: Address::U24(addr),
                address_lines: self.widths.address,
                dummy_cycles: 0,
                data: DataPhase::Write(slice_to_vec(data)),
                data_lines: self.widths.data,
            },
        )
    }
}

} // verus!
