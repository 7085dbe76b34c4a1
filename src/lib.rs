//! Driver core for a quad-wide serial NOR flash chip behind an OCTOSPI-style
//! bus controller.
//!
//! The driver never touches hardware itself. Each operation either returns a
//! plain description of what the bus must do next (a [`Transaction`], a delay,
//! a busy-flag poll, a controller setup), or consumes what the bus reported
//! back as an [`Event`]. Whoever owns the hardware performs the action and
//! feeds the outcome back, so every decision of the protocol is verified here.

pub mod chip;
pub mod command;
pub mod driver;
pub mod error;
pub mod geometry;
pub mod laws;
pub mod status;

pub use command::{
    command, register_read, register_write, Address, DataPhase, DataPhaseView, LineWidth,
    Transaction, TransactionView, FIFO_CAPACITY, OP_PAGE_PROGRAM, OP_QUAD_IO_READ, OP_QUAD_READ,
    OP_READ, OP_READ_CONFIG, OP_READ_IDENTITY, OP_READ_STATUS, OP_RESET, OP_RESET_ENABLE,
    OP_WRITE_ENABLE, OP_WRITE_STATUS,
};
pub use driver::{
    is_expected_identity, page_program_template, quad_read_template, Action, ActionView,
    DriverState, Event, EventView, FlashView, MemoryWindow, MemoryWindowView, Phase, SpiFlash,
    DEVICE_BYTES, IDENTITY_LEN, JEDEC_CAPACITY, JEDEC_MANUFACTURER, JEDEC_MEMORY_TYPE,
    MEMORY_WINDOW_BASE, QUAD_ENABLE_MAX_WRITES, QUAD_READ_DUMMY_CYCLES, RESET_ENABLE_SETTLE_MS,
    RESET_RECOVERY_MS, STATUS_WRITE_SETTLE_MS,
};
pub use error::{BusFault, Error};
pub use geometry::{BusGeometry, BusSetup, PhaseWidths};
pub use status::{quad_ready, with_quad_enable, STATUS_QUAD_ENABLE, STATUS_WRITE_BUSY};
