use vstd::prelude::*;

use crate::command::LineWidth;

verus! {

/// Wire widths that command-mode transactions use for their address and data
/// phases. The opcode phase is always single-wire.
#[derive(Clone, Copy, Debug, PartialEq, Eq, Structural)]
pub struct PhaseWidths {
    pub address: LineWidth,
    pub data: LineWidth,
}

/// Device parameters written into the bus controller once the chip runs in
/// quad mode.
#[derive(Clone, Copy, Debug, PartialEq, Eq, Structural)]
pub struct BusGeometry {
    /// Cycles the chip select stays high between two transactions.
    pub chip_select_high: u8,
    /// The device holds `2^(device_size + 1)` bytes, in the controller's encoding.
    pub device_size: u8,
    /// The controller's memory-type code for the chip's byte order.
    pub memory_type: u8,
    /// Wrapped-read burst size; zero when wrapping is not used.
    pub wrap_size: u8,
    /// Kernel clock divider, in the controller's encoding (divide by value + 1).
    pub clock_prescaler: u8,
    /// FIFO level, in bytes, at which the controller raises its threshold flag.
    pub fifo_threshold: u8,
}

/// What the bus controller must be set to when the driver leaves single-wire
/// addressing.
#[derive(Clone, Copy, Debug, PartialEq, Eq, Structural)]
pub struct BusSetup {
    pub widths: PhaseWidths,
    pub geometry: BusGeometry,
}

pub open spec fn single_widths() -> PhaseWidths {
    PhaseWidths { address: LineWidth::Single, data: LineWidth::Single }
}

pub open spec fn quad_widths() -> PhaseWidths {
    PhaseWidths { address: LineWidth::Quad, data: LineWidth::Quad }
}

/// The geometry of the stock 1 MiB chip at a 16 MHz bus clock from a 64 MHz
/// kernel clock.
pub open spec fn stock_geometry() -> BusGeometry {
    BusGeometry {
        chip_select_high: 4,
        device_size: 19,
        memory_type: 1,
        wrap_size: 0,
        clock_prescaler: 3,
        fifo_threshold: 4,
    }
}

impl PhaseWidths {
    pub fn single() -> (r: PhaseWidths)
        ensures
            r == single_widths(),
    {
        PhaseWidths { address: LineWidth::Single, data: LineWidth::Single }
    }

    pub fn quad() -> (r: PhaseWidths)
        ensures
            r == quad_widths(),
    {
        PhaseWidths { address: LineWidth::Quad, data: LineWidth::Quad }
    }
}

impl BusGeometry {
    pub fn stock() -> (r: BusGeometry)
        ensures
            r == stock_geometry(),
    {
        BusGeometry {
            chip_select_high: 4,
            device_size: 19,
            memory_type: 1,
            wrap_size: 0,
            clock_prescaler: 3,
            fifo_threshold: 4,
        }
    }
}

} // verus!
