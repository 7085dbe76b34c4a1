use vstd::prelude::*;

verus! {

/// Status register bit 6: the chip runs its quad-wide interface.
pub const STATUS_QUAD_ENABLE: u8 = 0x40;

/// Status register bit 1: a write is still in progress.
pub const STATUS_WRITE_BUSY: u8 = 0x02;

/// The status value shows quad mode on and no write in progress.
pub open spec fn quad_ready_spec(status: u8) -> bool {
    status & STATUS_QUAD_ENABLE != 0 && status & STATUS_WRITE_BUSY == 0
}

/// The status value to write back: the same bits with quad mode requested.
pub open spec fn with_quad_enable_spec(status: u8) -> u8 {
    status | STATUS_QUAD_ENABLE
}

pub fn quad_ready(status: u8) -> (r: bool)
    ensures
        r == quad_ready_spec(status),
{
    status & STATUS_QUAD_ENABLE != 0 && status & STATUS_WRITE_BUSY == 0
}

pub fn with_quad_enable(status: u8) -> (r: u8)
    ensures
        r == with_quad_enable_spec(status),
{
    status | STATUS_QUAD_ENABLE
}

} // verus!
