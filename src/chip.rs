use vstd::prelude::*;

use crate::command::{
    TransactionView, OP_PAGE_PROGRAM, OP_QUAD_IO_READ, OP_READ,
    OP_READ_IDENTITY, OP_READ_STATUS, OP_WRITE_STATUS,
};
use crate::driver::{start_init, step, ActionView, EventView, FlashView, QUAD_ENABLE_MAX_WRITES};
use crate::status::quad_ready_spec;

verus! {

/// Addresses travel in 24 bits, so the chip sees them modulo this.
pub open spec fn address_space() -> int {
    0x100_0000
}

/// A chip on the bus, as far as the bootstrap sequence can observe it.
pub struct SimChip {
    /// The answer to the identity read.
    pub identity: Seq<u8>,
    /// The status register before quad mode has taken effect.
    pub pending_status: u8,
    /// The status register once quad mode has taken effect.
    pub ready_status: u8,
    /// Status register writes after which quad mode takes effect.
    pub writes_needed: nat,
    /// Status register writes received so far.
    pub writes_done: nat,
    /// Busy-flag polls that will still find the controller busy.
    pub busy_polls: nat,
}

impl SimChip {
    /// A chip that has received no status write yet, whose status shows quad
    /// mode not ready before it takes effect and ready after.
    pub open spec fn fresh(self) -> bool {
        &&& self.writes_done == 0
        &&& !quad_ready_spec(self.pending_status)
        &&& quad_ready_spec(self.ready_status)
    }

    pub open spec fn status(self) -> u8 {
        if self.writes_done >= self.writes_needed {
            self.ready_status
        } else {
            self.pending_status
        }
    }
}

/// How the chip and the controller answer an action of the driver.
pub open spec fn respond(chip: SimChip, a: ActionView) -> (SimChip, EventView) {
    match a {
        ActionView::Transact(t) => if t.opcode == OP_READ_IDENTITY {
            (chip, EventView::Data(chip.identity))
        } else if t.opcode == OP_READ_STATUS {
            (chip, EventView::Data(seq![chip.status()]))
        } else if t.opcode == OP_WRITE_STATUS {
            (SimChip { writes_done: chip.writes_done + 1, ..chip }, EventView::Completed)
        } else {
            (chip, EventView::Completed)
        },
        ActionView::PollBusy => if chip.busy_polls > 0 {
            (SimChip { busy_polls: (chip.busy_polls - 1) as nat, ..chip }, EventView::StillBusy)
        } else {
            (chip, EventView::Completed)
        },
        _ => (chip, EventView::Completed),
    }
}

/// Up to `fuel` rounds of performing action `a` on the chip and handing the
/// outcome to the driver; stops early at a finished action.
pub open spec fn run(v: FlashView, a: ActionView, chip: SimChip, fuel: nat) -> (
    FlashView,
    ActionView,
    SimChip,
)
    decreases fuel,
{
    if fuel == 0 || a is Finished {
        (v, a, chip)
    } else {
        let (c, e) = respond(chip, a);
        let (w, b) = step(v, e);
        run(w, b, c, (fuel - 1) as nat)
    }
}

/// Rounds enough for a whole bootstrap against `chip`.
pub open spec fn bring_up_fuel(chip: SimChip) -> nat {
    (7 + 3 * QUAD_ENABLE_MAX_WRITES + chip.busy_polls) as nat
}

/// The bootstrap started on driver `v` and run against `chip`: the final
/// driver, the final action and the chip afterwards.
pub open spec fn bring_up(v: FlashView, chip: SimChip) -> (FlashView, ActionView, SimChip) {
    run(start_init(v).0, start_init(v).1, chip, bring_up_fuel(chip))
}

/// Every byte of `mem` in `[addr, addr + len)` is erased.
pub open spec fn erased(mem: Seq<u8>, addr: int, len: int) -> bool {
    forall|i: int| addr <= i < addr + len ==> mem[i] == 0xFF
}

/// The flash contents after transaction `t`: a page program clears, in the
/// bytes it covers, the bits that are clear in its payload; other
/// transactions leave the contents alone.
pub open spec fn program(mem: Seq<u8>, t: TransactionView) -> Seq<u8> {
    if t.opcode == OP_PAGE_PROGRAM && t.address is U24 && t.data is Write {
        let a = t.address->U24_0 as int % address_space();
        let d = t.data->Write_0;
        Seq::new(
            mem.len(),
            |i: int|
                if a <= i < a + d.len() {
                    mem[i] & d[i - a]
                } else {
                    mem[i]
                },
        )
    } else {
        mem
    }
}

/// The bytes that read transaction `t` returns from the flash contents.
pub open spec fn read_out(mem: Seq<u8>, t: TransactionView) -> Seq<u8> {
    if (t.opcode == OP_READ || t.opcode == OP_QUAD_IO_READ) && t.address is U24 && t.data is Read {
        let a = t.address->U24_0 as int % address_space();
        mem.subrange(a, a + t.data->Read_0)
    } else {
        Seq::empty()
    }
}

} // verus!
