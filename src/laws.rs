use vstd::arithmetic::div_mod::lemma_small_mod;
use vstd::prelude::*;

use crate::chip::{address_space, bring_up, bring_up_fuel, erased, program, read_out, respond, run, SimChip};
use crate::command::{command_spec, register_read_spec, register_write_spec, OP_READ_IDENTITY, OP_READ_STATUS, OP_RESET, OP_RESET_ENABLE, OP_WRITE_STATUS};
use crate::driver::{
    expected_identity, map_window, page_program_template_spec, quad_read_template_spec,
    read_transaction, start_init, step, switch_quad, write_status, write_transaction, ActionView,
    DriverState, EventView, FlashView, Phase, IDENTITY_LEN, QUAD_ENABLE_MAX_WRITES,
    RESET_ENABLE_SETTLE_MS, RESET_RECOVERY_MS, STATUS_WRITE_SETTLE_MS,
};
use crate::error::Error;
use crate::geometry::PhaseWidths;
use crate::status::quad_ready_spec;

verus! {

/// The driver's end of the busy-flag poll: however many polls still find the
/// controller busy, the bootstrap ends in `QuadReady` with success.
proof fn lemma_busy_poll(v: FlashView, chip: SimChip, fuel: nat)
    requires
        v.phase is BusyPoll,
        fuel >= chip.busy_polls + 1,
    ensures
        run(v, ActionView::PollBusy, chip, fuel) == (
            FlashView { state: DriverState::QuadReady, phase: Phase::Idle, ..v },
            ActionView::Finished(Ok(())),
            SimChip { busy_polls: 0, ..chip },
        ),
    decreases chip.busy_polls,
{
    let (c, e) = respond(chip, ActionView::PollBusy);
    let (w, b) = step(v, e);
    assert(run(v, ActionView::PollBusy, chip, fuel) == run(w, b, c, (fuel - 1) as nat));
    if chip.busy_polls > 0 {
        lemma_busy_poll(v, c, (fuel - 1) as nat);
    } else {
        assert(c == SimChip { busy_polls: 0, ..chip });
    }
}

/// The quad-enable loop from the status write number `v.writes`, with that
/// write pending on the bus.
proof fn lemma_quad_enable_loop(v: FlashView, w: u8, chip: SimChip, fuel: nat)
    requires
        v.phase is StatusWrite,
        1 <= v.writes <= QUAD_ENABLE_MAX_WRITES,
        chip.writes_done + 1 == v.writes,
        !quad_ready_spec(chip.pending_status),
        quad_ready_spec(chip.ready_status),
        fuel >= 3 * (QUAD_ENABLE_MAX_WRITES - v.writes + 1) + chip.busy_polls + 1,
    ensures
        ({
            let r = run(
                v,
                ActionView::Transact(register_write_spec(OP_WRITE_STATUS, seq![w])),
                chip,
                fuel,
            );
            &&& chip.writes_needed <= QUAD_ENABLE_MAX_WRITES ==> {
                &&& r.1 == ActionView::Finished(Ok(()))
                &&& r.0.state == DriverState::QuadReady
                &&& r.2.writes_done == if chip.writes_needed > v.writes {
                    chip.writes_needed
                } else {
                    v.writes as nat
                }
            }
            &&& chip.writes_needed > QUAD_ENABLE_MAX_WRITES ==> {
                &&& r.1 == ActionView::Finished(Err(Error::QuadModeTimeout))
                &&& r.0.state == DriverState::Uninitialized
                &&& r.2.writes_done == QUAD_ENABLE_MAX_WRITES
            }
        }),
    decreases QUAD_ENABLE_MAX_WRITES - v.writes,
{
    let a0 = ActionView::Transact(register_write_spec(OP_WRITE_STATUS, seq![w]));
    let (c1, e1) = respond(chip, a0);
    assert(c1 == SimChip { writes_done: chip.writes_done + 1, ..chip });
    let (v1, a1) = step(v, e1);
    assert(a1 == ActionView::Delay(STATUS_WRITE_SETTLE_MS));
    assert(run(v, a0, chip, fuel) == run(v1, a1, c1, (fuel - 1) as nat));
    let (c2, e2) = respond(c1, a1);
    let (v2, a2) = step(v1, e2);
    assert(a2 == ActionView::Transact(register_read_spec(OP_READ_STATUS, 1)));
    assert(run(v1, a1, c1, (fuel - 1) as nat) == run(v2, a2, c2, (fuel - 2) as nat));
    let (c3, e3) = respond(c2, a2);
    let st = c1.status();
    assert(e3 == EventView::Data(seq![st]));
    let (v3, a3) = step(v2, e3);
    assert(run(v2, a2, c2, (fuel - 2) as nat) == run(v3, a3, c3, (fuel - 3) as nat));
    assert(c3 == c1);
    assert(seq![st].len() == 1 && seq![st][0] == st);
    if quad_ready_spec(st) {
        assert(c1.writes_done >= chip.writes_needed);
        assert(a3 == ActionView::PollBusy);
        lemma_busy_poll(v3, c3, (fuel - 3) as nat);
    } else if v.writes >= QUAD_ENABLE_MAX_WRITES {
        assert(a3 == ActionView::Finished(Err(Error::QuadModeTimeout)));
        assert(run(v3, a3, c3, (fuel - 3) as nat) == (v3, a3, c3));
    } else {
        let next = (v.writes + 1) as u8;
        assert((v3, a3) == write_status(v2, next, st));
        let w3 = crate::status::with_quad_enable_spec(st);
        lemma_quad_enable_loop(v3, w3, c3, (fuel - 3) as nat);
    }
}

/// The bootstrap up to its identity check, and on a match up to the first
/// status register write.
proof fn lemma_bring_up_prefix(v: FlashView, chip: SimChip)
    requires
        chip.fresh(),
    ensures
        chip.identity != expected_identity() ==> {
            let r = bring_up(v, chip);
            &&& r.1 == ActionView::Finished(Err(Error::IdentityMismatch))
            &&& r.0.state == DriverState::Uninitialized
            &&& r.2 == chip
        },
        chip.identity == expected_identity() ==> {
            let s = start_init(v).0;
            let (w, a) = write_status(s.at(Phase::Status), 1, chip.status());
            &&& w.phase is StatusWrite
            &&& w.writes == 1
            &&& bring_up(v, chip) == run(
                w,
                ActionView::Transact(register_write_spec(OP_WRITE_STATUS, seq![w.status])),
                chip,
                (bring_up_fuel(chip) - 6) as nat,
            )
            &&& a == ActionView::Transact(register_write_spec(OP_WRITE_STATUS, seq![w.status]))
        },
{
    let f = bring_up_fuel(chip);
    let (v0, a0) = start_init(v);
    assert(a0 == ActionView::Transact(command_spec(OP_RESET_ENABLE)));
    let (c1, e1) = respond(chip, a0);
    let (v1, a1) = step(v0, e1);
    assert(a1 == ActionView::Delay(RESET_ENABLE_SETTLE_MS));
    assert(run(v0, a0, chip, f) == run(v1, a1, c1, (f - 1) as nat));
    let (c2, e2) = respond(c1, a1);
    let (v2, a2) = step(v1, e2);
    assert(a2 == ActionView::Transact(command_spec(OP_RESET)));
    assert(run(v1, a1, c1, (f - 1) as nat) == run(v2, a2, c2, (f - 2) as nat));
    let (c3, e3) = respond(c2, a2);
    let (v3, a3) = step(v2, e3);
    assert(a3 == ActionView::Delay(RESET_RECOVERY_MS));
    assert(run(v2, a2, c2, (f - 2) as nat) == run(v3, a3, c3, (f - 3) as nat));
    let (c4, e4) = respond(c3, a3);
    let (v4, a4) = step(v3, e4);
    assert(a4 == ActionView::Transact(register_read_spec(OP_READ_IDENTITY, IDENTITY_LEN as nat)));
    assert(run(v3, a3, c3, (f - 3) as nat) == run(v4, a4, c4, (f - 4) as nat));
    let (c5, e5) = respond(c4, a4);
    assert(e5 == EventView::Data(chip.identity));
    let (v5, a5) = step(v4, e5);
    assert(run(v4, a4, c4, (f - 4) as nat) == run(v5, a5, c5, (f - 5) as nat));
    assert(c5 == chip);
    if chip.identity != expected_identity() {
        assert(a5 == ActionView::Finished(Err(Error::IdentityMismatch)));
        assert(run(v5, a5, c5, (f - 5) as nat) == (v5, a5, c5));
    } else {
        assert(v5 == v0.at(Phase::Status));
        assert(a5 == ActionView::Transact(register_read_spec(OP_READ_STATUS, 1)));
        let (c6, e6) = respond(c5, a5);
        assert(e6 == EventView::Data(seq![chip.status()]));
        assert(seq![chip.status()].len() == 1 && seq![chip.status()][0] == chip.status());
        let (v6, a6) = step(v5, e6);
        assert((v6, a6) == write_status(v5, 1, chip.status()));
        assert(run(v5, a5, c5, (f - 5) as nat) == run(v6, a6, c6, (f - 6) as nat));
    }
}

/// Bounded quad enabling: against a fresh chip with the expected identity
/// whose quad-enable bit shows only after `writes_needed` status writes, the
/// bootstrap succeeds in `QuadReady` after exactly that many writes (at least
/// one, since the loop always writes once) when it is within the bound, and
/// otherwise fails with `QuadModeTimeout` in `Uninitialized` after the bound's
/// worth of writes.
pub proof fn law_quad_enable_bounded(v: FlashView, chip: SimChip)
    requires
        chip.fresh(),
        chip.identity == expected_identity(),
    ensures
        chip.writes_needed <= QUAD_ENABLE_MAX_WRITES ==> {
            let r = bring_up(v, chip);
            &&& r.1 == ActionView::Finished(Ok(()))
            &&& r.0.state == DriverState::QuadReady
            &&& r.2.writes_done == if chip.writes_needed == 0 {
                1
            } else {
                chip.writes_needed
            }
        },
        chip.writes_needed > QUAD_ENABLE_MAX_WRITES ==> {
            let r = bring_up(v, chip);
            &&& r.1 == ActionView::Finished(Err(Error::QuadModeTimeout))
            &&& r.0.state == DriverState::Uninitialized
            &&& r.2.writes_done == QUAD_ENABLE_MAX_WRITES
        },
{
    lemma_bring_up_prefix(v, chip);
    let s = start_init(v).0;
    let (w, a) = write_status(s.at(Phase::Status), 1, chip.status());
    lemma_quad_enable_loop(w, w.status, chip, (bring_up_fuel(chip) - 6) as nat);
}

/// Bring-up: against a fresh chip with the expected identity whose quad-enable
/// bit takes effect within the bounded number of writes, the bootstrap
/// succeeds in `QuadReady`, and the switch to quad width followed by enabling
/// the memory-mapped window with the standard templates ends in `MemoryMapped`.
pub proof fn law_bring_up_succeeds(v: FlashView, chip: SimChip)
    requires
        chip.fresh(),
        chip.identity == expected_identity(),
        chip.writes_needed <= QUAD_ENABLE_MAX_WRITES,
    ensures
        ({
            let r = bring_up(v, chip);
            let q = switch_quad(r.0);
            let m = map_window(q.0, quad_read_template_spec(), page_program_template_spec());
            &&& r.1 == ActionView::Finished(Ok(()))
            &&& r.0.state == DriverState::QuadReady
            &&& q.1 is Ok
            &&& m.1 is Ok
            &&& m.0.state == DriverState::MemoryMapped
        }),
{
    law_quad_enable_bounded(v, chip);
}

/// Identity mismatch is fatal but not sticky: the bootstrap fails with
/// `IdentityMismatch` and leaves the driver `Uninitialized` without any status
/// write, and a second bootstrap on that driver, once the chip answers with the
/// expected identity, succeeds.
pub proof fn law_identity_mismatch_then_retry(v: FlashView, chip: SimChip)
    requires
        chip.fresh(),
        chip.identity != expected_identity(),
        chip.writes_needed <= QUAD_ENABLE_MAX_WRITES,
    ensures
        ({
            let r = bring_up(v, chip);
            let fixed = SimChip { identity: expected_identity(), ..r.2 };
            let again = bring_up(r.0, fixed);
            &&& r.1 == ActionView::Finished(Err(Error::IdentityMismatch))
            &&& r.0.state == DriverState::Uninitialized
            &&& r.2.writes_done == 0
            &&& again.1 == ActionView::Finished(Ok(()))
            &&& again.0.state == DriverState::QuadReady
        }),
{
    lemma_bring_up_prefix(v, chip);
    let r = bring_up(v, chip);
    let fixed = SimChip { identity: expected_identity(), ..r.2 };
    law_quad_enable_bounded(r.0, fixed);
}

/// Round trip: on an erased region, a command-mode write of `data` at `addr`
/// followed by a read of as many bytes at `addr` returns `data`, whatever the
/// phase widths.
pub proof fn law_write_then_read(widths: PhaseWidths, mem: Seq<u8>, addr: u32, data: Seq<u8>)
    requires
        mem.len() <= address_space(),
        addr + data.len() <= mem.len(),
        erased(mem, addr as int, data.len() as int),
    ensures
        read_out(program(mem, write_transaction(widths, addr, data)), read_transaction(widths, addr, data.len())) == data,
{
    let after = program(mem, write_transaction(widths, addr, data));
    let got = read_out(after, read_transaction(widths, addr, data.len()));
    if data.len() == 0 {
        assert(got =~= data);
    } else {
        let a = addr as int;
        lemma_small_mod(addr as nat, address_space() as nat);
        assert forall|i: int| 0 <= i < data.len() implies got[i] == data[i] by {
            let d = data[i];
            assert(mem[a + i] == 0xFF);
            assert(0xFFu8 & d == d) by (bit_vector);
        }
        assert(got =~= data);
    }
}

} // verus!
