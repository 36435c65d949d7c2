//! What holds of every step of the processor.

use crate::cpu::control_pulses::ControlPulse;
use crate::cpu::instructions::Action;
use crate::cpu::model::{read_phase, write_phase, CpuState};
use crate::cpu::registers::{lemma_decode_address_bounds, sequence_of};
use crate::cpu::TimePulse;
use crate::memory::{
    proper_parity, shaped, stored, ERASABLE_BANK_SIZE, ERASABLE_NUM_BANKS, FIXED_BANK_SIZE,
    FIXED_NUM_BANKS,
};
use crate::word::{lemma_bit_values, lemma_mask_values, lemma_ops_fit, lemma_with_bit_fits};
use vstd::prelude::*;

verus! {

proof fn lemma_central_register_bits(ebank: u16, fbank: u16, wl: u16)
    by (bit_vector)
    requires
        ebank <= 0o7,
        fbank <= 0o37,
    ensures
        ((ebank << 8) >> 8) & 0o7 == ebank,
        ((fbank << 10) >> 10) & 0o37 == fbank,
        (ebank | (fbank << 10)) & 0o7 == ebank,
        ((ebank | (fbank << 10)) >> 10) & 0o37 == fbank,
        (wl >> 8) & 0o7 <= 0o7,
        (wl >> 10) & 0o37 <= 0o37,
        wl & 0o7 <= 0o7,
        wl & 0o7777 <= 0o7777,
{
}

/// Whether the pulse `write` writes to the register that the pulse `read`
/// reads.
pub open spec fn writes_back(read: ControlPulse, write: ControlPulse) -> bool {
    ||| read == ControlPulse::RA && write == ControlPulse::WA
    ||| read == ControlPulse::RB && write == ControlPulse::WB
    ||| read == ControlPulse::RG && write == ControlPulse::WG
    ||| read == ControlPulse::RZ && write == ControlPulse::WZ
    ||| read == ControlPulse::RSC && write == ControlPulse::WSC
}

/// A pulse that reads a register, followed by the pulse that writes the same
/// register while the write lines carry just what the first put on them,
/// leaves every register as it was.
pub proof fn lemma_read_then_write_restores(
    read: ControlPulse,
    write: ControlPulse,
    state: CpuState,
)
    requires
        writes_back(read, write),
        state.wf(),
    ensures
        write.after_read(read.after_write(state), read.write_line(state)) == state,
{
    lemma_central_register_bits(state.ebank, state.fbank, 0);
}

/// Register Q is read through the central register that S addresses: read
/// that way and written back by the pulse WQ, it is as it was.
pub proof fn lemma_read_q_then_write_restores(state: CpuState)
    requires
        state.s == 0o2,
    ensures
        ControlPulse::RSC.write_line(state) == state.q,
        ControlPulse::WQ.after_read(
            ControlPulse::RSC.after_write(state),
            ControlPulse::RSC.write_line(state),
        ) == state,
{
}

/// The pulse WY12, whatever the adder held before: register Y receives the
/// twelve low bits of the write lines, register X and the carry are cleared,
/// and nothing else changes.
pub proof fn lemma_wy12(state: CpuState, wl: u16)
    ensures
        ControlPulse::WY12.after_read(ControlPulse::WY12.after_write(state), wl) == (CpuState {
            x: 0,
            y: wl & 0o7777,
            ci: false,
            ..state
        }),
        ControlPulse::WY12.after_read(ControlPulse::WY12.after_write(state), wl).y == wl & 0o7777,
        ControlPulse::WY12.after_read(ControlPulse::WY12.after_write(state), wl).x == 0,
        !ControlPulse::WY12.after_read(ControlPulse::WY12.after_write(state), wl).ci,
{
}

/// A control pulse leaves every register within its width and both storages
/// as they are.
pub proof fn lemma_pulse_keeps_wf(pulse: ControlPulse, state: CpuState, wl: u16)
    requires
        state.wf(),
    ensures
        pulse.after_write(state).wf(),
        pulse.after_read(state, wl).wf(),
{
    lemma_mask_values();
    lemma_bit_values();
    lemma_central_register_bits(state.ebank, state.fbank, wl);
    lemma_ops_fit(state.next_st, 0b010, 0, 3);
    lemma_ops_fit(state.next_st, 0b001, 0, 3);
    lemma_with_bit_fits(state.br, 0, 2);
    lemma_with_bit_fits(state.br, 1, 2);
}

/// Whether two states are at the same point of the same memory cycle, with
/// the same storages: they agree on the stage counter, the sequence register,
/// the time pulse, the remembered address and both storages.
pub open spec fn same_cycle(first: CpuState, second: CpuState) -> bool {
    &&& first.st == second.st
    &&& first.sq == second.sq
    &&& first.timepulse == second.timepulse
    &&& first.current_s == second.current_s
    &&& first.erasable == second.erasable
    &&& first.fixed == second.fixed
}

/// A control pulse changes neither the stage counter, the sequence register,
/// the time pulse, the remembered address nor a storage.
pub proof fn lemma_pulse_keeps_cycle(pulse: ControlPulse, state: CpuState, wl: u16)
    ensures
        same_cycle(state, pulse.after_write(state)),
        same_cycle(state, pulse.after_read(state, wl)),
{
}

/// The control pulses of any actions change neither the stage counter, the
/// sequence register, the time pulse, the remembered address nor a storage.
pub proof fn lemma_actions_keep_cycle(state: CpuState, actions: Seq<Action>)
    ensures
        same_cycle(state, state.after_actions(actions)),
{
    lemma_write_phase_keeps_cycle(actions, state.br, state, actions.len());
    let written = write_phase(actions, state.br, state, actions.len());
    lemma_read_phase_keeps_cycle(actions, state.br, written.0, written.1, actions.len());
}

proof fn lemma_write_phase_keeps_cycle(actions: Seq<Action>, br: u16, state: CpuState, count: nat)
    ensures
        same_cycle(state, write_phase(actions, br, state, count).0),
    decreases count,
{
    if count > 0 {
        lemma_write_phase_keeps_cycle(actions, br, state, (count - 1) as nat);
        let before = write_phase(actions, br, state, (count - 1) as nat);
        lemma_pulse_keeps_cycle(actions[count - 1].pulse(), before.0, 0);
    }
}

proof fn lemma_read_phase_keeps_cycle(
    actions: Seq<Action>,
    br: u16,
    state: CpuState,
    wl: u16,
    count: nat,
)
    ensures
        same_cycle(state, read_phase(actions, br, state, wl, count)),
    decreases count,
{
    if count > 0 {
        lemma_read_phase_keeps_cycle(actions, br, state, wl, (count - 1) as nat);
        let before = read_phase(actions, br, state, wl, (count - 1) as nat);
        lemma_pulse_keeps_cycle(actions[count - 1].pulse(), before, wl);
    }
}

/// Every step advances the time pulse by exactly one, T1 following T12. The
/// stage counter changes only in the step from T12 to T1, and so does the
/// sequence register, which changes there only if the pulse NISQ asked for
/// it during the memory cycle. After the step from T12 to T1 the stage
/// counter of the next memory cycle is gathered anew, from zero.
pub proof fn lemma_step_sequencing(state: CpuState)
    ensures
        state.step().timepulse == state.timepulse.successor(),
        state.step().timepulse.number() == state.timepulse.number() % 12 + 1,
        state.step().timepulse == TimePulse::T1 <==> state.timepulse == TimePulse::T12,
        state.timepulse != TimePulse::T12 ==> state.step().st == state.st,
        state.timepulse != TimePulse::T12 ==> state.step().sq == state.sq,
        state.timepulse != TimePulse::T12 ==> state.step().implemented() == state.implemented(),
        !state.after_pulses(state.timepulse).nisq ==> state.step().sq == state.sq,
        state.timepulse == TimePulse::T12 ==> state.step().st == state.after_pulses(
            state.timepulse,
        ).next_st,
        state.step().timepulse == TimePulse::T1 ==> state.step().next_st == 0,
{
    lemma_actions_keep_cycle(state, state.subinstruction().table(state.timepulse));
}

/// Steps can be counted from either end: `steps` steps are one step followed
/// by the others.
pub proof fn lemma_run_from_the_step(state: CpuState, steps: nat)
    requires
        steps > 0,
    ensures
        state.run(steps) == state.step().run((steps - 1) as nat),
    decreases steps,
{
    if steps > 1 {
        lemma_run_from_the_step(state, (steps - 1) as nat);
        assert(state.run(steps) == state.run((steps - 1) as nat).step());
        assert(state.step().run((steps - 1) as nat) == state.step().run(
            (steps - 2) as nat,
        ).step());
    } else {
        assert(state.run(1) == state.run(0).step());
        assert(state.step().run(0) == state.step());
    }
}

/// Completing the memory cycle takes the steps that are left of its twelve,
/// all twelve at T1, and ends at T1.
pub proof fn lemma_complete_cycle(state: CpuState)
    ensures
        state.complete_cycle() == state.run((13 - state.timepulse.number()) as nat),
        state.complete_cycle().timepulse == TimePulse::T1,
        state.complete_cycle().next_st == 0,
    decreases 12 - state.timepulse.number(),
{
    lemma_step_sequencing(state);
    lemma_run_from_the_step(state, (13 - state.timepulse.number()) as nat);
    if state.timepulse != TimePulse::T12 {
        lemma_complete_cycle(state.step());
    }
}

/// In the first state and after any number of steps from it, the time pulse
/// is the one that the number of steps gives, and at T1 the stage counter of
/// the next memory cycle is zero.
pub proof fn lemma_run_sequencing(fixed: Seq<Seq<u16>>, steps: nat)
    ensures
        CpuState::boot(fixed).run(steps).timepulse.number() == steps % 12 + 1,
        CpuState::boot(fixed).run(steps).timepulse == TimePulse::T1 ==> CpuState::boot(fixed).run(
            steps,
        ).next_st == 0,
    decreases steps,
{
    if steps > 0 {
        lemma_run_sequencing(fixed, (steps - 1) as nat);
        lemma_step_sequencing(CpuState::boot(fixed).run((steps - 1) as nat));
    }
}

proof fn lemma_write_phase_keeps_wf(actions: Seq<Action>, br: u16, state: CpuState, count: nat)
    requires
        state.wf(),
    ensures
        write_phase(actions, br, state, count).0.wf(),
    decreases count,
{
    if count > 0 {
        lemma_write_phase_keeps_wf(actions, br, state, (count - 1) as nat);
        let before = write_phase(actions, br, state, (count - 1) as nat);
        lemma_pulse_keeps_wf(actions[count - 1].pulse(), before.0, 0);
    }
}

proof fn lemma_read_phase_keeps_wf(
    actions: Seq<Action>,
    br: u16,
    state: CpuState,
    wl: u16,
    count: nat,
)
    requires
        state.wf(),
    ensures
        read_phase(actions, br, state, wl, count).wf(),
    decreases count,
{
    if count > 0 {
        lemma_read_phase_keeps_wf(actions, br, state, wl, (count - 1) as nat);
        let before = read_phase(actions, br, state, wl, (count - 1) as nat);
        lemma_pulse_keeps_wf(actions[count - 1].pulse(), before, wl);
    }
}

proof fn lemma_sequence_fits(b: u16, ext: bool)
    by (bit_vector)
    ensures
        sequence_of((b >> 9) & 0o77, ext) <= 0o177,
{
}

/// The first state has every register within its width and both storages at
/// their size, provided that the fixed storage it starts on has its size.
pub proof fn lemma_boot_wf(fixed: Seq<Seq<u16>>)
    requires
        shaped(fixed, FIXED_NUM_BANKS as nat, FIXED_BANK_SIZE as nat),
    ensures
        CpuState::boot(fixed).wf(),
{
}

/// The control pulses of any actions leave every register within its width
/// and both storages as they are.
pub proof fn lemma_actions_keep_wf(state: CpuState, actions: Seq<Action>)
    requires
        state.wf(),
    ensures
        state.after_actions(actions).wf(),
{
    lemma_write_phase_keeps_wf(actions, state.br, state, actions.len());
    let written = write_phase(actions, state.br, state, actions.len());
    lemma_read_phase_keeps_wf(actions, state.br, written.0, written.1, actions.len());
}

/// A step leaves every register within its width and both storages at their
/// size.
pub proof fn lemma_step_keeps_wf(state: CpuState)
    requires
        state.wf(),
    ensures
        state.step().wf(),
{
    let t = state.timepulse;
    lemma_actions_keep_wf(state, state.subinstruction().table(t));
    let pulsed = state.after_pulses(t);
    lemma_decode_address_bounds(pulsed.current_s);
    lemma_sequence_fits(pulsed.b, pulsed.ext);
    match pulsed.erasable_cell() {
        Some((bank, address)) => {
            let after = stored(pulsed.erasable, bank, address, proper_parity(pulsed.g & 0o77777));
            assert(shaped(after, ERASABLE_NUM_BANKS as nat, ERASABLE_BANK_SIZE as nat));
        },
        None => {},
    }
}

/// After any number of steps from a state whose registers are within their
/// widths and whose storages have their size, they still are and have.
pub proof fn lemma_run_keeps_wf(state: CpuState, steps: nat)
    requires
        state.wf(),
    ensures
        state.run(steps).wf(),
    decreases steps,
{
    if steps > 0 {
        lemma_run_keeps_wf(state, (steps - 1) as nat);
        lemma_step_keeps_wf(state.run((steps - 1) as nat));
    }
}

} // verus!
