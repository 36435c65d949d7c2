//! The model of the processor: its state as a record of plain values, and
//! what one time pulse does to it.

use crate::cpu::control_pulses::ControlPulse;
use crate::cpu::instructions::{Action, Subinstruction};
use crate::cpu::registers::{
    decode_address, extended_code_of, order_code_of, sequence_of, AddressView,
};
use crate::cpu::TimePulse;
use crate::memory::{
    blank_storage, proper_parity, register_value, shaped, stored, ERASABLE_BANK_SIZE,
    ERASABLE_NUM_BANKS, FIXED_BANK_SIZE, FIXED_NUM_BANKS,
};
use crate::word::bit_of;
use vstd::prelude::*;

verus! {

/// The model of the processor: every register and flag as a plain value, and
/// both storages as sequences of banks of containers.
pub struct CpuState {
    /// Accumulator
    pub a: u16,
    /// Low-order product
    pub l: u16,
    /// Return address register
    pub q: u16,
    /// Program counter
    pub z: u16,
    /// Erasable bank register, 3 bits
    pub ebank: u16,
    /// Fixed bank register, 5 bits
    pub fbank: u16,
    /// Buffer register
    pub b: u16,
    /// Memory buffer register
    pub g: u16,
    /// Memory address register, 12 bits
    pub s: u16,
    /// Sequence register, 7 bits
    pub sq: u16,
    /// Extend flip-flop
    pub ext: bool,
    /// Stage counter, 3 bits
    pub st: u16,
    /// Arithmetic X
    pub x: u16,
    /// Arithmetic Y
    pub y: u16,
    /// Carry flip-flop
    pub ci: bool,
    /// Branch register, 2 bits
    pub br: u16,
    /// Erasable storage: 8 banks of 256 containers
    pub erasable: Seq<Seq<u16>>,
    /// Fixed storage: 36 banks of 1024 containers
    pub fixed: Seq<Seq<u16>>,
    /// The time pulse that the next step executes
    pub timepulse: TimePulse,
    /// The address register as it was when the memory cycle began
    pub current_s: u16,
    /// Whether the sequence register is loaded at the end of the memory cycle
    pub nisq: bool,
    /// The stage counter of the next memory cycle, as gathered so far
    pub next_st: u16,
    /// Whether interrupts are inhibited
    pub inhibit_interrupts: bool,
}

impl CpuState {
    /// Whether every register fits its width and both storages have their
    /// size. It holds of the model of every `Cpu`.
    pub open spec fn wf(self) -> bool {
        &&& self.ebank <= 0o7
        &&& self.fbank <= 0o37
        &&& self.s <= 0o7777
        &&& self.sq <= 0o177
        &&& self.st <= 0o7
        &&& self.br <= 0o3
        &&& self.current_s <= 0o7777
        &&& self.next_st <= 0o7
        &&& shaped(self.erasable, ERASABLE_NUM_BANKS as nat, ERASABLE_BANK_SIZE as nat)
        &&& shaped(self.fixed, FIXED_NUM_BANKS as nat, FIXED_BANK_SIZE as nat)
    }

    /// The processor as it starts on the fixed storage `fixed`: at T1 of the
    /// start subinstruction, the carry set, everything else cleared.
    pub open spec fn boot(fixed: Seq<Seq<u16>>) -> Self {
        CpuState {
            a: 0,
            l: 0,
            q: 0,
            z: 0,
            ebank: 0,
            fbank: 0,
            b: 0,
            g: 0,
            s: 0,
            sq: 0,
            ext: false,
            st: 0o1,
            x: 0,
            y: 0,
            ci: true,
            br: 0,
            erasable: blank_storage(ERASABLE_NUM_BANKS as nat, ERASABLE_BANK_SIZE as nat),
            fixed,
            timepulse: TimePulse::T1,
            current_s: 0,
            nisq: false,
            next_st: 0,
            inhibit_interrupts: false,
        }
    }

    /// Whether the stage counter and the sequence register select a
    /// subinstruction.
    pub open spec fn implemented(self) -> bool {
        decode(self.st, self.sq) is Some
    }

    /// The subinstruction that is being executed.
    pub open spec fn subinstruction(self) -> Subinstruction
        recommends
            self.implemented(),
    {
        decode(self.st, self.sq)->Some_0
    }

    /// The bank and the offset of the cell of erasable storage that the
    /// memory cycle works on, if it works on one.
    pub open spec fn erasable_cell(self) -> Option<(int, int)> {
        match decode_address(self.current_s) {
            AddressView::UnswitchedErasableMemory(bank, address) => Some(
                (bank as int, address as int),
            ),
            AddressView::SwitchedErasableMemory(address) => Some(
                (self.ebank as int, address as int),
            ),
            _ => None,
        }
    }

    /// The bank and the offset of the cell of fixed storage that the memory
    /// cycle works on, if it works on one.
    pub open spec fn fixed_cell(self) -> Option<(int, int)> {
        match decode_address(self.current_s) {
            AddressView::UnswitchedFixedMemory(bank, address) => Some(
                (bank as int, address as int),
            ),
            AddressView::SwitchedFixedMemory(address) => Some((self.fbank as int, address as int)),
            _ => None,
        }
    }

    /// The state after the control pulses of `actions` were executed: first
    /// what they do before the write lines are read, then what they do with
    /// the write lines. Which of them fire is decided once, by the branch
    /// register as it is before the first of them.
    pub open spec fn after_actions(self, actions: Seq<Action>) -> CpuState {
        let written = write_phase(actions, self.br, self, actions.len());
        read_phase(actions, self.br, written.0, written.1, actions.len())
    }

    /// The state after the control pulses that the subinstruction schedules
    /// for the time pulse `t` were executed.
    pub open spec fn after_pulses(self, t: TimePulse) -> CpuState
        recommends
            self.implemented(),
    {
        self.after_actions(self.subinstruction().table(t))
    }

    /// The state after what the time pulse `t` does besides its control
    /// pulses: erasable memory is read into G at T4, fixed memory at T6, G is
    /// written back to erasable memory at T10, and at T12 the sequence
    /// register is loaded if that was asked for, the address register is
    /// remembered and the stage counter takes its next value.
    pub open spec fn after_time_pulse(self, t: TimePulse) -> CpuState {
        match t {
            TimePulse::T4 => match self.erasable_cell() {
                Some((bank, address)) => CpuState {
                    g: register_value(self.erasable[bank][address]),
                    ..self
                },
                None => self,
            },
            TimePulse::T6 => match self.fixed_cell() {
                Some((bank, address)) => CpuState {
                    g: register_value(self.fixed[bank][address]),
                    ..self
                },
                None => self,
            },
            TimePulse::T10 => match self.erasable_cell() {
                Some((bank, address)) => CpuState {
                    erasable: stored(
                        self.erasable,
                        bank,
                        address,
                        proper_parity(self.g & 0o77777),
                    ),
                    ..self
                },
                None => self,
            },
            TimePulse::T12 => CpuState {
                sq: if self.nisq {
                    sequence_of((self.b >> 9) & 0o77, self.ext)
                } else {
                    self.sq
                },
                ext: if self.nisq {
                    false
                } else {
                    self.ext
                },
                nisq: false,
                current_s: self.s,
                st: self.next_st,
                next_st: 0,
                ..self
            },
            _ => self,
        }
    }

    /// The state after one time pulse.
    pub open spec fn step(self) -> CpuState
        recommends
            self.implemented(),
    {
        CpuState {
            timepulse: self.timepulse.successor(),
            ..self.after_pulses(self.timepulse).after_time_pulse(self.timepulse)
        }
    }

    /// The state after `steps` time pulses.
    pub open spec fn run(self, steps: nat) -> CpuState
        decreases steps,
    {
        if steps == 0 {
            self
        } else {
            self.run((steps - 1) as nat).step()
        }
    }

    /// The state at the next T1: after at least one time pulse, and as many
    /// more as it takes to complete the memory cycle.
    pub open spec fn complete_cycle(self) -> CpuState
        decreases 12 - self.timepulse.number(),
    {
        let next = self.step();
        if self.timepulse == TimePulse::T12 {
            next
        } else {
            next.complete_cycle()
        }
    }
}

/// The subinstruction that the stage counter `st` and the sequence register
/// `sq` select, if there is one.
pub open spec fn decode(st: u16, sq: u16) -> Option<Subinstruction> {
    if st == 0b010 {
        // STD2 is always executed if ST = 0b010
        Some(Subinstruction::STD2)
    } else if !bit_of(sq, 6) {
        // Non-extended subinstructions
        if order_code_of(sq) == 0b000 {
            if st == 0b000 {
                Some(Subinstruction::TC0)
            } else if st == 0b001 {
                Some(Subinstruction::GOJ1)
            } else {
                None
            }
        } else if order_code_of(sq) == 0b011 {
            if st == 0b000 {
                Some(Subinstruction::CA0)
            } else {
                None
            }
        } else if order_code_of(sq) == 0b101 {
            if (extended_code_of(sq) == 0b110 || extended_code_of(sq) == 0b111) && st == 0b000 {
                Some(Subinstruction::XCH0)
            } else {
                None
            }
        } else {
            None
        }
    } else {
        // Extended subinstructions
        None
    }
}

/// The state and the write lines after the pulses of the first `count`
/// actions did what they do before the write lines are read. Only the
/// actions that fire under `br` take part; the write lines carry the bitwise
/// OR of what their pulses put on them.
pub open spec fn write_phase(actions: Seq<Action>, br: u16, state: CpuState, count: nat) -> (
    CpuState,
    u16,
)
    decreases count,
{
    if count == 0 {
        (state, 0u16)
    } else {
        let before = write_phase(actions, br, state, (count - 1) as nat);
        let action = actions[count - 1];
        if action.fires(br) {
            (
                action.pulse().after_write(before.0),
                before.1 | action.pulse().write_line(before.0),
            )
        } else {
            before
        }
    }
}

/// The state after the pulses of the first `count` actions read `wl` from the
/// write lines, in the order of the actions. Only the actions that fire under
/// `br` take part.
pub open spec fn read_phase(
    actions: Seq<Action>,
    br: u16,
    state: CpuState,
    wl: u16,
    count: nat,
) -> CpuState
    decreases count,
{
    if count == 0 {
        state
    } else {
        let before = read_phase(actions, br, state, wl, (count - 1) as nat);
        let action = actions[count - 1];
        if action.fires(br) {
            action.pulse().after_read(before, wl)
        } else {
            before
        }
    }
}

/// The pulses of the first `count` actions that fire under `br`, in the order
/// of the actions.
pub open spec fn firing_pulses(actions: Seq<Action>, br: u16, count: nat) -> Seq<ControlPulse>
    decreases count,
{
    if count == 0 {
        Seq::empty()
    } else {
        let before = firing_pulses(actions, br, (count - 1) as nat);
        let action = actions[count - 1];
        if action.fires(br) {
            before.push(action.pulse())
        } else {
            before
        }
    }
}

/// What the adder puts out for the inputs `x` and `y` and the carry `ci`:
/// their sum in ones' complement. A carry out of bit sixteen is added back in
/// at bit one.
pub open spec fn adder_output(x: u16, y: u16, ci: bool) -> u16 {
    let sum = x + y + if ci { 1int } else { 0int };
    if sum >= 0x10000 {
        ((sum - 0x10000 + 1) % 0x10000) as u16
    } else {
        sum as u16
    }
}

} // verus!
