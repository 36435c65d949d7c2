//! The central processor: its registers, and the engine that executes one
//! time pulse of the current subinstruction at a time.
//!
//! The model of a `Cpu` is a `CpuState`, a record of plain values. The module
//! `model` says what a step does to that record, the module `laws` what holds
//! of every step, and every contract of this module is stated over them.

pub mod control_pulses;
pub mod instructions;
pub mod laws;
pub mod model;
pub mod registers;

use crate::cpu::control_pulses::ControlPulse;
use crate::cpu::instructions::{Action, Subinstruction};
use crate::cpu::laws::lemma_step_sequencing;
use crate::cpu::model::{adder_output, decode, firing_pulses, read_phase, write_phase, CpuState};
use crate::cpu::registers::{
    lemma_decode_address_bounds, AddressRegister, BranchRegister, MemoryAddress, SequenceRegister,
};
use crate::memory::{ErasableStorage, FixedStorage, MemoryWord};
use crate::word::{lemma_mask_fits, lemma_mask_values, W15, W16, W3, W5, W6};
use vstd::prelude::*;
use vstd::std_specs::convert::FromSpecImpl;

verus! {

/// One of the twelve time pulses of a memory cycle.
#[derive(Debug, Copy, Clone, Eq, PartialEq, Ord, PartialOrd, Structural)]
pub enum TimePulse {
    T1,
    T2,
    T3,
    T4,
    T5,
    T6,
    T7,
    T8,
    T9,
    T10,
    T11,
    T12,
}

impl TimePulse {
    /// The number of the time pulse, from 1 to 12.
    pub open spec fn number(self) -> nat {
        match self {
            Self::T1 => 1,
            Self::T2 => 2,
            Self::T3 => 3,
            Self::T4 => 4,
            Self::T5 => 5,
            Self::T6 => 6,
            Self::T7 => 7,
            Self::T8 => 8,
            Self::T9 => 9,
            Self::T10 => 10,
            Self::T11 => 11,
            Self::T12 => 12,
        }
    }

    /// The time pulse that follows: T1 follows T12.
    pub open spec fn successor(self) -> Self {
        match self {
            Self::T1 => Self::T2,
            Self::T2 => Self::T3,
            Self::T3 => Self::T4,
            Self::T4 => Self::T5,
            Self::T5 => Self::T6,
            Self::T6 => Self::T7,
            Self::T7 => Self::T8,
            Self::T8 => Self::T9,
            Self::T9 => Self::T10,
            Self::T10 => Self::T11,
            Self::T11 => Self::T12,
            Self::T12 => Self::T1,
        }
    }

    /// The time pulse that follows: T1 follows T12.
    pub fn next(&self) -> (following: Self)
        ensures
            following == self.successor(),
            following.number() == self.number() % 12 + 1,
    {
        match self {
            Self::T1 => Self::T2,
            Self::T2 => Self::T3,
            Self::T3 => Self::T4,
            Self::T4 => Self::T5,
            Self::T5 => Self::T6,
            Self::T6 => Self::T7,
            Self::T7 => Self::T8,
            Self::T8 => Self::T9,
            Self::T9 => Self::T10,
            Self::T10 => Self::T11,
            Self::T11 => Self::T12,
            Self::T12 => Self::T1,
        }
    }
}

impl From<TimePulse> for usize {
    /// The number of the time pulse, from 1 to 12.
    fn from(from: TimePulse) -> (number: usize)
        ensures
            number == from.number(),
    {
        match from {
            TimePulse::T1 => 1,
            TimePulse::T2 => 2,
            TimePulse::T3 => 3,
            TimePulse::T4 => 4,
            TimePulse::T5 => 5,
            TimePulse::T6 => 6,
            TimePulse::T7 => 7,
            TimePulse::T8 => 8,
            TimePulse::T9 => 9,
            TimePulse::T10 => 10,
            TimePulse::T11 => 11,
            TimePulse::T12 => 12,
        }
    }
}

impl FromSpecImpl<TimePulse> for usize {
    open spec fn obeys_from_spec() -> bool {
        true
    }

    open spec fn from_spec(from: TimePulse) -> usize {
        from.number() as usize
    }
}

/// The processor with its storages. Its model is the `CpuState` that holds
/// the value of every field.
pub struct Cpu {
    // These registers are visible to the programmer
    /// Accumulator
    pub a: W16,
    /// Low-order product
    pub l: W16,
    /// Return address register
    pub q: W16,
    /// Program counter
    pub z: W16,
    pub ebank: W3,
    pub fbank: W5,
    // These registers are hidden to the programmer. They are only used by control pulses
    /// Buffer register
    pub b: W16,
    /// Memory buffer register
    pub g: W16,
    /// Memory address register
    pub s: AddressRegister,
    /// Sequence register
    pub sq: SequenceRegister,
    /// Extend flip-flop
    pub ext: bool,
    /// Stage counter
    pub st: W3,
    /// Arithmetic X
    pub x: W16,
    /// Arithmetic Y
    pub y: W16,
    /// Carry flip-flop
    pub ci: bool,
    /// Branch flip-flops
    pub br: BranchRegister,
    // Storage of the computer
    /// Erasable (read-write) memory storage
    pub erasable_storage: ErasableStorage,
    /// Fixed (read-only) memory storage
    pub fixed_storage: FixedStorage,
    // Emulation parameters
    pub current_timepulse: TimePulse,
    /// Value of S at T1
    ///
    /// This is necessary because even if another address is written
    /// to the S register, the address as it was at T1 is used when writing
    /// back to erasable memory
    pub current_s: AddressRegister,
    /// At next T12, read the next instruction into register SQ
    ///
    /// This is generated by control pulse NISQ.
    pub nisq: bool,
    /// Value of ST at next MCT
    pub next_st: W3,
    /// Whether interrupts are inhibited
    pub inhibit_interrupts: bool,
}

impl View for Cpu {
    type V = CpuState;

    open spec fn view(&self) -> CpuState {
        CpuState {
            a: self.a@,
            l: self.l@,
            q: self.q@,
            z: self.z@,
            ebank: self.ebank@,
            fbank: self.fbank@,
            b: self.b@,
            g: self.g@,
            s: self.s@,
            sq: self.sq@,
            ext: self.ext,
            st: self.st@,
            x: self.x@,
            y: self.y@,
            ci: self.ci,
            br: self.br@,
            erasable: self.erasable_storage@,
            fixed: self.fixed_storage@,
            timepulse: self.current_timepulse,
            current_s: self.current_s@,
            nisq: self.nisq,
            next_st: self.next_st@,
            inhibit_interrupts: self.inhibit_interrupts,
        }
    }
}

impl Cpu {
    /// Create a CPU from a fixed storage ROM
    ///
    /// All internal parameters will be initialized to zero and
    /// the CPU will be reset, ready to perform a GOJAM.
    pub fn new(fixed_storage: FixedStorage) -> (cpu: Self)
        ensures
            cpu@ == CpuState::boot(fixed_storage@),
            cpu@.timepulse == TimePulse::T1,
            cpu@.next_st == 0,
    {
        proof {
            lemma_mask_values();
            lemma_mask_fits(0o1, 3);
        }
        Cpu {
            a: W16::zero(),
            l: W16::zero(),
            q: W16::zero(),
            z: W16::zero(),
            ebank: W3::zero(),
            fbank: W5::zero(),
            b: W16::zero(),
            g: W16::zero(),
            s: AddressRegister::zero(),
            sq: SequenceRegister::new(W6::zero(), false),
            ext: false,
            st: W3::from(0o1),
            x: W16::zero(),
            y: W16::zero(),
            ci: true,
            br: BranchRegister::zero(),
            erasable_storage: ErasableStorage::new(),
            fixed_storage,
            current_timepulse: TimePulse::T1,
            current_s: AddressRegister::zero(),
            nisq: false,
            next_st: W3::zero(),
            inhibit_interrupts: false,
        }
    }

    /// The subinstruction that the stage counter and the sequence register
    /// select, if there is one.
    pub fn decode(&self) -> (selected: Option<Subinstruction>)
        ensures
            selected == decode(self@.st, self@.sq),
    {
        let st = self.st.as_u16();
        // STD2 is always executed if ST = 0b010
        if st == 0b010 {
            return Some(Subinstruction::STD2);
        }
        if !self.sq.is_extended() {
            // Non-extended subinstructions
            let order_code = self.sq.order_code().as_u16();
            if order_code == 0b000 {
                if st == 0b000 {
                    Some(Subinstruction::TC0)
                } else if st == 0b001 {
                    Some(Subinstruction::GOJ1)
                } else {
                    None
                }
            } else if order_code == 0b011 {
                if st == 0b000 {
                    Some(Subinstruction::CA0)
                } else {
                    None
                }
            } else if order_code == 0b101 {
                let extended_code = self.sq.extended_code().as_u16();
                if (extended_code == 0b110 || extended_code == 0b111) && st == 0b000 {
                    Some(Subinstruction::XCH0)
                } else {
                    None
                }
            } else {
                None
            }
        } else {
            // Extended subinstructions
            None
        }
    }

    /// The subinstruction that is being executed.
    pub fn current_subinstruction(&self) -> (subinstruction: Subinstruction)
        requires
            self@.implemented(),
        ensures
            subinstruction == self@.subinstruction(),
    {
        match self.decode() {
            Some(subinstruction) => subinstruction,
            None => vstd::pervasive::unreached(),
        }
    }

    /// The pulses that the next step executes: those that the subinstruction
    /// schedules for the current time pulse and that fire under the branch
    /// register as it is.
    pub fn pending_pulses(&self) -> (pulses: Vec<ControlPulse>)
        requires
            self@.implemented(),
        ensures
            pulses@ == firing_pulses(
                self@.subinstruction().table(self@.timepulse),
                self@.br,
                self@.subinstruction().table(self@.timepulse).len(),
            ),
    {
        let actions = self.current_subinstruction().actions(self.current_timepulse);
        let mut pulses: Vec<ControlPulse> = Vec::new();
        let mut index: usize = 0;
        while index < actions.len()
            invariant
                index <= actions.len(),
                pulses@ == firing_pulses(actions@, self@.br, index as nat),
            decreases actions.len() - index,
        {
            let action = actions[index];
            if action.execute(self.br) {
                pulses.push(action.control_pulse());
            }
            index += 1;
        }
        pulses
    }

    /// Executes the control pulses of `actions` that fire under the branch
    /// register as it is: first what they do before the write lines are read,
    /// then what they do with the write lines, which carry the bitwise OR of
    /// what the pulses put on them.
    pub fn execute_actions(&mut self, actions: &[Action])
        ensures
            final(self)@ == old(self)@.after_actions(actions@),
    {
        let br = self.br;
        let ghost start = self@;

        let mut wl = W16::zero();
        let mut index: usize = 0;
        while index < actions.len()
            invariant
                index <= actions.len(),
                (self@, wl@) == write_phase(actions@, br@, start, index as nat),
            decreases actions.len() - index,
        {
            let action = actions[index];
            if action.execute(br) {
                let lines = action.control_pulse().exec_write_wl(self);
                wl = W16::from(wl.as_u16() | lines.as_u16());
            }
            index += 1;
        }

        let ghost written = self@;
        let mut index: usize = 0;
        while index < actions.len()
            invariant
                index <= actions.len(),
                self@ == read_phase(actions@, br@, written, wl@, index as nat),
            decreases actions.len() - index,
        {
            let action = actions[index];
            if action.execute(br) {
                action.control_pulse().exec_read_wl(self, wl);
            }
            index += 1;
        }
    }

    fn execute_control_pulses(&mut self, t: TimePulse)
        requires
            old(self)@.implemented(),
        ensures
            final(self)@ == old(self)@.after_pulses(t),
    {
        let actions = self.current_subinstruction().actions(t);
        self.execute_actions(actions.as_slice());
    }

    /// Run a single step, i.e. a single time pulse
    pub fn step_control_pulse(&mut self)
        requires
            old(self)@.implemented(),
        ensures
            final(self)@ == old(self)@.step(),
            final(self)@.timepulse == old(self)@.timepulse.successor(),
            old(self)@.timepulse != TimePulse::T12 ==> final(self)@.st == old(self)@.st,
            old(self)@.timepulse != TimePulse::T12 ==> final(self)@.sq == old(self)@.sq,
            !old(self)@.after_pulses(old(self)@.timepulse).nisq ==> final(self)@.sq
                == old(self)@.sq,
            final(self)@.timepulse == TimePulse::T1 ==> final(self)@.next_st == 0,
    {
        let t = self.current_timepulse;
        proof {
            lemma_step_sequencing(self@);
        }

        // Execute the control pulses
        self.execute_control_pulses(t);

        // Execute additional task
        proof {
            lemma_mask_values();
        }
        match t {
            TimePulse::T4 => {
                // Perform erasable memory read
                match self.current_s.address() {
                    MemoryAddress::UnswitchedErasableMemory(bank, address) => {
                        self.g = self.erasable_storage.read(bank, address).as_register_value();
                    },
                    MemoryAddress::SwitchedErasableMemory(address) => {
                        self.g = self.erasable_storage.read(
                            self.ebank,
                            address,
                        ).as_register_value();
                    },
                    _ => {},
                }
            },
            TimePulse::T6 => {
                // Perform fixed memory read
                let selected = self.current_s.address();
                proof {
                    lemma_decode_address_bounds(self.current_s@);
                }
                match selected {
                    MemoryAddress::UnswitchedFixedMemory(bank, address) => {
                        self.g = self.fixed_storage.read(
                            W6::from_word(bank),
                            address,
                        ).as_register_value();
                    },
                    MemoryAddress::SwitchedFixedMemory(address) => {
                        self.g = self.fixed_storage.read(
                            W6::from_word(self.fbank),
                            address,
                        ).as_register_value();
                    },
                    _ => {},
                }
            },
            TimePulse::T10 => {
                // Perform erasable memory write
                match self.current_s.address() {
                    MemoryAddress::UnswitchedErasableMemory(bank, address) => {
                        self.erasable_storage.write(
                            bank,
                            address,
                            MemoryWord::with_proper_parity(W15::from_word(self.g)),
                        );
                    },
                    MemoryAddress::SwitchedErasableMemory(address) => {
                        self.erasable_storage.write(
                            self.ebank,
                            address,
                            MemoryWord::with_proper_parity(W15::from_word(self.g)),
                        );
                    },
                    _ => {},
                }
            },
            TimePulse::T12 => {
                // If NISQ was triggered, load next instruction into SQ
                if self.nisq {
                    self.sq = SequenceRegister::new(W6::from(self.b.as_u16() >> 9), self.ext);
                    self.nisq = false;
                    self.ext = false;
                }
                // Update current S value

                self.current_s = self.s;

                // Set stage counter
                self.st = self.next_st;
                self.next_st = W3::zero();
            },
            _ => {},
        }

        // Increment timepulse counter
        self.current_timepulse = t.next();
    }

    /// Run a single subinstruction, i.e. a single MCT
    pub fn step_subinstruction(&mut self)
        requires
            old(self)@.implemented(),
        ensures
            final(self)@ == old(self)@.complete_cycle(),
            final(self)@.timepulse == TimePulse::T1,
            final(self)@.next_st == 0,
    {
        let ghost start = self@;
        proof {
            lemma_step_sequencing(start);
        }
        // execute at least one control pulse
        self.step_control_pulse();

        // continue until we reach T1
        while self.current_timepulse != TimePulse::T1
            invariant
                self@.timepulse != TimePulse::T1 ==> self@.implemented(),
                self@.timepulse != TimePulse::T1 ==> self@.complete_cycle()
                    == start.complete_cycle(),
                self@.timepulse == TimePulse::T1 ==> self@ == start.complete_cycle(),
                self@.timepulse == TimePulse::T1 ==> self@.next_st == 0,
            decreases
                    if self@.timepulse == TimePulse::T1 {
                        0
                    } else {
                        13 - self@.timepulse.number()
                    },
        {
            proof {
                lemma_step_sequencing(self@);
            }
            self.step_control_pulse();
        }
    }

    /// Mnemonic of the subinstruction that is being executed.
    pub fn current_subsintruction_name(&self) -> (text: &'static str)
        requires
            self@.implemented(),
        ensures
            text@ == self@.subinstruction().mnemonic(),
    {
        self.current_subinstruction().name()
    }

    /// Read content of the adder unit
    pub fn u(&self) -> (sum: W16)
        ensures
            sum@ == adder_output(self@.x, self@.y, self@.ci),
    {
        let x = self.x.as_u16() as u32;
        let y = self.y.as_u16() as u32;
        let carry: u32 = if self.ci { 1 } else { 0 };
        let sum: u32 = x + y + carry;
        let folded: u32 = if sum >= 0x10000 {
            let around: u32 = sum - 0x10000 + 1;
            if around == 0x10000 { 0 } else { around }
        } else {
            sum
        };
        W16::from(folded as u16)
    }
}

} // verus!
