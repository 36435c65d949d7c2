//! Control pulses are sequence generator signals which regulate data flow
//! within the computer.
//!
//! Each control pulse is executed in two steps:
//! - the operations that put a value on the write lines,
//! - the operations that read the write lines.
//!
//! The majority of control pulses do something in only one of the two steps.

use crate::cpu::registers::{decode_address, AddressRegister, AddressView, MemoryAddress};
use crate::cpu::model::{adder_output, CpuState};
use crate::cpu::Cpu;
use crate::word::{
    bit_of, lemma_mask_fits, lemma_mask_values, lemma_ops_fit, with_bit, W12, W16, W2, W3, W5,
};
use vstd::prelude::*;

verus! {

/// A control pulse, by its mnemonic.
#[derive(Copy, Clone, Debug, PartialEq, Eq, Structural)]
pub enum ControlPulse {
    /// Insert carry bit into bit position 1 of the adder.
    CI,
    /// Load next instruction into register SQ at next T12.
    NISQ,
    /// Clear register X, then enter a logic ONE into bit position 1.
    PONEX,
    /// Read address of next cycle.
    ///
    /// RAD appears at the end of an instruction and is normally interpreted
    /// as RG. If the next instruction is INHINT, RELINT, or EXTEND, RAD is
    /// interpreted as RZ and ST2 instead, and the matching flip-flop is set.
    RAD,
    /// Place octal 177776 (minus one) on the write lines.
    R1C,
    /// Read register A to the write lines.
    RA,
    /// Read register B to the write lines.
    RB,
    /// Read the complemented contents of register B to the write lines.
    RC,
    /// Place octal 1 on the write lines.
    RB1,
    /// Read the input or output channel that register S specifies. Channels
    /// are not modelled: the pulse puts nothing on the write lines.
    RCH,
    /// Read register G to the write lines.
    RG,
    /// Read low 10 bits of register B to the write lines.
    RL10BB,
    /// Read the central register that register S addresses to the write lines.
    RSC,
    /// Place octal 4000 (start address) on the write lines.
    RSTRT,
    /// Read the adder output gates (U) to the write lines.
    RU,
    /// Read register Z to the write lines.
    RZ,
    /// Set stage 1 flip-flop to logic ONE at next T12.
    ST1,
    /// Set stage 2 flip-flop to logic ONE at next T12.
    ST2,
    /// Test for minus zero: BR2 becomes whether the write lines are all ONE.
    TMZ,
    /// Test for overflow: set flip-flops BR1 and BR2 to 01 if positive
    /// overflow, to 10 if negative overflow, and reset both otherwise.
    TOV,
    /// Test register G for plus zero: if it is all ZERO, set BR2; otherwise
    /// leave BR2 as it is.
    TPZG,
    /// Test sign: BR1 becomes bit 16 of the write lines.
    TSGN,
    /// Write the write lines into register A.
    WA,
    /// Write the write lines into register B.
    WB,
    /// Write the write lines into the channel that register S specifies.
    /// Channels are not modelled: the pulse changes nothing.
    WCH,
    /// Write the write lines into register G.
    WG,
    /// Test for positive overflow of a counter. Counter interrupts are not
    /// modelled: the pulse changes nothing.
    WOVR,
    /// Write the write lines 12 through 1 into register S.
    WS,
    /// Write the write lines into the central register that register S
    /// addresses.
    WSC,
    /// Write the write lines into register Q.
    WQ,
    /// Clear register X and write the write lines into register Y.
    WY,
    /// Clear registers X and Y and the carry, then write the write lines 12
    /// through 1 into register Y.
    WY12,
    /// Write the write lines into register Z.
    WZ,
}

/// Whether the word in register G is one of the three instructions that the
/// pulse RAD executes on the spot: RELINT, INHINT or EXTEND.
pub open spec fn rad_is_special(g: u16) -> bool {
    g == 0o00003 || g == 0o00004 || g == 0o00006
}

/// What the central register that S addresses holds, as the pulse RSC reads
/// it; nothing where S addresses no register.
pub open spec fn central_register(state: CpuState) -> u16 {
    match decode_address(state.s) {
        AddressView::Register(register) => {
            if register == 0o0 {
                state.a
            } else if register == 0o1 {
                state.l
            } else if register == 0o2 {
                state.q
            } else if register == 0o3 {
                state.ebank << 8
            } else if register == 0o4 {
                state.fbank << 10
            } else if register == 0o5 {
                state.z
            } else if register == 0o6 {
                state.ebank | (state.fbank << 10)
            } else {
                0
            }
        },
        _ => 0,
    }
}

/// The state after the pulse WSC wrote `wl` to the central register that S
/// addresses; the state itself where S addresses no register.
pub open spec fn with_central_register(state: CpuState, wl: u16) -> CpuState {
    match decode_address(state.s) {
        AddressView::Register(register) => {
            if register == 0o0 {
                CpuState { a: wl, ..state }
            } else if register == 0o1 {
                CpuState { l: wl, ..state }
            } else if register == 0o2 {
                CpuState { q: wl, ..state }
            } else if register == 0o3 {
                CpuState { ebank: (wl >> 8) & 0o7, ..state }
            } else if register == 0o4 {
                CpuState { fbank: (wl >> 10) & 0o37, ..state }
            } else if register == 0o5 {
                CpuState { z: wl, ..state }
            } else if register == 0o6 {
                CpuState { ebank: wl & 0o7, fbank: (wl >> 10) & 0o37, ..state }
            } else {
                state
            }
        },
        _ => state,
    }
}

impl ControlPulse {
    /// The mnemonic of the pulse.
    pub open spec fn mnemonic(self) -> Seq<char> {
        match self {
            ControlPulse::CI => "CI"@,
            ControlPulse::NISQ => "NISQ"@,
            ControlPulse::PONEX => "PONEX"@,
            ControlPulse::RAD => "RAD"@,
            ControlPulse::R1C => "R1C"@,
            ControlPulse::RA => "RA"@,
            ControlPulse::RB => "RB"@,
            ControlPulse::RC => "RC"@,
            ControlPulse::RB1 => "RB1"@,
            ControlPulse::RCH => "RCH"@,
            ControlPulse::RG => "RG"@,
            ControlPulse::RL10BB => "RL10BB"@,
            ControlPulse::RSC => "RSC"@,
            ControlPulse::RSTRT => "RSTRT"@,
            ControlPulse::RU => "RU"@,
            ControlPulse::RZ => "RZ"@,
            ControlPulse::ST1 => "ST1"@,
            ControlPulse::ST2 => "ST2"@,
            ControlPulse::TMZ => "TMZ"@,
            ControlPulse::TOV => "TOV"@,
            ControlPulse::TPZG => "TPZG"@,
            ControlPulse::TSGN => "TSGN"@,
            ControlPulse::WA => "WA"@,
            ControlPulse::WB => "WB"@,
            ControlPulse::WCH => "WCH"@,
            ControlPulse::WG => "WG"@,
            ControlPulse::WOVR => "WOVR"@,
            ControlPulse::WS => "WS"@,
            ControlPulse::WSC => "WSC"@,
            ControlPulse::WQ => "WQ"@,
            ControlPulse::WY => "WY"@,
            ControlPulse::WY12 => "WY12"@,
            ControlPulse::WZ => "WZ"@,
        }
    }

    /// What the pulse puts on the write lines in the state `state`.
    pub open spec fn write_line(self, state: CpuState) -> u16 {
        match self {
            ControlPulse::RAD => if rad_is_special(state.g) {
                state.z
            } else {
                state.g
            },
            ControlPulse::R1C => 0o177776,
            ControlPulse::RA => state.a,
            ControlPulse::RB => state.b,
            ControlPulse::RC => !state.b,
            ControlPulse::RB1 => 0o1,
            ControlPulse::RG => state.g,
            ControlPulse::RL10BB => state.b & 0o1777,
            ControlPulse::RSC => central_register(state),
            ControlPulse::RSTRT => 0o4000,
            ControlPulse::RU => adder_output(state.x, state.y, state.ci),
            ControlPulse::RZ => state.z,
            _ => 0,
        }
    }

    /// The state after the pulse did what it does before the write lines are
    /// read.
    pub open spec fn after_write(self, state: CpuState) -> CpuState {
        match self {
            ControlPulse::CI => CpuState { ci: true, ..state },
            ControlPulse::NISQ => CpuState { nisq: true, ..state },
            ControlPulse::RAD => if state.g == 0o00003 {
                CpuState { inhibit_interrupts: false, next_st: state.next_st | 0b010, ..state }
            } else if state.g == 0o00004 {
                CpuState { inhibit_interrupts: true, next_st: state.next_st | 0b010, ..state }
            } else if state.g == 0o00006 {
                CpuState { ext: true, next_st: state.next_st | 0b010, ..state }
            } else {
                state
            },
            ControlPulse::WY12 => CpuState { x: 0, y: 0, ci: false, ..state },
            _ => state,
        }
    }

    /// The state after the pulse read `wl` from the write lines.
    pub open spec fn after_read(self, state: CpuState, wl: u16) -> CpuState {
        match self {
            ControlPulse::PONEX => CpuState { x: 1, ..state },
            ControlPulse::ST1 => CpuState { next_st: state.next_st | 0b001, ..state },
            ControlPulse::ST2 => CpuState { next_st: state.next_st | 0b010, ..state },
            ControlPulse::TMZ => CpuState { br: with_bit(state.br, 1, wl == 0o177777), ..state },
            ControlPulse::TOV => {
                let last_bits = (wl >> 14) & 0b11;
                if last_bits == 0b01 || last_bits == 0b10 {
                    CpuState { br: last_bits, ..state }
                } else {
                    CpuState { br: 0b00, ..state }
                }
            },
            ControlPulse::TPZG => if state.g == 0 {
                CpuState { br: with_bit(state.br, 1, true), ..state }
            } else {
                state
            },
            ControlPulse::TSGN => CpuState { br: with_bit(state.br, 0, bit_of(wl, 15)), ..state },
            ControlPulse::WA => CpuState { a: wl, ..state },
            ControlPulse::WB => CpuState { b: wl, ..state },
            ControlPulse::WG => CpuState { g: wl, ..state },
            ControlPulse::WS => CpuState { s: wl & 0o7777, ..state },
            ControlPulse::WSC => with_central_register(state, wl),
            ControlPulse::WQ => CpuState { q: wl, ..state },
            ControlPulse::WY => CpuState { x: 0, y: wl, ..state },
            ControlPulse::WY12 => CpuState { y: wl & 0o7777, ..state },
            ControlPulse::WZ => CpuState { z: wl, ..state },
            _ => state,
        }
    }

    /// Mnemonic of the control pulse
    pub fn name(&self) -> (text: &'static str)
        ensures
            text@ == self.mnemonic(),
    {
        match self {
            ControlPulse::CI => "CI",
            ControlPulse::NISQ => "NISQ",
            ControlPulse::PONEX => "PONEX",
            ControlPulse::RAD => "RAD",
            ControlPulse::R1C => "R1C",
            ControlPulse::RA => "RA",
            ControlPulse::RB => "RB",
            ControlPulse::RC => "RC",
            ControlPulse::RB1 => "RB1",
            ControlPulse::RCH => "RCH",
            ControlPulse::RG => "RG",
            ControlPulse::RL10BB => "RL10BB",
            ControlPulse::RSC => "RSC",
            ControlPulse::RSTRT => "RSTRT",
            ControlPulse::RU => "RU",
            ControlPulse::RZ => "RZ",
            ControlPulse::ST1 => "ST1",
            ControlPulse::ST2 => "ST2",
            ControlPulse::TMZ => "TMZ",
            ControlPulse::TOV => "TOV",
            ControlPulse::TPZG => "TPZG",
            ControlPulse::TSGN => "TSGN",
            ControlPulse::WA => "WA",
            ControlPulse::WB => "WB",
            ControlPulse::WCH => "WCH",
            ControlPulse::WG => "WG",
            ControlPulse::WOVR => "WOVR",
            ControlPulse::WS => "WS",
            ControlPulse::WSC => "WSC",
            ControlPulse::WQ => "WQ",
            ControlPulse::WY => "WY",
            ControlPulse::WY12 => "WY12",
            ControlPulse::WZ => "WZ",
        }
    }

    /// Execute operations that writes to the WL (executed first)
    ///
    /// The returned result is ORed to the write line
    pub fn exec_write_wl(&self, cpu: &mut Cpu) -> (wl: W16)
        ensures
            wl@ == self.write_line(old(cpu)@),
            final(cpu)@ == self.after_write(old(cpu)@),
    {
        proof {
            lemma_mask_values();
        }
        match self {
            ControlPulse::CI => {
                cpu.ci = true;
                W16::zero()
            },
            ControlPulse::NISQ => {
                cpu.nisq = true;
                W16::zero()
            },
            ControlPulse::RAD => {
                let g = cpu.g.as_u16();
                let is_special = if g == 0o00003 {
                    // RELINT
                    cpu.inhibit_interrupts = false;
                    true
                } else if g == 0o00004 {
                    // INHINT
                    cpu.inhibit_interrupts = true;
                    true
                } else if g == 0o00006 {
                    // EXTEND
                    cpu.ext = true;
                    true
                } else {
                    false
                };
                if is_special {
                    let next_st = cpu.next_st.as_u16();
                    proof {
                        lemma_ops_fit(next_st, 0b010, 0, 3);
                    }
                    cpu.next_st = W3::from(next_st | 0b010);
                    cpu.z
                } else {
                    cpu.g
                }
            },
            ControlPulse::R1C => W16::from(0o177776),
            ControlPulse::RA => cpu.a,
            ControlPulse::RB => cpu.b,
            ControlPulse::RC => W16::from(!cpu.b.as_u16()),
            ControlPulse::RB1 => W16::from(0o1),
            ControlPulse::RCH => W16::zero(),
            ControlPulse::RG => cpu.g,
            ControlPulse::RL10BB => W16::from(cpu.b.as_u16() & 0o1777),
            ControlPulse::RSC => match cpu.s.address() {
                MemoryAddress::Register(value) => {
                    let register = value.as_u16();
                    let ebank = cpu.ebank.as_u16();
                    let fbank = cpu.fbank.as_u16();
                    if register == 0o0 {
                        cpu.a
                    } else if register == 0o1 {
                        cpu.l
                    } else if register == 0o2 {
                        cpu.q
                    } else if register == 0o3 {
                        W16::from(ebank << 8)
                    } else if register == 0o4 {
                        W16::from(fbank << 10)
                    } else if register == 0o5 {
                        cpu.z
                    } else if register == 0o6 {
                        W16::from(ebank | (fbank << 10))
                    } else {
                        W16::zero()
                    }
                },
                _ => W16::zero(),
            },
            ControlPulse::RSTRT => W16::from(0o4000),
            ControlPulse::RU => cpu.u(),
            ControlPulse::RZ => cpu.z,
            ControlPulse::WY12 => {
                cpu.x = W16::zero();
                cpu.y = W16::zero();
                cpu.ci = false;
                W16::zero()
            },
            _ => W16::zero(),
        }
    }

    /// Execute operations that reads from the WL (executed second)
    pub fn exec_read_wl(&self, cpu: &mut Cpu, wl: W16)
        ensures
            final(cpu)@ == self.after_read(old(cpu)@, wl@),
    {
        proof {
            lemma_mask_values();
        }
        let lines = wl.as_u16();
        match self {
            ControlPulse::PONEX => {
                cpu.x = W16::from(1);
            },
            ControlPulse::ST1 => {
                let next_st = cpu.next_st.as_u16();
                proof {
                    lemma_ops_fit(next_st, 0b001, 0, 3);
                }
                cpu.next_st = W3::from(next_st | 0b001);
            },
            ControlPulse::ST2 => {
                let next_st = cpu.next_st.as_u16();
                proof {
                    lemma_ops_fit(next_st, 0b010, 0, 3);
                }
                cpu.next_st = W3::from(next_st | 0b010);
            },
            ControlPulse::TMZ => {
                cpu.br.set_br2(lines == 0o177777);
            },
            ControlPulse::TOV => {
                let last_bits = W2::from(lines >> 14);
                if last_bits.as_u16() == 0b01 || last_bits.as_u16() == 0b10 {
                    cpu.br.set(last_bits);
                } else {
                    cpu.br.set(W2::zero());
                }
            },
            ControlPulse::TPZG => {
                if cpu.g.as_u16() == 0 {
                    cpu.br.set_br2(true);
                }
            },
            ControlPulse::TSGN => {
                cpu.br.set_br1(wl.get(15));
            },
            ControlPulse::WA => {
                cpu.a = wl;
            },
            ControlPulse::WB => {
                cpu.b = wl;
            },
            ControlPulse::WG => {
                cpu.g = wl;
            },
            ControlPulse::WS => {
                cpu.s = AddressRegister::from(W12::from_word(wl));
            },
            ControlPulse::WSC => match cpu.s.address() {
                MemoryAddress::Register(value) => {
                    let register = value.as_u16();
                    if register == 0o0 {
                        cpu.a = wl;
                    } else if register == 0o1 {
                        cpu.l = wl;
                    } else if register == 0o2 {
                        cpu.q = wl;
                    } else if register == 0o3 {
                        cpu.ebank = W3::from(lines >> 8);
                    } else if register == 0o4 {
                        cpu.fbank = W5::from(lines >> 10);
                    } else if register == 0o5 {
                        cpu.z = wl;
                    } else if register == 0o6 {
                        cpu.ebank = W3::from(lines);
                        cpu.fbank = W5::from(lines >> 10);
                    }
                },
                _ => {},
            },
            ControlPulse::WQ => {
                cpu.q = wl;
            },
            ControlPulse::WY => {
                cpu.x = W16::zero();
                cpu.y = wl;
            },
            ControlPulse::WY12 => {
                cpu.y = W16::from(lines & 0o7777);
            },
            ControlPulse::WZ => {
                cpu.z = wl;
            },
            _ => {},
        }
    }
}

} // verus!
