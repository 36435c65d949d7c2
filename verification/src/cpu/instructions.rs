//! The subinstructions, and the control pulses that each of them schedules
//! for each of the twelve time pulses.

use crate::cpu::control_pulses::ControlPulse;
use crate::cpu::registers::BranchRegister;
use crate::cpu::TimePulse;
use crate::word::bit_of;
use vstd::prelude::*;

verus! {

/// A control pulse under the condition on the branch register that lets it
/// fire. The two characters of a condition stand for BR2 and BR1, in that
/// order; `X` stands for either value.
#[derive(Copy, Clone, Debug, PartialEq, Eq, Structural)]
pub enum Action {
    BrXX(ControlPulse),
    BrX0(ControlPulse),
    Br0X(ControlPulse),
    BrX1(ControlPulse),
    Br1X(ControlPulse),
    Br00(ControlPulse),
    Br01(ControlPulse),
    Br10(ControlPulse),
    Br11(ControlPulse),
}

impl Action {
    /// Whether the pulse fires when the branch register holds `br`.
    pub open spec fn fires(self, br: u16) -> bool {
        match self {
            Action::BrXX(_) => true,
            Action::BrX0(_) => !bit_of(br, 0),
            Action::Br0X(_) => !bit_of(br, 1),
            Action::BrX1(_) => bit_of(br, 0),
            Action::Br1X(_) => bit_of(br, 1),
            Action::Br00(_) => br == 0b00,
            Action::Br01(_) => br == 0b01,
            Action::Br10(_) => br == 0b10,
            Action::Br11(_) => br == 0b11,
        }
    }

    /// The pulse of the action.
    pub open spec fn pulse(self) -> ControlPulse {
        match self {
            Action::BrXX(pulse) => pulse,
            Action::BrX0(pulse) => pulse,
            Action::Br0X(pulse) => pulse,
            Action::BrX1(pulse) => pulse,
            Action::Br1X(pulse) => pulse,
            Action::Br00(pulse) => pulse,
            Action::Br01(pulse) => pulse,
            Action::Br10(pulse) => pulse,
            Action::Br11(pulse) => pulse,
        }
    }

    /// Whether the pulse fires when the branch register is `br`.
    pub fn execute(&self, br: BranchRegister) -> (fires: bool)
        ensures
            fires == self.fires(br@),
    {
        match self {
            Self::BrXX(_) => true,
            Self::BrX0(_) => !br.br1(),
            Self::Br0X(_) => !br.br2(),
            Self::BrX1(_) => br.br1(),
            Self::Br1X(_) => br.br2(),
            Self::Br00(_) => br.inner().as_u16() == 0b00,
            Self::Br01(_) => br.inner().as_u16() == 0b01,
            Self::Br10(_) => br.inner().as_u16() == 0b10,
            Self::Br11(_) => br.inner().as_u16() == 0b11,
        }
    }

    /// The pulse of the action.
    pub fn control_pulse(&self) -> (pulse: ControlPulse)
        ensures
            pulse == self.pulse(),
    {
        match self {
            Self::BrXX(control_pulse) => *control_pulse,
            Self::BrX0(control_pulse) => *control_pulse,
            Self::Br0X(control_pulse) => *control_pulse,
            Self::BrX1(control_pulse) => *control_pulse,
            Self::Br1X(control_pulse) => *control_pulse,
            Self::Br00(control_pulse) => *control_pulse,
            Self::Br01(control_pulse) => *control_pulse,
            Self::Br10(control_pulse) => *control_pulse,
            Self::Br11(control_pulse) => *control_pulse,
        }
    }
}

/// One stage of the execution of an instruction: a memory cycle of twelve
/// time pulses.
#[derive(Copy, Clone, Debug, PartialEq, Eq, Structural)]
pub enum Subinstruction {
    /// Clear and add: the operand goes to register A.
    CA0,
    /// The start subinstruction: control goes to octal 4000.
    GOJ1,
    /// Increment the operand in memory.
    INCR0,
    /// The standard fetch of the next instruction.
    STD2,
    /// Transfer control, keeping the return address in register Q.
    TC0,
    /// Transfer control to fixed memory.
    TCF0,
    /// Transfer register A to storage, with the overflow handled.
    TS0,
    /// Exchange register A and the operand.
    XCH0,
}

impl Subinstruction {
    /// The mnemonic of the subinstruction.
    pub open spec fn mnemonic(self) -> Seq<char> {
        match self {
            Subinstruction::CA0 => "CA0"@,
            Subinstruction::GOJ1 => "GOJ1"@,
            Subinstruction::INCR0 => "INCR0"@,
            Subinstruction::STD2 => "STD2"@,
            Subinstruction::TC0 => "TC0"@,
            Subinstruction::TCF0 => "TCF0"@,
            Subinstruction::TS0 => "TS0"@,
            Subinstruction::XCH0 => "XCH0"@,
        }
    }

    /// The actions that the subinstruction schedules for the time pulse `t`,
    /// in their order.
    pub open spec fn table(self, t: TimePulse) -> Seq<Action> {
        match self {
            Subinstruction::CA0 => match t {
                TimePulse::T2 => seq![
                    Action::BrXX(ControlPulse::RSC),
                    Action::BrXX(ControlPulse::WG),
                ],
                TimePulse::T7 => seq![
                    Action::BrXX(ControlPulse::RG),
                    Action::BrXX(ControlPulse::WB),
                ],
                TimePulse::T8 => seq![
                    Action::BrXX(ControlPulse::RZ),
                    Action::BrXX(ControlPulse::WS),
                    Action::BrXX(ControlPulse::ST2),
                ],
                TimePulse::T9 => seq![
                    Action::BrXX(ControlPulse::RB),
                    Action::BrXX(ControlPulse::WG),
                ],
                TimePulse::T10 => seq![
                    Action::BrXX(ControlPulse::RB),
                    Action::BrXX(ControlPulse::WA),
                ],
                _ => Seq::empty(),
            },
            Subinstruction::GOJ1 => match t {
                TimePulse::T2 => seq![
                    Action::BrXX(ControlPulse::RSC),
                    Action::BrXX(ControlPulse::WG),
                ],
                TimePulse::T8 => seq![
                    Action::BrXX(ControlPulse::RSTRT),
                    Action::BrXX(ControlPulse::WS),
                    Action::BrXX(ControlPulse::WB),
                ],
                _ => Seq::empty(),
            },
            Subinstruction::INCR0 => match t {
                TimePulse::T1 => seq![
                    Action::BrXX(ControlPulse::RL10BB),
                    Action::BrXX(ControlPulse::WS),
                ],
                TimePulse::T2 => seq![
                    Action::BrXX(ControlPulse::RSC),
                    Action::BrXX(ControlPulse::WG),
                ],
                TimePulse::T5 => seq![
                    Action::BrXX(ControlPulse::RG),
                    Action::BrXX(ControlPulse::WY),
                    Action::BrXX(ControlPulse::TSGN),
                    Action::BrXX(ControlPulse::TMZ),
                    Action::BrXX(ControlPulse::TPZG),
                ],
                TimePulse::T6 => seq![Action::BrXX(ControlPulse::PONEX)],
                TimePulse::T7 => seq![
                    Action::BrXX(ControlPulse::RU),
                    Action::BrXX(ControlPulse::WSC),
                    Action::BrXX(ControlPulse::WG),
                    Action::BrXX(ControlPulse::WOVR),
                ],
                TimePulse::T8 => seq![
                    Action::BrXX(ControlPulse::RZ),
                    Action::BrXX(ControlPulse::WS),
                    Action::BrXX(ControlPulse::ST2),
                ],
                _ => Seq::empty(),
            },
            Subinstruction::STD2 => match t {
                TimePulse::T1 => seq![
                    Action::BrXX(ControlPulse::RZ),
                    Action::BrXX(ControlPulse::WY12),
                    Action::BrXX(ControlPulse::CI),
                ],
                TimePulse::T2 => seq![
                    Action::BrXX(ControlPulse::RSC),
                    Action::BrXX(ControlPulse::WG),
                    Action::BrXX(ControlPulse::NISQ),
                ],
                TimePulse::T6 => seq![
                    Action::BrXX(ControlPulse::RU),
                    Action::BrXX(ControlPulse::WZ),
                ],
                TimePulse::T8 => seq![
                    Action::BrXX(ControlPulse::RAD),
                    Action::BrXX(ControlPulse::WB),
                    Action::BrXX(ControlPulse::WS),
                ],
                _ => Seq::empty(),
            },
            Subinstruction::TC0 => match t {
                TimePulse::T1 => seq![
                    Action::BrXX(ControlPulse::RB),
                    Action::BrXX(ControlPulse::WY12),
                    Action::BrXX(ControlPulse::CI),
                ],
                TimePulse::T2 => seq![
                    Action::BrXX(ControlPulse::RSC),
                    Action::BrXX(ControlPulse::WG),
                    Action::BrXX(ControlPulse::NISQ),
                ],
                TimePulse::T3 => seq![
                    Action::BrXX(ControlPulse::RZ),
                    Action::BrXX(ControlPulse::WQ),
                ],
                TimePulse::T6 => seq![
                    Action::BrXX(ControlPulse::RU),
                    Action::BrXX(ControlPulse::WZ),
                ],
                TimePulse::T8 => seq![
                    Action::BrXX(ControlPulse::RAD),
                    Action::BrXX(ControlPulse::WB),
                    Action::BrXX(ControlPulse::WS),
                ],
                _ => Seq::empty(),
            },
            Subinstruction::TCF0 => match t {
                TimePulse::T1 => seq![
                    Action::BrXX(ControlPulse::RB),
                    Action::BrXX(ControlPulse::WY12),
                    Action::BrXX(ControlPulse::CI),
                ],
                TimePulse::T2 => seq![
                    Action::BrXX(ControlPulse::RSC),
                    Action::BrXX(ControlPulse::WG),
                    Action::BrXX(ControlPulse::NISQ),
                ],
                TimePulse::T6 => seq![
                    Action::BrXX(ControlPulse::RU),
                    Action::BrXX(ControlPulse::WZ),
                ],
                TimePulse::T8 => seq![
                    Action::BrXX(ControlPulse::RAD),
                    Action::BrXX(ControlPulse::WB),
                    Action::BrXX(ControlPulse::WS),
                ],
                _ => Seq::empty(),
            },
            Subinstruction::TS0 => match t {
                TimePulse::T1 => seq![
                    Action::BrXX(ControlPulse::RL10BB),
                    Action::BrXX(ControlPulse::WS),
                ],
                TimePulse::T2 => seq![
                    Action::BrXX(ControlPulse::RSC),
                    Action::BrXX(ControlPulse::WG),
                ],
                TimePulse::T3 => seq![
                    Action::BrXX(ControlPulse::RA),
                    Action::BrXX(ControlPulse::WB),
                    Action::BrXX(ControlPulse::TOV),
                ],
                TimePulse::T4 => seq![
                    Action::BrXX(ControlPulse::RZ),
                    Action::BrXX(ControlPulse::WY12),
                    Action::Br01(ControlPulse::CI),
                    Action::Br10(ControlPulse::CI),
                ],
                TimePulse::T5 => seq![
                    Action::Br01(ControlPulse::RB1),
                    Action::Br01(ControlPulse::WA),
                    Action::Br10(ControlPulse::R1C),
                    Action::Br10(ControlPulse::WA),
                ],
                TimePulse::T6 => seq![
                    Action::BrXX(ControlPulse::RU),
                    Action::BrXX(ControlPulse::WZ),
                ],
                TimePulse::T7 => seq![
                    Action::BrXX(ControlPulse::RB),
                    Action::BrXX(ControlPulse::WSC),
                    Action::BrXX(ControlPulse::WG),
                ],
                TimePulse::T8 => seq![
                    Action::BrXX(ControlPulse::RZ),
                    Action::BrXX(ControlPulse::WS),
                    Action::BrXX(ControlPulse::ST2),
                ],
                _ => Seq::empty(),
            },
            Subinstruction::XCH0 => match t {
                TimePulse::T1 => seq![
                    Action::BrXX(ControlPulse::RL10BB),
                    Action::BrXX(ControlPulse::WS),
                ],
                TimePulse::T2 => seq![
                    Action::BrXX(ControlPulse::RSC),
                    Action::BrXX(ControlPulse::WG),
                ],
                TimePulse::T3 => seq![
                    Action::BrXX(ControlPulse::RA),
                    Action::BrXX(ControlPulse::WB),
                ],
                TimePulse::T5 => seq![
                    Action::BrXX(ControlPulse::RG),
                    Action::BrXX(ControlPulse::WA),
                ],
                TimePulse::T7 => seq![
                    Action::BrXX(ControlPulse::RB),
                    Action::BrXX(ControlPulse::WSC),
                    Action::BrXX(ControlPulse::WG),
                ],
                TimePulse::T8 => seq![
                    Action::BrXX(ControlPulse::RZ),
                    Action::BrXX(ControlPulse::WS),
                    Action::BrXX(ControlPulse::ST2),
                ],
                _ => Seq::empty(),
            },
        }
    }

    /// Mnemonic of the subinstruction
    pub fn name(&self) -> (text: &'static str)
        ensures
            text@ == self.mnemonic(),
    {
        match self {
            Subinstruction::CA0 => "CA0",
            Subinstruction::GOJ1 => "GOJ1",
            Subinstruction::INCR0 => "INCR0",
            Subinstruction::STD2 => "STD2",
            Subinstruction::TC0 => "TC0",
            Subinstruction::TCF0 => "TCF0",
            Subinstruction::TS0 => "TS0",
            Subinstruction::XCH0 => "XCH0",
        }
    }

    /// The actions scheduled for the time pulse `t`, in their order.
    pub fn actions(&self, t: TimePulse) -> (actions: Vec<Action>)
        ensures
            actions@ == self.table(t),
    {
        let actions = match self {
            Subinstruction::CA0 => match t {
                TimePulse::T2 => vec![
                    Action::BrXX(ControlPulse::RSC),
                    Action::BrXX(ControlPulse::WG),
                ],
                TimePulse::T7 => vec![
                    Action::BrXX(ControlPulse::RG),
                    Action::BrXX(ControlPulse::WB),
                ],
                TimePulse::T8 => vec![
                    Action::BrXX(ControlPulse::RZ),
                    Action::BrXX(ControlPulse::WS),
                    Action::BrXX(ControlPulse::ST2),
                ],
                TimePulse::T9 => vec![
                    Action::BrXX(ControlPulse::RB),
                    Action::BrXX(ControlPulse::WG),
                ],
                TimePulse::T10 => vec![
                    Action::BrXX(ControlPulse::RB),
                    Action::BrXX(ControlPulse::WA),
                ],
                _ => Vec::new(),
            },
            Subinstruction::GOJ1 => match t {
                TimePulse::T2 => vec![
                    Action::BrXX(ControlPulse::RSC),
                    Action::BrXX(ControlPulse::WG),
                ],
                TimePulse::T8 => vec![
                    Action::BrXX(ControlPulse::RSTRT),
                    Action::BrXX(ControlPulse::WS),
                    Action::BrXX(ControlPulse::WB),
                ],
                _ => Vec::new(),
            },
            Subinstruction::INCR0 => match t {
                TimePulse::T1 => vec![
                    Action::BrXX(ControlPulse::RL10BB),
                    Action::BrXX(ControlPulse::WS),
                ],
                TimePulse::T2 => vec![
                    Action::BrXX(ControlPulse::RSC),
                    Action::BrXX(ControlPulse::WG),
                ],
                TimePulse::T5 => vec![
                    Action::BrXX(ControlPulse::RG),
                    Action::BrXX(ControlPulse::WY),
                    Action::BrXX(ControlPulse::TSGN),
                    Action::BrXX(ControlPulse::TMZ),
                    Action::BrXX(ControlPulse::TPZG),
                ],
                TimePulse::T6 => vec![Action::BrXX(ControlPulse::PONEX)],
                TimePulse::T7 => vec![
                    Action::BrXX(ControlPulse::RU),
                    Action::BrXX(ControlPulse::WSC),
                    Action::BrXX(ControlPulse::WG),
                    Action::BrXX(ControlPulse::WOVR),
                ],
                TimePulse::T8 => vec![
                    Action::BrXX(ControlPulse::RZ),
                    Action::BrXX(ControlPulse::WS),
                    Action::BrXX(ControlPulse::ST2),
                ],
                _ => Vec::new(),
            },
            Subinstruction::STD2 => match t {
                TimePulse::T1 => vec![
                    Action::BrXX(ControlPulse::RZ),
                    Action::BrXX(ControlPulse::WY12),
                    Action::BrXX(ControlPulse::CI),
                ],
                TimePulse::T2 => vec![
                    Action::BrXX(ControlPulse::RSC),
                    Action::BrXX(ControlPulse::WG),
                    Action::BrXX(ControlPulse::NISQ),
                ],
                TimePulse::T6 => vec![
                    Action::BrXX(ControlPulse::RU),
                    Action::BrXX(ControlPulse::WZ),
                ],
                TimePulse::T8 => vec![
                    Action::BrXX(ControlPulse::RAD),
                    Action::BrXX(ControlPulse::WB),
                    Action::BrXX(ControlPulse::WS),
                ],
                _ => Vec::new(),
            },
            Subinstruction::TC0 => match t {
                TimePulse::T1 => vec![
                    Action::BrXX(ControlPulse::RB),
                    Action::BrXX(ControlPulse::WY12),
                    Action::BrXX(ControlPulse::CI),
                ],
                TimePulse::T2 => vec![
                    Action::BrXX(ControlPulse::RSC),
                    Action::BrXX(ControlPulse::WG),
                    Action::BrXX(ControlPulse::NISQ),
                ],
                TimePulse::T3 => vec![
                    Action::BrXX(ControlPulse::RZ),
                    Action::BrXX(ControlPulse::WQ),
                ],
                TimePulse::T6 => vec![
                    Action::BrXX(ControlPulse::RU),
                    Action::BrXX(ControlPulse::WZ),
                ],
                TimePulse::T8 => vec![
                    Action::BrXX(ControlPulse::RAD),
                    Action::BrXX(ControlPulse::WB),
                    Action::BrXX(ControlPulse::WS),
                ],
                _ => Vec::new(),
            },
            Subinstruction::TCF0 => match t {
                TimePulse::T1 => vec![
                    Action::BrXX(ControlPulse::RB),
                    Action::BrXX(ControlPulse::WY12),
                    Action::BrXX(ControlPulse::CI),
                ],
                TimePulse::T2 => vec![
                    Action::BrXX(ControlPulse::RSC),
                    Action::BrXX(ControlPulse::WG),
                    Action::BrXX(ControlPulse::NISQ),
                ],
                TimePulse::T6 => vec![
                    Action::BrXX(ControlPulse::RU),
                    Action::BrXX(ControlPulse::WZ),
                ],
                TimePulse::T8 => vec![
                    Action::BrXX(ControlPulse::RAD),
                    Action::BrXX(ControlPulse::WB),
                    Action::BrXX(ControlPulse::WS),
                ],
                _ => Vec::new(),
            },
            Subinstruction::TS0 => match t {
                TimePulse::T1 => vec![
                    Action::BrXX(ControlPulse::RL10BB),
                    Action::BrXX(ControlPulse::WS),
                ],
                TimePulse::T2 => vec![
                    Action::BrXX(ControlPulse::RSC),
                    Action::BrXX(ControlPulse::WG),
                ],
                TimePulse::T3 => vec![
                    Action::BrXX(ControlPulse::RA),
                    Action::BrXX(ControlPulse::WB),
                    Action::BrXX(ControlPulse::TOV),
                ],
                TimePulse::T4 => vec![
                    Action::BrXX(ControlPulse::RZ),
                    Action::BrXX(ControlPulse::WY12),
                    Action::Br01(ControlPulse::CI),
                    Action::Br10(ControlPulse::CI),
                ],
                TimePulse::T5 => vec![
                    Action::Br01(ControlPulse::RB1),
                    Action::Br01(ControlPulse::WA),
                    Action::Br10(ControlPulse::R1C),
                    Action::Br10(ControlPulse::WA),
                ],
                TimePulse::T6 => vec![
                    Action::BrXX(ControlPulse::RU),
                    Action::BrXX(ControlPulse::WZ),
                ],
                TimePulse::T7 => vec![
                    Action::BrXX(ControlPulse::RB),
                    Action::BrXX(ControlPulse::WSC),
                    Action::BrXX(ControlPulse::WG),
                ],
                TimePulse::T8 => vec![
                    Action::BrXX(ControlPulse::RZ),
                    Action::BrXX(ControlPulse::WS),
                    Action::BrXX(ControlPulse::ST2),
                ],
                _ => Vec::new(),
            },
            Subinstruction::XCH0 => match t {
                TimePulse::T1 => vec![
                    Action::BrXX(ControlPulse::RL10BB),
                    Action::BrXX(ControlPulse::WS),
                ],
                TimePulse::T2 => vec![
                    Action::BrXX(ControlPulse::RSC),
                    Action::BrXX(ControlPulse::WG),
                ],
                TimePulse::T3 => vec![
                    Action::BrXX(ControlPulse::RA),
                    Action::BrXX(ControlPulse::WB),
                ],
                TimePulse::T5 => vec![
                    Action::BrXX(ControlPulse::RG),
                    Action::BrXX(ControlPulse::WA),
                ],
                TimePulse::T7 => vec![
                    Action::BrXX(ControlPulse::RB),
                    Action::BrXX(ControlPulse::WSC),
                    Action::BrXX(ControlPulse::WG),
                ],
                TimePulse::T8 => vec![
                    Action::BrXX(ControlPulse::RZ),
                    Action::BrXX(ControlPulse::WS),
                    Action::BrXX(ControlPulse::ST2),
                ],
                _ => Vec::new(),
            },
        };
        assert(actions@ =~= self.table(t));
        actions
    }
}

} // verus!
