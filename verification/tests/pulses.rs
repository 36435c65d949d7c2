use agc::cpu::control_pulses::ControlPulse;
use agc::cpu::instructions::{Action, Subinstruction};
use agc::cpu::registers::{AddressRegister, BranchRegister};
use agc::cpu::Cpu;
use agc::memory::FixedStorage;
use agc::word::{W12, W16, W2, W3, W5};

fn cpu() -> Cpu {
    let mut cpu = Cpu::new(FixedStorage::new());
    cpu.a = W16::from(0o11111);
    cpu.l = W16::from(0o22222);
    cpu.q = W16::from(0o33333);
    cpu.z = W16::from(0o44444);
    cpu.b = W16::from(0o155555);
    cpu.g = W16::from(0o66666);
    cpu.ebank = W3::from(0o5);
    cpu.fbank = W5::from(0o27);
    cpu.s = AddressRegister::from(W12::from(0o1234));
    cpu
}

fn at(s: u16) -> Cpu {
    let mut cpu = cpu();
    cpu.s = AddressRegister::from(W12::from(s));
    cpu
}

fn written(pulse: ControlPulse, cpu: &mut Cpu) -> u16 {
    pulse.exec_write_wl(cpu).as_u16()
}

fn same_registers(first: &Cpu, second: &Cpu) -> bool {
    first.a == second.a
        && first.l == second.l
        && first.q == second.q
        && first.z == second.z
        && first.ebank == second.ebank
        && first.fbank == second.fbank
        && first.b == second.b
        && first.g == second.g
        && first.s.inner() == second.s.inner()
        && first.sq.inner() == second.sq.inner()
        && first.ext == second.ext
        && first.st == second.st
        && first.x == second.x
        && first.y == second.y
        && first.ci == second.ci
        && first.br.inner() == second.br.inner()
        && first.current_timepulse == second.current_timepulse
        && first.current_s.inner() == second.current_s.inner()
        && first.nisq == second.nisq
        && first.next_st == second.next_st
        && first.inhibit_interrupts == second.inhibit_interrupts
}

#[test]
fn pulses_that_read_a_register() {
    let mut state = cpu();
    assert_eq!(written(ControlPulse::RA, &mut state), 0o11111);
    assert_eq!(written(ControlPulse::RB, &mut state), 0o155555);
    assert_eq!(written(ControlPulse::RC, &mut state), 0o022222);
    assert_eq!(written(ControlPulse::RG, &mut state), 0o66666);
    assert_eq!(written(ControlPulse::RZ, &mut state), 0o44444);
    assert_eq!(written(ControlPulse::RL10BB, &mut state), 0o1555);
    assert!(same_registers(&state, &cpu()));
}

#[test]
fn pulses_that_place_a_constant() {
    let mut state = cpu();
    assert_eq!(written(ControlPulse::R1C, &mut state), 0o177776);
    assert_eq!(written(ControlPulse::RB1, &mut state), 0o1);
    assert_eq!(written(ControlPulse::RSTRT, &mut state), 0o4000);
    assert_eq!(written(ControlPulse::RCH, &mut state), 0);
    assert!(same_registers(&state, &cpu()));
}

#[test]
fn pulses_that_only_read_the_write_lines_place_nothing() {
    for pulse in [
        ControlPulse::PONEX,
        ControlPulse::ST1,
        ControlPulse::ST2,
        ControlPulse::TMZ,
        ControlPulse::TOV,
        ControlPulse::TPZG,
        ControlPulse::TSGN,
        ControlPulse::WA,
        ControlPulse::WB,
        ControlPulse::WCH,
        ControlPulse::WG,
        ControlPulse::WOVR,
        ControlPulse::WS,
        ControlPulse::WSC,
        ControlPulse::WQ,
        ControlPulse::WY,
        ControlPulse::WZ,
    ] {
        let mut state = cpu();
        assert_eq!(written(pulse, &mut state), 0);
        assert!(same_registers(&state, &cpu()));
    }
}

#[test]
fn pulses_that_only_write_the_write_lines_read_nothing() {
    for pulse in [
        ControlPulse::CI,
        ControlPulse::NISQ,
        ControlPulse::RAD,
        ControlPulse::R1C,
        ControlPulse::RA,
        ControlPulse::RB,
        ControlPulse::RC,
        ControlPulse::RB1,
        ControlPulse::RCH,
        ControlPulse::RG,
        ControlPulse::RL10BB,
        ControlPulse::RSC,
        ControlPulse::RSTRT,
        ControlPulse::RU,
        ControlPulse::RZ,
        ControlPulse::WCH,
        ControlPulse::WOVR,
    ] {
        let mut state = cpu();
        pulse.exec_read_wl(&mut state, W16::from(0o123456));
        assert!(same_registers(&state, &cpu()));
    }
}

#[test]
fn carry_and_next_instruction_flip_flops() {
    let mut state = cpu();
    state.ci = false;
    assert_eq!(written(ControlPulse::CI, &mut state), 0);
    assert_eq!(state.ci, true);
    assert_eq!(state.nisq, false);
    assert_eq!(written(ControlPulse::NISQ, &mut state), 0);
    assert_eq!(state.nisq, true);
}

#[test]
fn the_central_register_that_s_addresses_is_read() {
    assert_eq!(written(ControlPulse::RSC, &mut at(0o0)), 0o11111);
    assert_eq!(written(ControlPulse::RSC, &mut at(0o1)), 0o22222);
    assert_eq!(written(ControlPulse::RSC, &mut at(0o2)), 0o33333);
    assert_eq!(written(ControlPulse::RSC, &mut at(0o3)), 0o5 << 8);
    assert_eq!(written(ControlPulse::RSC, &mut at(0o4)), 0o27 << 10);
    assert_eq!(written(ControlPulse::RSC, &mut at(0o5)), 0o44444);
    assert_eq!(written(ControlPulse::RSC, &mut at(0o6)), 0o5 | (0o27 << 10));
    assert_eq!(written(ControlPulse::RSC, &mut at(0o7)), 0);
    assert_eq!(written(ControlPulse::RSC, &mut at(0o10)), 0);
    assert_eq!(written(ControlPulse::RSC, &mut at(0o4000)), 0);
}

#[test]
fn the_central_register_that_s_addresses_is_written() {
    let wl = W16::from(0o125252);

    let mut state = at(0o0);
    ControlPulse::WSC.exec_read_wl(&mut state, wl);
    assert_eq!(state.a, wl);
    assert_eq!(state.l.as_u16(), 0o22222);

    let mut state = at(0o1);
    ControlPulse::WSC.exec_read_wl(&mut state, wl);
    assert_eq!(state.l, wl);
    assert_eq!(state.a.as_u16(), 0o11111);

    let mut state = at(0o2);
    ControlPulse::WSC.exec_read_wl(&mut state, wl);
    assert_eq!(state.q, wl);

    let mut state = at(0o3);
    ControlPulse::WSC.exec_read_wl(&mut state, W16::from(0b0000_0110_0000_0111));
    assert_eq!(state.ebank.as_u16(), 0b110);
    assert_eq!(state.fbank.as_u16(), 0o27);

    let mut state = at(0o4);
    ControlPulse::WSC.exec_read_wl(&mut state, W16::from(0b1101_0111_0000_0111));
    assert_eq!(state.fbank.as_u16(), 0b10101);
    assert_eq!(state.ebank.as_u16(), 0o5);

    let mut state = at(0o5);
    ControlPulse::WSC.exec_read_wl(&mut state, wl);
    assert_eq!(state.z, wl);

    let mut state = at(0o6);
    ControlPulse::WSC.exec_read_wl(&mut state, W16::from(0b1101_0111_0000_0011));
    assert_eq!(state.ebank.as_u16(), 0b011);
    assert_eq!(state.fbank.as_u16(), 0b10101);

    let mut state = at(0o7);
    ControlPulse::WSC.exec_read_wl(&mut state, wl);
    assert!(same_registers(&state, &at(0o7)));

    let mut state = at(0o10);
    ControlPulse::WSC.exec_read_wl(&mut state, wl);
    assert!(same_registers(&state, &at(0o10)));
}

#[test]
fn reading_then_writing_a_register_restores_it() {
    for (read, write) in [
        (ControlPulse::RA, ControlPulse::WA),
        (ControlPulse::RB, ControlPulse::WB),
        (ControlPulse::RG, ControlPulse::WG),
        (ControlPulse::RZ, ControlPulse::WZ),
    ] {
        let mut state = cpu();
        let wl = read.exec_write_wl(&mut state);
        write.exec_read_wl(&mut state, wl);
        assert!(same_registers(&state, &cpu()));
    }
    for s in [0o0, 0o1, 0o2, 0o3, 0o4, 0o5, 0o6, 0o7, 0o10, 0o1400, 0o7777] {
        let mut state = at(s);
        let wl = ControlPulse::RSC.exec_write_wl(&mut state);
        ControlPulse::WSC.exec_read_wl(&mut state, wl);
        assert!(same_registers(&state, &at(s)));
    }
    let mut state = at(0o2);
    let wl = ControlPulse::RSC.exec_write_wl(&mut state);
    assert_eq!(wl.as_u16(), 0o33333);
    ControlPulse::WQ.exec_read_wl(&mut state, wl);
    assert!(same_registers(&state, &at(0o2)));
}

#[test]
fn pulses_that_write_a_register() {
    let wl = W16::from(0o171717);
    let mut state = cpu();
    ControlPulse::WA.exec_read_wl(&mut state, wl);
    assert_eq!(state.a, wl);
    ControlPulse::WB.exec_read_wl(&mut state, wl);
    assert_eq!(state.b, wl);
    ControlPulse::WG.exec_read_wl(&mut state, wl);
    assert_eq!(state.g, wl);
    ControlPulse::WQ.exec_read_wl(&mut state, wl);
    assert_eq!(state.q, wl);
    ControlPulse::WZ.exec_read_wl(&mut state, wl);
    assert_eq!(state.z, wl);
    ControlPulse::WS.exec_read_wl(&mut state, wl);
    assert_eq!(state.s.inner().as_u16(), 0o1717);
    assert_eq!(state.l.as_u16(), 0o22222);
}

#[test]
fn the_adder_inputs_are_written() {
    let mut state = cpu();
    state.x = W16::from(0o7);
    state.y = W16::from(0o7);
    ControlPulse::WY.exec_read_wl(&mut state, W16::from(0o171717));
    assert_eq!(state.x.as_u16(), 0);
    assert_eq!(state.y.as_u16(), 0o171717);
    ControlPulse::PONEX.exec_read_wl(&mut state, W16::from(0o171717));
    assert_eq!(state.x.as_u16(), 1);
    assert_eq!(state.y.as_u16(), 0o171717);
    assert_eq!(written(ControlPulse::RU, &mut state), 0o171721);
}

#[test]
fn wy12_clears_the_adder_and_takes_twelve_bits() {
    let mut state = cpu();
    state.x = W16::from(0o7);
    state.y = W16::from(0o70007);
    state.ci = true;
    assert_eq!(written(ControlPulse::WY12, &mut state), 0);
    assert_eq!(state.x.as_u16(), 0);
    assert_eq!(state.y.as_u16(), 0);
    assert_eq!(state.ci, false);
    ControlPulse::WY12.exec_read_wl(&mut state, W16::from(0o171717));
    assert_eq!(state.y.as_u16(), 0o1717);
    assert_eq!(state.x.as_u16(), 0);
    assert_eq!(state.ci, false);
    assert_eq!(state.a.as_u16(), 0o11111);
}

#[test]
fn rad_reads_g_unless_it_holds_a_special_instruction() {
    let mut state = cpu();
    assert_eq!(written(ControlPulse::RAD, &mut state), 0o66666);
    assert!(same_registers(&state, &cpu()));

    // RELINT
    let mut state = cpu();
    state.g = W16::from(0o00003);
    state.inhibit_interrupts = true;
    assert_eq!(written(ControlPulse::RAD, &mut state), 0o44444);
    assert_eq!(state.inhibit_interrupts, false);
    assert_eq!(state.ext, false);
    assert_eq!(state.next_st.as_u16(), 0b010);

    // INHINT
    let mut state = cpu();
    state.g = W16::from(0o00004);
    state.next_st = W3::from(0b001);
    assert_eq!(written(ControlPulse::RAD, &mut state), 0o44444);
    assert_eq!(state.inhibit_interrupts, true);
    assert_eq!(state.ext, false);
    assert_eq!(state.next_st.as_u16(), 0b011);

    // EXTEND
    let mut state = cpu();
    state.g = W16::from(0o00006);
    assert_eq!(written(ControlPulse::RAD, &mut state), 0o44444);
    assert_eq!(state.inhibit_interrupts, false);
    assert_eq!(state.ext, true);
    assert_eq!(state.next_st.as_u16(), 0b010);

    let mut state = cpu();
    state.g = W16::from(0o00005);
    assert_eq!(written(ControlPulse::RAD, &mut state), 0o00005);
    assert_eq!(state.next_st.as_u16(), 0);
}

#[test]
fn the_stage_of_the_next_cycle_is_gathered() {
    let mut state = cpu();
    ControlPulse::ST1.exec_read_wl(&mut state, W16::zero());
    assert_eq!(state.next_st.as_u16(), 0b001);
    ControlPulse::ST2.exec_read_wl(&mut state, W16::zero());
    assert_eq!(state.next_st.as_u16(), 0b011);
    ControlPulse::ST2.exec_read_wl(&mut state, W16::zero());
    assert_eq!(state.next_st.as_u16(), 0b011);
    state.next_st = W3::from(0b100);
    ControlPulse::ST1.exec_read_wl(&mut state, W16::zero());
    assert_eq!(state.next_st.as_u16(), 0b101);
}

fn branch_after(pulse: ControlPulse, before: u16, g: u16, wl: u16) -> u16 {
    let mut state = cpu();
    state.br = BranchRegister::from(W2::from(before));
    state.g = W16::from(g);
    pulse.exec_read_wl(&mut state, W16::from(wl));
    state.br.inner().as_u16()
}

#[test]
fn test_for_minus_zero() {
    assert_eq!(branch_after(ControlPulse::TMZ, 0b00, 0, 0o177777), 0b10);
    assert_eq!(branch_after(ControlPulse::TMZ, 0b01, 0, 0o177777), 0b11);
    assert_eq!(branch_after(ControlPulse::TMZ, 0b11, 0, 0o077777), 0b01);
    assert_eq!(branch_after(ControlPulse::TMZ, 0b10, 0, 0o177776), 0b00);
    assert_eq!(branch_after(ControlPulse::TMZ, 0b10, 0, 0), 0b00);
}

#[test]
fn test_for_overflow() {
    assert_eq!(branch_after(ControlPulse::TOV, 0b11, 0, 0o040000), 0b01);
    assert_eq!(branch_after(ControlPulse::TOV, 0b00, 0, 0o077777), 0b01);
    assert_eq!(branch_after(ControlPulse::TOV, 0b11, 0, 0o100000), 0b10);
    assert_eq!(branch_after(ControlPulse::TOV, 0b00, 0, 0o137777), 0b10);
    assert_eq!(branch_after(ControlPulse::TOV, 0b11, 0, 0o000000), 0b00);
    assert_eq!(branch_after(ControlPulse::TOV, 0b11, 0, 0o037777), 0b00);
    assert_eq!(branch_after(ControlPulse::TOV, 0b11, 0, 0o140000), 0b00);
    assert_eq!(branch_after(ControlPulse::TOV, 0b01, 0, 0o177777), 0b00);
}

#[test]
fn test_for_plus_zero_in_g() {
    assert_eq!(branch_after(ControlPulse::TPZG, 0b00, 0, 0o177777), 0b10);
    assert_eq!(branch_after(ControlPulse::TPZG, 0b01, 0, 0), 0b11);
    // BR2 is set, never cleared
    assert_eq!(branch_after(ControlPulse::TPZG, 0b10, 1, 0), 0b10);
    assert_eq!(branch_after(ControlPulse::TPZG, 0b11, 0o177777, 0), 0b11);
    assert_eq!(branch_after(ControlPulse::TPZG, 0b01, 0o100000, 0), 0b01);
    assert_eq!(branch_after(ControlPulse::TPZG, 0b00, 7, 0), 0b00);
}

#[test]
fn test_of_the_sign() {
    assert_eq!(branch_after(ControlPulse::TSGN, 0b00, 0, 0o100000), 0b01);
    assert_eq!(branch_after(ControlPulse::TSGN, 0b10, 0, 0o177777), 0b11);
    assert_eq!(branch_after(ControlPulse::TSGN, 0b11, 0, 0o077777), 0b10);
    assert_eq!(branch_after(ControlPulse::TSGN, 0b01, 0, 0), 0b00);
}

#[test]
fn pulses_that_are_not_modelled_change_nothing() {
    let mut state = at(0o0026);
    ControlPulse::WOVR.exec_read_wl(&mut state, W16::from(0o040000));
    assert!(same_registers(&state, &at(0o0026)));
    ControlPulse::WCH.exec_read_wl(&mut state, W16::from(0o040000));
    assert!(same_registers(&state, &at(0o0026)));
    assert_eq!(written(ControlPulse::RCH, &mut state), 0);
    assert!(same_registers(&state, &at(0o0026)));
}

#[test]
fn mnemonics() {
    assert_eq!(ControlPulse::CI.name(), "CI");
    assert_eq!(ControlPulse::NISQ.name(), "NISQ");
    assert_eq!(ControlPulse::PONEX.name(), "PONEX");
    assert_eq!(ControlPulse::RAD.name(), "RAD");
    assert_eq!(ControlPulse::R1C.name(), "R1C");
    assert_eq!(ControlPulse::RA.name(), "RA");
    assert_eq!(ControlPulse::RB.name(), "RB");
    assert_eq!(ControlPulse::RC.name(), "RC");
    assert_eq!(ControlPulse::RB1.name(), "RB1");
    assert_eq!(ControlPulse::RCH.name(), "RCH");
    assert_eq!(ControlPulse::RG.name(), "RG");
    assert_eq!(ControlPulse::RL10BB.name(), "RL10BB");
    assert_eq!(ControlPulse::RSC.name(), "RSC");
    assert_eq!(ControlPulse::RSTRT.name(), "RSTRT");
    assert_eq!(ControlPulse::RU.name(), "RU");
    assert_eq!(ControlPulse::RZ.name(), "RZ");
    assert_eq!(ControlPulse::ST1.name(), "ST1");
    assert_eq!(ControlPulse::ST2.name(), "ST2");
    assert_eq!(ControlPulse::TMZ.name(), "TMZ");
    assert_eq!(ControlPulse::TOV.name(), "TOV");
    assert_eq!(ControlPulse::TPZG.name(), "TPZG");
    assert_eq!(ControlPulse::TSGN.name(), "TSGN");
    assert_eq!(ControlPulse::WA.name(), "WA");
    assert_eq!(ControlPulse::WB.name(), "WB");
    assert_eq!(ControlPulse::WCH.name(), "WCH");
    assert_eq!(ControlPulse::WG.name(), "WG");
    assert_eq!(ControlPulse::WOVR.name(), "WOVR");
    assert_eq!(ControlPulse::WS.name(), "WS");
    assert_eq!(ControlPulse::WSC.name(), "WSC");
    assert_eq!(ControlPulse::WQ.name(), "WQ");
    assert_eq!(ControlPulse::WY.name(), "WY");
    assert_eq!(ControlPulse::WY12.name(), "WY12");
    assert_eq!(ControlPulse::WZ.name(), "WZ");
    assert_eq!(Subinstruction::CA0.name(), "CA0");
    assert_eq!(Subinstruction::GOJ1.name(), "GOJ1");
    assert_eq!(Subinstruction::INCR0.name(), "INCR0");
    assert_eq!(Subinstruction::STD2.name(), "STD2");
    assert_eq!(Subinstruction::TC0.name(), "TC0");
    assert_eq!(Subinstruction::TCF0.name(), "TCF0");
    assert_eq!(Subinstruction::TS0.name(), "TS0");
    assert_eq!(Subinstruction::XCH0.name(), "XCH0");
}

#[test]
fn actions_fire_under_their_condition() {
    let pulse = ControlPulse::CI;
    let fires = |action: Action| -> [bool; 4] {
        [
            action.execute(BranchRegister::from(W2::from(0b00))),
            action.execute(BranchRegister::from(W2::from(0b01))),
            action.execute(BranchRegister::from(W2::from(0b10))),
            action.execute(BranchRegister::from(W2::from(0b11))),
        ]
    };
    assert_eq!(fires(Action::BrXX(pulse)), [true, true, true, true]);
    assert_eq!(fires(Action::BrX0(pulse)), [true, false, true, false]);
    assert_eq!(fires(Action::BrX1(pulse)), [false, true, false, true]);
    assert_eq!(fires(Action::Br0X(pulse)), [true, true, false, false]);
    assert_eq!(fires(Action::Br1X(pulse)), [false, false, true, true]);
    assert_eq!(fires(Action::Br00(pulse)), [true, false, false, false]);
    assert_eq!(fires(Action::Br01(pulse)), [false, true, false, false]);
    assert_eq!(fires(Action::Br10(pulse)), [false, false, true, false]);
    assert_eq!(fires(Action::Br11(pulse)), [false, false, false, true]);
}

#[test]
fn actions_give_their_pulse() {
    assert_eq!(Action::BrXX(ControlPulse::RA).control_pulse(), ControlPulse::RA);
    assert_eq!(Action::BrX0(ControlPulse::RB).control_pulse(), ControlPulse::RB);
    assert_eq!(Action::Br0X(ControlPulse::RC).control_pulse(), ControlPulse::RC);
    assert_eq!(Action::BrX1(ControlPulse::RG).control_pulse(), ControlPulse::RG);
    assert_eq!(Action::Br1X(ControlPulse::RZ).control_pulse(), ControlPulse::RZ);
    assert_eq!(Action::Br00(ControlPulse::WA).control_pulse(), ControlPulse::WA);
    assert_eq!(Action::Br01(ControlPulse::WB).control_pulse(), ControlPulse::WB);
    assert_eq!(Action::Br10(ControlPulse::WG).control_pulse(), ControlPulse::WG);
    assert_eq!(Action::Br11(ControlPulse::WZ).control_pulse(), ControlPulse::WZ);
    assert_eq!(Action::Br11(ControlPulse::WZ).control_pulse().name(), "WZ");
}

fn with_branch(br: u16) -> Cpu {
    let mut state = cpu();
    state.br = BranchRegister::from(W2::from(br));
    state
}

#[test]
fn only_the_actions_that_fire_are_executed() {
    let row = Subinstruction::TS0.actions(agc::cpu::TimePulse::T5);

    let mut state = with_branch(0b01);
    state.execute_actions(&row);
    assert_eq!(state.a.as_u16(), 0o000001);
    state.a = W16::from(0o11111);
    assert!(same_registers(&state, &with_branch(0b01)));

    let mut state = with_branch(0b10);
    state.execute_actions(&row);
    assert_eq!(state.a.as_u16(), 0o177776);

    let mut state = with_branch(0b00);
    state.execute_actions(&row);
    assert!(same_registers(&state, &with_branch(0b00)));

    let mut state = with_branch(0b11);
    state.execute_actions(&row);
    assert!(same_registers(&state, &with_branch(0b11)));
}

#[test]
fn the_carry_of_a_row_depends_on_the_branch_register() {
    let row = Subinstruction::TS0.actions(agc::cpu::TimePulse::T4);
    for (br, carry) in [(0b00, false), (0b01, true), (0b10, true), (0b11, false)] {
        let mut state = with_branch(br);
        state.x = W16::from(0o7);
        state.y = W16::from(0o7);
        state.ci = !carry;
        state.execute_actions(&row);
        assert_eq!(state.x.as_u16(), 0);
        assert_eq!(state.y.as_u16(), 0o4444);
        assert_eq!(state.ci, carry);
        assert_eq!(state.br.inner().as_u16(), br);
    }
}

#[test]
fn the_write_lines_carry_the_or_of_what_is_put_on_them() {
    let mut state = cpu();
    state.execute_actions(&[
        Action::BrXX(ControlPulse::RA),
        Action::BrXX(ControlPulse::WG),
        Action::BrXX(ControlPulse::RL10BB),
        Action::BrXX(ControlPulse::WQ),
    ]);
    assert_eq!(state.g.as_u16(), 0o11111 | 0o1555);
    assert_eq!(state.q.as_u16(), 0o11111 | 0o1555);
    assert_eq!(state.a.as_u16(), 0o11111);
    assert_eq!(state.b.as_u16(), 0o155555);

    let mut state = cpu();
    state.execute_actions(&[
        Action::BrXX(ControlPulse::WZ),
        Action::Br11(ControlPulse::R1C),
        Action::BrXX(ControlPulse::RB1),
        Action::BrXX(ControlPulse::RSTRT),
    ]);
    assert_eq!(state.z.as_u16(), 0o4001);

    let mut state = cpu();
    state.execute_actions(&[Action::BrXX(ControlPulse::WA)]);
    assert_eq!(state.a.as_u16(), 0);

    let mut state = cpu();
    state.execute_actions(&[]);
    assert!(same_registers(&state, &cpu()));
}

#[test]
fn what_fires_is_decided_before_the_first_pulse() {
    let row = [
        Action::BrXX(ControlPulse::RB),
        Action::BrXX(ControlPulse::TSGN),
        Action::BrX1(ControlPulse::WA),
        Action::BrX0(ControlPulse::WQ),
    ];
    // Bit 16 of B is set: BR1 becomes 1, after it was found to be 0.
    let mut state = with_branch(0b00);
    state.execute_actions(&row);
    assert_eq!(state.br.inner().as_u16(), 0b01);
    assert_eq!(state.a.as_u16(), 0o11111);
    assert_eq!(state.q.as_u16(), 0o155555);

    // Bit 16 of B is clear: BR1 becomes 0, after it was found to be 1.
    let mut state = with_branch(0b01);
    state.b = W16::from(0o055555);
    state.execute_actions(&row);
    assert_eq!(state.br.inner().as_u16(), 0b00);
    assert_eq!(state.a.as_u16(), 0o055555);
    assert_eq!(state.q.as_u16(), 0o33333);
}

#[test]
fn the_tests_of_a_row_set_the_branch_register() {
    let row = Subinstruction::INCR0.actions(agc::cpu::TimePulse::T5);

    let mut state = with_branch(0b00);
    state.g = W16::from(0o177777);
    state.x = W16::from(0o7);
    state.execute_actions(&row);
    assert_eq!(state.y.as_u16(), 0o177777);
    assert_eq!(state.x.as_u16(), 0);
    assert_eq!(state.br.inner().as_u16(), 0b11);

    let mut state = with_branch(0b01);
    state.g = W16::from(0);
    state.execute_actions(&row);
    assert_eq!(state.y.as_u16(), 0);
    assert_eq!(state.br.inner().as_u16(), 0b10);

    let mut state = with_branch(0b11);
    state.g = W16::from(0o000005);
    state.execute_actions(&row);
    assert_eq!(state.y.as_u16(), 0o000005);
    assert_eq!(state.br.inner().as_u16(), 0b00);

    let mut state = with_branch(0b00);
    state.g = W16::from(0o100000);
    state.execute_actions(&row);
    assert_eq!(state.br.inner().as_u16(), 0b01);
}

#[test]
fn every_pulse_writes_before_any_pulse_reads() {
    // The carry is inserted after WY12 cleared it.
    let mut state = cpu();
    state.ci = false;
    state.execute_actions(&Subinstruction::STD2.actions(agc::cpu::TimePulse::T1));
    assert_eq!(state.ci, true);
    assert_eq!(state.x.as_u16(), 0);
    assert_eq!(state.y.as_u16(), 0o4444);

    // WY12 clears the carry that was inserted before it.
    let mut state = cpu();
    state.ci = false;
    state.execute_actions(&[
        Action::BrXX(ControlPulse::CI),
        Action::BrXX(ControlPulse::RZ),
        Action::BrXX(ControlPulse::WY12),
    ]);
    assert_eq!(state.ci, false);
    assert_eq!(state.y.as_u16(), 0o4444);

    // WB reads what RAD put on the write lines, whatever their order.
    let mut state = cpu();
    state.g = W16::from(0o00006);
    state.execute_actions(&[
        Action::BrXX(ControlPulse::WB),
        Action::BrXX(ControlPulse::WS),
        Action::BrXX(ControlPulse::RAD),
    ]);
    assert_eq!(state.b.as_u16(), 0o44444);
    assert_eq!(state.s.inner().as_u16(), 0o4444);
    assert_eq!(state.ext, true);
    assert_eq!(state.next_st.as_u16(), 0b010);

    // The adder is read before PONEX changes its input.
    let mut state = cpu();
    state.x = W16::zero();
    state.y = W16::from(0o10);
    state.ci = false;
    state.execute_actions(&[
        Action::BrXX(ControlPulse::PONEX),
        Action::BrXX(ControlPulse::RU),
        Action::BrXX(ControlPulse::WA),
    ]);
    assert_eq!(state.a.as_u16(), 0o10);
    assert_eq!(state.x.as_u16(), 1);
}
