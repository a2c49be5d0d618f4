use vf2_core::stepper_motor::{
    is_pulse_boundary, step_pwm_interrupt_handler, MotorDirection, PwmAction, StepMove,
    MOVE_LENGTH,
};

const HRC: u32 = 12_000_000;
const LRC: u32 = 24_000_000;

/// Counter value seen at the rollover of a free-running period: a pulse boundary.
const ROLLOVER: u32 = 22;

#[test]
fn three_steps_forward_end_in_retrograde_reload() {
    let mut cmd = StepMove { num_steps: 3, direction: MotorDirection::Forward };
    assert_eq!(step_pwm_interrupt_handler(&mut cmd, ROLLOVER, HRC, LRC), PwmAction::Step);
    assert_eq!(cmd.num_steps, 2);
    assert_eq!(step_pwm_interrupt_handler(&mut cmd, ROLLOVER, HRC, LRC), PwmAction::ArmOneShot);
    assert_eq!(cmd.num_steps, 1);
    assert_eq!(cmd.direction, MotorDirection::Forward);
    assert_eq!(step_pwm_interrupt_handler(&mut cmd, LRC, HRC, LRC), PwmAction::EndOfMove);
    assert_eq!(cmd, StepMove { num_steps: MOVE_LENGTH, direction: MotorDirection::Retrograde });
    assert_eq!(MOVE_LENGTH, 100);
}

#[test]
fn half_period_match_is_not_a_pulse() {
    let mut cmd = StepMove { num_steps: 3, direction: MotorDirection::Forward };
    assert_eq!(step_pwm_interrupt_handler(&mut cmd, 12_000_039, HRC, LRC), PwmAction::Ignore);
    assert_eq!(cmd, StepMove { num_steps: 3, direction: MotorDirection::Forward });
}

#[test]
fn pulse_boundary_from_register_dumps() {
    assert!(!is_pulse_boundary(12_000_039, HRC, LRC));
    assert!(is_pulse_boundary(22, HRC, LRC));
    assert!(!is_pulse_boundary(12_000_058, HRC, LRC));
    assert!(is_pulse_boundary(24_000_000, HRC, LRC));
}

#[test]
fn full_leg_then_reverse_again() {
    let mut cmd = StepMove::new();
    assert_eq!(cmd, StepMove { num_steps: 100, direction: MotorDirection::Forward });
    let mut arms = 0;
    for _ in 0..100 {
        if step_pwm_interrupt_handler(&mut cmd, ROLLOVER, HRC, LRC) == PwmAction::ArmOneShot {
            arms += 1;
            assert_eq!(cmd.num_steps, 1);
        }
    }
    assert_eq!(arms, 1);
    assert_eq!(cmd, StepMove { num_steps: 100, direction: MotorDirection::Retrograde });
    for _ in 0..100 {
        step_pwm_interrupt_handler(&mut cmd, ROLLOVER, HRC, LRC);
    }
    assert_eq!(cmd, StepMove { num_steps: 100, direction: MotorDirection::Forward });
}

#[test]
fn exhausted_move_reloads_on_next_pulse() {
    let mut cmd = StepMove { num_steps: 0, direction: MotorDirection::Retrograde };
    assert_eq!(step_pwm_interrupt_handler(&mut cmd, ROLLOVER, HRC, LRC), PwmAction::EndOfMove);
    assert_eq!(cmd, StepMove { num_steps: 100, direction: MotorDirection::Forward });
}

#[test]
fn direction_pin_level() {
    assert!(bool::from(MotorDirection::Forward));
    assert!(!bool::from(MotorDirection::Retrograde));
}
