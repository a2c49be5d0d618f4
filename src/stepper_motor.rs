use vstd::prelude::*;

verus! {

/// Number of step pulses in one leg of a move.
pub const MOVE_LENGTH: usize = 100;

#[derive(Clone, Copy, Debug, PartialEq, Eq, Structural)]
pub enum MotorDirection {
    Forward,
    Retrograde,
}

impl From<MotorDirection> for bool {
    /// The level of the direction-select pin: high for `Forward`.
    fn from(dir: MotorDirection) -> (r: bool) {
        match dir {
            MotorDirection::Forward => true,
            MotorDirection::Retrograde => false,
        }
    }
}

impl vstd::std_specs::convert::FromSpecImpl<MotorDirection> for bool {
    open spec fn obeys_from_spec() -> bool {
        true
    }

    open spec fn from_spec(dir: MotorDirection) -> bool {
        dir == MotorDirection::Forward
    }
}

pub open spec fn reversed(dir: MotorDirection) -> MotorDirection {
    match dir {
        MotorDirection::Forward => MotorDirection::Retrograde,
        MotorDirection::Retrograde => MotorDirection::Forward,
    }
}

/// An in-flight move: pulses left in the current leg and the direction of travel.
#[derive(Clone, Copy, Debug, PartialEq, Eq, Structural)]
pub struct StepMove {
    pub num_steps: usize,
    pub direction: MotorDirection,
}

/// What the PWM interrupt asks of the pulse hardware, beyond clearing its pending bit.
#[derive(Clone, Copy, Debug, PartialEq, Eq, Structural)]
pub enum PwmAction {
    /// The firing was not a pulse boundary.
    Ignore,
    /// One pulse counted; keep pulsing.
    Step,
    /// The next pulse is the last of the leg: switch to one-shot mode.
    ArmOneShot,
    /// The leg is done: reset the counter, drive the direction pin to the new
    /// direction, and resume continuous pulsing.
    EndOfMove,
}

impl StepMove {
    /// The first leg of a move: a full leg forward.
    pub fn new() -> (r: StepMove)
        ensures
            r == (StepMove { num_steps: MOVE_LENGTH, direction: MotorDirection::Forward }),
    {
        StepMove { num_steps: MOVE_LENGTH, direction: MotorDirection::Forward }
    }
}

/// Whether the counter registers show the edge of the period that ends a pulse.
pub open spec fn pulse_boundary(cnt: u32, hrc: u32, lrc: u32) -> bool {
    cnt < hrc || cnt == lrc
}

pub fn is_pulse_boundary(cnt: u32, hrc: u32, lrc: u32) -> (r: bool)
    ensures
        r == pulse_boundary(cnt, hrc, lrc),
{
    cnt < hrc || cnt == lrc
}

/// One counted pulse: the next state of the move and what the hardware must do.
pub open spec fn pulse_next(m: StepMove) -> (StepMove, PwmAction) {
    if m.num_steps <= 1 {
        (StepMove { num_steps: MOVE_LENGTH, direction: reversed(m.direction) }, PwmAction::EndOfMove)
    } else if m.num_steps == 2 {
        (StepMove { num_steps: 1, ..m }, PwmAction::ArmOneShot)
    } else {
        (StepMove { num_steps: (m.num_steps - 1) as usize, ..m }, PwmAction::Step)
    }
}

/// PWM match interrupt, given the counter, high-reference and low-reference
/// registers it read.
pub fn step_pwm_interrupt_handler(cmd: &mut StepMove, cnt: u32, hrc: u32, lrc: u32) -> (r: PwmAction)
    ensures
        pulse_boundary(cnt, hrc, lrc) ==> (*final(cmd), r) == pulse_next(*old(cmd)),
        !pulse_boundary(cnt, hrc, lrc) ==> *final(cmd) == *old(cmd) && r == PwmAction::Ignore,
{
    if !is_pulse_boundary(cnt, hrc, lrc) {
        return PwmAction::Ignore;
    }
    if cmd.num_steps <= 1 {
        cmd.num_steps = MOVE_LENGTH;
        cmd.direction = match cmd.direction {
            MotorDirection::Forward => MotorDirection::Retrograde,
            MotorDirection::Retrograde => MotorDirection::Forward,
        };
        PwmAction::EndOfMove
    } else if cmd.num_steps == 2 {
        cmd.num_steps = 1;
        PwmAction::ArmOneShot
    } else {
        cmd.num_steps -= 1;
        PwmAction::Step
    }
}

/// The move after `k` counted pulses.
pub open spec fn after_pulses(m: StepMove, k: nat) -> StepMove
    decreases k,
{
    if k == 0 {
        m
    } else {
        pulse_next(after_pulses(m, (k - 1) as nat)).0
    }
}

proof fn lemma_leg_counts_down(n: usize, dir: MotorDirection, k: nat)
    requires
        2 <= n,
        k <= n - 1,
    ensures
        after_pulses(StepMove { num_steps: n, direction: dir }, k) == (StepMove {
            num_steps: (n - k) as usize,
            direction: dir,
        }),
    decreases k,
{
    if k > 0 {
        lemma_leg_counts_down(n, dir, (k - 1) as nat);
    }
}

/// A leg of `n` pulses (at least two) decrements to its end: the pulse that
/// leaves one step is answered by arming one-shot mode, so the last pulse is
/// emitted in one-shot mode, and the `n`-th pulse reloads a full leg in the
/// opposite direction.
pub proof fn lemma_leg_reverses(n: usize, dir: MotorDirection)
    requires
        2 <= n,
    ensures
        after_pulses(StepMove { num_steps: n, direction: dir }, (n - 1) as nat).num_steps == 1,
        pulse_next(after_pulses(StepMove { num_steps: n, direction: dir }, (n - 2) as nat)).1
            == PwmAction::ArmOneShot,
        pulse_next(after_pulses(StepMove { num_steps: n, direction: dir }, (n - 1) as nat)).1
            == PwmAction::EndOfMove,
        after_pulses(StepMove { num_steps: n, direction: dir }, n as nat) == (StepMove {
            num_steps: MOVE_LENGTH,
            direction: reversed(dir),
        }),
{
    lemma_leg_counts_down(n, dir, (n - 1) as nat);
    lemma_leg_counts_down(n, dir, (n - 2) as nat);
}

} // verus!
