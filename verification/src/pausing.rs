//! Pausing the game and single-stepping the physics simulation while paused.
//!
//! The pause key flips the game between [`AppState::Running`] and
//! [`AppState::Paused`]. Leaving the paused state resumes the physics clock,
//! entering it stops the clock; while paused, the step key advances the
//! physics simulation by one fixed step.

use vstd::prelude::*;

verus! {

/// Whether the game is running or paused.
#[derive(Debug, Clone, Copy, PartialEq, Eq, Structural, Hash)]
pub enum AppState {
    Paused,
    Running,
}

impl Default for AppState {
    /// The game starts running.
    fn default() -> (res: AppState)
        ensures
            res == AppState::Running,
    {
        AppState::Running
    }
}

impl AppState {
    /// The state that the pause key switches to.
    pub open spec fn spec_toggled(self) -> AppState {
        match self {
            AppState::Paused => AppState::Running,
            AppState::Running => AppState::Paused,
        }
    }

    /// The state that the pause key switches to.
    pub fn toggled(self) -> (res: AppState)
        ensures
            res == self.spec_toggled(),
    {
        match self {
            AppState::Paused => AppState::Running,
            AppState::Running => AppState::Paused,
        }
    }
}

/// What the pause key asks for in a frame: the state to switch to, if any.
pub open spec fn spec_pause_button(current: AppState, pause_key_just_pressed: bool) -> Option<AppState> {
    if pause_key_just_pressed {
        Some(current.spec_toggled())
    } else {
        None
    }
}

/// Decides the state change requested by the pause key in one frame.
///
/// Returns the state to switch to when the pause key was just pressed, and
/// `None` (no change requested) otherwise.
pub fn pause_button(current: AppState, pause_key_just_pressed: bool) -> (res: Option<AppState>)
    ensures
        res == spec_pause_button(current, pause_key_just_pressed),
{
    if pause_key_just_pressed {
        Some(current.toggled())
    } else {
        None
    }
}

/// Decides whether the physics simulation advances by one fixed step this
/// frame: only while paused, and only when the step key was just pressed.
pub fn step_button(current: AppState, step_key_just_pressed: bool) -> (res: bool)
    ensures
        res == (current == AppState::Paused && step_key_just_pressed),
{
    match current {
        AppState::Paused => step_key_just_pressed,
        AppState::Running => false,
    }
}

/// A command to the physics clock.
#[derive(Debug, Clone, Copy, PartialEq, Eq, Structural, Hash)]
pub enum ClockCommand {
    /// Stop the physics clock.
    Pause,
    /// Resume the physics clock.
    Unpause,
}

/// The clock commands run when the game state goes from `exited` to
/// `entered` (`None`: no state, before the first state is set or after the
/// state is removed): those of leaving `exited`, then those of entering
/// `entered`. A transition to the same state runs none.
pub open spec fn spec_transition_commands(exited: Option<AppState>, entered: Option<AppState>) -> Seq<
    ClockCommand,
> {
    if exited == entered {
        Seq::empty()
    } else {
        let on_exit = if exited == Some(AppState::Paused) {
            seq![ClockCommand::Unpause]
        } else {
            Seq::empty()
        };
        let on_enter = if entered == Some(AppState::Paused) {
            seq![ClockCommand::Pause]
        } else {
            Seq::empty()
        };
        on_exit + on_enter
    }
}

/// Whether the optional state is `Paused`.
fn is_paused(state: Option<AppState>) -> (res: bool)
    ensures
        res == (state == Some(AppState::Paused)),
{
    match state {
        Some(AppState::Paused) => true,
        _ => false,
    }
}

/// The clock commands that a state transition from `exited` to `entered`
/// runs, in order: leaving the paused state resumes the physics clock,
/// entering it stops the clock, and a transition to the same state does
/// nothing.
pub fn transition_commands(exited: Option<AppState>, entered: Option<AppState>) -> (res: Vec<
    ClockCommand,
>)
    ensures
        res@ == spec_transition_commands(exited, entered),
{
    let mut res: Vec<ClockCommand> = Vec::new();
    if exited != entered {
        if is_paused(exited) {
            res.push(ClockCommand::Unpause);
        }
        if is_paused(entered) {
            res.push(ClockCommand::Pause);
        }
    }
    proof {
        assert(res@ =~= spec_transition_commands(exited, entered));
    }
    res
}

/// Whether the physics clock is stopped after running `commands` on a clock
/// that was stopped exactly when `paused`.
pub open spec fn clock_paused_after(paused: bool, commands: Seq<ClockCommand>) -> bool {
    if commands.len() == 0 {
        paused
    } else {
        commands.last() == ClockCommand::Pause
    }
}

/// Pressing the pause key twice returns to the state one started from.
pub proof fn lemma_toggle_involution(s: AppState)
    ensures
        s.spec_toggled().spec_toggled() == s,
        s.spec_toggled() != s,
{
}

/// A pause key press always requests the other state; no press requests
/// nothing.
pub proof fn lemma_pause_key_flips(s: AppState, pressed: bool)
    ensures
        pressed ==> spec_pause_button(s, pressed) == Some(s.spec_toggled()),
        pressed ==> spec_pause_button(s, pressed).unwrap() != s,
        !pressed ==> spec_pause_button(s, pressed) is None,
{
}

/// The physics clock stays in step with the game state: if the clock is
/// stopped exactly when the exited state is `Paused`, then after the
/// transition's clock commands it is stopped exactly when the entered state
/// is `Paused`, for every transition, the identity ones included.
pub proof fn lemma_clock_follows_state(
    exited: Option<AppState>,
    entered: Option<AppState>,
    paused: bool,
)
    requires
        paused == (exited == Some(AppState::Paused)),
    ensures
        clock_paused_after(paused, spec_transition_commands(exited, entered)) == (entered == Some(
            AppState::Paused,
        )),
{
}

/// The physics clock stays in step across a frame in which the pause key was
/// pressed and the requested state was then entered.
pub proof fn lemma_pause_key_keeps_clock_in_step(current: AppState, paused: bool)
    requires
        paused == (current == AppState::Paused),
    ensures
        ({
            let next = spec_pause_button(current, true).unwrap();
            clock_paused_after(paused, spec_transition_commands(Some(current), Some(next))) == (
            next == AppState::Paused)
        }),
{
    lemma_clock_follows_state(Some(current), Some(current.spec_toggled()), paused);
}

} // verus!
