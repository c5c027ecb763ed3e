use game::pausing::{pause_button, step_button, transition_commands, AppState, ClockCommand};

#[test]
fn game_starts_running() {
    assert_eq!(AppState::default(), AppState::Running);
}

#[test]
fn toggled_switches_between_the_two_states() {
    assert_eq!(AppState::Running.toggled(), AppState::Paused);
    assert_eq!(AppState::Paused.toggled(), AppState::Running);
    assert_eq!(AppState::Running.toggled().toggled(), AppState::Running);
}

#[test]
fn pause_key_requests_the_other_state() {
    assert_eq!(pause_button(AppState::Running, true), Some(AppState::Paused));
    assert_eq!(pause_button(AppState::Paused, true), Some(AppState::Running));
}

#[test]
fn no_pause_key_requests_nothing() {
    assert_eq!(pause_button(AppState::Running, false), None);
    assert_eq!(pause_button(AppState::Paused, false), None);
}

#[test]
fn step_only_while_paused_and_key_pressed() {
    assert!(step_button(AppState::Paused, true));
    assert!(!step_button(AppState::Paused, false));
    assert!(!step_button(AppState::Running, true));
    assert!(!step_button(AppState::Running, false));
}

#[test]
fn entering_pause_stops_the_clock() {
    assert_eq!(
        transition_commands(Some(AppState::Running), Some(AppState::Paused)),
        vec![ClockCommand::Pause]
    );
    assert_eq!(transition_commands(None, Some(AppState::Paused)), vec![ClockCommand::Pause]);
}

#[test]
fn leaving_pause_resumes_the_clock() {
    assert_eq!(
        transition_commands(Some(AppState::Paused), Some(AppState::Running)),
        vec![ClockCommand::Unpause]
    );
    assert_eq!(transition_commands(Some(AppState::Paused), None), vec![ClockCommand::Unpause]);
}

#[test]
fn identity_and_unrelated_transitions_do_nothing() {
    assert_eq!(transition_commands(Some(AppState::Paused), Some(AppState::Paused)), vec![]);
    assert_eq!(transition_commands(Some(AppState::Running), Some(AppState::Running)), vec![]);
    assert_eq!(transition_commands(None, Some(AppState::Running)), vec![]);
    assert_eq!(transition_commands(Some(AppState::Running), None), vec![]);
    assert_eq!(transition_commands(None, None), vec![]);
}

#[test]
fn clock_stays_in_step_over_many_pause_presses() {
    let mut state = AppState::default();
    let mut clock_paused = false;
    let presses = [true, false, true, true, false, false, true, true, true];
    for pressed in presses {
        if let Some(next) = pause_button(state, pressed) {
            for command in transition_commands(Some(state), Some(next)) {
                clock_paused = command == ClockCommand::Pause;
            }
            state = next;
        }
        assert_eq!(clock_paused, state == AppState::Paused);
    }
    // Six presses: back where the game started.
    assert_eq!(state, AppState::Running);
    assert!(!clock_paused);
}
