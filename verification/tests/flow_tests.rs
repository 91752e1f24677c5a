use game_logic::flow::{
    button_look, clock_on_game_change, clock_on_pause_change, gameplay_runs, loading_done,
    play_button, resume_button, toggle_pause, ButtonInteraction, ButtonLook, ClockCommand,
    GameState, PauseState,
};

#[test]
fn starts_loading_and_running() {
    assert_eq!(GameState::default(), GameState::Loading);
    assert_eq!(PauseState::default(), PauseState::Running);
}

#[test]
fn gameplay_runs_only_while_playing_unpaused() {
    assert!(gameplay_runs(GameState::Playing, PauseState::Running));
    assert!(!gameplay_runs(GameState::Playing, PauseState::Paused));
    assert!(!gameplay_runs(GameState::MainMenu, PauseState::Running));
    assert!(!gameplay_runs(GameState::Loading, PauseState::Running));
}

#[test]
fn escape_toggles_pause() {
    assert_eq!(toggle_pause(PauseState::Running, true), Some(PauseState::Paused));
    assert_eq!(toggle_pause(PauseState::Paused, true), Some(PauseState::Running));
    assert_eq!(toggle_pause(PauseState::Paused, false), None);
}

#[test]
fn buttons() {
    assert_eq!(play_button(ButtonInteraction::Pressed), (ButtonLook::Pressed, Some(GameState::Playing)));
    assert_eq!(play_button(ButtonInteraction::Hovered), (ButtonLook::Hovered, None));
    assert_eq!(play_button(ButtonInteraction::Idle), (ButtonLook::Normal, None));
    assert_eq!(resume_button(ButtonInteraction::Pressed), (ButtonLook::Pressed, Some(PauseState::Running)));
    assert_eq!(resume_button(ButtonInteraction::Idle), (ButtonLook::Normal, None));
    assert_eq!(button_look(ButtonInteraction::Hovered), ButtonLook::Hovered);
}

#[test]
fn loading_waits_for_both_sheets() {
    assert_eq!(loading_done(true, true), Some(GameState::MainMenu));
    assert_eq!(loading_done(true, false), None);
    assert_eq!(loading_done(false, true), None);
}

#[test]
fn clock_follows_play_and_pause() {
    assert_eq!(clock_on_game_change(GameState::MainMenu, GameState::Playing), Some(ClockCommand::Resume));
    assert_eq!(clock_on_game_change(GameState::Playing, GameState::MainMenu), Some(ClockCommand::Pause));
    assert_eq!(clock_on_game_change(GameState::Loading, GameState::MainMenu), None);
    assert_eq!(clock_on_game_change(GameState::Playing, GameState::Playing), None);
    assert_eq!(clock_on_pause_change(PauseState::Running, PauseState::Paused), Some(ClockCommand::Pause));
    assert_eq!(clock_on_pause_change(PauseState::Paused, PauseState::Running), Some(ClockCommand::Resume));
    assert_eq!(clock_on_pause_change(PauseState::Paused, PauseState::Paused), None);
}

/// A session: load, start from the menu, pause with Escape, resume with the
/// button. The clock is paused exactly when gameplay does not run.
#[test]
fn clock_runs_with_gameplay_over_a_session() {
    let mut game = GameState::default();
    let mut pause = PauseState::default();
    let mut clock_paused = true;
    let expect_clock = |g: GameState, p: PauseState, c: bool| assert_eq!(c, !gameplay_runs(g, p));
    expect_clock(game, pause, clock_paused);

    let switch_game = |game: &mut GameState, clock: &mut bool, next: Option<GameState>| {
        if let Some(next) = next {
            match clock_on_game_change(*game, next) {
                Some(ClockCommand::Pause) => *clock = true,
                Some(ClockCommand::Resume) => *clock = false,
                None => {}
            }
            *game = next;
        }
    };
    switch_game(&mut game, &mut clock_paused, loading_done(true, false));
    expect_clock(game, pause, clock_paused);
    switch_game(&mut game, &mut clock_paused, loading_done(true, true));
    assert_eq!(game, GameState::MainMenu);
    expect_clock(game, pause, clock_paused);
    switch_game(&mut game, &mut clock_paused, play_button(ButtonInteraction::Pressed).1);
    assert_eq!(game, GameState::Playing);
    expect_clock(game, pause, clock_paused);

    let switch_pause = |pause: &mut PauseState, clock: &mut bool, next: Option<PauseState>| {
        if let Some(next) = next {
            match clock_on_pause_change(*pause, next) {
                Some(ClockCommand::Pause) => *clock = true,
                Some(ClockCommand::Resume) => *clock = false,
                None => {}
            }
            *pause = next;
        }
    };
    let requested = toggle_pause(pause, true);
    switch_pause(&mut pause, &mut clock_paused, requested);
    assert_eq!(pause, PauseState::Paused);
    expect_clock(game, pause, clock_paused);
    switch_pause(&mut pause, &mut clock_paused, resume_button(ButtonInteraction::Pressed).1);
    assert_eq!(pause, PauseState::Running);
    expect_clock(game, pause, clock_paused);
    assert!(!clock_paused);
}
