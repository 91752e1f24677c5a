//! The game's phases (loading, main menu, playing), the pause state, the
//! buttons that move between them, and when the virtual clock runs.
use vstd::prelude::*;

verus! {

/// The phase of the game.
#[derive(Clone, Copy, PartialEq, Eq, Structural, Debug)]
pub enum GameState {
    Loading,
    MainMenu,
    Playing,
}

/// Whether play is paused.
#[derive(Clone, Copy, PartialEq, Eq, Structural, Debug)]
pub enum PauseState {
    Running,
    Paused,
}

/// What the pointer does with a button.
#[derive(Clone, Copy, PartialEq, Eq, Structural, Debug)]
pub enum ButtonInteraction {
    Pressed,
    Hovered,
    Idle,
}

/// The look of a menu button.
#[derive(Clone, Copy, PartialEq, Eq, Structural, Debug)]
pub enum ButtonLook {
    Normal,
    Hovered,
    Pressed,
}

/// What to do with the virtual clock.
#[derive(Clone, Copy, PartialEq, Eq, Structural, Debug)]
pub enum ClockCommand {
    Pause,
    Resume,
}

impl Default for GameState {
    /// The phase the game starts in: loading.
    fn default() -> (state: GameState)
        ensures
            state == GameState::Loading,
    {
        GameState::Loading
    }
}

impl Default for PauseState {
    /// The pause state the game starts in: running.
    fn default() -> (state: PauseState)
        ensures
            state == PauseState::Running,
    {
        PauseState::Running
    }
}

/// Whether the gameplay systems run: only while playing and not paused.
pub open spec fn spec_gameplay_runs(game: GameState, pause: PauseState) -> bool {
    game == GameState::Playing && pause == PauseState::Running
}

/// Whether the gameplay systems run: only while playing and not paused.
pub fn gameplay_runs(game: GameState, pause: PauseState) -> (runs: bool)
    ensures
        runs == spec_gameplay_runs(game, pause),
        runs <==> (game == GameState::Playing && pause == PauseState::Running),
{
    game == GameState::Playing && pause == PauseState::Running
}

pub open spec fn spec_toggle_pause(current: PauseState, escape_just_pressed: bool) -> Option<
    PauseState,
> {
    if !escape_just_pressed {
        None
    } else if current == PauseState::Running {
        Some(PauseState::Paused)
    } else {
        Some(PauseState::Running)
    }
}

/// The pause state to switch to when Escape is pressed during play: Escape
/// flips between running and paused; without it nothing changes.
pub fn toggle_pause(current: PauseState, escape_just_pressed: bool) -> (next: Option<PauseState>)
    ensures
        next == spec_toggle_pause(current, escape_just_pressed),
        next matches Some(p) ==> p != current,
        !escape_just_pressed ==> next is None,
        escape_just_pressed ==> next is Some,
{
    if !escape_just_pressed {
        None
    } else {
        match current {
            PauseState::Running => Some(PauseState::Paused),
            PauseState::Paused => Some(PauseState::Running),
        }
    }
}

pub open spec fn spec_button_look(interaction: ButtonInteraction) -> ButtonLook {
    match interaction {
        ButtonInteraction::Pressed => ButtonLook::Pressed,
        ButtonInteraction::Hovered => ButtonLook::Hovered,
        ButtonInteraction::Idle => ButtonLook::Normal,
    }
}

/// The look of a button for the pointer's interaction with it.
pub fn button_look(interaction: ButtonInteraction) -> (look: ButtonLook)
    ensures
        look == spec_button_look(interaction),
        (look == ButtonLook::Pressed) <==> (interaction == ButtonInteraction::Pressed),
        (look == ButtonLook::Hovered) <==> (interaction == ButtonInteraction::Hovered),
        (look == ButtonLook::Normal) <==> (interaction == ButtonInteraction::Idle),
{
    match interaction {
        ButtonInteraction::Pressed => ButtonLook::Pressed,
        ButtonInteraction::Hovered => ButtonLook::Hovered,
        ButtonInteraction::Idle => ButtonLook::Normal,
    }
}

pub open spec fn spec_play_button(interaction: ButtonInteraction) -> Option<GameState> {
    if interaction == ButtonInteraction::Pressed {
        Some(GameState::Playing)
    } else {
        None
    }
}

/// The main menu's "Play Game" button: its look, and the phase to switch to
/// (pressing it starts play).
pub fn play_button(interaction: ButtonInteraction) -> (result: (ButtonLook, Option<GameState>))
    ensures
        result.0 == spec_button_look(interaction),
        result.1 == spec_play_button(interaction),
        (result.0 == ButtonLook::Pressed) <==> (interaction == ButtonInteraction::Pressed),
        (result.0 == ButtonLook::Hovered) <==> (interaction == ButtonInteraction::Hovered),
        (result.0 == ButtonLook::Normal) <==> (interaction == ButtonInteraction::Idle),
        result.1 is Some <==> interaction == ButtonInteraction::Pressed,
        result.1 matches Some(g) ==> g == GameState::Playing,
{
    let look = button_look(interaction);
    match interaction {
        ButtonInteraction::Pressed => (look, Some(GameState::Playing)),
        _ => (look, None),
    }
}

pub open spec fn spec_resume_button(interaction: ButtonInteraction) -> Option<PauseState> {
    if interaction == ButtonInteraction::Pressed {
        Some(PauseState::Running)
    } else {
        None
    }
}

/// The pause menu's "Resume" button: its look, and the pause state to switch
/// to (pressing it resumes play).
pub fn resume_button(interaction: ButtonInteraction) -> (result: (ButtonLook, Option<PauseState>))
    ensures
        result.0 == spec_button_look(interaction),
        result.1 == spec_resume_button(interaction),
        (result.0 == ButtonLook::Pressed) <==> (interaction == ButtonInteraction::Pressed),
        (result.0 == ButtonLook::Hovered) <==> (interaction == ButtonInteraction::Hovered),
        (result.0 == ButtonLook::Normal) <==> (interaction == ButtonInteraction::Idle),
        result.1 is Some <==> interaction == ButtonInteraction::Pressed,
        result.1 matches Some(p) ==> p == PauseState::Running,
{
    let look = button_look(interaction);
    match interaction {
        ButtonInteraction::Pressed => (look, Some(PauseState::Running)),
        _ => (look, None),
    }
}

pub open spec fn spec_loading_done(idle_loaded: bool, walk_loaded: bool) -> Option<GameState> {
    if idle_loaded && walk_loaded {
        Some(GameState::MainMenu)
    } else {
        None
    }
}

/// While loading: once both player sprite sheets are loaded, go to the main menu.
pub fn loading_done(idle_loaded: bool, walk_loaded: bool) -> (next: Option<GameState>)
    ensures
        next == spec_loading_done(idle_loaded, walk_loaded),
        next is Some <==> (idle_loaded && walk_loaded),
        next matches Some(g) ==> g == GameState::MainMenu,
{
    if idle_loaded && walk_loaded {
        Some(GameState::MainMenu)
    } else {
        None
    }
}

pub open spec fn spec_clock_on_game_change(from: GameState, to: GameState) -> Option<ClockCommand> {
    if from == to {
        None
    } else if to == GameState::Playing {
        Some(ClockCommand::Resume)
    } else if from == GameState::Playing {
        Some(ClockCommand::Pause)
    } else {
        None
    }
}

/// What the phase change from `from` to `to` does to the virtual clock:
/// entering play resumes it, leaving play pauses it; a change to the same
/// phase runs no enter or exit step.
pub fn clock_on_game_change(from: GameState, to: GameState) -> (command: Option<ClockCommand>)
    ensures
        command == spec_clock_on_game_change(from, to),
        (command == Some(ClockCommand::Resume)) <==> (from != to && to == GameState::Playing),
        (command == Some(ClockCommand::Pause)) <==> (from == GameState::Playing && to
            != GameState::Playing),
{
    if from == to {
        None
    } else if to == GameState::Playing {
        Some(ClockCommand::Resume)
    } else if from == GameState::Playing {
        Some(ClockCommand::Pause)
    } else {
        None
    }
}

pub open spec fn spec_clock_on_pause_change(from: PauseState, to: PauseState) -> Option<
    ClockCommand,
> {
    if from == to {
        None
    } else if to == PauseState::Paused {
        Some(ClockCommand::Pause)
    } else {
        Some(ClockCommand::Resume)
    }
}

/// What the pause change from `from` to `to` does to the virtual clock:
/// pausing pauses it, leaving the pause resumes it.
pub fn clock_on_pause_change(from: PauseState, to: PauseState) -> (command: Option<ClockCommand>)
    ensures
        command == spec_clock_on_pause_change(from, to),
        (command == Some(ClockCommand::Pause)) <==> (from == PauseState::Running && to
            == PauseState::Paused),
        (command == Some(ClockCommand::Resume)) <==> (from == PauseState::Paused && to
            == PauseState::Running),
{
    if from == to {
        None
    } else {
        match to {
            PauseState::Paused => Some(ClockCommand::Pause),
            PauseState::Running => Some(ClockCommand::Resume),
        }
    }
}

/// The whole state of the game's flow: the phase, the pause state, and whether
/// the virtual clock is paused.
pub struct FlowState {
    pub game: GameState,
    pub pause: PauseState,
    pub clock_paused: bool,
}

/// Something that happens during a frame and that the flow reacts to.
pub enum FlowEvent {
    /// Escape went down.
    Escape,
    /// The pointer's interaction with the main menu's button changed.
    PlayButton(ButtonInteraction),
    /// The pointer's interaction with the pause menu's button changed.
    ResumeButton(ButtonInteraction),
    /// The loading screen polled whether the two player sprite sheets are loaded.
    AssetsPolled(bool, bool),
}

/// The flow at start-up: loading, not paused, with the virtual clock paused.
pub open spec fn flow_start() -> FlowState {
    FlowState { game: GameState::Loading, pause: PauseState::Running, clock_paused: true }
}

pub open spec fn apply_clock(paused: bool, command: Option<ClockCommand>) -> bool {
    match command {
        None => paused,
        Some(ClockCommand::Pause) => true,
        Some(ClockCommand::Resume) => false,
    }
}

/// Switches the phase (if asked to), running the clock steps of the change.
pub open spec fn switch_game(s: FlowState, next: Option<GameState>) -> FlowState {
    match next {
        None => s,
        Some(g) => FlowState {
            game: g,
            pause: s.pause,
            clock_paused: apply_clock(s.clock_paused, spec_clock_on_game_change(s.game, g)),
        },
    }
}

/// Switches the pause state (if asked to), running the clock steps of the change.
pub open spec fn switch_pause(s: FlowState, next: Option<PauseState>) -> FlowState {
    match next {
        None => s,
        Some(p) => FlowState {
            game: s.game,
            pause: p,
            clock_paused: apply_clock(s.clock_paused, spec_clock_on_pause_change(s.pause, p)),
        },
    }
}

/// One step of the flow. Each reaction runs only in the phase that the game
/// gives it: Escape is read while playing, the play button in the main menu,
/// the resume button while paused, the asset poll while loading.
pub open spec fn flow_step(s: FlowState, e: FlowEvent) -> FlowState {
    match e {
        FlowEvent::Escape => if s.game == GameState::Playing {
            switch_pause(s, spec_toggle_pause(s.pause, true))
        } else {
            s
        },
        FlowEvent::PlayButton(i) => if s.game == GameState::MainMenu {
            switch_game(s, spec_play_button(i))
        } else {
            s
        },
        FlowEvent::ResumeButton(i) => if s.pause == PauseState::Paused {
            switch_pause(s, spec_resume_button(i))
        } else {
            s
        },
        FlowEvent::AssetsPolled(idle, walk) => if s.game == GameState::Loading {
            switch_game(s, spec_loading_done(idle, walk))
        } else {
            s
        },
    }
}

/// The flow after the events `events`, from start-up.
pub open spec fn flow_after(events: Seq<FlowEvent>) -> FlowState
    decreases events.len(),
{
    if events.len() == 0 {
        flow_start()
    } else {
        flow_step(flow_after(events.drop_last()), events.last())
    }
}

/// The virtual clock runs exactly when the gameplay systems run, and the game
/// is only ever paused during play.
pub open spec fn flow_consistent(s: FlowState) -> bool {
    &&& (s.pause == PauseState::Paused ==> s.game == GameState::Playing)
    &&& (s.clock_paused <==> !spec_gameplay_runs(s.game, s.pause))
}

/// Every reaction of the flow keeps the virtual clock in step with the
/// gameplay systems, and keeps the pause within play.
pub proof fn lemma_flow_step_consistent(s: FlowState, e: FlowEvent)
    requires
        flow_consistent(s),
    ensures
        flow_consistent(flow_step(s, e)),
{
}

/// Whatever happens, from start-up on, the virtual clock runs exactly when the
/// gameplay systems run (playing and not paused), and the game is paused only
/// during play.
pub proof fn lemma_clock_runs_with_gameplay(events: Seq<FlowEvent>)
    ensures
        flow_consistent(flow_after(events)),
        flow_after(events).clock_paused <==> !spec_gameplay_runs(
            flow_after(events).game,
            flow_after(events).pause,
        ),
    decreases events.len(),
{
    if events.len() > 0 {
        lemma_clock_runs_with_gameplay(events.drop_last());
        lemma_flow_step_consistent(flow_after(events.drop_last()), events.last());
    }
}

/// Escape alone moves the pause state: without a fresh press nothing changes,
/// and a press always flips between running and paused.
pub proof fn lemma_pause_follows_escape(current: PauseState, escape_just_pressed: bool)
    ensures
        !escape_just_pressed ==> spec_toggle_pause(current, escape_just_pressed) is None,
        escape_just_pressed ==> spec_toggle_pause(current, escape_just_pressed) is Some,
        spec_toggle_pause(current, escape_just_pressed) matches Some(p) ==> p != current,
{
}

/// Only a press of a menu button changes anything: pressing "Play Game" starts
/// play, pressing "Resume" resumes it, hovering and letting go do nothing; and
/// each interaction has its own look.
pub proof fn lemma_only_presses_act(i: ButtonInteraction, j: ButtonInteraction)
    ensures
        spec_play_button(i) is Some <==> i == ButtonInteraction::Pressed,
        spec_play_button(i) matches Some(g) ==> g == GameState::Playing,
        spec_resume_button(i) is Some <==> i == ButtonInteraction::Pressed,
        spec_resume_button(i) matches Some(p) ==> p == PauseState::Running,
        (spec_button_look(i) == ButtonLook::Pressed) <==> (i == ButtonInteraction::Pressed),
        (spec_button_look(i) == ButtonLook::Hovered) <==> (i == ButtonInteraction::Hovered),
        (spec_button_look(i) == spec_button_look(j)) <==> (i == j),
{
}

/// The loading screen is left, for the main menu, exactly when both player
/// sprite sheets are loaded.
pub proof fn lemma_loading_needs_both_sheets(idle_loaded: bool, walk_loaded: bool)
    ensures
        spec_loading_done(idle_loaded, walk_loaded) is Some <==> (idle_loaded && walk_loaded),
        spec_loading_done(idle_loaded, walk_loaded) matches Some(g) ==> g == GameState::MainMenu,
{
}

/// The clock resumes exactly on entering play or leaving the pause, and pauses
/// exactly on leaving play or entering the pause.
pub proof fn lemma_clock_commands(g1: GameState, g2: GameState, p1: PauseState, p2: PauseState)
    ensures
        (spec_clock_on_game_change(g1, g2) == Some(ClockCommand::Resume)) <==> (g1 != g2 && g2
            == GameState::Playing),
        (spec_clock_on_game_change(g1, g2) == Some(ClockCommand::Pause)) <==> (g1
            == GameState::Playing && g2 != GameState::Playing),
        (spec_clock_on_pause_change(p1, p2) == Some(ClockCommand::Pause)) <==> (p1
            == PauseState::Running && p2 == PauseState::Paused),
        (spec_clock_on_pause_change(p1, p2) == Some(ClockCommand::Resume)) <==> (p1
            == PauseState::Paused && p2 == PauseState::Running),
        spec_gameplay_runs(g1, p1) <==> (g1 == GameState::Playing && p1 == PauseState::Running),
{
}

} // verus!
