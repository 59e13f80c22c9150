//! The game-mode state machine: which mode the session is in, which inputs
//! move it on, and which mode runs the simulation.

use vstd::prelude::*;

verus! {

/// The mode of the session. Exactly one is active at a time.
#[derive(Debug, Clone, Copy, PartialEq, Eq, Structural, Hash)]
pub enum AppState {
    Loading,
    Tutorial,
    Start,
    InGame,
    GameOver,
    SelectUpgrade,
}

/// An input that can move the session from one mode to another.
#[derive(Debug, Clone, Copy, PartialEq, Eq, Structural, Hash)]
pub enum ModeInput {
    /// Every asset collection has finished loading.
    AssetsLoaded,
    /// The tutorial was dismissed by one of its start buttons.
    TutorialDismissed,
    /// Session initialisation has spawned the player and reset the counters.
    SessionReady,
    /// The player's experience reached the threshold of the current level.
    LevelUp,
    /// An upgrade was chosen on the upgrade screen.
    UpgradeSelected,
    /// An enemy touched the player.
    PlayerHit,
    /// The restart button of the game-over screen was pressed.
    Restart,
}

/// The mode that `input` leads to from `state`, if `input` is legal there.
pub open spec fn next_state(state: AppState, input: ModeInput) -> Option<AppState> {
    match (state, input) {
        (AppState::Loading, ModeInput::AssetsLoaded) => Some(AppState::Tutorial),
        (AppState::Tutorial, ModeInput::TutorialDismissed) => Some(AppState::Start),
        (AppState::Start, ModeInput::SessionReady) => Some(AppState::InGame),
        (AppState::InGame, ModeInput::LevelUp) => Some(AppState::SelectUpgrade),
        (AppState::InGame, ModeInput::PlayerHit) => Some(AppState::GameOver),
        (AppState::SelectUpgrade, ModeInput::UpgradeSelected) => Some(AppState::InGame),
        (AppState::GameOver, ModeInput::Restart) => Some(AppState::Start),
        _ => None,
    }
}

/// The one mode in which `input` is legal.
pub open spec fn home_state(input: ModeInput) -> AppState {
    match input {
        ModeInput::AssetsLoaded => AppState::Loading,
        ModeInput::TutorialDismissed => AppState::Tutorial,
        ModeInput::SessionReady => AppState::Start,
        ModeInput::LevelUp => AppState::InGame,
        ModeInput::PlayerHit => AppState::InGame,
        ModeInput::UpgradeSelected => AppState::SelectUpgrade,
        ModeInput::Restart => AppState::GameOver,
    }
}

/// Whether `input` is legal in `state`.
pub open spec fn is_legal(state: AppState, input: ModeInput) -> bool {
    home_state(input) == state
}

impl Default for AppState {
    fn default() -> (state: AppState)
        ensures
            state == AppState::Loading,
    {
        AppState::Loading
    }
}

impl AppState {
    /// Whether the simulation systems (movement, spawning, targeting,
    /// collision, progression) run in this mode.
    pub open spec fn spec_runs_simulation(self) -> bool {
        self == AppState::InGame
    }

    /// Whether this mode owns a screen that is built on entry and torn down
    /// on exit.
    pub open spec fn spec_owns_ui(self) -> bool {
        self == AppState::Tutorial || self == AppState::SelectUpgrade || self
            == AppState::GameOver
    }

    /// The mode gate: only `InGame` runs the simulation.
    pub fn runs_simulation(self) -> (runs: bool)
        ensures
            runs == self.spec_runs_simulation(),
    {
        match self {
            AppState::InGame => true,
            _ => false,
        }
    }

    /// Whether this mode has a screen of its own to build and tear down.
    pub fn owns_ui(self) -> (owns: bool)
        ensures
            owns == self.spec_owns_ui(),
    {
        match self {
            AppState::Tutorial | AppState::SelectUpgrade | AppState::GameOver => true,
            _ => false,
        }
    }

    /// The mode that the session is in after `input` arrives in this mode:
    /// `Some` exactly when the input is legal here, `None` otherwise, in which
    /// case the caller stays in the current mode.
    pub fn transition(self, input: ModeInput) -> (next: Option<AppState>)
        ensures
            next == next_state(self, input),
            next.is_some() <==> is_legal(self, input),
    {
        match (self, input) {
            (AppState::Loading, ModeInput::AssetsLoaded) => Some(AppState::Tutorial),
            (AppState::Tutorial, ModeInput::TutorialDismissed) => Some(AppState::Start),
            (AppState::Start, ModeInput::SessionReady) => Some(AppState::InGame),
            (AppState::InGame, ModeInput::LevelUp) => Some(AppState::SelectUpgrade),
            (AppState::InGame, ModeInput::PlayerHit) => Some(AppState::GameOver),
            (AppState::SelectUpgrade, ModeInput::UpgradeSelected) => Some(AppState::InGame),
            (AppState::GameOver, ModeInput::Restart) => Some(AppState::Start),
            _ => None,
        }
    }

    /// The mode after `input`, which stays the current one where the input is
    /// not legal.
    pub fn advance(self, input: ModeInput) -> (next: AppState)
        ensures
            next == match next_state(self, input) {
                Some(to) => to,
                None => self,
            },
    {
        match self.transition(input) {
            Some(to) => to,
            None => self,
        }
    }
}

/// Every legal input yields a defined next mode, and an input that is not
/// legal yields none.
pub proof fn lemma_transitions_total(state: AppState, input: ModeInput)
    ensures
        is_legal(state, input) <==> next_state(state, input).is_some(),
{
}

/// No mode is terminal: from every mode some input leads on.
pub proof fn lemma_no_terminal_state(state: AppState)
    ensures
        exists|input: ModeInput| is_legal(state, input),
{
    let input = match state {
        AppState::Loading => ModeInput::AssetsLoaded,
        AppState::Tutorial => ModeInput::TutorialDismissed,
        AppState::Start => ModeInput::SessionReady,
        AppState::InGame => ModeInput::LevelUp,
        AppState::SelectUpgrade => ModeInput::UpgradeSelected,
        AppState::GameOver => ModeInput::Restart,
    };
    assert(is_legal(state, input));
}

/// No input is shared between modes: an input that is legal in two modes is
/// legal in one and the same mode.
pub proof fn lemma_input_has_one_home(first: AppState, second: AppState, input: ModeInput)
    requires
        is_legal(first, input),
        is_legal(second, input),
    ensures
        first == second,
{
}

/// Only `InGame` can be left for the upgrade screen or the game-over screen,
/// and the upgrade screen always returns to `InGame`.
pub proof fn lemma_simulation_gate(state: AppState, input: ModeInput)
    ensures
        next_state(state, input) == Some(AppState::SelectUpgrade) ==> state.spec_runs_simulation(),
        next_state(state, input) == Some(AppState::GameOver) ==> state.spec_runs_simulation(),
        state == AppState::SelectUpgrade && is_legal(state, input) ==> next_state(state, input)
            == Some(AppState::InGame),
{
}

} // verus!
