//! The game's three states and the rules that move between them.

use vstd::prelude::*;

verus! {

/// Where the game is: running, stopped after the player was caught, or
/// rebuilding the scene for a new round.
#[derive(Clone, Copy, Debug, PartialEq, Eq, Hash, Structural)]
pub enum GameState {
    Playing,
    GameOver,
    Restarting,
}

impl Default for GameState {
    /// A new game starts in play.
    fn default() -> (s: GameState)
        ensures
            s == GameState::Playing,
    {
        GameState::Playing
    }
}

/// The state that follows the setup of a round: a restart goes back to play,
/// and the first setup leaves the state as it is.
pub open spec fn spec_after_setup(current: GameState) -> Option<GameState> {
    if current == GameState::Restarting { Some(GameState::Playing) } else { None }
}

/// Decides the state change at the end of the round setup (the game-over
/// text is prepared, hidden, at the same time).
pub fn game_over(current: GameState) -> (next: Option<GameState>)
    ensures
        next == spec_after_setup(current),
{
    match current {
        GameState::Restarting => Some(GameState::Playing),
        _ => None,
    }
}

/// The state change asked for on the game-over screen: pressing R restarts.
pub open spec fn spec_after_play_again(restart_just_pressed: bool) -> Option<GameState> {
    if restart_just_pressed { Some(GameState::Restarting) } else { None }
}

/// Decides whether the game-over screen restarts the game; when it does,
/// every entity of the round is despawned.
pub fn play_again(restart_just_pressed: bool) -> (next: Option<GameState>)
    ensures
        next == spec_after_play_again(restart_just_pressed),
{
    if restart_just_pressed { Some(GameState::Restarting) } else { None }
}

/// The state change asked for during play: a caught player ends the game.
pub open spec fn spec_after_collisions(player_caught: bool) -> Option<GameState> {
    if player_caught { Some(GameState::GameOver) } else { None }
}

/// Applies a requested state change, if any.
pub open spec fn spec_apply(current: GameState, next: Option<GameState>) -> GameState {
    match next {
        Some(s) => s,
        None => current,
    }
}

/// One frame of the game's schedule: collisions are checked while playing,
/// the restart key is read on the game-over screen, and the round is set up
/// again while restarting.
pub open spec fn spec_next_state(current: GameState, player_caught: bool, restart_just_pressed: bool) -> GameState {
    match current {
        GameState::Playing => spec_apply(current, spec_after_collisions(player_caught)),
        GameState::GameOver => spec_apply(current, spec_after_play_again(restart_just_pressed)),
        GameState::Restarting => spec_apply(current, spec_after_setup(current)),
    }
}

/// Restarting lasts one frame: the next frame is always in play.
pub proof fn lemma_restart_returns_to_play(player_caught: bool, restart_just_pressed: bool)
    ensures
        spec_next_state(GameState::Restarting, player_caught, restart_just_pressed) == GameState::Playing,
{
}

/// The game-over screen is left only by pressing the restart key, and then
/// only for a restart.
pub proof fn lemma_game_over_waits_for_restart(player_caught: bool, restart_just_pressed: bool)
    ensures
        spec_next_state(GameState::GameOver, player_caught, restart_just_pressed) == (if restart_just_pressed {
            GameState::Restarting
        } else {
            GameState::GameOver
        }),
{
}

/// Play ends exactly when the player is caught.
pub proof fn lemma_play_ends_when_caught(player_caught: bool, restart_just_pressed: bool)
    ensures
        spec_next_state(GameState::Playing, player_caught, restart_just_pressed) == (if player_caught {
            GameState::GameOver
        } else {
            GameState::Playing
        }),
{
}

} // verus!
