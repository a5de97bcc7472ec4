//! The game facade: a two-state lifecycle around the world. It starts
//! loading; the embedding application fetches and decodes the assets,
//! builds the `Walk`, and completes initialization exactly once.
//! Updates are no-ops while loading.

use vstd::prelude::*;

use crate::obstacle::{obstacle_fits, Obstacle};
use crate::walk::{spec_tick, walk_wf, KeyInput, Walk, WalkModel};

verus! {

/// A programmer-usage error of the facade, reported distinctly from
/// asset failures (which stay with the embedding application).
#[derive(Clone, Copy, PartialEq, Eq, Structural, Debug)]
pub enum GameError {
    AlreadyInitialized,
}

impl GameError {
    /// A human-readable description of the error.
    pub fn message(&self) -> (r: &'static str)
        ensures
            r@ == "Error: Game is already initialized!"@,
    {
        "Error: Game is already initialized!"
    }
}

/// Mathematical model of the facade.
pub ghost enum GameModel {
    Loading,
    Loaded(WalkModel),
}

/// The top-level game: loading until initialization completes, then
/// loaded for good; it never reverts to loading.
pub enum WalkTheDog {
    Loading,
    Loaded(Walk),
}

impl View for WalkTheDog {
    type V = GameModel;

    open spec fn view(&self) -> GameModel {
        match self {
            WalkTheDog::Loading => GameModel::Loading,
            WalkTheDog::Loaded(walk) => GameModel::Loaded(walk@),
        }
    }
}

/// A loaded game carries a well-formed world.
pub open spec fn game_wf(g: GameModel) -> bool {
    g matches GameModel::Loaded(w) ==> walk_wf(w)
}

impl WalkTheDog {
    /// A new game, waiting for its assets.
    pub fn new() -> (r: WalkTheDog)
        ensures
            r@ is Loading,
    {
        WalkTheDog::Loading
    }

    /// Completes initialization with a fully assembled world. Succeeds
    /// exactly when the game is still loading; initializing twice is
    /// an error, never silently ignored.
    pub fn initialize(self, walk: Walk) -> (r: Result<WalkTheDog, GameError>)
        requires
            walk_wf(walk@),
        ensures
            self@ is Loading ==> (r matches Ok(g) && g@ == GameModel::Loaded(walk@) && game_wf(g@)),
            self@ is Loaded ==> r == Err::<WalkTheDog, GameError>(GameError::AlreadyInitialized),
    {
        match self {
            WalkTheDog::Loading => Ok(WalkTheDog::Loaded(walk)),
            WalkTheDog::Loaded(_) => Err(GameError::AlreadyInitialized),
        }
    }

    /// One tick: a no-op while loading, one world tick once loaded.
    /// `next_segment` is handed through to the world (see
    /// `Walk::update`).
    pub fn update(&mut self, keystate: &KeyInput, next_segment: Vec<Obstacle>)
        requires
            game_wf(old(self)@),
            forall|i: int| 0 <= i < next_segment@.len() ==> obstacle_fits(
                (#[trigger] next_segment@[i])@,
            ),
        ensures
            old(self)@ is Loading ==> final(self)@ == old(self)@,
            old(self)@ matches GameModel::Loaded(w) ==> final(self)@ == GameModel::Loaded(
                spec_tick(w, *keystate, next_segment@.map_values(|o: Obstacle| o@)),
            ),
            game_wf(final(self)@),
    {
        match self {
            WalkTheDog::Loaded(walk) => walk.update(keystate, next_segment),
            WalkTheDog::Loading => {},
        }
    }

    /// The world, once loaded; drawing reads it through this.
    pub fn walk(&self) -> (r: Option<&Walk>)
        ensures
            self@ is Loading ==> r is None,
            self@ matches GameModel::Loaded(w) ==> (r matches Some(x) && x@ == w),
    {
        match self {
            WalkTheDog::Loaded(walk) => Some(walk),
            WalkTheDog::Loading => None,
        }
    }
}

} // verus!
