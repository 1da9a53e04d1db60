//! The top-level scenes of the application. The core only names them: how a
//! scene is built and drawn belongs to the windowing collaborator.

use vstd::prelude::*;

verus! {

/// One screen of the application. The game scene owns the mode stack; the
/// menu scenes are pure shell. A character is created for the world saved
/// under the carried path.
#[derive(Clone, Debug, PartialEq, Eq)]
pub enum Scene {
    MainMenu,
    Empty,
    Settings,
    CreateWorld,
    LoadWorld,
    CreateCharacter(String),
    GameScene,
    GameMenu,
}

} // verus!
