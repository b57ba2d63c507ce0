use vstd::prelude::*;

verus! {

/// An instruction for the game, in the order in which it is to be sent.
#[derive(Debug, Clone)]
pub enum Command {
    /// A number that the next instruction reads as its argument (the game
    /// receives it as a real).
    Number(u32),
    /// Start the music track given by the preceding number.
    SetMusic,
    /// Play the sound effect given by the preceding number.
    PlaySound,
    /// Go to the given room of the game.
    GotoRoom(i32),
    /// Write a line to the game's log.
    Log(String),
    /// Load the level data of the game for a character.
    SetLevelData(Character),
}

/// The playable characters.
#[derive(Debug, Clone, Copy, PartialEq, Eq, Structural)]
pub enum Character {
    Banki,
    Cirno,
    Rumia,
    Seija,
}

} // verus!
