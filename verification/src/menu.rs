use vstd::prelude::*;
use crate::command::{Character, Command};
use crate::main_menu::MenuState;
use crate::play::{Play, PrePublish};
use crate::publish_menu::Publish;
use crate::setup_menu::{EDITOR_ROOM, SetupMenu};
use crate::sound::set_bgm;
use crate::text::push_all;

verus! {

/// A screen of the editor's menus.
pub trait Menu {
    /// The name of the menu, for the log.
    fn name(&self) -> &'static str;
}

impl Menu for MenuState {
    fn name(&self) -> (r: &'static str)
        ensures
            r@ == "Main"@,
    {
        "Main"
    }
}

impl Menu for SetupMenu {
    fn name(&self) -> (r: &'static str)
        ensures
            r@ == "Setup"@,
    {
        "Setup"
    }
}

impl Menu for Play {
    fn name(&self) -> (r: &'static str)
        ensures
            r@ == "Play"@,
    {
        "Play"
    }
}

impl Menu for PrePublish {
    fn name(&self) -> (r: &'static str)
        ensures
            r@ == "PrePublish"@,
    {
        "PrePublish"
    }
}

impl Menu for Publish {
    fn name(&self) -> (r: &'static str)
        ensures
            r@ == "Publish"@,
    {
        "Publish"
    }
}

/// The menu shown after an error: it logs the message and returns to the
/// editor's room.
pub struct ErrorMenu {
    pub message: String,
}

impl Menu for ErrorMenu {
    fn name(&self) -> (r: &'static str)
        ensures
            r@ == "Error"@,
    {
        "Error"
    }
}

impl ErrorMenu {
    /// Logs `Error: ` and the message, then goes to the editor's room.
    pub fn on_enter(&self, out: &mut Vec<Command>)
        ensures
            final(out)@.len() == old(out)@.len() + 2,
            final(out)@.take(old(out)@.len() as int) == old(out)@,
            final(out)@[old(out)@.len() as int] matches Command::Log(line) && line@ == "Error: "@ + self.message@,
            final(out)@[old(out)@.len() as int + 1] == Command::GotoRoom(EDITOR_ROOM),
    {
        let mut line = String::new();
        push_all(&mut line, "Error: ");
        push_all(&mut line, self.message.as_str());
        out.push(Command::Log(line));
        out.push(Command::GotoRoom(EDITOR_ROOM));
        assert(out@.take(old(out)@.len() as int) =~= old(out)@);
    }
}

/// The room of the game's own menus.
pub const GAME_MENU_ROOM: i32 = 128;

/// The menu while the player is outside the editor: it hands the game back
/// its own music, character and room, and starts the setup when the editor's
/// room loads again.
pub struct NotInEditor {}

impl Menu for NotInEditor {
    fn name(&self) -> (r: &'static str)
        ensures
            r@ == "NotInEditor"@,
    {
        "NotInEditor"
    }
}

impl NotInEditor {
    /// Stops the music, loads Banki's level data and goes to the game's menus.
    pub fn on_enter(&self, out: &mut Vec<Command>)
        ensures
            final(out)@ == old(out)@ + seq![
                Command::Number(0),
                Command::SetMusic,
                Command::SetLevelData(Character::Banki),
                Command::GotoRoom(GAME_MENU_ROOM),
            ],
    {
        set_bgm(out, 0);
        out.push(Command::SetLevelData(Character::Banki));
        out.push(Command::GotoRoom(GAME_MENU_ROOM));
        assert(out@ =~= old(out)@ + seq![
            Command::Number(0),
            Command::SetMusic,
            Command::SetLevelData(Character::Banki),
            Command::GotoRoom(GAME_MENU_ROOM),
        ]);
    }

    /// Whether an event starts the setup menu: the loading of a room.
    pub fn starts_setup(&self, room_loaded: bool) -> (r: bool)
        ensures
            r == room_loaded,
    {
        room_loaded
    }
}

} // verus!
