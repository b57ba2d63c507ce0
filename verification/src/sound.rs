use vstd::prelude::*;
use crate::command::Command;

verus! {

pub const SE_HEAD: u32 = 0;
pub const SE_HEAD2: u32 = 1;
pub const SE_HEADPLUS: u32 = 2;
pub const SE_WARP: u32 = 13;
pub const SE_NOT: u32 = 18;
pub const SE_HOLD: u32 = 19;
pub const SE_SELECT: u32 = 22;
pub const SE_DECIDE: u32 = 28;
pub const SE_CANCEL: u32 = 29;
pub const SE_STAGEDECIDE: u32 = 30;
pub const SE_MESSAGE: u32 = 49;
pub const SE_MOCHI2: u32 = 62;
pub const SE_CHANDELIER1: u32 = 63;
pub const SE_CHANDELIER2: u32 = 64;

/// The music of the editor's menus.
pub const BGM_KAISOU: u32 = 85;
pub const BGM_EDITOR_MENU: u32 = BGM_KAISOU;

/// Starts a music track: its number, then the instruction to play it.
pub fn set_bgm(out: &mut Vec<Command>, track: u32)
    ensures
        final(out)@ == old(out)@.push(Command::Number(track)).push(Command::SetMusic),
{
    out.push(Command::Number(track));
    out.push(Command::SetMusic);
}

/// Whether sound effects are played; they are, unless switched off.
pub struct SoundSwitch {
    enabled: bool,
}

impl SoundSwitch {
    pub closed spec fn is_on(&self) -> bool {
        self.enabled
    }

    /// Sound effects start switched on.
    pub fn new() -> (r: Self)
        ensures
            r.is_on(),
    {
        SoundSwitch { enabled: true }
    }

    /// Whether sound effects are played.
    pub fn enabled(&self) -> (r: bool)
        ensures
            r == self.is_on(),
    {
        self.enabled
    }

    /// Switches sound effects on.
    pub fn enable(&mut self)
        ensures
            final(self).is_on(),
    {
        self.enabled = true;
    }

    /// Switches sound effects off.
    pub fn disable(&mut self)
        ensures
            !final(self).is_on(),
    {
        self.enabled = false;
    }

    /// Plays a sound effect, if sound effects are on: its number, then the
    /// instruction to play it; nothing is sent while they are off.
    pub fn play(&self, out: &mut Vec<Command>, sound: u32)
        ensures
            self.is_on() ==> final(out)@ == old(out)@.push(Command::Number(sound)).push(Command::PlaySound),
            !self.is_on() ==> final(out)@ == old(out)@,
    {
        if self.enabled {
            out.push(Command::Number(sound));
            out.push(Command::PlaySound);
        }
    }
}

} // verus!
