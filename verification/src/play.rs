use vstd::prelude::*;
use crate::level_stats::Vote;
use crate::main_menu::MenuIntent;

verus! {

/// Where a level is played from, which decides where the player returns.
#[derive(Debug, Clone, Copy, PartialEq, Eq, Structural)]
pub enum PlayingFrom {
    Editor,
    MyLevels,
    Publish,
    BrowseLevels,
}

/// The file that the game records the run into.
#[derive(Debug, Clone, Copy, PartialEq, Eq, Structural)]
pub enum RunRecording {
    /// The run that proves a level can be cleared, before it is published.
    Verification,
    /// A run on a published level, sent with a new personal best.
    Run,
    /// No recording.
    Off,
}

/// The menu while a level is played.
pub struct Play {
    pub done: bool,
    pub from: PlayingFrom,
    pub cursor_timer: u32,
    pub reset: bool,
    /// Whether the level was cleared, and if so with its puzzle piece.
    pub pp: Option<bool>,
    pub level_id: u32,
    pub ninth_head_mode: bool,
    pub liked: bool,
}

/// Frames without mouse movement before the cursor is hidden.
pub const CURSOR_FRAMES: u32 = 30;

/// The personal best shown when a player has none yet on a level they browse.
pub const NO_PB_SHOWN: u32 = 359999;

/// Where the player goes once the level is left.
#[derive(Debug, Clone, Copy, PartialEq, Eq, Structural)]
pub enum AfterPlay {
    /// Stay: the room was reloaded (the level restarted).
    Stay,
    /// Back to the editor at the current view.
    Editor,
    /// Back to the editor, after a publish attempt that did not clear the level.
    EditorAfterAttempt,
    /// To the page that says the puzzle piece must be collected.
    PrePublish,
    /// On to the publish menu.
    Publish,
    MainMenu,
}

/// Where the player goes when the room loads after the level was left: a
/// publish attempt needs a clear, and with the puzzle piece when the level has
/// one.
pub open spec fn spec_after_play(from: PlayingFrom, pp: Option<bool>, has_puzzle_piece: bool) -> AfterPlay {
    match from {
        PlayingFrom::Editor => AfterPlay::Editor,
        PlayingFrom::Publish => if pp is None {
            AfterPlay::EditorAfterAttempt
        } else if pp == Some(false) && has_puzzle_piece {
            AfterPlay::PrePublish
        } else {
            AfterPlay::Publish
        },
        _ => AfterPlay::MainMenu,
    }
}

/// Whether a clear is sent as a new personal best: only on a browsed level,
/// not in ninth-head mode, with a time that beats the known best (or with no
/// best yet), and with a time at all.
pub open spec fn spec_submits(from: PlayingFrom, ninth_head_mode: bool, pb: Option<u32>, clear_time: u32) -> bool {
    from == PlayingFrom::BrowseLevels && !ninth_head_mode && (pb is None || pb->0 > clear_time) && clear_time != 0
}

impl Play {
    /// The menu for a level about to be played.
    pub fn new(from: PlayingFrom, ninth_head_mode: bool) -> (r: Self)
        ensures
            r == (Play {
                done: false,
                from,
                cursor_timer: 0,
                reset: false,
                pp: None,
                level_id: u32::MAX,
                ninth_head_mode,
                liked: false,
            }),
    {
        Play { done: false, from, cursor_timer: 0, reset: false, pp: None, level_id: u32::MAX, ninth_head_mode, liked: false }
    }

    /// The file the run is recorded into: the verification run of a level
    /// being published, the run on a browsed level, else none.
    pub fn recording(&self) -> (r: RunRecording)
        ensures
            r == (match self.from {
                PlayingFrom::Publish => RunRecording::Verification,
                PlayingFrom::BrowseLevels => RunRecording::Run,
                _ => RunRecording::Off,
            }),
    {
        match self.from {
            PlayingFrom::Publish => RunRecording::Verification,
            PlayingFrom::BrowseLevels => RunRecording::Run,
            _ => RunRecording::Off,
        }
    }

    /// The personal best shown while playing: the known one (or the largest
    /// time shown when there is none) on a browsed level while logged in, else 0.
    pub fn shown_pb(&self, logged_in: bool, pb: Option<u32>) -> (r: u32)
        ensures
            r == (if self.from == PlayingFrom::BrowseLevels && logged_in {
                match pb {
                    Some(t) => t,
                    None => NO_PB_SHOWN,
                }
            } else {
                0
            }),
    {
        if self.from == PlayingFrom::BrowseLevels && logged_in {
            match pb {
                Some(t) => t,
                None => NO_PB_SHOWN,
            }
        } else {
            0
        }
    }

    /// The like button: hidden (-1) in ninth-head mode, on the player's own
    /// levels and while offline, else whether the level is liked.
    pub fn like_button(&self, author_is_me: bool, logged_in: bool) -> (r: i8)
        ensures
            r == (if self.ninth_head_mode || author_is_me || !logged_in {
                -1i8
            } else if self.liked {
                1i8
            } else {
                0i8
            }),
    {
        if self.ninth_head_mode || author_is_me || !logged_in {
            -1
        } else if self.liked {
            1
        } else {
            0
        }
    }

    /// Records that the player quit the level.
    pub fn on_level_quit(&mut self)
        ensures
            *final(self) == (Play { done: true, ..*old(self) }),
    {
        self.done = true;
    }

    /// Records a clear (with or without the puzzle piece); returns the time to
    /// send as a new personal best, if any.
    pub fn on_level_complete(&mut self, with_pp: bool, pb: Option<u32>, clear_time: u32) -> (r: Option<u32>)
        ensures
            *final(self) == (Play { pp: Some(with_pp), ..*old(self) }),
            r == (if spec_submits(old(self).from, old(self).ninth_head_mode, pb, clear_time) {
                Some(clear_time)
            } else {
                None
            }),
    {
        self.pp = Some(with_pp);
        let beats = match pb {
            None => true,
            Some(t) => t > clear_time,
        };
        if self.from == PlayingFrom::BrowseLevels && !self.ninth_head_mode && beats && clear_time != 0 {
            Some(clear_time)
        } else {
            None
        }
    }

    /// Flips the like; returns the vote to send.
    pub fn on_like(&mut self) -> (r: Vote)
        ensures
            *final(self) == (Play { liked: !old(self).liked, ..*old(self) }),
            r == (if final(self).liked {
                Vote::Like
            } else {
                Vote::NoVote
            }),
    {
        self.liked = !self.liked;
        if self.liked {
            Vote::Like
        } else {
            Vote::NoVote
        }
    }

    /// Acts on the room loading: once the level was left, where to go; else
    /// the level restarted.
    pub fn on_room_load(&mut self, has_puzzle_piece: bool) -> (r: AfterPlay)
        ensures
            old(self).done ==> *final(self) == *old(self) && r == spec_after_play(
                old(self).from,
                old(self).pp,
                has_puzzle_piece,
            ),
            !old(self).done ==> *final(self) == (Play { reset: true, ..*old(self) }) && r == AfterPlay::Stay,
    {
        if self.done {
            match self.from {
                PlayingFrom::Editor => AfterPlay::Editor,
                PlayingFrom::Publish => {
                    match self.pp {
                        None => AfterPlay::EditorAfterAttempt,
                        Some(false) => if has_puzzle_piece {
                            AfterPlay::PrePublish
                        } else {
                            AfterPlay::Publish
                        },
                        Some(true) => AfterPlay::Publish,
                    }
                },
                _ => AfterPlay::MainMenu,
            }
        } else {
            self.reset = true;
            AfterPlay::Stay
        }
    }

    /// Acts on a release: while testing from the editor, the edit button or
    /// "go back" leaves the level. Returns whether it does.
    pub fn on_release(&mut self, on_edit_button: bool, intent: Option<MenuIntent>) -> (r: bool)
        ensures
            r == (!old(self).done && old(self).from == PlayingFrom::Editor && (on_edit_button || intent == Some(
                MenuIntent::GoBack,
            ))),
            *final(self) == (Play { done: old(self).done || r, ..*old(self) }),
    {
        let back = match intent {
            Some(MenuIntent::GoBack) => true,
            _ => false,
        };
        if !self.done && self.from == PlayingFrom::Editor && (on_edit_button || back) {
            self.done = true;
            true
        } else {
            false
        }
    }

    /// Acts on the mouse moving while testing from the editor: the cursor is
    /// shown again (when it was hidden, or after a restart) and stays for the
    /// next thirty frames. Returns whether to show it.
    pub fn on_mouse_move(&mut self, actually_moved: bool) -> (r: bool)
        ensures
            old(self).from == PlayingFrom::Editor && actually_moved ==> {
                &&& r == (old(self).cursor_timer == 0 || old(self).reset)
                &&& *final(self) == (Play { cursor_timer: CURSOR_FRAMES, reset: old(self).reset && !r, ..*old(self) })
            },
            !(old(self).from == PlayingFrom::Editor && actually_moved) ==> !r && *final(self) == *old(self),
    {
        if self.from == PlayingFrom::Editor && actually_moved {
            let show = self.cursor_timer == 0 || self.reset;
            if show {
                self.reset = false;
            }
            self.cursor_timer = CURSOR_FRAMES;
            show
        } else {
            false
        }
    }

    /// A frame passes; returns whether the cursor is to be hidden now.
    pub fn on_tick(&mut self) -> (r: bool)
        ensures
            *final(self) == (Play { cursor_timer: spec_tick_timer(old(self).cursor_timer), ..*old(self) }),
            r == (old(self).cursor_timer == 1),
    {
        if self.cursor_timer > 0 {
            self.cursor_timer = self.cursor_timer - 1;
            self.cursor_timer == 0
        } else {
            false
        }
    }
}

/// The cursor timer after a frame.
pub open spec fn spec_tick_timer(t: u32) -> u32 {
    if t > 0 {
        (t - 1) as u32
    } else {
        0
    }
}

/// The cursor timer after some frames.
pub open spec fn timer_after(t: u32, frames: nat) -> u32
    decreases frames,
{
    if frames == 0 {
        t
    } else {
        spec_tick_timer(timer_after(t, (frames - 1) as nat))
    }
}

/// After the mouse moves, the cursor is hidden on exactly the thirtieth frame
/// without movement: the frame on which the timer is at one.
pub proof fn law_cursor_hides_on_the_thirtieth_frame(frames: nat)
    ensures
        frames <= 30 ==> timer_after(CURSOR_FRAMES, frames) == 30 - frames,
        frames >= 30 ==> timer_after(CURSOR_FRAMES, frames) == 0,
        (timer_after(CURSOR_FRAMES, frames) == 1) <==> frames == 29,
    decreases frames,
{
    if frames > 0 {
        law_cursor_hides_on_the_thirtieth_frame((frames - 1) as nat);
    }
}

/// A publish attempt that ends without a clear never reaches the publish menu,
/// nor does a clear without the puzzle piece of a level that has one.
pub proof fn law_publishing_needs_a_clear(pp: Option<bool>, has_puzzle_piece: bool)
    requires
        pp is None || (pp == Some(false) && has_puzzle_piece),
    ensures
        spec_after_play(PlayingFrom::Publish, pp, has_puzzle_piece) != AfterPlay::Publish,
{
}

/// The parts of the message before a publish attempt.
#[derive(Debug, Clone, Copy, PartialEq, Eq, Structural)]
pub enum PrePublishPart {
    /// A level must be cleared before it is published.
    ClearRequired,
    /// The blank lines between the two parts.
    Gap,
    /// The clear must collect the puzzle piece.
    PuzzlePieceRequired,
}

/// What the page before a publish attempt does with an intent.
#[derive(Debug, Clone, Copy, PartialEq, Eq, Structural)]
pub enum PrePublishStep {
    Nothing,
    /// Back to the editor (with the cancel sound).
    Back,
    /// Play the level to clear it (with the decide sound).
    Attempt,
}

/// The page shown before a publish attempt.
pub struct PrePublish {
    pub initial_message: bool,
    pub downed: bool,
}

impl PrePublish {
    /// The page, with or without the first part of the message.
    pub fn new(initial_message: bool) -> (r: Self)
        ensures
            r.initial_message == initial_message,
            !r.downed,
    {
        PrePublish { initial_message, downed: false }
    }

    /// The message: that a clear is required (on the first visit), and that it
    /// must collect the puzzle piece (for a level that has one), with a gap
    /// between the two; and the height at which it is shown.
    pub fn message(&self, has_puzzle_piece: bool) -> (r: (Vec<PrePublishPart>, u32))
        ensures
            r.0@ == (if self.initial_message { seq![PrePublishPart::ClearRequired] } else { seq![] }) + (if has_puzzle_piece {
                (if self.initial_message { seq![PrePublishPart::Gap] } else { seq![] }) + seq![
                    PrePublishPart::PuzzlePieceRequired,
                ]
            } else {
                seq![]
            }),
            r.1 == (if self.initial_message { 50u32 } else { 100u32 }),
    {
        let mut parts: Vec<PrePublishPart> = Vec::new();
        if self.initial_message {
            parts.push(PrePublishPart::ClearRequired);
        }
        if has_puzzle_piece {
            if self.initial_message {
                parts.push(PrePublishPart::Gap);
            }
            parts.push(PrePublishPart::PuzzlePieceRequired);
        }
        let y = if self.initial_message {
            50
        } else {
            100
        };
        proof {
            let a: Seq<PrePublishPart> = if self.initial_message { seq![PrePublishPart::ClearRequired] } else { seq![] };
            let b: Seq<PrePublishPart> = if has_puzzle_piece {
                (if self.initial_message { seq![PrePublishPart::Gap] } else { seq![] }) + seq![
                    PrePublishPart::PuzzlePieceRequired,
                ]
            } else {
                seq![]
            };
            assert(parts@ =~= a + b);
        }
        (parts, y)
    }

    /// Records a press.
    pub fn on_press(&mut self)
        ensures
            final(self).downed,
            final(self).initial_message == old(self).initial_message,
    {
        self.downed = true;
    }

    /// Acts on a release after a press: going back (or the secondary button)
    /// returns to the editor, the primary button starts the attempt.
    pub fn on_release(&self, intent: Option<MenuIntent>) -> (r: PrePublishStep)
        ensures
            r == (if !self.downed {
                PrePublishStep::Nothing
            } else {
                match intent {
                    Some(MenuIntent::GoBack) | Some(MenuIntent::Secondary) => PrePublishStep::Back,
                    Some(MenuIntent::Primary) => PrePublishStep::Attempt,
                    _ => PrePublishStep::Nothing,
                }
            }),
    {
        if !self.downed {
            return PrePublishStep::Nothing;
        }
        match intent {
            Some(MenuIntent::GoBack) | Some(MenuIntent::Secondary) => PrePublishStep::Back,
            Some(MenuIntent::Primary) => PrePublishStep::Attempt,
            _ => PrePublishStep::Nothing,
        }
    }
}

} // verus!
