use vstd::prelude::*;
use crate::command::Character;
use crate::text::{decimal, push_char, push_decimal};

verus! {

/// The last row of the level-settings menu (rows are numbered from 0).
pub const SETTINGS_MENU_MAX_ROW: i32 = 4;

/// A navigation request in a menu.
#[derive(Clone, Copy, PartialEq, Eq, Structural, Debug)]
pub enum MenuMove {
    Left,
    Right,
    Up,
    Down,
}

/// The highest column of a row of the settings menu (columns count from the
/// right edge, 0 being the rightmost button): the name row has two columns, the
/// music row four, the publish row one, the others three.
pub open spec fn spec_row_size(row: i32) -> u32 {
    if row == 0 {
        1
    } else if row == 3 {
        3
    } else if row == 4 {
        0
    } else {
        2
    }
}

/// The highest column of a row of the settings menu.
pub fn settings_menu_row_size(row: i32) -> (r: u32)
    ensures
        r == spec_row_size(row),
{
    match row {
        0 => 1,
        3 => 3,
        4 => 0,
        _ => 2,
    }
}

/// The selection of the settings menu: a row (-1 when nothing is selected) and a
/// column within it.
pub open spec fn cursor_ok(row: i32, col: u32) -> bool {
    -1 <= row <= SETTINGS_MENU_MAX_ROW && col <= spec_row_size(row)
}

/// Where a move takes the selection: left and right step through the row's
/// columns and stop at its ends; up and down step through the rows and wrap,
/// keeping the column where the new row has it, and keeping a selection on the
/// leftmost column on the leftmost column when moving down.
pub open spec fn spec_navigate(row: i32, col: u32, m: MenuMove) -> (i32, u32) {
    match m {
        MenuMove::Left => if col < spec_row_size(row) {
            (row, (col + 1) as u32)
        } else {
            (row, col)
        },
        MenuMove::Right => if col > 0 {
            (row, (col - 1) as u32)
        } else {
            (row, col)
        },
        MenuMove::Up => {
            let nr = if row > 0 {
                (row - 1) as i32
            } else {
                SETTINGS_MENU_MAX_ROW
            };
            (nr, if col < spec_row_size(nr) {
                col
            } else {
                spec_row_size(nr)
            })
        },
        MenuMove::Down => {
            let nr = ((row + 1) % (SETTINGS_MENU_MAX_ROW + 1)) as i32;
            (nr, if spec_row_size(row) == col {
                spec_row_size(nr)
            } else if col < spec_row_size(nr) {
                col
            } else {
                spec_row_size(nr)
            })
        },
    }
}

/// Moves the selection of the settings menu.
pub fn navigate(row: i32, col: u32, m: MenuMove) -> (r: (i32, u32))
    requires
        -1 <= row <= SETTINGS_MENU_MAX_ROW,
    ensures
        r == spec_navigate(row, col, m),
{
    match m {
        MenuMove::Left => if col < settings_menu_row_size(row) {
            (row, col + 1)
        } else {
            (row, col)
        },
        MenuMove::Right => if col > 0 {
            (row, col - 1)
        } else {
            (row, col)
        },
        MenuMove::Up => {
            let nr = if row > 0 {
                row - 1
            } else {
                SETTINGS_MENU_MAX_ROW
            };
            let size = settings_menu_row_size(nr);
            (nr, if col < size {
                col
            } else {
                size
            })
        },
        MenuMove::Down => {
            let old_size = settings_menu_row_size(row);
            let nr = (row + 1) % (SETTINGS_MENU_MAX_ROW + 1);
            let size = settings_menu_row_size(nr);
            (nr, if old_size == col {
                size
            } else if col < size {
                col
            } else {
                size
            })
        },
    }
}

/// Moving never takes the selection off the menu: from a valid selection every
/// move lands on a valid one, and moving up or down always selects a row.
pub proof fn law_navigation_stays_on_the_menu(row: i32, col: u32, m: MenuMove)
    requires
        cursor_ok(row, col),
    ensures
        cursor_ok(spec_navigate(row, col, m).0, spec_navigate(row, col, m).1),
        (m == MenuMove::Up || m == MenuMove::Down) ==> spec_navigate(row, col, m).0 >= 0,
{
}

/// Moving left and then right comes back to the same button when there was
/// room to move left.
pub proof fn law_left_then_right_returns(row: i32, col: u32)
    requires
        cursor_ok(row, col),
        col < spec_row_size(row),
    ensures
        ({
            let a = spec_navigate(row, col, MenuMove::Left);
            spec_navigate(a.0, a.1, MenuMove::Right) == (row, col)
        }),
{
}

/// What pressing a button of the settings menu asks for.
#[derive(Clone, Copy, PartialEq, Eq, Structural, Debug)]
pub enum SettingsAction {
    Save,
    Exit,
    Undo,
    Redo,
    Publish,
    EditName,
    FewerHeads,
    MoreHeads,
    PrevTheme,
    NextTheme,
    Music(u32),
    NoAction,
}

/// The button at a column and row of the settings menu.
pub open spec fn spec_button(col: u32, row: i32) -> SettingsAction {
    if row == 0 && col == 0 {
        SettingsAction::Save
    } else if row == 1 && col == 0 {
        SettingsAction::Exit
    } else if row == 2 && col == 0 {
        SettingsAction::Undo
    } else if row == 3 && col == 0 {
        SettingsAction::Redo
    } else if row == 4 && col == 0 {
        SettingsAction::Publish
    } else if row == 0 && col == 1 {
        SettingsAction::EditName
    } else if row == 1 && col == 2 {
        SettingsAction::FewerHeads
    } else if row == 1 && col == 1 {
        SettingsAction::MoreHeads
    } else if row == 2 && col == 2 {
        SettingsAction::PrevTheme
    } else if row == 2 && col == 1 {
        SettingsAction::NextTheme
    } else if row == 3 {
        SettingsAction::Music(col)
    } else {
        SettingsAction::NoAction
    }
}

/// The button at a column and row of the settings menu: the rightmost column
/// holds save, exit, undo, redo and publish; then the name field, the head
/// count arrows, the theme arrows and the music choices.
pub fn settings_button(col: u32, row: i32) -> (r: SettingsAction)
    ensures
        r == spec_button(col, row),
{
    match (col, row) {
        (0, 0) => SettingsAction::Save,
        (0, 1) => SettingsAction::Exit,
        (0, 2) => SettingsAction::Undo,
        (0, 3) => SettingsAction::Redo,
        (0, 4) => SettingsAction::Publish,
        (1, 0) => SettingsAction::EditName,
        (2, 1) => SettingsAction::FewerHeads,
        (1, 1) => SettingsAction::MoreHeads,
        (2, 2) => SettingsAction::PrevTheme,
        (1, 2) => SettingsAction::NextTheme,
        (x, 3) => SettingsAction::Music(x),
        _ => SettingsAction::NoAction,
    }
}

/// Which button of the menu flashes when a button is pressed (none for exit,
/// the name field and the music choices; the publish button flashes when
/// publishing is refused).
pub fn flash_button(action: SettingsAction, can_publish: bool) -> (r: Option<usize>)
    ensures
        r == match action {
            SettingsAction::Save => Some(2usize),
            SettingsAction::Undo => Some(4usize),
            SettingsAction::Redo => Some(5usize),
            SettingsAction::Publish => if can_publish {
                None
            } else {
                Some(18usize)
            },
            SettingsAction::FewerHeads => Some(6usize),
            SettingsAction::MoreHeads => Some(7usize),
            SettingsAction::PrevTheme => Some(10usize),
            SettingsAction::NextTheme => Some(11usize),
            _ => None,
        },
{
    match action {
        SettingsAction::Save => Some(2),
        SettingsAction::Undo => Some(4),
        SettingsAction::Redo => Some(5),
        SettingsAction::Publish => if can_publish {
            None
        } else {
            Some(18)
        },
        SettingsAction::FewerHeads => Some(6),
        SettingsAction::MoreHeads => Some(7),
        SettingsAction::PrevTheme => Some(10),
        SettingsAction::NextTheme => Some(11),
        _ => None,
    }
}

/// The head count after the "fewer heads" button: one less, not below zero. The
/// flag tells whether it changed (the menu plays a refusal sound otherwise).
pub fn fewer_heads(heads: u8) -> (r: (u8, bool))
    ensures
        heads != 0 ==> r == ((heads - 1) as u8, true),
        heads == 0 ==> r == (0u8, false),
{
    if heads != 0 {
        (heads - 1, true)
    } else {
        (heads, false)
    }
}

/// The head count after the "more heads" button: one more, up to nine, except
/// for Seija, whose count is a cost and has no such limit.
pub fn more_heads(heads: u8, seija: bool) -> (r: (u8, bool))
    requires
        seija ==> heads < 255,
    ensures
        (heads < 9 || seija) ==> r == ((heads + 1) as u8, true),
        !(heads < 9 || seija) ==> r == (heads, false),
{
    if heads < 9 || seija {
        (heads + 1, true)
    } else {
        (heads, false)
    }
}



/// Integer division that rounds toward zero, as on machine integers.
pub open spec fn trunc_div(a: int, b: int) -> int {
    if a >= 0 {
        a / b
    } else {
        -((-a) / b)
    }
}

/// The remainder that goes with `trunc_div`: it takes the sign of `a`.
pub open spec fn trunc_rem(a: int, b: int) -> int {
    a - b * trunc_div(a, b)
}

/// The row of the settings menu under the mouse, from `iy`, the mouse's height
/// less 8: the first four rows are 44 pixels apart and 36 high (the division
/// rounds toward zero, so heights just above the menu count as the first row),
/// the publish row lies between 196 and 234 over the middle of the menu;
/// elsewhere -1.
pub open spec fn hover_row(mx: int, iy: int) -> int {
    if iy < 168 && trunc_rem(iy, 44) < 36 {
        trunc_div(iy, 44)
    } else if iy > 196 && iy < 234 && 178 <= mx < 386 {
        4
    } else {
        -1
    }
}

/// The selection of the settings menu after the mouse moves to `(mx, my)`
/// (whole pixels): the row from the height (see `hover_row`); the rightmost
/// column over the buttons on the right or on the publish row; the next column
/// over the fields that end at 362; on the music row, the choice under the
/// mouse (83 pixels apart, 36 wide); the third column over the arrows at 160;
/// elsewhere nothing is selected and the column stays.
pub open spec fn spec_settings_hover(mx: int, my: int, col: u32) -> (int, u32) {
    let row = hover_row(mx, my - 8);
    if (436 <= mx < 472) || row == 4 {
        (row, 0)
    } else if (mx >= 344 || (row == 0 && mx >= 160)) && mx < 362 {
        (row, 1)
    } else if row == 3 && 160 <= mx < 365 && (mx - 77) % 83 < 36 {
        (row, ((446 - mx) / 83) as u32)
    } else if 160 <= mx < 178 {
        (row, 2)
    } else {
        (-1, col)
    }
}

/// The selection of the settings menu after the mouse moves (see
/// `spec_settings_hover`).
pub fn settings_hover(mx: i32, my: i32, col: u32) -> (r: (i32, u32))
    ensures
        (r.0 as int, r.1) == spec_settings_hover(mx as int, my as int, col),
{
    let iy: i64 = my as i64 - 8;
    let (q, rem): (i64, i64) = if iy >= 0 {
        (iy / 44, iy % 44)
    } else {
        let a: i64 = -iy;
        (-(a / 44), -(a % 44))
    };
    assert(q == trunc_div(iy as int, 44) && rem == trunc_rem(iy as int, 44));
    let row: i32 = if iy < 168 && rem < 36 {
        q as i32
    } else if iy > 196 && iy < 234 && mx >= 178 && mx < 386 {
        4
    } else {
        -1
    };
    if (mx >= 436 && mx < 472) || row == 4 {
        (row, 0)
    } else if (mx >= 344 || (row == 0 && mx >= 160)) && mx < 362 {
        (row, 1)
    } else if row == 3 && mx >= 160 && mx < 365 && (mx - 77) % 83 < 36 {
        (row, ((446 - mx) / 83) as u32)
    } else if mx >= 160 && mx < 178 {
        (row, 2)
    } else {
        (-1, col)
    }
}


/// The name of what the head count counts for each character: heads for
/// Banki, ice for Cirno, darkness for Rumia, and the cost for Seija.
pub open spec fn count_word(c: Character) -> Seq<char> {
    match c {
        Character::Banki => seq!['H', 'E', 'A', 'D'],
        Character::Cirno => seq!['I', 'C', 'E'],
        Character::Rumia => seq!['D', 'A', 'R', 'K'],
        Character::Seija => seq!['C', 'O', 'S', 'T'],
    }
}

/// The label of the head count in the settings menu: the word for the level's
/// character, a space and the count.
pub fn head_label(c: Character, heads: u8) -> (r: String)
    ensures
        r@ == count_word(c) + seq![' '] + decimal(heads as nat),
{
    let mut s = String::new();
    match c {
        Character::Banki => {
            push_char(&mut s, 'H');
            push_char(&mut s, 'E');
            push_char(&mut s, 'A');
            push_char(&mut s, 'D');
        },
        Character::Cirno => {
            push_char(&mut s, 'I');
            push_char(&mut s, 'C');
            push_char(&mut s, 'E');
        },
        Character::Rumia => {
            push_char(&mut s, 'D');
            push_char(&mut s, 'A');
            push_char(&mut s, 'R');
            push_char(&mut s, 'K');
        },
        Character::Seija => {
            push_char(&mut s, 'C');
            push_char(&mut s, 'O');
            push_char(&mut s, 'S');
            push_char(&mut s, 'T');
        },
    }
    assert(s@ =~= count_word(c));
    push_char(&mut s, ' ');
    push_decimal(&mut s, heads as u64);
    assert(s@ =~= count_word(c) + seq![' '] + decimal(heads as nat));
    s
}

/// The level's music after its theme changes, given the old theme's first
/// track and the new theme's two tracks: silence stays silent; otherwise the
/// level keeps the same one of the two tracks (any track but the old first
/// counts as the second).
pub fn music_after_theme_change(music: u32, old_first: u32, new_first: u32, new_second: u32) -> (r: u32)
    ensures
        r == if music == 0 {
            0
        } else if music != old_first {
            new_second
        } else {
            new_first
        },
{
    let second = music != old_first;
    if music != 0 {
        if second {
            new_second
        } else {
            new_first
        }
    } else {
        0
    }
}

/// The music chosen on the music row of the settings menu, given the theme's
/// two tracks: the first column picks the second track, the second column the
/// first track, any other column silence.
pub fn music_choice(col: u32, first: u32, second: u32) -> (r: u32)
    ensures
        r == if col == 1 {
            second
        } else if col == 2 {
            first
        } else {
            0
        },
{
    match col {
        1 => second,
        2 => first,
        _ => 0,
    }
}

/// The colour of a settings button: grey when it cannot be used, pink under the
/// selection, white otherwise.
pub open spec fn spec_button_colour(disabled: bool, selected: bool) -> u32 {
    if disabled {
        0x808080u32
    } else if selected {
        0xf2d5e3u32
    } else {
        0xffffffu32
    }
}

/// The colour of a choice of the settings menu: cyan when it is the one in
/// effect, else as a button that can be used.
pub open spec fn spec_choice_colour(chosen: bool, selected: bool) -> u32 {
    if chosen {
        0xffffu32
    } else {
        spec_button_colour(false, selected)
    }
}

fn choice_colour(chosen: bool, selected: bool) -> (r: u32)
    ensures
        r == spec_choice_colour(chosen, selected),
{
    if chosen {
        0xffff
    } else {
        button_colour(false, selected)
    }
}

/// The colours of the buttons of the settings menu.
#[derive(Clone, Copy, PartialEq, Eq, Structural, Debug)]
pub struct SettingsColours {
    pub save: u32,
    pub exit: u32,
    pub undo: u32,
    pub redo: u32,
    pub fewer_heads: u32,
    pub more_heads: u32,
    pub prev_theme: u32,
    pub next_theme: u32,
    pub name: u32,
    pub silence: u32,
    pub first_track: u32,
    pub second_track: u32,
    pub publish: u32,
}

/// What the settings menu shows of the level and the editor, for its colours.
#[derive(Clone, Copy, PartialEq, Eq, Structural, Debug)]
pub struct SettingsFacts {
    pub name_focused: bool,
    pub can_undo: bool,
    pub can_redo: bool,
    pub heads: u8,
    pub seija: bool,
    pub music: u32,
    pub first_track: u32,
    pub second_track: u32,
    pub can_publish: bool,
}

/// The colours of the settings menu with the selection at `(row, col)`: undo
/// and redo grey when there is nothing to take back or redo, the head arrows
/// grey at the ends of the count (Seija's cost has no upper end), the second
/// track grey when the theme has only one, publish grey when the level cannot
/// be published; the name field, silence and the track in effect cyan; the
/// selected button pink; the rest white.
pub open spec fn spec_settings_colours(row: i32, col: u32, f: SettingsFacts) -> SettingsColours {
    SettingsColours {
        save: spec_button_colour(false, col == 0 && row == 0),
        exit: spec_button_colour(false, col == 0 && row == 1),
        undo: spec_button_colour(!f.can_undo, col == 0 && row == 2),
        redo: spec_button_colour(!f.can_redo, col == 0 && row == 3),
        fewer_heads: spec_button_colour(f.heads == 0, col == 2 && row == 1),
        more_heads: spec_button_colour(f.heads == 9 && !f.seija, col == 1 && row == 1),
        prev_theme: spec_button_colour(false, col == 2 && row == 2),
        next_theme: spec_button_colour(false, col == 1 && row == 2),
        name: spec_choice_colour(f.name_focused, col == 1 && row == 0),
        silence: spec_choice_colour(f.music == 0, row == 3 && col == 3),
        first_track: spec_choice_colour(f.music == f.first_track, row == 3 && col == 2),
        second_track: if f.first_track == f.second_track {
            0x808080u32
        } else {
            spec_choice_colour(f.music == f.second_track, row == 3 && col == 1)
        },
        publish: spec_button_colour(!f.can_publish, col == 0 && row == 4),
    }
}

/// The colours of the settings menu (see `spec_settings_colours`).
pub fn settings_colours(row: i32, col: u32, f: SettingsFacts) -> (r: SettingsColours)
    ensures
        r == spec_settings_colours(row, col, f),
{
    SettingsColours {
        save: button_colour(false, col == 0 && row == 0),
        exit: button_colour(false, col == 0 && row == 1),
        undo: button_colour(!f.can_undo, col == 0 && row == 2),
        redo: button_colour(!f.can_redo, col == 0 && row == 3),
        fewer_heads: button_colour(f.heads == 0, col == 2 && row == 1),
        more_heads: button_colour(f.heads == 9 && !f.seija, col == 1 && row == 1),
        prev_theme: button_colour(false, col == 2 && row == 2),
        next_theme: button_colour(false, col == 1 && row == 2),
        name: choice_colour(f.name_focused, col == 1 && row == 0),
        silence: choice_colour(f.music == 0, row == 3 && col == 3),
        first_track: choice_colour(f.music == f.first_track, row == 3 && col == 2),
        second_track: if f.first_track == f.second_track {
            0x808080
        } else {
            choice_colour(f.music == f.second_track, row == 3 && col == 1)
        },
        publish: button_colour(!f.can_publish, col == 0 && row == 4),
    }
}

/// The colour of a settings button: grey when it cannot be used, pink under the
/// selection, white otherwise.
pub fn button_colour(disabled: bool, selected: bool) -> (r: u32)
    ensures
        r == spec_button_colour(disabled, selected),
{
    if disabled {
        0x808080
    } else if selected {
        0xf2d5e3
    } else {
        0xffffff
    }
}

/// The themes a level can have.
#[derive(Debug, Clone, Copy, PartialEq, Eq, Structural)]
pub enum LevelTheme {
    DreamFields,
    BambooForest,
    AzureWinter,
    ForestOfMagic,
    UltramarineRain,
    OutsideWorld,
    Koumakan,
    ShiningNeedleCastle,
    DreamScraps,
    TheDepths,
    JerryAttack,
    FarawayLabyrinth,
    DancingStars,
    ReachOutToThatMoon,
    MindBreak,
    Fireflies,
    Cirno,
    Rumia,
    Seija,
    Rasobi,
    Purple,
    Entrance,
}

/// The sprite that shows a theme's name in the settings menu.
pub open spec fn spec_theme_name_sprite(t: LevelTheme) -> i32 {
    match t {
        LevelTheme::DreamFields => 305,
        LevelTheme::BambooForest => 306,
        LevelTheme::AzureWinter => 307,
        LevelTheme::ForestOfMagic => 308,
        LevelTheme::UltramarineRain => 309,
        LevelTheme::OutsideWorld => 310,
        LevelTheme::Koumakan => 311,
        LevelTheme::ShiningNeedleCastle => 312,
        LevelTheme::DreamScraps => 313,
        LevelTheme::TheDepths => 314,
        LevelTheme::JerryAttack => 394,
        LevelTheme::FarawayLabyrinth => 388,
        LevelTheme::DancingStars => 389,
        LevelTheme::ReachOutToThatMoon => 390,
        LevelTheme::MindBreak => 392,
        LevelTheme::Fireflies => 393,
        LevelTheme::Cirno => 713,
        LevelTheme::Rumia => 714,
        LevelTheme::Seija => 658,
        LevelTheme::Rasobi | LevelTheme::Purple => 398,
        LevelTheme::Entrance => 303,
    }
}

/// The sprite and colour of a theme's name in the settings menu: the purple
/// theme's name is drawn in its own colour, the others in white.
pub fn theme_name_sprite(t: LevelTheme) -> (r: (i32, u32))
    ensures
        r.0 == spec_theme_name_sprite(t),
        r.1 == (if t == LevelTheme::Purple { 0xa53f74u32 } else { 0xffffffu32 }),
{
    let sprite = match t {
        LevelTheme::DreamFields => 305,
        LevelTheme::BambooForest => 306,
        LevelTheme::AzureWinter => 307,
        LevelTheme::ForestOfMagic => 308,
        LevelTheme::UltramarineRain => 309,
        LevelTheme::OutsideWorld => 310,
        LevelTheme::Koumakan => 311,
        LevelTheme::ShiningNeedleCastle => 312,
        LevelTheme::DreamScraps => 313,
        LevelTheme::TheDepths => 314,
        LevelTheme::JerryAttack => 394,
        LevelTheme::FarawayLabyrinth => 388,
        LevelTheme::DancingStars => 389,
        LevelTheme::ReachOutToThatMoon => 390,
        LevelTheme::MindBreak => 392,
        LevelTheme::Fireflies => 393,
        LevelTheme::Cirno => 713,
        LevelTheme::Rumia => 714,
        LevelTheme::Seija => 658,
        LevelTheme::Rasobi | LevelTheme::Purple => 398,
        LevelTheme::Entrance => 303,
    };
    let colour = if t == LevelTheme::Purple {
        0xa53f74
    } else {
        0xffffff
    };
    (sprite, colour)
}

/// What the settings key does, in order of precedence.
#[derive(Debug, Clone, Copy, PartialEq, Eq, Structural)]
pub enum SettingsKeyStep {
    /// Drop the objects waiting to be pasted.
    ClearPaste,
    /// Close the tool dropdown.
    CloseDropdown,
    /// Zoom back in.
    ZoomIn,
    /// End the tool in use and close the settings menu.
    CloseMenu,
    /// End the tool in use and open the settings menu.
    OpenMenu,
}

/// Decides what the settings key does: pending pastes are dropped first, then
/// an open tool dropdown closes, then a zoomed-out view zooms in, and only
/// then the settings menu opens or closes.
pub fn settings_key_step(pasting: bool, dropdown_open: bool, zoomed_out: bool, menu_open: bool) -> (r: SettingsKeyStep)
    ensures
        r == (if pasting {
            SettingsKeyStep::ClearPaste
        } else if dropdown_open {
            SettingsKeyStep::CloseDropdown
        } else if zoomed_out {
            SettingsKeyStep::ZoomIn
        } else if menu_open {
            SettingsKeyStep::CloseMenu
        } else {
            SettingsKeyStep::OpenMenu
        }),
{
    if pasting {
        SettingsKeyStep::ClearPaste
    } else if dropdown_open {
        SettingsKeyStep::CloseDropdown
    } else if zoomed_out {
        SettingsKeyStep::ZoomIn
    } else if menu_open {
        SettingsKeyStep::CloseMenu
    } else {
        SettingsKeyStep::OpenMenu
    }
}

/// The zoom requests of the editor.
#[derive(Debug, Clone, Copy, PartialEq, Eq, Structural)]
pub enum ZoomRequest {
    In,
    Out,
    Toggle,
}

/// Whether a zoom request changes the view, and to which: `Some(true)` zooms
/// out, `Some(false)` zooms in. Zooming is blocked while a tool is in use or
/// another zoom runs; zooming out also needs the top bar.
pub open spec fn spec_zoom_step(req: ZoomRequest, zoomed_out: bool, blocked: bool, tool_active: bool, bar_enabled: bool) -> Option<bool> {
    let want_out = match req {
        ZoomRequest::In => false,
        ZoomRequest::Out => true,
        ZoomRequest::Toggle => !zoomed_out,
    };
    if want_out {
        if !zoomed_out && bar_enabled && !blocked && !tool_active { Some(true) } else { None }
    } else {
        if zoomed_out && !blocked && !tool_active { Some(false) } else { None }
    }
}

/// Decides a zoom request.
pub fn zoom_step(req: ZoomRequest, zoomed_out: bool, blocked: bool, tool_active: bool, bar_enabled: bool) -> (r: Option<bool>)
    ensures
        r == spec_zoom_step(req, zoomed_out, blocked, tool_active, bar_enabled),
{
    let want_out = match req {
        ZoomRequest::In => false,
        ZoomRequest::Out => true,
        ZoomRequest::Toggle => !zoomed_out,
    };
    if want_out {
        if !zoomed_out && bar_enabled && !blocked && !tool_active {
            Some(true)
        } else {
            None
        }
    } else {
        if zoomed_out && !blocked && !tool_active {
            Some(false)
        } else {
            None
        }
    }
}

/// A zoom always moves the view to the other level: a zoom that happens flips
/// whether the view is zoomed out.
pub proof fn law_zoom_flips_the_view(req: ZoomRequest, zoomed_out: bool, blocked: bool, tool_active: bool, bar_enabled: bool)
    ensures
        spec_zoom_step(req, zoomed_out, blocked, tool_active, bar_enabled) matches Some(out) ==> out == !zoomed_out,
{
}

} // verus!
