use vstd::prelude::*;
use crate::text::{decimal, digit_char, push_char, push_decimal, push_two_digits};
use crate::sound::{SE_CANCEL, SE_DECIDE, SE_MESSAGE, SE_NOT, SE_STAGEDECIDE};
use crate::publish_menu::{spec_tag_bit, Tag};

verus! {

/// How many tabs the browse page has.
pub const BROWSE_TABS: usize = 3;
/// How many entries of the browse page come before its tabs.
pub const BROWSE_OTHER: usize = 4;
/// No entry: the selection, a link or a level index that points nowhere.
pub const NO_ENTRY: usize = usize::MAX;

/// The hundredths of a second shown for a time in frames (sixty per second),
/// rounded to the nearest hundredth.
pub open spec fn hundredths(ticks: u32) -> nat {
    (((ticks % 60) * 100 + 30) / 60) as nat
}

/// Two digits of a number below 100.
pub open spec fn two_digits(n: nat) -> Seq<char> {
    seq![digit_char(n / 10), digit_char(n % 10)]
}

/// How a time in frames is shown: minutes, seconds and hundredths, as
/// `m:ss.hh`, or `99:59.99` from a hundred minutes on.
pub open spec fn spec_time_text(ticks: u32) -> Seq<char> {
    if ticks >= 360000 {
        seq!['9', '9', ':', '5', '9', '.', '9', '9']
    } else {
        decimal((ticks / 3600) as nat) + seq![':'] + two_digits((ticks % 3600 / 60) as nat) + seq!['.']
            + two_digits(hundredths(ticks))
    }
}

/// Shows a time in frames as minutes, seconds and hundredths.
pub fn time_text(ticks: u32) -> (r: String)
    ensures
        r@ == spec_time_text(ticks),
{
    let mut s = String::new();
    if ticks >= 360000 {
        push_char(&mut s, '9');
        push_char(&mut s, '9');
        push_char(&mut s, ':');
        push_char(&mut s, '5');
        push_char(&mut s, '9');
        push_char(&mut s, '.');
        push_char(&mut s, '9');
        push_char(&mut s, '9');
        assert(s@ =~= spec_time_text(ticks));
    } else {
        push_decimal(&mut s, (ticks / 3600) as u64);
        push_char(&mut s, ':');
        push_two_digits(&mut s, ticks % 3600 / 60);
        push_char(&mut s, '.');
        assert(((ticks % 60) * 100 + 30) / 60 < 100);
        push_two_digits(&mut s, ((ticks % 60) * 100 + 30) / 60);
        assert(s@ =~= spec_time_text(ticks));
    }
    s
}

/// The pages of the main menu.
#[derive(Debug, Clone, Copy, PartialEq, Eq, Structural)]
pub enum SubMenu {
    Main,
    NewLevel,
    Create,
    Quit,
    LevelExtra,
    Confirm,
    Browse,
}

/// The tabs of the browse page.
#[derive(Debug, Clone, Copy, PartialEq, Eq, Structural)]
pub enum BrowseTab {
    New,
    Top,
    ById,
}

/// The number of a browse tab, in the order in which the tabs are shown.
pub open spec fn tab_index(tab: BrowseTab) -> nat {
    match tab {
        BrowseTab::New => 0,
        BrowseTab::Top => 1,
        BrowseTab::ById => 2,
    }
}

/// The number of a browse tab, in the order in which the tabs are shown.
pub fn browse_tab_index(tab: BrowseTab) -> (r: usize)
    ensures
        r == tab_index(tab),
{
    match tab {
        BrowseTab::New => 0,
        BrowseTab::Top => 1,
        BrowseTab::ById => 2,
    }
}

/// The browse tab with the given number.
pub fn browse_tab_from_index(i: usize) -> (r: BrowseTab)
    requires
        i < BROWSE_TABS,
    ensures
        tab_index(r) == i,
{
    if i == 0 {
        BrowseTab::New
    } else if i == 1 {
        BrowseTab::Top
    } else {
        BrowseTab::ById
    }
}

/// Where the selection goes from an entry of a menu, in each direction
/// (`NO_ENTRY` where it goes nowhere).
#[derive(Debug, Clone, Copy, PartialEq, Eq, Structural)]
pub struct Links {
    pub left: usize,
    pub right: usize,
    pub up: usize,
    pub down: usize,
}

impl Links {
    /// An entry linked to nothing.
    pub fn new() -> (r: Self)
        ensures
            r == (Links { left: NO_ENTRY, right: NO_ENTRY, up: NO_ENTRY, down: NO_ENTRY }),
    {
        Links { left: NO_ENTRY, right: NO_ENTRY, up: NO_ENTRY, down: NO_ENTRY }
    }

    /// The same entry, going to `to` on the left.
    pub fn attach_left(self, to: usize) -> (r: Self)
        ensures
            r == (Links { left: to, ..self }),
    {
        Links { left: to, ..self }
    }

    /// The same entry, going to `to` on the right.
    pub fn attach_right(self, to: usize) -> (r: Self)
        ensures
            r == (Links { right: to, ..self }),
    {
        Links { right: to, ..self }
    }

    /// The same entry, going to `to` upwards.
    pub fn attach_up(self, to: usize) -> (r: Self)
        ensures
            r == (Links { up: to, ..self }),
    {
        Links { up: to, ..self }
    }

    /// The same entry, going to `to` downwards.
    pub fn attach_down(self, to: usize) -> (r: Self)
        ensures
            r == (Links { down: to, ..self }),
    {
        Links { down: to, ..self }
    }
}

/// The four directions in which the selection moves.
#[derive(Debug, Clone, Copy, PartialEq, Eq, Structural)]
pub enum Way {
    Up,
    Down,
    Left,
    Right,
}

/// The entry that a link points to in a direction.
pub open spec fn link_in(l: Links, w: Way) -> usize {
    match w {
        Way::Up => l.up,
        Way::Down => l.down,
        Way::Left => l.left,
        Way::Right => l.right,
    }
}

/// Where the selection goes: along the link of the selected entry where it
/// points at an entry of the menu, else it stays; with no entry selected it
/// goes to the first.
pub open spec fn spec_step_selection(links: Seq<Links>, selection: usize, w: Way) -> usize {
    if selection < links.len() {
        let to = link_in(links[selection as int], w);
        if to < links.len() {
            to
        } else {
            selection
        }
    } else {
        0
    }
}

/// Moves the selection one step in a direction.
pub fn step_selection(links: &Vec<Links>, selection: usize, w: Way) -> (r: usize)
    ensures
        r == spec_step_selection(links@, selection, w),
{
    if selection < links.len() {
        let l = links[selection];
        let to = match w {
            Way::Up => l.up,
            Way::Down => l.down,
            Way::Left => l.left,
            Way::Right => l.right,
        };
        if to < links.len() {
            to
        } else {
            selection
        }
    } else {
        0
    }
}

/// A step keeps the selection on the menu, whenever the menu has an entry.
pub proof fn law_step_stays_on_the_menu(links: Seq<Links>, selection: usize, w: Way)
    requires
        links.len() > 0,
    ensures
        spec_step_selection(links, selection, w) < links.len(),
{
}

/// The entries of each page, as `load_sub_menu` lays them out, before the
/// levels of a list are added: only how they link to one another.
pub open spec fn spec_page_links(menu: SubMenu) -> Seq<Links> {
    let n = NO_ENTRY;
    match menu {
        SubMenu::Main => seq![
            Links { left: n, right: 1, up: n, down: 2 },
            Links { left: 0, right: 4, up: n, down: 3 },
            Links { left: n, right: 3, up: 0, down: n },
            Links { left: 2, right: 5, up: 1, down: n },
            Links { left: 1, right: n, up: n, down: 5 },
            Links { left: 3, right: n, up: 4, down: 6 },
            Links { left: 3, right: n, up: 5, down: n },
        ],
        SubMenu::Create => seq![
            Links { left: 3, right: n, up: n, down: 1 },
            Links { left: 4, right: 2, up: 0, down: n },
            Links { left: 1, right: n, up: 0, down: n },
            Links { left: n, right: 0, up: n, down: 4 },
            Links { left: n, right: 1, up: 3, down: n },
        ],
        SubMenu::NewLevel => seq![
            Links { left: n, right: n, up: 1, down: 2 },
            Links { left: n, right: n, up: n, down: 0 },
            Links { left: n, right: n, up: 0, down: n },
        ],
        SubMenu::LevelExtra => seq![
            Links { left: n, right: n, up: 3, down: 1 },
            Links { left: n, right: n, up: 0, down: 2 },
            Links { left: n, right: n, up: 1, down: 3 },
            Links { left: n, right: n, up: 2, down: 0 },
            Links { left: n, right: n, up: n, down: n },
        ],
        SubMenu::Confirm => seq![
            Links { left: n, right: 1, up: n, down: n },
            Links { left: 0, right: n, up: n, down: n },
            Links { left: n, right: n, up: n, down: n },
        ],
        SubMenu::Browse => seq![
            Links { left: n, right: 4, up: n, down: 7 },
            Links { left: n, right: 2, up: n, down: n },
            Links { left: 1, right: n, up: n, down: n },
            Links { left: n, right: n, up: 0, down: n },
            Links { left: 0, right: 5, up: n, down: 7 },
            Links { left: 4, right: 6, up: n, down: 7 },
            Links { left: 5, right: n, up: n, down: 7 },
        ],
        SubMenu::Quit => seq![],
    }
}

/// The entries of a page and how they link to one another.
pub fn page_links(menu: SubMenu) -> (r: Vec<Links>)
    ensures
        r@ == spec_page_links(menu),
{
    let r = match menu {
        SubMenu::Main => vec![
            Links::new().attach_right(1).attach_down(2),
            Links::new().attach_left(0).attach_down(3).attach_right(4),
            Links::new().attach_right(3).attach_up(0),
            Links::new().attach_left(2).attach_up(1).attach_right(5),
            Links::new().attach_left(1).attach_down(5),
            Links::new().attach_left(3).attach_up(4).attach_down(6),
            Links::new().attach_left(3).attach_up(5),
        ],
        SubMenu::Create => vec![
            Links::new().attach_down(1).attach_left(3),
            Links::new().attach_up(0).attach_right(2).attach_left(4),
            Links::new().attach_up(0).attach_left(1),
            Links::new().attach_right(0).attach_down(4),
            Links::new().attach_right(1).attach_up(3),
        ],
        SubMenu::NewLevel => vec![
            Links::new().attach_up(1).attach_down(2),
            Links::new().attach_down(0),
            Links::new().attach_up(0),
        ],
        SubMenu::LevelExtra => vec![
            Links::new().attach_up(3).attach_down(1),
            Links::new().attach_up(0).attach_down(2),
            Links::new().attach_up(1).attach_down(3),
            Links::new().attach_up(2).attach_down(0),
            Links::new(),
        ],
        SubMenu::Confirm => vec![
            Links::new().attach_right(1),
            Links::new().attach_left(0),
            Links::new(),
        ],
        SubMenu::Browse => vec![
            Links::new().attach_right(BROWSE_OTHER).attach_down(BROWSE_TABS + BROWSE_OTHER),
            Links::new().attach_right(2),
            Links::new().attach_left(1),
            Links::new().attach_up(0),
            Links::new().attach_down(BROWSE_TABS + BROWSE_OTHER).attach_left(0).attach_right(BROWSE_OTHER + 1),
            Links::new().attach_down(BROWSE_TABS + BROWSE_OTHER).attach_left(BROWSE_OTHER).attach_right(
                BROWSE_OTHER + 2,
            ),
            Links::new().attach_down(BROWSE_TABS + BROWSE_OTHER).attach_left(BROWSE_OTHER + 1),
        ],
        SubMenu::Quit => Vec::new(),
    };
    assert(r@ =~= spec_page_links(menu));
    r
}

/// Every link of a page leads to one of its entries or nowhere, but for the
/// links of the browse page down to its first result (which the results, once
/// loaded, provide).
pub proof fn law_page_links_stay_on_the_page(menu: SubMenu, i: int, w: Way)
    requires
        0 <= i < spec_page_links(menu).len(),
    ensures
        ({
            let to = link_in(spec_page_links(menu)[i], w);
            to < spec_page_links(menu).len() || to == NO_ENTRY || (menu == SubMenu::Browse && to
                == BROWSE_TABS + BROWSE_OTHER)
        }),
{
}

/// The entry that "go back" selects on a page, before acting on it: the quit
/// button of the main page, the back buttons of the others.
pub open spec fn spec_back_entry(menu: SubMenu) -> usize {
    match menu {
        SubMenu::Main => 2,
        SubMenu::Create => 3,
        SubMenu::NewLevel => 1,
        SubMenu::Browse => 0,
        _ => NO_ENTRY,
    }
}

/// The entry that "go back" selects on a page.
pub fn back_entry(menu: SubMenu) -> (r: usize)
    ensures
        r == spec_back_entry(menu),
{
    match menu {
        SubMenu::Main => 2,
        SubMenu::Create => 3,
        SubMenu::NewLevel => 1,
        SubMenu::Browse => 0,
        _ => NO_ENTRY,
    }
}

/// What the main menu will do once the player confirms.
#[derive(Debug, Clone, Copy, PartialEq, Eq, Structural)]
pub enum Confirmable {
    Nothing,
    /// Delete the file of the own level with this index.
    DeleteLevel(usize),
    UnpublishLevel,
}

/// The state of the main menu that its decisions read and change.
#[derive(Debug, Clone, Copy, PartialEq, Eq, Structural)]
pub struct MenuState {
    pub sub_menu: SubMenu,
    pub selection: usize,
    /// The index of the selected level of the list shown (`NO_ENTRY` for none).
    pub selected_level: usize,
    /// Frames until the running animation ends (then the page is laid out).
    pub camera_anim_ticks: u32,
    pub current_browse_tab: BrowseTab,
    pub confirm_action: Confirmable,
    /// Whether a search is set for the browse page.
    pub searching: bool,
    /// Whether the selected level is to be scrolled into view.
    pub move_selected_level_into_view: bool,
    /// Whether the menu is leaving for the game's own menus.
    pub quitting: bool,
}

/// What the main menu reads from elsewhere when an entry is clicked.
pub struct ClickFacts {
    pub logged_in: bool,
    /// The online ids of the own levels, once they are loaded.
    pub own_levels: Option<Vec<u32>>,
    /// For each search result shown, whether the player may vote on it.
    pub results_can_vote: Vec<bool>,
    /// Whether a vote is on its way to the server.
    pub vote_pending: bool,
    /// Whether the mouse cursor is shown.
    pub cursor_shown: bool,
}

/// What a click makes the game do, in order.
#[derive(Debug, Clone, Copy, PartialEq, Eq, Structural)]
pub enum MenuAction {
    /// Play this sound effect.
    Sound(u32),
    /// Move the camera from one page to another.
    Transition(SubMenu, SubMenu),
    /// Fade to black.
    BlackTransition,
    /// Let the game run this many frames.
    Wait(u32),
    /// Send the search of the browse page and show a throbber until it answers.
    LoadBrowseResults,
    /// Open the project's website.
    OpenWebsite,
    /// Open the project's chat server.
    OpenChat,
    /// Open an own level: to play it, or to edit it; or to play it with nine heads.
    LoadLevel { level: usize, play: bool, nine_heads: bool },
    /// Lay out the list of own levels again.
    ShowOwnLevels,
    /// Give the level-name entry the focus (and highlight it for the mouse).
    FocusNameEntry { highlight: bool },
    UnfocusNameEntry,
    /// Ask the game for the text of the name entry.
    QueryName,
    /// Offer to save a copy of an own level.
    ExportLevel(usize),
    DeleteLevel(usize),
    UnpublishLevel(usize),
    /// Toggle the player's vote on a search result.
    Vote(usize),
    /// Download a search result, to play it or to edit it.
    Download { result: usize, play: bool },
    /// Change the highlighted browse tab.
    SwitchBrowseTab(BrowseTab, BrowseTab),
    /// Show the selected search result and its details.
    ShowResult(usize),
    FocusIdEntry,
    QueryId,
    /// Move the selection marker to the selected entry.
    ShowSelection,
}

/// The search that a browse tab sends: none for the page that searches by id.
pub open spec fn tab_searches(tab: BrowseTab) -> bool {
    tab != BrowseTab::ById
}

/// The state after moving to another page with the camera.
pub open spec fn transition_state(st: MenuState, to: SubMenu) -> MenuState {
    MenuState { sub_menu: to, camera_anim_ticks: 60, ..st }
}

/// The state after jumping to another page at the next frame.
pub open spec fn jump_state(st: MenuState, to: SubMenu) -> MenuState {
    MenuState { sub_menu: to, camera_anim_ticks: 1, ..st }
}

/// The state while a level is being opened.
pub open spec fn opening_state(st: MenuState) -> MenuState {
    MenuState { camera_anim_ticks: u32::MAX, ..st }
}

/// The actions of opening a level.
pub open spec fn opening_actions(level: usize, play: bool, nine_heads: bool) -> Seq<MenuAction> {
    seq![
        MenuAction::Sound(SE_STAGEDECIDE),
        MenuAction::BlackTransition,
        MenuAction::LoadLevel { level, play, nine_heads },
        MenuAction::Wait(120),
    ]
}

/// Whether the selected own level exists.
pub open spec fn own_level_exists(st: MenuState, facts: ClickFacts) -> bool {
    facts.own_levels is Some && st.selected_level < facts.own_levels->0@.len()
}

/// The state and actions after switching the browse tab.
pub open spec fn spec_set_browse_tab(st: MenuState, tab: BrowseTab) -> (MenuState, Seq<MenuAction>) {
    if tab != st.current_browse_tab || (st.searching && tab == BrowseTab::ById) {
        (
            MenuState {
                current_browse_tab: tab,
                searching: tab_searches(tab),
                selected_level: NO_ENTRY,
                ..st
            },
            seq![
                MenuAction::Sound(SE_DECIDE),
                MenuAction::SwitchBrowseTab(st.current_browse_tab, tab),
                MenuAction::LoadBrowseResults,
            ],
        )
    } else {
        (st, seq![])
    }
}

/// What clicking the selected entry does, page by page.
pub open spec fn spec_clicked(st: MenuState, facts: ClickFacts) -> (MenuState, Seq<MenuAction>) {
    let sel = st.selection;
    let not = (st, seq![MenuAction::Sound(SE_NOT)]);
    match st.sub_menu {
        SubMenu::Main => if sel == 0 {
            (
                transition_state(st, SubMenu::Create),
                seq![MenuAction::Sound(SE_DECIDE), MenuAction::Transition(SubMenu::Main, SubMenu::Create)],
            )
        } else if sel == 1 {
            if facts.logged_in {
                (
                    transition_state(
                        MenuState {
                            searching: tab_searches(st.current_browse_tab),
                            selected_level: NO_ENTRY,
                            ..st
                        },
                        SubMenu::Browse,
                    ),
                    seq![
                        MenuAction::Sound(SE_DECIDE),
                        MenuAction::LoadBrowseResults,
                        MenuAction::Transition(SubMenu::Main, SubMenu::Browse),
                    ],
                )
            } else {
                not
            }
        } else if sel == 2 {
            (
                MenuState { camera_anim_ticks: 120, sub_menu: SubMenu::Quit, quitting: true, ..st },
                seq![MenuAction::Sound(SE_CANCEL), MenuAction::BlackTransition],
            )
        } else if sel == 3 || sel == 4 {
            not
        } else if sel == 5 {
            (st, seq![MenuAction::Sound(SE_DECIDE), MenuAction::OpenWebsite])
        } else if sel == 6 {
            (st, seq![MenuAction::Sound(SE_DECIDE), MenuAction::OpenChat])
        } else {
            (st, seq![])
        },
        SubMenu::Create => if sel == 0 {
            (
                transition_state(st, SubMenu::NewLevel),
                seq![MenuAction::Sound(SE_DECIDE), MenuAction::Transition(SubMenu::Create, SubMenu::NewLevel)],
            )
        } else if sel == 1 || sel == 2 {
            if own_level_exists(st, facts) {
                (opening_state(st), opening_actions(st.selected_level, sel == 1, false))
            } else {
                not
            }
        } else if sel == 3 {
            (
                transition_state(st, SubMenu::Main),
                seq![MenuAction::Sound(SE_CANCEL), MenuAction::Transition(SubMenu::Create, SubMenu::Main)],
            )
        } else if sel == 4 {
            if own_level_exists(st, facts) {
                (jump_state(st, SubMenu::LevelExtra), seq![MenuAction::Sound(SE_DECIDE)])
            } else {
                not
            }
        } else {
            (
                MenuState { selected_level: (sel - 5) as usize, move_selected_level_into_view: true, ..st },
                if sel != NO_ENTRY {
                    seq![MenuAction::Sound(SE_MESSAGE), MenuAction::ShowOwnLevels]
                } else {
                    seq![MenuAction::ShowOwnLevels]
                },
            )
        },
        SubMenu::NewLevel => if sel == 0 {
            (st, seq![MenuAction::Sound(SE_MESSAGE), MenuAction::FocusNameEntry { highlight: facts.cursor_shown }])
        } else if sel == 1 {
            (
                transition_state(st, SubMenu::Create),
                seq![
                    MenuAction::UnfocusNameEntry,
                    MenuAction::Sound(SE_CANCEL),
                    MenuAction::Transition(SubMenu::NewLevel, SubMenu::Create),
                ],
            )
        } else if sel == 2 {
            (st, seq![MenuAction::UnfocusNameEntry, MenuAction::QueryName])
        } else {
            (st, seq![MenuAction::UnfocusNameEntry])
        },
        SubMenu::LevelExtra => if sel == 0 {
            if own_level_exists(st, facts) {
                (opening_state(st), opening_actions(st.selected_level, false, true))
            } else {
                not
            }
        } else if sel == 1 {
            (
                jump_state(st, SubMenu::Create),
                if own_level_exists(st, facts) {
                    seq![MenuAction::Sound(SE_DECIDE), MenuAction::ExportLevel(st.selected_level)]
                } else {
                    seq![MenuAction::Sound(SE_DECIDE)]
                },
            )
        } else if sel == 2 {
            if !facts.logged_in || !own_level_exists(st, facts) || facts.own_levels->0@[st.selected_level as int]
                == u32::MAX {
                not
            } else {
                (
                    jump_state(MenuState { confirm_action: Confirmable::UnpublishLevel, ..st }, SubMenu::Confirm),
                    seq![MenuAction::Sound(SE_DECIDE)],
                )
            }
        } else if sel == 3 {
            if own_level_exists(st, facts) {
                (
                    jump_state(
                        MenuState { confirm_action: Confirmable::DeleteLevel(st.selected_level), ..st },
                        SubMenu::Confirm,
                    ),
                    seq![MenuAction::Sound(SE_DECIDE)],
                )
            } else {
                not
            }
        } else if sel == NO_ENTRY {
            (jump_state(st, SubMenu::Create), seq![MenuAction::Sound(SE_CANCEL)])
        } else {
            (st, seq![])
        },
        SubMenu::Confirm => if sel == 1 {
            (
                jump_state(MenuState { confirm_action: Confirmable::Nothing, ..st }, SubMenu::Create),
                match st.confirm_action {
                    Confirmable::DeleteLevel(l) => seq![MenuAction::Sound(SE_DECIDE), MenuAction::DeleteLevel(l)],
                    Confirmable::UnpublishLevel => seq![
                        MenuAction::Sound(SE_DECIDE),
                        MenuAction::UnpublishLevel(st.selected_level),
                    ],
                    Confirmable::Nothing => seq![MenuAction::Sound(SE_DECIDE)],
                },
            )
        } else if sel == 2 {
            (st, seq![])
        } else {
            (
                jump_state(st, SubMenu::Create),
                seq![MenuAction::Sound(if sel == NO_ENTRY { SE_CANCEL } else { SE_DECIDE })],
            )
        },
        SubMenu::Browse => if sel == 0 {
            (
                transition_state(st, SubMenu::Main),
                seq![MenuAction::Sound(SE_CANCEL), MenuAction::Transition(SubMenu::Browse, SubMenu::Main)],
            )
        } else if sel == 3 {
            if !facts.vote_pending && st.selected_level < facts.results_can_vote@.len()
                && facts.results_can_vote@[st.selected_level as int] {
                (st, seq![MenuAction::Sound(SE_DECIDE), MenuAction::Vote(st.selected_level)])
            } else {
                not
            }
        } else if sel < 3 {
            if st.selected_level < facts.results_can_vote@.len() {
                (
                    opening_state(st),
                    seq![
                        MenuAction::Sound(SE_STAGEDECIDE),
                        MenuAction::BlackTransition,
                        MenuAction::Download { result: st.selected_level, play: sel == 2 },
                        MenuAction::Wait(120),
                    ],
                )
            } else {
                not
            }
        } else if sel < BROWSE_TABS + BROWSE_OTHER {
            spec_set_browse_tab(
                st,
                if sel == 4 {
                    BrowseTab::New
                } else if sel == 5 {
                    BrowseTab::Top
                } else {
                    BrowseTab::ById
                },
            )
        } else if sel - 7 < facts.results_can_vote@.len() {
            (
                MenuState { selected_level: (sel - 7) as usize, move_selected_level_into_view: true, ..st },
                if sel != NO_ENTRY {
                    seq![MenuAction::Sound(SE_MESSAGE), MenuAction::ShowResult((sel - 7) as usize)]
                } else {
                    seq![MenuAction::ShowResult((sel - 7) as usize)]
                },
            )
        } else if st.current_browse_tab == BrowseTab::ById && sel == 7 {
            (st, seq![MenuAction::Sound(SE_MESSAGE), MenuAction::FocusIdEntry])
        } else if st.current_browse_tab == BrowseTab::ById && sel == 8 {
            (st, seq![MenuAction::QueryId])
        } else {
            (st, seq![])
        },
        SubMenu::Quit => (st, seq![]),
    }
}

fn opening(st: &mut MenuState, level: usize, play: bool, nine_heads: bool) -> (r: Vec<MenuAction>)
    ensures
        *final(st) == opening_state(*old(st)),
        r@ == opening_actions(level, play, nine_heads),
{
    st.camera_anim_ticks = u32::MAX;
    let r = vec![
        MenuAction::Sound(SE_STAGEDECIDE),
        MenuAction::BlackTransition,
        MenuAction::LoadLevel { level, play, nine_heads },
        MenuAction::Wait(120),
    ];
    assert(r@ =~= opening_actions(level, play, nine_heads));
    r
}

fn own_level(st: &MenuState, facts: &ClickFacts) -> (r: bool)
    ensures
        r == own_level_exists(*st, *facts),
{
    match &facts.own_levels {
        Some(v) => st.selected_level < v.len(),
        None => false,
    }
}

/// Switches the browse tab: when it is another tab, or the search-by-id tab
/// while a search is set, the tab's search is set and sent.
pub fn set_browse_tab(st: &mut MenuState, tab: BrowseTab) -> (r: Vec<MenuAction>)
    ensures
        (*final(st), r@) == spec_set_browse_tab(*old(st), tab),
{
    if tab != st.current_browse_tab || (st.searching && tab == BrowseTab::ById) {
        let from = st.current_browse_tab;
        st.current_browse_tab = tab;
        st.searching = tab != BrowseTab::ById;
        st.selected_level = NO_ENTRY;
        let r = vec![MenuAction::Sound(SE_DECIDE), MenuAction::SwitchBrowseTab(from, tab), MenuAction::LoadBrowseResults];
        assert(r@ =~= spec_set_browse_tab(*old(st), tab).1);
        r
    } else {
        let r: Vec<MenuAction> = Vec::new();
        assert(r@ =~= seq![]);
        r
    }
}

/// Acts on a click of the selected entry: plays its sound, changes the page
/// or the selection, and lists what the game is to do.
#[verifier::spinoff_prover]
#[verifier::rlimit(50)]
pub fn clicked(st: &mut MenuState, facts: &ClickFacts) -> (r: Vec<MenuAction>)
    ensures
        (*final(st), r@) == spec_clicked(*old(st), *facts),
{
    let sel = st.selection;
    let mut r: Vec<MenuAction> = Vec::new();
    match st.sub_menu {
        SubMenu::Main => {
            if sel == 0 {
                r.push(MenuAction::Sound(SE_DECIDE));
                r.push(MenuAction::Transition(SubMenu::Main, SubMenu::Create));
                st.sub_menu = SubMenu::Create;
                st.camera_anim_ticks = 60;
            } else if sel == 1 {
                if facts.logged_in {
                    st.searching = st.current_browse_tab != BrowseTab::ById;
                    st.selected_level = NO_ENTRY;
                    r.push(MenuAction::Sound(SE_DECIDE));
                    r.push(MenuAction::LoadBrowseResults);
                    r.push(MenuAction::Transition(SubMenu::Main, SubMenu::Browse));
                    st.sub_menu = SubMenu::Browse;
                    st.camera_anim_ticks = 60;
                } else {
                    r.push(MenuAction::Sound(SE_NOT));
                }
            } else if sel == 2 {
                r.push(MenuAction::Sound(SE_CANCEL));
                r.push(MenuAction::BlackTransition);
                st.camera_anim_ticks = 120;
                st.sub_menu = SubMenu::Quit;
                st.quitting = true;
            } else if sel == 3 || sel == 4 {
                r.push(MenuAction::Sound(SE_NOT));
            } else if sel == 5 {
                r.push(MenuAction::Sound(SE_DECIDE));
                r.push(MenuAction::OpenWebsite);
            } else if sel == 6 {
                r.push(MenuAction::Sound(SE_DECIDE));
                r.push(MenuAction::OpenChat);
            }
        },
        SubMenu::Create => {
            if sel == 0 {
                r.push(MenuAction::Sound(SE_DECIDE));
                r.push(MenuAction::Transition(SubMenu::Create, SubMenu::NewLevel));
                st.sub_menu = SubMenu::NewLevel;
                st.camera_anim_ticks = 60;
            } else if sel == 1 || sel == 2 {
                if own_level(st, facts) {
                    let level = st.selected_level;
                    r = opening(st, level, sel == 1, false);
                } else {
                    r.push(MenuAction::Sound(SE_NOT));
                }
            } else if sel == 3 {
                r.push(MenuAction::Sound(SE_CANCEL));
                r.push(MenuAction::Transition(SubMenu::Create, SubMenu::Main));
                st.sub_menu = SubMenu::Main;
                st.camera_anim_ticks = 60;
            } else if sel == 4 {
                if own_level(st, facts) {
                    r.push(MenuAction::Sound(SE_DECIDE));
                    st.sub_menu = SubMenu::LevelExtra;
                    st.camera_anim_ticks = 1;
                } else {
                    r.push(MenuAction::Sound(SE_NOT));
                }
            } else {
                if sel != NO_ENTRY {
                    r.push(MenuAction::Sound(SE_MESSAGE));
                }
                st.selected_level = sel - 5;
                r.push(MenuAction::ShowOwnLevels);
                st.move_selected_level_into_view = true;
            }
        },
        SubMenu::NewLevel => {
            if sel == 0 {
                r.push(MenuAction::Sound(SE_MESSAGE));
                r.push(MenuAction::FocusNameEntry { highlight: facts.cursor_shown });
            } else {
                r.push(MenuAction::UnfocusNameEntry);
                if sel == 1 {
                    r.push(MenuAction::Sound(SE_CANCEL));
                    r.push(MenuAction::Transition(SubMenu::NewLevel, SubMenu::Create));
                    st.sub_menu = SubMenu::Create;
                    st.camera_anim_ticks = 60;
                } else if sel == 2 {
                    r.push(MenuAction::QueryName);
                }
            }
        },
        SubMenu::LevelExtra => {
            if sel == 0 {
                if own_level(st, facts) {
                    let level = st.selected_level;
                    r = opening(st, level, false, true);
                } else {
                    r.push(MenuAction::Sound(SE_NOT));
                }
            } else if sel == 1 {
                r.push(MenuAction::Sound(SE_DECIDE));
                st.sub_menu = SubMenu::Create;
                st.camera_anim_ticks = 1;
                if own_level(st, facts) {
                    r.push(MenuAction::ExportLevel(st.selected_level));
                }
            } else if sel == 2 {
                let online_id = match &facts.own_levels {
                    Some(v) => if st.selected_level < v.len() {
                        v[st.selected_level]
                    } else {
                        u32::MAX
                    },
                    None => u32::MAX,
                };
                if !facts.logged_in || online_id == u32::MAX {
                    r.push(MenuAction::Sound(SE_NOT));
                } else {
                    r.push(MenuAction::Sound(SE_DECIDE));
                    st.confirm_action = Confirmable::UnpublishLevel;
                    st.sub_menu = SubMenu::Confirm;
                    st.camera_anim_ticks = 1;
                }
            } else if sel == 3 {
                if own_level(st, facts) {
                    r.push(MenuAction::Sound(SE_DECIDE));
                    st.confirm_action = Confirmable::DeleteLevel(st.selected_level);
                    st.sub_menu = SubMenu::Confirm;
                    st.camera_anim_ticks = 1;
                } else {
                    r.push(MenuAction::Sound(SE_NOT));
                }
            } else if sel == NO_ENTRY {
                st.sub_menu = SubMenu::Create;
                st.camera_anim_ticks = 1;
                r.push(MenuAction::Sound(SE_CANCEL));
            }
        },
        SubMenu::Confirm => {
            if sel == 1 {
                st.sub_menu = SubMenu::Create;
                st.camera_anim_ticks = 1;
                r.push(MenuAction::Sound(SE_DECIDE));
                let action = st.confirm_action;
                st.confirm_action = Confirmable::Nothing;
                match action {
                    Confirmable::DeleteLevel(l) => r.push(MenuAction::DeleteLevel(l)),
                    Confirmable::UnpublishLevel => r.push(MenuAction::UnpublishLevel(st.selected_level)),
                    Confirmable::Nothing => {},
                }
            } else if sel != 2 {
                st.sub_menu = SubMenu::Create;
                st.camera_anim_ticks = 1;
                r.push(MenuAction::Sound(if sel == NO_ENTRY { SE_CANCEL } else { SE_DECIDE }));
            }
        },
        SubMenu::Browse => {
            let results = facts.results_can_vote.len();
            if sel == 0 {
                r.push(MenuAction::Sound(SE_CANCEL));
                r.push(MenuAction::Transition(SubMenu::Browse, SubMenu::Main));
                st.sub_menu = SubMenu::Main;
                st.camera_anim_ticks = 60;
            } else if sel == 3 {
                if !facts.vote_pending && st.selected_level < results && facts.results_can_vote[st.selected_level] {
                    r.push(MenuAction::Sound(SE_DECIDE));
                    r.push(MenuAction::Vote(st.selected_level));
                } else {
                    r.push(MenuAction::Sound(SE_NOT));
                }
            } else if sel < 3 {
                if st.selected_level < results {
                    r.push(MenuAction::Sound(SE_STAGEDECIDE));
                    r.push(MenuAction::BlackTransition);
                    r.push(MenuAction::Download { result: st.selected_level, play: sel == 2 });
                    r.push(MenuAction::Wait(120));
                    st.camera_anim_ticks = u32::MAX;
                } else {
                    r.push(MenuAction::Sound(SE_NOT));
                }
            } else if sel < BROWSE_TABS + BROWSE_OTHER {
                r = set_browse_tab(st, browse_tab_from_index(sel - BROWSE_OTHER));
            } else if sel - 7 < results {
                if sel != NO_ENTRY {
                    r.push(MenuAction::Sound(SE_MESSAGE));
                }
                st.selected_level = sel - 7;
                st.move_selected_level_into_view = true;
                r.push(MenuAction::ShowResult(sel - 7));
            } else if st.current_browse_tab == BrowseTab::ById && sel == 7 {
                r.push(MenuAction::Sound(SE_MESSAGE));
                r.push(MenuAction::FocusIdEntry);
            } else if st.current_browse_tab == BrowseTab::ById && sel == 8 {
                r.push(MenuAction::QueryId);
            }
        },
        SubMenu::Quit => {},
    }
    assert(r@ =~= spec_clicked(*old(st), *facts).1);
    r
}

/// The actions of a click with its sound effects left out.
pub open spec fn drop_sounds(a: Seq<MenuAction>) -> Seq<MenuAction>
    decreases a.len(),
{
    if a.len() == 0 {
        a
    } else {
        let rest = drop_sounds(a.drop_last());
        if a.last() is Sound {
            rest
        } else {
            rest.push(a.last())
        }
    }
}

fn without_sounds(a: Vec<MenuAction>) -> (r: Vec<MenuAction>)
    ensures
        r@ == drop_sounds(a@),
{
    let mut r: Vec<MenuAction> = Vec::new();
    let n = a.len();
    let mut k: usize = 0;
    while k < n
        invariant
            k <= n,
            n == a@.len(),
            r@ == drop_sounds(a@.take(k as int)),
        decreases n - k,
    {
        assert(a@.take(k as int + 1).drop_last() =~= a@.take(k as int));
        match a[k] {
            MenuAction::Sound(_) => {},
            other => r.push(other),
        }
        k = k + 1;
    }
    assert(a@.take(n as int) =~= a@);
    r
}

/// What a right click does: on an own level it selects the level and opens
/// its extra actions (the first click silently); on the extra actions or the
/// confirmation it cancels; elsewhere nothing.
pub open spec fn spec_right_clicked(st: MenuState, facts: ClickFacts, entries: nat) -> (MenuState, Seq<MenuAction>) {
    if st.sub_menu == SubMenu::Create && st.selection > 4 && st.selection < entries {
        let (s1, a1) = spec_clicked(st, facts);
        let (s2, a2) = spec_clicked(MenuState { selection: 4, ..s1 }, facts);
        (s2, drop_sounds(a1) + a2)
    } else if st.sub_menu == SubMenu::LevelExtra || st.sub_menu == SubMenu::Confirm {
        spec_clicked(MenuState { selection: NO_ENTRY, ..st }, facts)
    } else {
        (st, seq![])
    }
}

/// Acts on a right click, given how many entries the page has.
pub fn right_clicked(st: &mut MenuState, facts: &ClickFacts, entries: usize) -> (r: Vec<MenuAction>)
    ensures
        (*final(st), r@) == spec_right_clicked(*old(st), *facts, entries as nat),
{
    if st.sub_menu == SubMenu::Create && st.selection > 4 && st.selection < entries {
        let first = clicked(st, facts);
        let mut r = without_sounds(first);
        st.selection = 4;
        let mut second = clicked(st, facts);
        r.append(&mut second);
        r
    } else if st.sub_menu == SubMenu::LevelExtra || st.sub_menu == SubMenu::Confirm {
        st.selection = NO_ENTRY;
        clicked(st, facts)
    } else {
        Vec::new()
    }
}

/// What the player asks of the menus.
#[derive(Debug, Clone, Copy, PartialEq, Eq, Structural)]
pub enum MenuIntent {
    ScrollUp,
    ScrollDown,
    SelectUp,
    SelectDown,
    SelectLeft,
    SelectRight,
    Primary,
    Secondary,
    GoBack,
}

/// The direction of an intent that moves the selection.
pub open spec fn intent_way(i: MenuIntent) -> Option<Way> {
    match i {
        MenuIntent::SelectUp => Some(Way::Up),
        MenuIntent::SelectDown => Some(Way::Down),
        MenuIntent::SelectLeft => Some(Way::Left),
        MenuIntent::SelectRight => Some(Way::Right),
        _ => None,
    }
}

/// Whether moving onto an entry of this page acts on it at once: the own
/// levels of the create page, and the tabs and results of the browse page.
pub open spec fn clicks_on_move(menu: SubMenu, selection: usize) -> bool {
    (menu == SubMenu::Create && selection > 4) || (menu == SubMenu::Browse && selection >= BROWSE_OTHER)
}

/// What pressing an intent does on the menu, given its entries.
pub open spec fn spec_press(st: MenuState, entries: Seq<Links>, facts: ClickFacts, i: MenuIntent) -> (
    MenuState,
    Seq<MenuAction>,
) {
    match intent_way(i) {
        Some(w) => {
            let moved = MenuState { selection: spec_step_selection(entries, st.selection, w), ..st };
            if clicks_on_move(moved.sub_menu, moved.selection) {
                let (s2, a2) = spec_clicked(moved, facts);
                (s2, seq![MenuAction::ShowSelection] + a2)
            } else {
                (moved, seq![MenuAction::ShowSelection])
            }
        },
        None => match i {
            MenuIntent::Primary => {
                let (s2, a2) = spec_clicked(st, facts);
                (s2, a2.push(MenuAction::ShowSelection))
            },
            MenuIntent::Secondary => {
                let (s2, a2) = spec_right_clicked(st, facts, entries.len());
                (s2, a2.push(MenuAction::ShowSelection))
            },
            MenuIntent::GoBack => spec_clicked(MenuState { selection: spec_back_entry(st.sub_menu), ..st }, facts),
            _ => (st, seq![]),
        },
    }
}

/// Acts on a pressed intent: moves the selection (acting on entries that act
/// when moved onto), clicks, right-clicks, or goes back.
pub fn press(st: &mut MenuState, entries: &Vec<Links>, facts: &ClickFacts, i: MenuIntent) -> (r: Vec<MenuAction>)
    ensures
        (*final(st), r@) == spec_press(*old(st), entries@, *facts, i),
{
    let way = match i {
        MenuIntent::SelectUp => Some(Way::Up),
        MenuIntent::SelectDown => Some(Way::Down),
        MenuIntent::SelectLeft => Some(Way::Left),
        MenuIntent::SelectRight => Some(Way::Right),
        _ => None,
    };
    match way {
        Some(w) => {
            st.selection = step_selection(entries, st.selection, w);
            let mut r = vec![MenuAction::ShowSelection];
            if (st.sub_menu == SubMenu::Create && st.selection > 4) || (st.sub_menu == SubMenu::Browse
                && st.selection >= BROWSE_OTHER) {
                let mut a = clicked(st, facts);
                r.append(&mut a);
            }
            r
        },
        None => match i {
            MenuIntent::Primary => {
                let mut r = clicked(st, facts);
                r.push(MenuAction::ShowSelection);
                r
            },
            MenuIntent::Secondary => {
                let mut r = right_clicked(st, facts, entries.len());
                r.push(MenuAction::ShowSelection);
                r
            },
            MenuIntent::GoBack => {
                st.selection = back_entry(st.sub_menu);
                clicked(st, facts)
            },
            _ => Vec::new(),
        },
    }
}

/// Where the main menu resumes when it is entered again.
#[derive(Debug, Clone, Copy, PartialEq, Eq, Structural)]
pub enum SaveKind {
    Main,
    MyLevels,
    Browse,
}

/// What the menu remembers when it is left: nothing when it quits, else the
/// group of pages it was on.
pub open spec fn spec_save_on_leave(menu: SubMenu) -> Option<SaveKind> {
    match menu {
        SubMenu::Quit => None,
        SubMenu::Create | SubMenu::NewLevel | SubMenu::LevelExtra => Some(SaveKind::MyLevels),
        SubMenu::Browse => Some(SaveKind::Browse),
        _ => Some(SaveKind::Main),
    }
}

/// What the menu remembers when it is left (and, when it is not quitting,
/// the game goes back to the editor's room).
pub fn save_on_leave(menu: SubMenu) -> (r: Option<SaveKind>)
    ensures
        r == spec_save_on_leave(menu),
{
    match menu {
        SubMenu::Quit => None,
        SubMenu::Create | SubMenu::NewLevel | SubMenu::LevelExtra => Some(SaveKind::MyLevels),
        SubMenu::Browse => Some(SaveKind::Browse),
        _ => Some(SaveKind::Main),
    }
}

/// The page the menu opens on, given what it remembered.
pub open spec fn spec_resume_page(saved: SaveKind) -> SubMenu {
    match saved {
        SaveKind::Main => SubMenu::Main,
        SaveKind::MyLevels => SubMenu::Create,
        SaveKind::Browse => SubMenu::Browse,
    }
}

/// The page the menu opens on, given what it remembered.
pub fn resume_page(saved: SaveKind) -> (r: SubMenu)
    ensures
        r == spec_resume_page(saved),
{
    match saved {
        SaveKind::Main => SubMenu::Main,
        SaveKind::MyLevels => SubMenu::Create,
        SaveKind::Browse => SubMenu::Browse,
    }
}

/// Leaving the menu and coming back opens the page list it was on: the
/// main page, the own levels, or the browse page stay where they were.
pub proof fn law_leave_and_return_keeps_the_page(menu: SubMenu)
    requires
        menu == SubMenu::Main || menu == SubMenu::Create || menu == SubMenu::Browse,
    ensures
        spec_save_on_leave(menu) is Some,
        spec_resume_page(spec_save_on_leave(menu)->0) == menu,
{
}

/// The furthest a list can scroll: 55 pixels a level, less the height of its
/// window (190 for the own levels, 194 for the search results), and not below 0.
pub open spec fn spec_scroll_limit(menu: SubMenu, count: usize) -> Option<int> {
    match menu {
        SubMenu::Create => Some(if count * 55 > 190 { count * 55 - 190 } else { 0 }),
        SubMenu::Browse => Some(if count * 55 > 194 { count * 55 - 194 } else { 0 }),
        _ => None,
    }
}

/// The furthest the list of a page can scroll, for pages with a list.
pub fn scroll_limit(menu: SubMenu, count: usize) -> (r: Option<u64>)
    requires
        count < 0x1_0000_0000,
    ensures
        match r {
            Some(v) => spec_scroll_limit(menu, count) == Some(v as int),
            None => spec_scroll_limit(menu, count) is None,
        },
{
    let c = count as u64;
    match menu {
        SubMenu::Create => Some(if c * 55 > 190 { c * 55 - 190 } else { 0 }),
        SubMenu::Browse => Some(if c * 55 > 194 { c * 55 - 194 } else { 0 }),
        _ => None,
    }
}

/// The order in which searched levels come back.
#[derive(Debug, Clone, Copy, PartialEq, Eq, Structural)]
pub enum LevelOrdering {
    New,
    Top,
}

/// A search for published levels: one level by id, or (with the id `u32::MAX`)
/// all visible levels matching the characters, themes and tags, in an order.
#[derive(Debug, Clone, Copy, PartialEq, Eq, Structural)]
pub struct SearchQuery {
    pub id: u32,
    pub order: LevelOrdering,
    pub tags: u32,
    pub neg_tags: u32,
    pub characters: u8,
    pub themes: u32,
}

/// The search a browse tab sends: the newest or the most liked levels, of any
/// character and theme; the tab that searches by id sends none by itself.
pub open spec fn spec_tab_query(tab: BrowseTab) -> Option<SearchQuery> {
    match tab {
        BrowseTab::New => Some(
            SearchQuery { id: u32::MAX, order: LevelOrdering::New, tags: 0, neg_tags: 0, characters: 0xff, themes: 0xffff_ffff },
        ),
        BrowseTab::Top => Some(
            SearchQuery { id: u32::MAX, order: LevelOrdering::Top, tags: 0, neg_tags: 0, characters: 0xff, themes: 0xffff_ffff },
        ),
        BrowseTab::ById => None,
    }
}

/// The search a browse tab sends.
pub fn tab_query(tab: BrowseTab) -> (r: Option<SearchQuery>)
    ensures
        r == spec_tab_query(tab),
{
    match tab {
        BrowseTab::New => Some(
            SearchQuery { id: u32::MAX, order: LevelOrdering::New, tags: 0, neg_tags: 0, characters: 0xff, themes: 0xffff_ffff },
        ),
        BrowseTab::Top => Some(
            SearchQuery { id: u32::MAX, order: LevelOrdering::Top, tags: 0, neg_tags: 0, characters: 0xff, themes: 0xffff_ffff },
        ),
        BrowseTab::ById => None,
    }
}

/// The search for a level id that the player typed, already decoded
/// (`u32::MAX` where the code was not valid): none for an invalid code.
pub fn id_query(id: u32) -> (r: Option<SearchQuery>)
    ensures
        id == u32::MAX ==> r is None,
        id != u32::MAX ==> r == Some(
            SearchQuery { id, order: LevelOrdering::New, tags: 0, neg_tags: 0, characters: 0, themes: 0 },
        ),
{
    if id == u32::MAX {
        None
    } else {
        Some(SearchQuery { id, order: LevelOrdering::New, tags: 0, neg_tags: 0, characters: 0, themes: 0 })
    }
}


/// A mark drawn on a level's entry in the level lists: its tags, a heart that
/// Seija cannot use (by its number), the world record and the player's best
/// time (in ticks), and the like count.
#[derive(Clone, Copy, PartialEq, Eq, Structural, Debug)]
pub enum Badge {
    PuzzlePiece,
    SpeedrunTechniques,
    Troll,
    Hax,
    SeijaLacks(u8),
    WorldRecord(u32),
    PersonalBest(u32),
    Likes,
}

/// A one-element sequence when `b` holds, else the empty one.
pub open spec fn badge_if(b: bool, x: (i32, i32, Badge)) -> Seq<(i32, i32, Badge)> {
    if b {
        seq![x]
    } else {
        Seq::empty()
    }
}

/// The marks on a level's entry, each at its offset from the entry's corner,
/// in drawing order: the puzzle-piece, speedrun-technique, troll and hax tags;
/// for a Seija level, each item she may not use (a clear bit of `seija_flags`);
/// the world record and the best time when known; the like count for a
/// published level while logged in.
pub open spec fn spec_level_badges(
    tags: u32,
    seija: bool,
    seija_flags: u8,
    wr: Option<u32>,
    pb: Option<u32>,
    shows_likes: bool,
) -> Seq<(i32, i32, Badge)> {
    badge_if(tags & spec_tag_bit(Tag::PuzzlePiece) != 0, (45, 30, Badge::PuzzlePiece))
        + badge_if(tags & spec_tag_bit(Tag::SpeedrunTechniques) != 0, (55, 31, Badge::SpeedrunTechniques))
        + badge_if(tags & spec_tag_bit(Tag::Troll) != 0, (65, 31, Badge::Troll))
        + badge_if(tags & spec_tag_bit(Tag::Hax) != 0, (75, 31, Badge::Hax))
        + badge_if(seija && seija_flags & 1 == 0, (87, 31, Badge::SeijaLacks(0)))
        + badge_if(seija && seija_flags & 2 == 0, (107, 31, Badge::SeijaLacks(1)))
        + badge_if(seija && seija_flags & 4 == 0, (97, 31, Badge::SeijaLacks(2)))
        + badge_if(seija && seija_flags & 8 == 0, (117, 31, Badge::SeijaLacks(3)))
        + badge_if(wr is Some, (183, 17, Badge::WorldRecord(wr->0)))
        + badge_if(pb is Some, (183, 30, Badge::PersonalBest(pb->0)))
        + badge_if(shows_likes, (24, 33, Badge::Likes))
}

fn push_badge_if(v: &mut Vec<(i32, i32, Badge)>, b: bool, x: (i32, i32, Badge))
    ensures
        final(v)@ == old(v)@ + badge_if(b, x),
{
    if b {
        v.push(x);
    }
    assert(final(v)@ =~= old(v)@ + badge_if(b, x));
}

/// The marks on a level's entry (see `spec_level_badges`); the like count shows
/// for a level with an online id while logged in.
pub fn level_badges(
    tags: u32,
    seija: bool,
    seija_flags: u8,
    wr: Option<u32>,
    pb: Option<u32>,
    online_id: u32,
    logged_in: bool,
) -> (r: Vec<(i32, i32, Badge)>)
    ensures
        r@ == spec_level_badges(tags, seija, seija_flags, wr, pb, online_id != u32::MAX && logged_in),
{
    let mut v: Vec<(i32, i32, Badge)> = Vec::new();
    push_badge_if(&mut v, tags & Tag::PuzzlePiece.bit() != 0, (45, 30, Badge::PuzzlePiece));
    assert(v@ =~= badge_if(tags & spec_tag_bit(Tag::PuzzlePiece) != 0, (45, 30, Badge::PuzzlePiece)));
    push_badge_if(&mut v, tags & Tag::SpeedrunTechniques.bit() != 0, (55, 31, Badge::SpeedrunTechniques));
    push_badge_if(&mut v, tags & Tag::Troll.bit() != 0, (65, 31, Badge::Troll));
    push_badge_if(&mut v, tags & Tag::Hax.bit() != 0, (75, 31, Badge::Hax));
    push_badge_if(&mut v, seija && seija_flags & 1 == 0, (87, 31, Badge::SeijaLacks(0)));
    push_badge_if(&mut v, seija && seija_flags & 2 == 0, (107, 31, Badge::SeijaLacks(1)));
    push_badge_if(&mut v, seija && seija_flags & 4 == 0, (97, 31, Badge::SeijaLacks(2)));
    push_badge_if(&mut v, seija && seija_flags & 8 == 0, (117, 31, Badge::SeijaLacks(3)));
    match wr {
        Some(t) => push_badge_if(&mut v, true, (183, 17, Badge::WorldRecord(t))),
        None => push_badge_if(&mut v, false, (183, 17, Badge::Likes)),
    }
    match pb {
        Some(t) => push_badge_if(&mut v, true, (183, 30, Badge::PersonalBest(t))),
        None => push_badge_if(&mut v, false, (183, 30, Badge::Likes)),
    }
    push_badge_if(&mut v, online_id != u32::MAX && logged_in, (24, 33, Badge::Likes));
    v
}


/// The top of the `i`th entry of the level list "my levels", in pixels, when
/// the list is scrolled by `scroll` whole pixels: the first entry starts at 60
/// and each takes 55.
pub open spec fn my_level_top(scroll: int, i: int) -> int {
    60 - scroll + 55 * i
}

/// The last of the first `count` entries of "my levels" whose top is at most
/// `t`.
pub open spec fn last_top_at_most(count: nat, scroll: int, t: int) -> Option<nat>
    decreases count,
{
    if count == 0 {
        None
    } else if my_level_top(scroll, count - 1) <= t {
        Some((count - 1) as nat)
    } else {
        last_top_at_most((count - 1) as nat, scroll, t)
    }
}

/// The link to entry `5 + i` for the last entry `i` found, else the old link.
pub open spec fn link_to_last(found: Option<nat>, old: usize) -> usize {
    match found {
        Some(i) => (5 + i) as usize,
        None => old,
    }
}

/// How the page "my levels" links its entries once its `count` levels are
/// placed at a scroll: a level goes left to the level button (entry 3) when its
/// top shows at the first row, else to the scroll bar (entry 4), and right to
/// the play button (entry 0) when its top is above 135, else to the edit button
/// (entry 1); the edit button and the scroll bar go left to the last level whose
/// top is above 202.5, the play button left and the level button right to the
/// last level whose top is at the first row; the other entries keep their
/// links.
pub open spec fn spec_relink_my_levels(links: Seq<Links>, count: nat, scroll: int) -> Seq<Links> {
    let below_list = last_top_at_most(count, scroll, 202);
    let first_row = last_top_at_most(count, scroll, 60);
    Seq::new(
        links.len(),
        |k: int|
            if 5 <= k < 5 + count {
                let y = my_level_top(scroll, k - 5);
                Links {
                    left: if y <= 60 {
                        3
                    } else {
                        4
                    },
                    right: if y <= 134 {
                        0
                    } else {
                        1
                    },
                    ..links[k]
                }
            } else if k == 0 {
                Links { left: link_to_last(first_row, links[0].left), ..links[0] }
            } else if k == 1 {
                Links { left: link_to_last(below_list, links[1].left), ..links[1] }
            } else if k == 3 {
                Links { right: link_to_last(first_row, links[3].right), ..links[3] }
            } else if k == 4 {
                Links { left: link_to_last(below_list, links[4].left), ..links[4] }
            } else {
                links[k]
            },
    )
}

/// Relinks the page "my levels" after its `count` levels were placed, scrolled
/// by `scroll` whole pixels (see `spec_relink_my_levels`).
pub fn relink_my_levels(links: &mut Vec<Links>, count: usize, scroll: i32)
    requires
        5 + count <= old(links)@.len(),
    ensures
        final(links)@ == spec_relink_my_levels(old(links)@, count as nat, scroll as int),
{
    let ghost start = links@;
    let ghost below_list = last_top_at_most(count as nat, scroll as int, 202);
    let ghost first_row = last_top_at_most(count as nat, scroll as int, 60);
    // The top of the current level; once past every threshold it is no longer
    // advanced, since all that matters is whether it lies below them.
    let mut y: i64 = 60 - scroll as i64;
    let n = links.len();
    assert(5 + count <= n);
    let mut i: usize = 0;
    while i < count
        invariant
            i <= count,
            5 + count <= start.len(),
            links@.len() == start.len(),
            5 + count <= usize::MAX,
            my_level_top(scroll as int, i as int) < 203 ==> y == my_level_top(scroll as int, i as int),
            my_level_top(scroll as int, i as int) >= 203 ==> y >= 203,
            forall|k: int|
                5 <= k < 5 + i ==> #[trigger] links@[k] == spec_relink_my_levels(start, count as nat, scroll as int)[k],
            forall|k: int| 5 + i <= k < links@.len() ==> #[trigger] links@[k] == start[k],
            links@[2] == start[2],
            links@[0] == (Links { left: link_to_last(last_top_at_most(i as nat, scroll as int, 60), start[0].left), ..start[0] }),
            links@[1] == (Links { left: link_to_last(last_top_at_most(i as nat, scroll as int, 202), start[1].left), ..start[1] }),
            links@[3] == (Links { right: link_to_last(last_top_at_most(i as nat, scroll as int, 60), start[3].right), ..start[3] }),
            links@[4] == (Links { left: link_to_last(last_top_at_most(i as nat, scroll as int, 202), start[4].left), ..start[4] }),
        decreases count - i,
    {
        let k = i + 5;
        let mut entry = links[k];
        entry.left = 4;
        entry.right = 1;
        if y < 203 {
            let mut b = links[1];
            b.left = k;
            links.set(1, b);
            let mut b = links[4];
            b.left = k;
            links.set(4, b);
            if y < 135 {
                entry.right = 0;
                if y < 61 {
                    let mut b = links[0];
                    b.left = k;
                    links.set(0, b);
                    let mut b = links[3];
                    b.right = k;
                    links.set(3, b);
                    entry.left = 3;
                }
            }
        }
        links.set(k, entry);
        if y < 203 {
            y = y + 55;
        }
        i = i + 1;
    }
    assert(links@ =~= spec_relink_my_levels(start, count as nat, scroll as int));
}


/// The first entry of the browse page that is a level of the results.
pub open spec fn first_result_entry() -> int {
    (BROWSE_OTHER + BROWSE_TABS) as int
}

/// Relinks the browse page after its results were placed: the level button
/// (entry 3) goes right, and the edit button (entry 1) goes left, to the
/// selected result (to no entry when none is selected).
pub fn relink_browse(links: &mut Vec<Links>, selected_level: usize)
    requires
        old(links)@.len() > 3,
    ensures
        final(links)@ == old(links)@.update(
            1,
            Links {
                left: if first_result_entry() + selected_level > usize::MAX {
                    usize::MAX
                } else {
                    (first_result_entry() + selected_level) as usize
                },
                ..old(links)@[1]
            },
        ).update(
            3,
            Links {
                right: if first_result_entry() + selected_level > usize::MAX {
                    usize::MAX
                } else {
                    (first_result_entry() + selected_level) as usize
                },
                ..old(links)@[3]
            },
        ),
{
    let to = (BROWSE_OTHER + BROWSE_TABS).saturating_add(selected_level);
    let mut b = links[3];
    b.right = to;
    links.set(3, b);
    let mut b = links[1];
    b.left = to;
    links.set(1, b);
    assert(links@ =~= old(links)@.update(1, Links { left: to, ..old(links)@[1] }).update(
        3,
        Links { right: to, ..old(links)@[3] },
    ));
}

/// The entries that a browse tab adds below the tabs: the tab "by id" adds its
/// text box, going up to the tab and down to its button, and the button, going
/// up to the text box; the other tabs add none (their results come later).
pub open spec fn spec_browse_sub_page_links(tab: BrowseTab) -> Seq<Links> {
    match tab {
        BrowseTab::ById => seq![
            Links {
                left: NO_ENTRY,
                right: NO_ENTRY,
                up: (BROWSE_OTHER + tab_index(tab)) as usize,
                down: (BROWSE_OTHER + BROWSE_TABS + 1) as usize,
            },
            Links { left: NO_ENTRY, right: NO_ENTRY, up: (BROWSE_OTHER + BROWSE_TABS) as usize, down: NO_ENTRY },
        ],
        _ => Seq::empty(),
    }
}

/// The entries that a browse tab adds below the tabs.
pub fn browse_sub_page_links(tab: BrowseTab) -> (r: Vec<Links>)
    ensures
        r@ == spec_browse_sub_page_links(tab),
{
    match tab {
        BrowseTab::ById => {
            let r = vec![
                Links::new().attach_up(BROWSE_OTHER + browse_tab_index(tab)).attach_down(
                    BROWSE_OTHER + BROWSE_TABS + 1,
                ),
                Links::new().attach_up(BROWSE_OTHER + BROWSE_TABS),
            ];
            assert(r@ =~= spec_browse_sub_page_links(tab));
            r
        },
        _ => Vec::new(),
    }
}

/// Which parts of the browse page are greyed out: the vote button (unless the
/// selected result can be voted on), and the play and edit buttons (unless a
/// result is selected).
pub fn browse_grey_out(selected: Option<bool>) -> (r: (bool, bool))
    ensures
        r == match selected {
            Some(can_vote) => (!can_vote, false),
            None => (true, true),
        },
{
    match selected {
        Some(can_vote) => (!can_vote, false),
        None => (true, true),
    }
}


/// The outline of a selectable entry, as far as the selection marker reads
/// it: a rectangle by its width in whole pixels, or a circle.
#[derive(Clone, Copy, PartialEq, Eq, Structural, Debug)]
pub enum EntryOutline {
    Rect(u32),
    Circle,
}

/// What marks the selected entry: an arrow, a small or big frame, a
/// half-transparent bar stretched over the entry, or a round frame.
#[derive(Clone, Copy, PartialEq, Eq, Structural, Debug)]
pub enum MarkerKind {
    Arrow,
    SmallFrame,
    BigFrame,
    Bar,
    RoundFrame,
}

/// The marker of the selected entry and its offset from the entry's corner (a
/// circle's centre), or `None` when no marker is drawn: no entry is selected,
/// or a rectangle has a width that has no marker.
pub open spec fn spec_selection_marker(outline: Option<EntryOutline>) -> Option<(MarkerKind, i32, i32)> {
    match outline {
        None => None,
        Some(EntryOutline::Circle) => Some((MarkerKind::RoundFrame, -17i32, -17i32)),
        Some(EntryOutline::Rect(w)) => if w == 48 {
            Some((MarkerKind::Arrow, -3i32, 0i32))
        } else if w == 60 {
            Some((MarkerKind::SmallFrame, -3i32, 0i32))
        } else if w == 135 {
            Some((MarkerKind::BigFrame, -3i32, 0i32))
        } else if w == 196 {
            Some((MarkerKind::Bar, 0i32, 0i32))
        } else if w == 70 {
            Some((MarkerKind::Arrow, 3i32, 3i32))
        } else {
            None
        },
    }
}

/// The marker of the selected entry (see `spec_selection_marker`).
pub fn selection_marker(outline: Option<EntryOutline>) -> (r: Option<(MarkerKind, i32, i32)>)
    ensures
        r == spec_selection_marker(outline),
{
    match outline {
        None => None,
        Some(EntryOutline::Circle) => Some((MarkerKind::RoundFrame, -17, -17)),
        Some(EntryOutline::Rect(w)) => match w {
            48 => Some((MarkerKind::Arrow, -3, 0)),
            60 => Some((MarkerKind::SmallFrame, -3, 0)),
            135 => Some((MarkerKind::BigFrame, -3, 0)),
            196 => Some((MarkerKind::Bar, 0, 0)),
            70 => Some((MarkerKind::Arrow, 3, 3)),
            _ => None,
        },
    }
}


/// The like count shown on a level's entry: the letter `l` and the count.
pub fn likes_text(likes: u32) -> (r: String)
    ensures
        r@ == seq!['l'] + decimal(likes as nat),
{
    let mut s = String::new();
    push_char(&mut s, 'l');
    push_decimal(&mut s, likes as u64);
    assert(s@ =~= seq!['l'] + decimal(likes as nat));
    s
}

/// Each browse tab that searches asks for its own order: the New tab for the
/// newest levels, the Top tab for the most liked, over every character and
/// theme and with no tag filter; the tab by id sends no search of its own.
pub proof fn law_tabs_ask_for_their_order(tab: BrowseTab)
    ensures
        tab == BrowseTab::ById <==> spec_tab_query(tab) is None,
        spec_tab_query(tab) matches Some(q) ==> {
            &&& (q.order == LevelOrdering::New <==> tab == BrowseTab::New)
            &&& (q.order == LevelOrdering::Top <==> tab == BrowseTab::Top)
            &&& q.id == u32::MAX
            &&& q.tags == 0 && q.neg_tags == 0
            &&& q.characters == 0xff && q.themes == 0xffff_ffff
        },
{
}

} // verus!
