use vstd::prelude::*;
use crate::main_menu::MenuIntent;
use crate::session::AuthStatus;
use crate::sound::{SE_CANCEL, SE_DECIDE, SE_NOT};

verus! {

/// The room of the game in which the editor's menus run.
pub const EDITOR_ROOM: i32 = 165;

/// The page that the setup menu shows.
#[derive(Debug, Clone, Copy, PartialEq, Eq, Structural)]
pub enum Page {
    /// Nothing shown yet.
    Start,
    NotConnected,
    Connecting,
    /// Waiting for the player to log in with Steam: whether the button is
    /// still shown.
    NeedSteamAuth { button_shown: bool },
    OutOfDate,
    /// Asking for a name: whether the entry is still shown.
    NeedName { input_shown: bool },
}

impl Page {
    /// Whether nothing is shown yet.
    pub fn is_start(&self) -> (r: bool)
        ensures
            r == (*self == Page::Start),
    {
        match self {
            Page::Start => true,
            _ => false,
        }
    }
}

/// The texts of the setup pages.
#[derive(Debug, Clone, Copy, PartialEq, Eq, Structural)]
pub enum SetupText {
    NotConnected,
    NeedSteamAuth,
    OpenBrowser,
    Connecting,
    OutOfDate,
    EnterName,
    BadName,
}

/// What the setup menu makes the game and the client do, in order.
#[derive(Debug, Clone, Copy, PartialEq, Eq, Structural)]
pub enum SetupAction {
    /// Remove everything shown and go back to the editor's room.
    ClearScreen,
    /// Show one of the texts (`warning` ones in red).
    Show { text: SetupText, warning: bool },
    /// Show the OK button.
    ShowOk,
    ShowThrobber,
    /// Show the button that opens the browser.
    ShowBrowserButton,
    /// Show the entry for the player's name.
    ShowNameInput,
    /// Remove the button that opens the browser.
    RemoveBrowserButton,
    Sound(u32),
    /// Ask the game for the text of the name entry (and remove the entry).
    QueryName,
    /// Fade to black and let the game run 120 frames.
    FadeOut,
    /// Open the Steam log-in in the browser and wait for it.
    StartSteamAuth,
    GotoRoom(i32),
    /// Leave for the main menu.
    SwitchToMainMenu,
    /// Leave for the game's own menus.
    SwitchToGame,
    /// Send the name that the game returned (trimmed) to the server.
    SendName,
}

/// The client's state that the setup menu reads, and sometimes changes.
#[derive(Debug, Clone, Copy)]
pub struct SetupFacts {
    pub auth: AuthStatus,
    /// Whether the server refused the client as out of date.
    pub out_of_date: bool,
    /// Whether the player has yet to choose a name.
    pub need_update_name: bool,
    /// Whether the player asked not to be warned when offline.
    pub no_warn_offline: bool,
}

/// The setup menu: it logs the client in and asks for what is missing.
pub struct SetupMenu {
    pub page: Page,
    pub downed: bool,
    pub bad_name: bool,
}

/// The page (if any) and actions of the "not connected" page.
pub open spec fn spec_page_no_connection(page: Page, no_warn_offline: bool) -> (Page, Seq<SetupAction>) {
    if no_warn_offline {
        (page, seq![SetupAction::SwitchToMainMenu])
    } else {
        (
            Page::NotConnected,
            seq![SetupAction::Show { text: SetupText::NotConnected, warning: true }, SetupAction::ShowOk],
        )
    }
}

/// The actions of the page that asks for a name.
pub open spec fn spec_need_name_actions(bad_name: bool) -> Seq<SetupAction> {
    if bad_name {
        seq![
            SetupAction::Show { text: SetupText::EnterName, warning: false },
            SetupAction::Sound(SE_NOT),
            SetupAction::Show { text: SetupText::BadName, warning: true },
            SetupAction::ShowNameInput,
        ]
    } else {
        seq![SetupAction::Show { text: SetupText::EnterName, warning: false }, SetupAction::ShowNameInput]
    }
}

/// Which page follows from the client's state: no connection (or out of date)
/// before or after a failed log-in, the Steam log-in when it is needed, a
/// throbber while logging in, and once logged in the name entry if the player
/// has no name, else the main menu.
pub open spec fn spec_choose_page(m: SetupMenu, facts: SetupFacts) -> (Page, Seq<SetupAction>) {
    match facts.auth {
        AuthStatus::Failed | AuthStatus::NotTried => if facts.out_of_date {
            (Page::OutOfDate, seq![SetupAction::Show { text: SetupText::OutOfDate, warning: false }, SetupAction::ShowOk])
        } else {
            spec_page_no_connection(m.page, facts.no_warn_offline)
        },
        AuthStatus::NeedSteamAuth => (
            Page::NeedSteamAuth { button_shown: true },
            seq![
                SetupAction::Show { text: SetupText::NeedSteamAuth, warning: false },
                SetupAction::Show { text: SetupText::OpenBrowser, warning: false },
                SetupAction::ShowBrowserButton,
            ],
        ),
        AuthStatus::Trying => (
            Page::Connecting,
            seq![SetupAction::Show { text: SetupText::Connecting, warning: false }, SetupAction::ShowThrobber],
        ),
        AuthStatus::Authed(_) => if facts.need_update_name {
            (Page::NeedName { input_shown: true }, spec_need_name_actions(m.bad_name))
        } else {
            (m.page, seq![SetupAction::SwitchToMainMenu])
        },
    }
}

/// The state and actions of a step: the screen is cleared (unless nothing was
/// shown yet) and the page that follows from the client's state is shown.
pub open spec fn spec_step(m: SetupMenu, facts: SetupFacts) -> (SetupMenu, Seq<SetupAction>) {
    let cleared = if m.page == Page::Start {
        m
    } else {
        SetupMenu { downed: false, ..m }
    };
    let (page, acts) = spec_choose_page(cleared, facts);
    (
        SetupMenu { page, ..cleared },
        if m.page == Page::Start {
            acts
        } else {
            seq![SetupAction::ClearScreen] + acts
        },
    )
}

impl SetupMenu {
    /// A setup menu that shows nothing yet.
    pub fn new() -> (r: Self)
        ensures
            r.page == Page::Start,
            !r.downed,
            !r.bad_name,
    {
        SetupMenu { page: Page::Start, downed: false, bad_name: false }
    }

    /// Shows the "not connected" page, or goes on to the main menu when the
    /// player asked not to be warned.
    pub fn page_no_connection(&mut self, no_warn_offline: bool) -> (r: Vec<SetupAction>)
        ensures
            (final(self).page, r@) == spec_page_no_connection(old(self).page, no_warn_offline),
            final(self).downed == old(self).downed,
            final(self).bad_name == old(self).bad_name,
    {
        if no_warn_offline {
            return vec![SetupAction::SwitchToMainMenu];
        }
        self.page = Page::NotConnected;
        vec![SetupAction::Show { text: SetupText::NotConnected, warning: true }, SetupAction::ShowOk]
    }

    /// Shows the page that asks the player to log in with Steam.
    pub fn page_need_steam_auth(&mut self) -> (r: Vec<SetupAction>)
        ensures
            final(self).page == (Page::NeedSteamAuth { button_shown: true }),
            r@ == seq![
                SetupAction::Show { text: SetupText::NeedSteamAuth, warning: false },
                SetupAction::Show { text: SetupText::OpenBrowser, warning: false },
                SetupAction::ShowBrowserButton,
            ],
            final(self).downed == old(self).downed,
            final(self).bad_name == old(self).bad_name,
    {
        self.page = Page::NeedSteamAuth { button_shown: true };
        let r = vec![
            SetupAction::Show { text: SetupText::NeedSteamAuth, warning: false },
            SetupAction::Show { text: SetupText::OpenBrowser, warning: false },
            SetupAction::ShowBrowserButton,
        ];
        assert(r@ =~= seq![
            SetupAction::Show { text: SetupText::NeedSteamAuth, warning: false },
            SetupAction::Show { text: SetupText::OpenBrowser, warning: false },
            SetupAction::ShowBrowserButton,
        ]);
        r
    }

    /// Shows the page with a throbber while the client logs in.
    pub fn page_connecting(&mut self) -> (r: Vec<SetupAction>)
        ensures
            final(self).page == Page::Connecting,
            r@ == seq![SetupAction::Show { text: SetupText::Connecting, warning: false }, SetupAction::ShowThrobber],
            final(self).downed == old(self).downed,
            final(self).bad_name == old(self).bad_name,
    {
        self.page = Page::Connecting;
        let r = vec![SetupAction::Show { text: SetupText::Connecting, warning: false }, SetupAction::ShowThrobber];
        assert(r@ =~= seq![SetupAction::Show { text: SetupText::Connecting, warning: false }, SetupAction::ShowThrobber]);
        r
    }

    /// Shows the page that tells the player the mod is out of date.
    pub fn page_out_of_date(&mut self) -> (r: Vec<SetupAction>)
        ensures
            final(self).page == Page::OutOfDate,
            r@ == seq![SetupAction::Show { text: SetupText::OutOfDate, warning: false }, SetupAction::ShowOk],
            final(self).downed == old(self).downed,
            final(self).bad_name == old(self).bad_name,
    {
        self.page = Page::OutOfDate;
        let r = vec![SetupAction::Show { text: SetupText::OutOfDate, warning: false }, SetupAction::ShowOk];
        assert(r@ =~= seq![SetupAction::Show { text: SetupText::OutOfDate, warning: false }, SetupAction::ShowOk]);
        r
    }

    /// Shows the page that asks for a name, telling the player when the last
    /// name was refused.
    pub fn page_need_name(&mut self) -> (r: Vec<SetupAction>)
        ensures
            final(self).page == (Page::NeedName { input_shown: true }),
            r@ == spec_need_name_actions(old(self).bad_name),
            final(self).downed == old(self).downed,
            final(self).bad_name == old(self).bad_name,
    {
        let mut r = vec![SetupAction::Show { text: SetupText::EnterName, warning: false }];
        if self.bad_name {
            r.push(SetupAction::Sound(SE_NOT));
            r.push(SetupAction::Show { text: SetupText::BadName, warning: true });
        }
        r.push(SetupAction::ShowNameInput);
        self.page = Page::NeedName { input_shown: true };
        assert(r@ =~= spec_need_name_actions(old(self).bad_name));
        r
    }

    /// Shows the page that follows from the client's state, clearing the
    /// screen first unless nothing was shown yet.
    pub fn step(&mut self, facts: &SetupFacts) -> (r: Vec<SetupAction>)
        ensures
            (*final(self), r@) == spec_step(*old(self), *facts),
    {
        let mut r: Vec<SetupAction> = Vec::new();
        if !self.page.is_start() {
            r.push(SetupAction::ClearScreen);
            self.downed = false;
        }
        let mut acts = match facts.auth {
            AuthStatus::Failed | AuthStatus::NotTried => {
                if facts.out_of_date {
                    self.page_out_of_date()
                } else {
                    self.page_no_connection(facts.no_warn_offline)
                }
            },
            AuthStatus::NeedSteamAuth => self.page_need_steam_auth(),
            AuthStatus::Trying => self.page_connecting(),
            AuthStatus::Authed(_) => {
                if facts.need_update_name {
                    self.page_need_name()
                } else {
                    vec![SetupAction::SwitchToMainMenu]
                }
            },
        };
        r.append(&mut acts);
        assert(r@ =~= spec_step(*old(self), *facts).1);
        r
    }

    /// Leaves for the game's own menus, fading out.
    pub fn quit(&mut self) -> (r: Vec<SetupAction>)
        ensures
            final(self).page == Page::Start,
            final(self).downed == old(self).downed,
            final(self).bad_name == old(self).bad_name,
            r@ == seq![SetupAction::Sound(SE_CANCEL), SetupAction::FadeOut, SetupAction::SwitchToGame],
    {
        self.page = Page::Start;
        let r = vec![SetupAction::Sound(SE_CANCEL), SetupAction::FadeOut, SetupAction::SwitchToGame];
        assert(r@ =~= seq![SetupAction::Sound(SE_CANCEL), SetupAction::FadeOut, SetupAction::SwitchToGame]);
        r
    }
}

/// What reaches the setup menu from the game.
#[derive(Debug, Clone, Copy, PartialEq, Eq, Structural)]
pub enum SetupEvent {
    /// A frame passed: the answer to the name sent so far (0 none yet, 1
    /// accepted, 2 refused, 3 failed) and whether the Steam log-in has ended.
    Tick { name_answer: u8, steam_done: bool },
    /// A text entry lost the focus: 3 when it was submitted, 4 when cancelled.
    InputUnfocus(u32),
    /// The game returned the text of an entry.
    GetString,
    ButtonDown,
    KeyDown,
    MouseDown,
    ButtonUp,
    KeyUp,
    MouseUp,
    Other,
}

/// Whether an event is a press.
pub open spec fn is_down(e: SetupEvent) -> bool {
    e == SetupEvent::ButtonDown || e == SetupEvent::KeyDown || e == SetupEvent::MouseDown
}

/// Whether an event is a release.
pub open spec fn is_up(e: SetupEvent) -> bool {
    e == SetupEvent::ButtonUp || e == SetupEvent::KeyUp || e == SetupEvent::MouseUp
}

/// The intent that an event carries: only a release after a press inside this
/// menu counts.
pub open spec fn event_intent(downed: bool, e: SetupEvent, intent: Option<MenuIntent>) -> Option<MenuIntent> {
    if is_up(e) && downed {
        intent
    } else {
        None
    }
}

/// What the setup menu does with an event (and the intent it maps to, if any).
pub open spec fn spec_on_event(m: SetupMenu, facts: SetupFacts, e: SetupEvent, intent: Option<MenuIntent>) -> (
    SetupMenu,
    SetupFacts,
    Seq<SetupAction>,
) {
    let m = if is_down(e) {
        SetupMenu { downed: true, ..m }
    } else {
        m
    };
    let i = event_intent(m.downed, e, intent);
    let quit = (
        SetupMenu { page: Page::Start, ..m },
        facts,
        seq![SetupAction::Sound(SE_CANCEL), SetupAction::FadeOut, SetupAction::SwitchToGame],
    );
    let nothing = (m, facts, Seq::<SetupAction>::empty());
    let stepped = |m2: SetupMenu, f2: SetupFacts| (spec_step(m2, f2).0, f2, spec_step(m2, f2).1);
    match m.page {
        Page::OutOfDate | Page::NotConnected => if i == Some(MenuIntent::GoBack) {
            quit
        } else if i == Some(MenuIntent::Primary) {
            (
                m,
                facts,
                seq![SetupAction::Sound(SE_DECIDE), SetupAction::GotoRoom(EDITOR_ROOM), SetupAction::SwitchToMainMenu],
            )
        } else {
            nothing
        },
        Page::Connecting => if i is None && e is Tick && !(facts.auth is Trying) {
            stepped(m, facts)
        } else {
            nothing
        },
        Page::NeedName { input_shown } => if i is None && e is Tick {
            let a = e->name_answer;
            if a == 1 {
                stepped(m, SetupFacts { need_update_name: false, ..facts })
            } else if a == 2 {
                stepped(SetupMenu { bad_name: true, ..m }, facts)
            } else if a == 3 {
                stepped(m, SetupFacts { auth: AuthStatus::Failed, ..facts })
            } else {
                nothing
            }
        } else if i is None && e is InputUnfocus {
            if input_shown && e->InputUnfocus_0 == 3 {
                (
                    SetupMenu { page: Page::NeedName { input_shown: false }, ..m },
                    facts,
                    seq![SetupAction::Sound(SE_DECIDE), SetupAction::QueryName],
                )
            } else if input_shown && e->InputUnfocus_0 == 4 {
                quit
            } else {
                nothing
            }
        } else if i is None && e == SetupEvent::GetString {
            (m, facts, seq![SetupAction::SendName])
        } else if i == Some(MenuIntent::Primary) && e == SetupEvent::ButtonUp && input_shown {
            (
                SetupMenu { page: Page::NeedName { input_shown: false }, ..m },
                facts,
                seq![SetupAction::Sound(SE_DECIDE), SetupAction::QueryName],
            )
        } else {
            nothing
        },
        Page::NeedSteamAuth { button_shown } => if i == Some(MenuIntent::Primary) {
            if button_shown {
                (
                    SetupMenu { page: Page::NeedSteamAuth { button_shown: false }, ..m },
                    facts,
                    seq![SetupAction::Sound(SE_DECIDE), SetupAction::RemoveBrowserButton, SetupAction::StartSteamAuth],
                )
            } else {
                nothing
            }
        } else if i == Some(MenuIntent::GoBack) {
            let f2 = SetupFacts { auth: AuthStatus::Failed, ..facts };
            (spec_step(m, f2).0, f2, seq![SetupAction::Sound(SE_CANCEL)] + spec_step(m, f2).1)
        } else if i is None && e is Tick && e->steam_done {
            stepped(m, facts)
        } else {
            nothing
        },
        Page::Start => nothing,
    }
}

impl SetupMenu {
    /// Acts on an event from the game, given the intent that the controls map
    /// the input to (if any); it may change the client's state it reads.
    #[verifier::rlimit(30)]
    pub fn on_event(&mut self, facts: &mut SetupFacts, e: SetupEvent, intent: Option<MenuIntent>) -> (r: Vec<
        SetupAction,
    >)
        ensures
            (*final(self), *final(facts), r@) == spec_on_event(*old(self), *old(facts), e, intent),
    {
        let down = match e {
            SetupEvent::ButtonDown | SetupEvent::KeyDown | SetupEvent::MouseDown => true,
            _ => false,
        };
        let up = match e {
            SetupEvent::ButtonUp | SetupEvent::KeyUp | SetupEvent::MouseUp => true,
            _ => false,
        };
        if down {
            self.downed = true;
        }
        let i = if up && self.downed {
            intent
        } else {
            None
        };
        let go_back = match i {
            Some(MenuIntent::GoBack) => true,
            _ => false,
        };
        let primary = match i {
            Some(MenuIntent::Primary) => true,
            _ => false,
        };
        let none = i.is_none();
        let page = self.page;
        let r = match page {
            Page::OutOfDate | Page::NotConnected => {
                if go_back {
                    self.quit()
                } else if primary {
                    vec![SetupAction::Sound(SE_DECIDE), SetupAction::GotoRoom(EDITOR_ROOM), SetupAction::SwitchToMainMenu]
                } else {
                    Vec::new()
                }
            },
            Page::Connecting => {
                let trying = match facts.auth {
                    AuthStatus::Trying => true,
                    _ => false,
                };
                match e {
                    SetupEvent::Tick { .. } => if none && !trying {
                        self.step(facts)
                    } else {
                        Vec::new()
                    },
                    _ => Vec::new(),
                }
            },
            Page::NeedName { input_shown } => {
                let (is_tick, name_answer) = match e {
                    SetupEvent::Tick { name_answer, .. } => (true, name_answer),
                    _ => (false, 0u8),
                };
                let (is_unfocus, code) = match e {
                    SetupEvent::InputUnfocus(c) => (true, c),
                    _ => (false, 0u32),
                };
                let is_get_string = match e {
                    SetupEvent::GetString => true,
                    _ => false,
                };
                let is_button_up = match e {
                    SetupEvent::ButtonUp => true,
                    _ => false,
                };
                if none && is_tick {
                    if name_answer == 1 {
                        facts.need_update_name = false;
                        self.step(facts)
                    } else if name_answer == 2 {
                        self.bad_name = true;
                        self.step(facts)
                    } else if name_answer == 3 {
                        facts.auth = AuthStatus::Failed;
                        self.step(facts)
                    } else {
                        Vec::new()
                    }
                } else if none && is_unfocus {
                    if input_shown && code == 3 {
                        self.page = Page::NeedName { input_shown: false };
                        vec![SetupAction::Sound(SE_DECIDE), SetupAction::QueryName]
                    } else if input_shown && code == 4 {
                        self.quit()
                    } else {
                        Vec::new()
                    }
                } else if none && is_get_string {
                    vec![SetupAction::SendName]
                } else if primary && is_button_up && input_shown {
                    self.page = Page::NeedName { input_shown: false };
                    vec![SetupAction::Sound(SE_DECIDE), SetupAction::QueryName]
                } else {
                    Vec::new()
                }
            },
            Page::NeedSteamAuth { button_shown } => {
                if primary {
                    if button_shown {
                        self.page = Page::NeedSteamAuth { button_shown: false };
                        vec![SetupAction::Sound(SE_DECIDE), SetupAction::RemoveBrowserButton, SetupAction::StartSteamAuth]
                    } else {
                        Vec::new()
                    }
                } else if go_back {
                    facts.auth = AuthStatus::Failed;
                    let mut r = vec![SetupAction::Sound(SE_CANCEL)];
                    let mut rest = self.step(facts);
                    r.append(&mut rest);
                    r
                } else {
                    match e {
                        SetupEvent::Tick { steam_done, .. } => if none && steam_done {
                            self.step(facts)
                        } else {
                            Vec::new()
                        },
                        _ => Vec::new(),
                    }
                }
            },
            Page::Start => Vec::new(),
        };
        assert(r@ =~= spec_on_event(*old(self), *old(facts), e, intent).2);
        r
    }
}

/// The connecting page never outlasts the log-in: once the client is no longer
/// trying, the next frame shows another page or leaves for the main menu.
pub proof fn law_connecting_ends_with_the_log_in(m: SetupMenu, facts: SetupFacts, name_answer: u8, steam_done: bool)
    requires
        m.page == Page::Connecting,
        !(facts.auth is Trying),
    ensures
        ({
            let (m2, _, acts) = spec_on_event(m, facts, SetupEvent::Tick { name_answer, steam_done }, None);
            m2.page != Page::Connecting || (acts.len() > 0 && acts.last() == SetupAction::SwitchToMainMenu)
        }),
{
}

/// Backing out of the Steam log-in gives it up: the log-in counts as failed,
/// and the menu does not ask for it again (it shows another page or leaves for
/// the main menu).
pub proof fn law_backing_out_of_steam_gives_up(m: SetupMenu, facts: SetupFacts, e: SetupEvent)
    requires
        m.page is NeedSteamAuth,
        is_up(e),
        m.downed,
    ensures
        ({
            let (m2, f2, acts) = spec_on_event(m, facts, e, Some(MenuIntent::GoBack));
            &&& f2.auth is Failed
            &&& (!(m2.page is NeedSteamAuth) || (acts.len() > 0 && acts.last() == SetupAction::SwitchToMainMenu))
        }),
{
}

} // verus!
