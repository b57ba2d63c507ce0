use banki::command::{Character, Command};
use banki::level_stats::Vote;
use banki::main_menu::MenuIntent;
use banki::menu::{ErrorMenu, Menu, NotInEditor, GAME_MENU_ROOM};
use banki::play::{AfterPlay, Play, PlayingFrom, PrePublish, PrePublishPart, PrePublishStep, RunRecording};
use banki::session::AuthStatus;
use banki::setup_menu::{Page, SetupAction, SetupEvent, SetupFacts, SetupMenu, SetupText, EDITOR_ROOM};
use banki::sound::{set_bgm, SoundSwitch, SE_CANCEL, SE_DECIDE, SE_NOT};

fn facts(auth: AuthStatus) -> SetupFacts {
    SetupFacts { auth, out_of_date: false, need_update_name: false, no_warn_offline: false }
}

#[test]
fn setup_starts_blank() {
    let m = SetupMenu::new();
    assert!(m.page.is_start());
    assert!(!m.downed);
    assert!(!m.bad_name);
}

#[test]
fn setup_step_shows_the_page_for_the_status() {
    let mut m = SetupMenu::new();
    let acts = m.step(&facts(AuthStatus::Trying));
    assert_eq!(m.page, Page::Connecting);
    assert_eq!(acts, vec![SetupAction::Show { text: SetupText::Connecting, warning: false }, SetupAction::ShowThrobber]);

    let acts = m.step(&facts(AuthStatus::Failed));
    assert_eq!(m.page, Page::NotConnected);
    assert_eq!(acts[0], SetupAction::ClearScreen);
    assert_eq!(acts[1], SetupAction::Show { text: SetupText::NotConnected, warning: true });

    let mut f = facts(AuthStatus::NotTried);
    f.out_of_date = true;
    m.step(&f);
    assert_eq!(m.page, Page::OutOfDate);

    let mut m = SetupMenu::new();
    let acts = m.step(&facts(AuthStatus::Authed([1; 32])));
    assert_eq!(acts, vec![SetupAction::SwitchToMainMenu]);

    let mut f = facts(AuthStatus::Authed([1; 32]));
    f.need_update_name = true;
    let mut m = SetupMenu::new();
    m.bad_name = true;
    let acts = m.step(&f);
    assert_eq!(m.page, Page::NeedName { input_shown: true });
    assert_eq!(acts[1], SetupAction::Sound(SE_NOT));

    let mut m = SetupMenu::new();
    let acts = m.step(&facts(AuthStatus::NeedSteamAuth));
    assert_eq!(m.page, Page::NeedSteamAuth { button_shown: true });
    assert_eq!(acts.last(), Some(&SetupAction::ShowBrowserButton));
}

#[test]
fn setup_no_warn_offline_skips_the_page() {
    let mut f = facts(AuthStatus::Failed);
    f.no_warn_offline = true;
    let mut m = SetupMenu::new();
    assert_eq!(m.step(&f), vec![SetupAction::SwitchToMainMenu]);
    assert_eq!(m.page, Page::Start);
}

#[test]
fn setup_events() {
    let mut m = SetupMenu::new();
    let mut f = facts(AuthStatus::Failed);
    m.step(&f);
    assert!(m.on_event(&mut f, SetupEvent::KeyDown, None).is_empty());
    assert!(m.downed);
    let acts = m.on_event(&mut f, SetupEvent::KeyUp, Some(MenuIntent::Primary));
    assert_eq!(acts, vec![SetupAction::Sound(SE_DECIDE), SetupAction::GotoRoom(EDITOR_ROOM), SetupAction::SwitchToMainMenu]);
    let acts = m.on_event(&mut f, SetupEvent::KeyUp, Some(MenuIntent::GoBack));
    assert_eq!(acts, vec![SetupAction::Sound(SE_CANCEL), SetupAction::FadeOut, SetupAction::SwitchToGame]);
    assert_eq!(m.page, Page::Start);

    let mut m = SetupMenu::new();
    let mut f = facts(AuthStatus::Trying);
    m.step(&f);
    assert!(m.on_event(&mut f, SetupEvent::Tick { name_answer: 0, steam_done: false }, None).is_empty());
    f.auth = AuthStatus::Authed([0; 32]);
    let acts = m.on_event(&mut f, SetupEvent::Tick { name_answer: 0, steam_done: false }, None);
    assert_eq!(acts, vec![SetupAction::ClearScreen, SetupAction::SwitchToMainMenu]);
}

#[test]
fn setup_name_answers() {
    let mut f = facts(AuthStatus::Authed([2; 32]));
    f.need_update_name = true;
    let mut m = SetupMenu::new();
    m.step(&f);
    assert_eq!(m.on_event(&mut f, SetupEvent::GetString, None), vec![SetupAction::SendName]);
    let acts = m.on_event(&mut f, SetupEvent::InputUnfocus(3), None);
    assert_eq!(acts, vec![SetupAction::Sound(SE_DECIDE), SetupAction::QueryName]);
    assert_eq!(m.page, Page::NeedName { input_shown: false });
    m.on_event(&mut f, SetupEvent::Tick { name_answer: 2, steam_done: false }, None);
    assert!(m.bad_name);
    assert_eq!(m.page, Page::NeedName { input_shown: true });
    let acts = m.on_event(&mut f, SetupEvent::Tick { name_answer: 1, steam_done: false }, None);
    assert!(!f.need_update_name);
    assert_eq!(acts.last(), Some(&SetupAction::SwitchToMainMenu));
    let acts = m.on_event(&mut f, SetupEvent::Tick { name_answer: 3, steam_done: false }, None);
    assert!(matches!(f.auth, AuthStatus::Failed) || acts.is_empty());
}

#[test]
fn setup_backing_out_of_steam() {
    let mut f = facts(AuthStatus::NeedSteamAuth);
    let mut m = SetupMenu::new();
    m.step(&f);
    m.on_event(&mut f, SetupEvent::ButtonDown, None);
    let acts = m.on_event(&mut f, SetupEvent::ButtonUp, Some(MenuIntent::GoBack));
    assert!(matches!(f.auth, AuthStatus::Failed));
    assert_eq!(acts[0], SetupAction::Sound(SE_CANCEL));
    assert_eq!(m.page, Page::NotConnected);
}

#[test]
fn setup_steam_button() {
    let mut f = facts(AuthStatus::NeedSteamAuth);
    let mut m = SetupMenu::new();
    m.step(&f);
    m.on_event(&mut f, SetupEvent::MouseDown, None);
    let acts = m.on_event(&mut f, SetupEvent::MouseUp, Some(MenuIntent::Primary));
    assert_eq!(acts, vec![SetupAction::Sound(SE_DECIDE), SetupAction::RemoveBrowserButton, SetupAction::StartSteamAuth]);
    assert!(m.on_event(&mut f, SetupEvent::MouseUp, Some(MenuIntent::Primary)).is_empty());
}

#[test]
fn play_new_and_recording() {
    let p = Play::new(PlayingFrom::Publish, false);
    assert!(!p.done);
    assert_eq!(p.level_id, u32::MAX);
    assert_eq!(p.recording(), RunRecording::Verification);
    assert_eq!(Play::new(PlayingFrom::BrowseLevels, false).recording(), RunRecording::Run);
    assert_eq!(Play::new(PlayingFrom::Editor, false).recording(), RunRecording::Off);
}

#[test]
fn play_shown_pb_and_like_button() {
    let p = Play::new(PlayingFrom::BrowseLevels, false);
    assert_eq!(p.shown_pb(true, None), 359999);
    assert_eq!(p.shown_pb(true, Some(1234)), 1234);
    assert_eq!(p.shown_pb(false, Some(1234)), 0);
    assert_eq!(p.like_button(false, true), 0);
    assert_eq!(p.like_button(true, true), -1);
    assert_eq!(p.like_button(false, false), -1);
}

#[test]
fn play_personal_bests_are_sent_only_when_beaten() {
    let mut p = Play::new(PlayingFrom::BrowseLevels, false);
    assert_eq!(p.on_level_complete(true, None, 500), Some(500));
    assert_eq!(p.pp, Some(true));
    assert_eq!(p.on_level_complete(false, Some(400), 500), None);
    assert_eq!(p.on_level_complete(false, Some(600), 500), Some(500));
    assert_eq!(p.on_level_complete(false, None, 0), None);
    let mut nine = Play::new(PlayingFrom::BrowseLevels, true);
    assert_eq!(nine.on_level_complete(true, None, 500), None);
    let mut ed = Play::new(PlayingFrom::Editor, false);
    assert_eq!(ed.on_level_complete(true, None, 500), None);
}

#[test]
fn play_likes_toggle() {
    let mut p = Play::new(PlayingFrom::BrowseLevels, false);
    assert_eq!(p.on_like(), Vote::Like);
    assert_eq!(p.on_like(), Vote::NoVote);
}

#[test]
fn play_room_loads() {
    let mut p = Play::new(PlayingFrom::Publish, false);
    assert_eq!(p.on_room_load(true), AfterPlay::Stay);
    assert!(p.reset);
    p.on_level_quit();
    assert_eq!(p.on_room_load(true), AfterPlay::EditorAfterAttempt);
    p.pp = Some(false);
    assert_eq!(p.on_room_load(true), AfterPlay::PrePublish);
    assert_eq!(p.on_room_load(false), AfterPlay::Publish);
    p.pp = Some(true);
    assert_eq!(p.on_room_load(true), AfterPlay::Publish);
    let mut m = Play::new(PlayingFrom::MyLevels, false);
    m.on_level_quit();
    assert_eq!(m.on_room_load(false), AfterPlay::MainMenu);
}

#[test]
fn play_leaving_a_test_run() {
    let mut p = Play::new(PlayingFrom::Editor, false);
    assert!(!p.on_release(false, Some(MenuIntent::Primary)));
    assert!(p.on_release(false, Some(MenuIntent::GoBack)));
    assert!(p.done);
    assert!(!p.on_release(true, None));
    let mut b = Play::new(PlayingFrom::BrowseLevels, false);
    assert!(!b.on_release(true, Some(MenuIntent::GoBack)));
}

#[test]
fn play_cursor_hides_after_thirty_frames() {
    let mut p = Play::new(PlayingFrom::Editor, false);
    assert!(p.on_mouse_move(true));
    assert!(!p.on_mouse_move(true));
    let mut hidden_at = None;
    for frame in 1..=40 {
        if p.on_tick() {
            hidden_at = Some(frame);
        }
    }
    assert_eq!(hidden_at, Some(30));
    let mut q = Play::new(PlayingFrom::BrowseLevels, false);
    assert!(!q.on_mouse_move(true));
}

#[test]
fn pre_publish_message_and_intents() {
    let p = PrePublish::new(true);
    assert_eq!(p.message(true), (vec![PrePublishPart::ClearRequired, PrePublishPart::Gap, PrePublishPart::PuzzlePieceRequired], 50));
    assert_eq!(p.message(false), (vec![PrePublishPart::ClearRequired], 50));
    let q = PrePublish::new(false);
    assert_eq!(q.message(true), (vec![PrePublishPart::PuzzlePieceRequired], 100));
    assert_eq!(q.on_release(Some(MenuIntent::Primary)), PrePublishStep::Nothing);
    let mut r = PrePublish::new(false);
    r.on_press();
    assert_eq!(r.on_release(Some(MenuIntent::Primary)), PrePublishStep::Attempt);
    assert_eq!(r.on_release(Some(MenuIntent::Secondary)), PrePublishStep::Back);
    assert_eq!(r.on_release(Some(MenuIntent::GoBack)), PrePublishStep::Back);
    assert_eq!(r.on_release(Some(MenuIntent::SelectUp)), PrePublishStep::Nothing);
}

#[test]
fn menu_names() {
    assert_eq!(SetupMenu::new().name(), "Setup");
    assert_eq!(Play::new(PlayingFrom::Editor, false).name(), "Play");
    assert_eq!(PrePublish::new(true).name(), "PrePublish");
    assert_eq!(NotInEditor {}.name(), "NotInEditor");
    assert_eq!(ErrorMenu { message: String::new() }.name(), "Error");
}

#[test]
fn error_menu_logs_and_returns() {
    let e = ErrorMenu { message: "disk full".to_string() };
    let mut out = vec![];
    e.on_enter(&mut out);
    assert_eq!(out.len(), 2);
    assert!(matches!(&out[0], Command::Log(l) if l == "Error: disk full"));
    assert!(matches!(out[1], Command::GotoRoom(165)));
}

#[test]
fn not_in_editor_hands_back_the_game() {
    let mut out = vec![];
    NotInEditor {}.on_enter(&mut out);
    assert_eq!(out.len(), 4);
    assert!(matches!(out[0], Command::Number(0)));
    assert!(matches!(out[1], Command::SetMusic));
    assert!(matches!(out[2], Command::SetLevelData(Character::Banki)));
    assert!(matches!(out[3], Command::GotoRoom(r) if r == GAME_MENU_ROOM));
    assert!(NotInEditor {}.starts_setup(true));
}

#[test]
fn sounds_play_only_when_enabled() {
    let mut out = vec![];
    set_bgm(&mut out, 85);
    assert!(matches!(out[..], [Command::Number(85), Command::SetMusic]));
    let mut s = SoundSwitch::new();
    assert!(s.enabled());
    let mut out = vec![];
    s.play(&mut out, SE_DECIDE);
    assert_eq!(out.len(), 2);
    s.disable();
    s.play(&mut out, SE_DECIDE);
    assert_eq!(out.len(), 2);
    s.enable();
    s.play(&mut out, SE_NOT);
    assert!(matches!(out[2], Command::Number(18)));
    assert!(matches!(out[3], Command::PlaySound));
}
