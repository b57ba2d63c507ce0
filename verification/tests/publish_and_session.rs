use banki::publish_menu::{
    neighbour, publish_outcome, published_id, result_page_item, select_target, tag_item, tag_page, toggle_tag,
    Action, Dir, Publish, PublishAction, PublishOutcome, PublishPage, Tag, FIRST, NONE, NO_OUTCOME, PUBLISH_FAILED,
};
use banki::session::{
    begin_session, logged_in, on_full_response, on_login_response, same_token, session_failed, AuthStatus, Error,
    FullResponse, LoginResponse, QueryStep, SessionStep,
};
use banki::sound::{SE_CANCEL, SE_DECIDE, SE_NOT};

#[test]
fn tags_toggle_and_length_tags_exclude_each_other() {
    let (t, set) = toggle_tag(0, Tag::Short);
    assert!(set);
    assert_eq!(t, Tag::Short.bit());
    let (t, set) = toggle_tag(t, Tag::Long);
    assert!(set);
    assert_eq!(t, Tag::Long.bit());
    let (t2, set) = toggle_tag(t, Tag::Long);
    assert!(!set);
    assert_eq!(t2, 0);
    let (a, _) = toggle_tag(5, Tag::Music);
    let (b, _) = toggle_tag(a, Tag::Music);
    assert_eq!(b, 5);
    assert!(Tag::Troll.mandatory());
    assert!(!Tag::Music.mandatory());
}

#[test]
fn tag_page_layout() {
    let page = tag_page(&[false, true, false, false, false, false, false, false, false]);
    assert_eq!(page.len(), 10);
    assert_eq!(page[0].action, Action::ToggleTag(Tag::SpeedrunTechniques));
    assert_eq!(page[1].action, Action::NoAction);
    assert_eq!(page[0].y, 76);
    assert_eq!(page[3].y, 116);
    assert_eq!(page[4].x, 180);
    assert_eq!(page[6].down, 9);
    assert_eq!(page[9].action, Action::Publish);
    assert_eq!(page[9].up, 7);
    assert_eq!(tag_item(0, Tag::Hax, false).left, NONE);
    assert_eq!(tag_item(2, Tag::Hax, false).right, NONE);
    assert_eq!(neighbour(&page, 4, Dir::Up), 1);
    assert_eq!(neighbour(&page, NONE, Dir::Up), FIRST);
    assert_eq!(select_target(FIRST), Some(0));
    assert_eq!(select_target(NONE), None);
    assert_eq!(select_target(3), Some(3));
    assert_eq!(result_page_item(Action::Menu).width, 500);
}

#[test]
fn publish_outcomes() {
    assert_eq!(publish_outcome(NO_OUTCOME), PublishOutcome::Pending);
    assert_eq!(publish_outcome(PUBLISH_FAILED), PublishOutcome::Failed);
    assert_eq!(publish_outcome(0x123456), PublishOutcome::Published(0x123456));
    assert_eq!(published_id(7), Some(7));
    assert_eq!(published_id(u32::MAX - 1), None);
}

#[test]
fn publish_menu_flow() {
    let mut p = Publish::new(0);
    assert_eq!(p.page, PublishPage::Blank);
    assert_eq!(p.selected_item, NONE);
    p.page_1(&[true, false, false, false, false, false, false, false, false]);
    assert_eq!(p.page, PublishPage::Tags);
    assert_eq!(p.items.len(), 10);
    assert_eq!(p.tags & Tag::SpeedrunTechniques.bit(), Tag::SpeedrunTechniques.bit());
    assert!(p.select_hide(FIRST).is_some());
    assert_eq!(p.selected_item, 0);
    assert_eq!(p.act(Action::NoAction), vec![PublishAction::Sound(SE_NOT)]);
    p.select(6);
    let acts = p.act(Action::ToggleTag(Tag::Short));
    assert_eq!(acts, vec![PublishAction::SetPressed(7, false), PublishAction::SetPressed(6, true), PublishAction::Sound(SE_DECIDE)]);
    let acts = p.act(Action::ToggleTag(Tag::Short));
    assert_eq!(acts, vec![PublishAction::SetPressed(6, false), PublishAction::Sound(SE_CANCEL)]);
    let acts = p.act(Action::Publish);
    assert_eq!(acts, vec![PublishAction::Sound(SE_DECIDE), PublishAction::StartUpload]);
    assert_eq!(p.page, PublishPage::Loading);
    assert_eq!(p.items.len(), 0);
    p.page_fail();
    assert_eq!(p.items[0].action, Action::Editor);
    p.clear();
    p.page_success(0xabc);
    assert_eq!(p.page, PublishPage::Succeeded(0xabc));
    assert_eq!(p.act(Action::Menu), vec![PublishAction::Sound(SE_DECIDE), PublishAction::SwitchToMainMenu]);
    assert_eq!(p.act(Action::Editor), vec![PublishAction::Sound(SE_CANCEL), PublishAction::SwitchToEditor]);
}

#[test]
fn sessions_are_asked_for_in_turn() {
    let mut st = AuthStatus::NotTried;
    assert!(matches!(begin_session(&mut st, 5), SessionStep::LogIn));
    assert!(matches!(st, AuthStatus::Trying));
    assert!(matches!(begin_session(&mut st, 5), SessionStep::Wait));
    let mut st = AuthStatus::NotTried;
    assert!(matches!(begin_session(&mut st, 0), SessionStep::Fail(Error::MalformedRequest)));
    let mut st = AuthStatus::Authed([3; 32]);
    assert!(matches!(begin_session(&mut st, 5), SessionStep::Ready(t) if t == [3; 32]));
    assert!(logged_in(&st));
    let mut st = AuthStatus::Failed;
    assert!(matches!(begin_session(&mut st, 5), SessionStep::Fail(Error::AuthFailure)));
    assert!(!logged_in(&st));
    let mut st = AuthStatus::NeedSteamAuth;
    session_failed(&mut st);
    assert!(matches!(st, AuthStatus::NeedSteamAuth));
    let mut st = AuthStatus::Trying;
    session_failed(&mut st);
    assert!(matches!(st, AuthStatus::Failed));
}

#[test]
fn login_answers() {
    let mut st = AuthStatus::Trying;
    let o = on_login_response(&mut st, LoginResponse::OutOfDate, None);
    assert!(o.out_of_date);
    assert!(matches!(o.result, Err(Error::AuthFailure)));
    let o = on_login_response(&mut st, LoginResponse::BadData, None);
    assert!(matches!(o.result, Err(Error::MalformedRequest)));
    let o = on_login_response(&mut st, LoginResponse::BadToken, None);
    assert!(matches!(o.result, Err(Error::AuthFailure)));
    assert!(matches!(st, AuthStatus::NeedSteamAuth));
    let o = on_login_response(
        &mut st,
        LoginResponse::Accepted { auth_token: [1; 32], session_token: [2; 32], user_name: String::new() },
        Some([1; 32]),
    );
    assert!(matches!(o.result, Ok(t) if t == [2; 32]));
    assert!(o.need_name);
    assert_eq!(o.save_token, None);
    assert!(matches!(st, AuthStatus::Authed(t) if t == [2; 32]));
    let o = on_login_response(
        &mut st,
        LoginResponse::Accepted { auth_token: [9; 32], session_token: [2; 32], user_name: "Reimu".to_string() },
        Some([1; 32]),
    );
    assert!(!o.need_name);
    assert_eq!(o.save_token, Some([9; 32]));
}

#[test]
fn refused_sessions_are_retried() {
    let mut st = AuthStatus::Authed([4; 32]);
    let r = on_full_response::<u32>(&mut st, FullResponse::BadAuth);
    assert!(matches!(r, QueryStep::Retry));
    assert!(matches!(st, AuthStatus::NotTried));
    assert!(matches!(begin_session(&mut st, 9), SessionStep::LogIn));
    let r = on_full_response::<u32>(&mut st, FullResponse::BadRequest);
    assert!(matches!(r, QueryStep::Fail(Error::MalformedRequest)));
    let r = on_full_response::<u32>(&mut st, FullResponse::Answer(7, vec![]));
    assert!(matches!(r, QueryStep::Done(7, _)));
    assert!(same_token(&[5; 32], &[5; 32]));
    let mut b = [5; 32];
    b[31] = 6;
    assert!(!same_token(&[5; 32], &b));
}

#[test]
fn toggling_touches_only_its_pair() {
    let music = Tag::Music.bit();
    let long = Tag::Long.bit();
    let short = Tag::Short.bit();
    let (t, set) = toggle_tag(music | long, Tag::Short);
    assert!(set);
    assert_eq!(t, music | short);
    let (t, set) = toggle_tag(t, Tag::Short);
    assert!(!set);
    assert_eq!(t, music);
    let (t, _) = toggle_tag(music | short, Tag::Hax);
    assert_eq!(t, music | short | Tag::Hax.bit());
}
