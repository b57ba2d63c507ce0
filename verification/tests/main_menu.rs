use banki::main_menu::{level_badges, Badge};
use banki::main_menu::relink_my_levels;
use banki::main_menu::{
        browse_grey_out, browse_sub_page_links, relink_browse, selection_marker, EntryOutline, MarkerKind,
    };
use banki::main_menu::{
    back_entry, clicked, id_query, page_links, press, resume_page, save_on_leave, scroll_limit, step_selection,
    tab_query, time_text, BrowseTab, ClickFacts, Confirmable, LevelOrdering, Links, MenuAction, MenuIntent,
    MenuState, SaveKind, SubMenu, Way, NO_ENTRY,
};
use banki::sound::{SE_CANCEL, SE_DECIDE, SE_MESSAGE, SE_NOT, SE_STAGEDECIDE};

fn state(sub_menu: SubMenu, selection: usize) -> MenuState {
    MenuState {
        sub_menu,
        selection,
        selected_level: NO_ENTRY,
        camera_anim_ticks: 0,
        current_browse_tab: BrowseTab::New,
        confirm_action: Confirmable::Nothing,
        searching: false,
        move_selected_level_into_view: false,
        quitting: false,
    }
}

fn facts(logged_in: bool, own: Option<Vec<u32>>, results: Vec<bool>) -> ClickFacts {
    ClickFacts { logged_in, own_levels: own, results_can_vote: results, vote_pending: false, cursor_shown: false }
}

#[test]
fn time_text_examples() {
    assert_eq!(time_text(0), "0:00.00");
    assert_eq!(time_text(59), "0:00.98");
    assert_eq!(time_text(60), "0:01.00");
    assert_eq!(time_text(61), "0:01.02");
    assert_eq!(time_text(3661), "1:01.02");
    assert_eq!(time_text(359999), "99:59.98");
    assert_eq!(time_text(360000), "99:59.99");
    assert_eq!(time_text(u32::MAX), "99:59.99");
}

#[test]
fn main_page_links_and_steps() {
    let links = page_links(SubMenu::Main);
    assert_eq!(links.len(), 7);
    assert_eq!(step_selection(&links, NO_ENTRY, Way::Down), 0);
    assert_eq!(step_selection(&links, 0, Way::Right), 1);
    assert_eq!(step_selection(&links, 0, Way::Left), 0);
    assert_eq!(step_selection(&links, 1, Way::Right), 4);
    assert_eq!(step_selection(&links, 4, Way::Down), 5);
    assert_eq!(step_selection(&links, 5, Way::Down), 6);
    assert_eq!(page_links(SubMenu::Quit).len(), 0);
    assert_eq!(page_links(SubMenu::Browse)[0], Links::new().attach_right(4).attach_down(7));
}

#[test]
fn every_page_link_stays_on_its_page() {
    for menu in [SubMenu::Main, SubMenu::Create, SubMenu::NewLevel, SubMenu::LevelExtra, SubMenu::Confirm] {
        let links = page_links(menu);
        for l in &links {
            for to in [l.left, l.right, l.up, l.down] {
                assert!(to < links.len() || to == NO_ENTRY);
            }
        }
    }
}

#[test]
fn back_entries() {
    assert_eq!(back_entry(SubMenu::Main), 2);
    assert_eq!(back_entry(SubMenu::Create), 3);
    assert_eq!(back_entry(SubMenu::NewLevel), 1);
    assert_eq!(back_entry(SubMenu::Browse), 0);
    assert_eq!(back_entry(SubMenu::Confirm), NO_ENTRY);
}

#[test]
fn clicking_create_goes_to_the_own_levels() {
    let mut st = state(SubMenu::Main, 0);
    let acts = clicked(&mut st, &facts(false, None, vec![]));
    assert_eq!(acts, vec![MenuAction::Sound(SE_DECIDE), MenuAction::Transition(SubMenu::Main, SubMenu::Create)]);
    assert_eq!(st.sub_menu, SubMenu::Create);
    assert_eq!(st.camera_anim_ticks, 60);
}

#[test]
fn browsing_needs_a_log_in() {
    let mut st = state(SubMenu::Main, 1);
    let acts = clicked(&mut st, &facts(false, None, vec![]));
    assert_eq!(acts, vec![MenuAction::Sound(SE_NOT)]);
    assert_eq!(st.sub_menu, SubMenu::Main);

    let mut st = state(SubMenu::Main, 1);
    let acts = clicked(&mut st, &facts(true, None, vec![]));
    assert_eq!(acts[0], MenuAction::Sound(SE_DECIDE));
    assert_eq!(acts[1], MenuAction::LoadBrowseResults);
    assert_eq!(st.sub_menu, SubMenu::Browse);
    assert!(st.searching);
}

#[test]
fn quitting_from_the_main_page() {
    let mut st = state(SubMenu::Main, 2);
    let acts = clicked(&mut st, &facts(true, None, vec![]));
    assert_eq!(acts, vec![MenuAction::Sound(SE_CANCEL), MenuAction::BlackTransition]);
    assert_eq!(st.sub_menu, SubMenu::Quit);
    assert!(st.quitting);
    assert_eq!(st.camera_anim_ticks, 120);
}

#[test]
fn opening_an_own_level() {
    let mut st = state(SubMenu::Create, 1);
    st.selected_level = 1;
    let acts = clicked(&mut st, &facts(true, Some(vec![7, u32::MAX]), vec![]));
    assert_eq!(acts, vec![
        MenuAction::Sound(SE_STAGEDECIDE),
        MenuAction::BlackTransition,
        MenuAction::LoadLevel { level: 1, play: true, nine_heads: false },
        MenuAction::Wait(120),
    ]);
    assert_eq!(st.camera_anim_ticks, u32::MAX);

    let mut st = state(SubMenu::Create, 2);
    st.selected_level = 5;
    let acts = clicked(&mut st, &facts(true, Some(vec![7]), vec![]));
    assert_eq!(acts, vec![MenuAction::Sound(SE_NOT)]);
}

#[test]
fn selecting_an_own_level_by_its_entry() {
    let mut st = state(SubMenu::Create, 7);
    let acts = clicked(&mut st, &facts(true, Some(vec![1, 2, 3]), vec![]));
    assert_eq!(acts, vec![MenuAction::Sound(SE_MESSAGE), MenuAction::ShowOwnLevels]);
    assert_eq!(st.selected_level, 2);
    assert!(st.move_selected_level_into_view);
}

#[test]
fn unpublishing_needs_a_published_level() {
    let mut st = state(SubMenu::LevelExtra, 2);
    st.selected_level = 0;
    let acts = clicked(&mut st, &facts(true, Some(vec![u32::MAX]), vec![]));
    assert_eq!(acts, vec![MenuAction::Sound(SE_NOT)]);

    let mut st = state(SubMenu::LevelExtra, 2);
    st.selected_level = 0;
    let acts = clicked(&mut st, &facts(true, Some(vec![42]), vec![]));
    assert_eq!(acts, vec![MenuAction::Sound(SE_DECIDE)]);
    assert_eq!(st.sub_menu, SubMenu::Confirm);
    assert_eq!(st.confirm_action, Confirmable::UnpublishLevel);

    st.selection = 1;
    let acts = clicked(&mut st, &facts(true, Some(vec![42]), vec![]));
    assert_eq!(acts, vec![MenuAction::Sound(SE_DECIDE), MenuAction::UnpublishLevel(0)]);
    assert_eq!(st.confirm_action, Confirmable::Nothing);
    assert_eq!(st.sub_menu, SubMenu::Create);
}

#[test]
fn deleting_asks_for_confirmation() {
    let mut st = state(SubMenu::LevelExtra, 3);
    st.selected_level = 0;
    let f = facts(false, Some(vec![9]), vec![]);
    clicked(&mut st, &f);
    assert_eq!(st.confirm_action, Confirmable::DeleteLevel(0));
    st.selection = NO_ENTRY;
    let acts = clicked(&mut st, &f);
    assert_eq!(acts, vec![MenuAction::Sound(SE_CANCEL)]);
    assert_eq!(st.sub_menu, SubMenu::Create);
    assert_eq!(st.confirm_action, Confirmable::DeleteLevel(0));
}

#[test]
fn browse_tabs_and_votes() {
    let mut st = state(SubMenu::Browse, 5);
    st.searching = true;
    let acts = clicked(&mut st, &facts(true, None, vec![true]));
    assert_eq!(acts, vec![
        MenuAction::Sound(SE_DECIDE),
        MenuAction::SwitchBrowseTab(BrowseTab::New, BrowseTab::Top),
        MenuAction::LoadBrowseResults,
    ]);
    assert_eq!(st.current_browse_tab, BrowseTab::Top);

    let mut st = state(SubMenu::Browse, 4);
    let acts = clicked(&mut st, &facts(true, None, vec![]));
    assert!(acts.is_empty());

    let mut st = state(SubMenu::Browse, 3);
    st.selected_level = 0;
    let acts = clicked(&mut st, &facts(true, None, vec![true]));
    assert_eq!(acts, vec![MenuAction::Sound(SE_DECIDE), MenuAction::Vote(0)]);
    let mut f = facts(true, None, vec![true]);
    f.vote_pending = true;
    let acts = clicked(&mut st, &f);
    assert_eq!(acts, vec![MenuAction::Sound(SE_NOT)]);
}

#[test]
fn browse_results_and_id_page() {
    let mut st = state(SubMenu::Browse, 8);
    let acts = clicked(&mut st, &facts(true, None, vec![false, false]));
    assert_eq!(acts, vec![MenuAction::Sound(SE_MESSAGE), MenuAction::ShowResult(1)]);
    assert_eq!(st.selected_level, 1);

    let mut st = state(SubMenu::Browse, 7);
    st.current_browse_tab = BrowseTab::ById;
    let acts = clicked(&mut st, &facts(true, None, vec![]));
    assert_eq!(acts, vec![MenuAction::Sound(SE_MESSAGE), MenuAction::FocusIdEntry]);
    st.selection = 8;
    let acts = clicked(&mut st, &facts(true, None, vec![]));
    assert_eq!(acts, vec![MenuAction::QueryId]);
}

#[test]
fn pressing_intents() {
    let links = page_links(SubMenu::Main);
    let mut st = state(SubMenu::Main, 0);
    let acts = press(&mut st, &links, &facts(true, None, vec![]), MenuIntent::SelectRight);
    assert_eq!(acts, vec![MenuAction::ShowSelection]);
    assert_eq!(st.selection, 1);

    let acts = press(&mut st, &links, &facts(true, None, vec![]), MenuIntent::GoBack);
    assert_eq!(st.selection, 2);
    assert_eq!(acts[0], MenuAction::Sound(SE_CANCEL));
    assert!(st.quitting);

    let mut st = state(SubMenu::Create, 4);
    let links: Vec<Links> = page_links(SubMenu::Create).into_iter().chain([Links::new().attach_up(4)]).collect();
    let acts = press(&mut st, &links, &facts(true, Some(vec![1]), vec![]), MenuIntent::Secondary);
    assert!(acts.is_empty() || acts == vec![MenuAction::ShowSelection]);

    let mut st = state(SubMenu::Create, 5);
    let acts = press(&mut st, &links, &facts(true, Some(vec![1]), vec![]), MenuIntent::Secondary);
    assert_eq!(acts, vec![MenuAction::ShowOwnLevels, MenuAction::Sound(SE_DECIDE), MenuAction::ShowSelection]);
    assert_eq!(st.sub_menu, SubMenu::LevelExtra);
    assert_eq!(st.selected_level, 0);
}

#[test]
fn leaving_and_coming_back() {
    assert_eq!(save_on_leave(SubMenu::Quit), None);
    assert_eq!(save_on_leave(SubMenu::LevelExtra), Some(SaveKind::MyLevels));
    for menu in [SubMenu::Main, SubMenu::Create, SubMenu::Browse] {
        assert_eq!(resume_page(save_on_leave(menu).unwrap()), menu);
    }
}

#[test]
fn scrolling_limits_and_queries() {
    assert_eq!(scroll_limit(SubMenu::Create, 3), Some(0));
    assert_eq!(scroll_limit(SubMenu::Create, 4), Some(30));
    assert_eq!(scroll_limit(SubMenu::Browse, 4), Some(26));
    assert_eq!(scroll_limit(SubMenu::Main, 4), None);
    assert_eq!(tab_query(BrowseTab::ById), None);
    let q = tab_query(BrowseTab::Top).unwrap();
    assert_eq!(q.order, LevelOrdering::Top);
    assert_eq!(q.id, u32::MAX);
    assert_eq!(q.characters, 0xff);
    assert_eq!(id_query(u32::MAX), None);
    assert_eq!(id_query(12).unwrap().id, 12);
}

#[test]
fn level_entry_badges() {
    // Puzzle piece (512) and troll (2) tags, Seija lacking items 1 and 3, a
    // world record, no best time, published and logged in.
    let b = level_badges(512 | 2, true, 0b0101, Some(1234), None, 17, true);
    assert_eq!(
        b,
        vec![
            (45, 30, Badge::PuzzlePiece),
            (65, 31, Badge::Troll),
            (107, 31, Badge::SeijaLacks(1)),
            (117, 31, Badge::SeijaLacks(3)),
            (183, 17, Badge::WorldRecord(1234)),
            (24, 33, Badge::Likes),
        ]
    );
    // Not Seija: her flags draw nothing; unpublished levels show no likes.
    let b = level_badges(1 | 4, false, 0, None, Some(99), u32::MAX, true);
    assert_eq!(
        b,
        vec![(55, 31, Badge::SpeedrunTechniques), (75, 31, Badge::Hax), (183, 30, Badge::PersonalBest(99))]
    );
    assert!(level_badges(0, false, 0, None, None, 5, false).is_empty());
}

fn blank_links(n: usize) -> Vec<Links> {
    (0..n).map(|_| Links::new()).collect()
}

#[test]
fn my_levels_relinked_by_scroll() {
    let mut l = blank_links(8);
    relink_my_levels(&mut l, 3, 0);
    assert_eq!((l[5].left, l[5].right), (3, 0));
    assert_eq!((l[6].left, l[6].right), (4, 0));
    assert_eq!((l[7].left, l[7].right), (4, 1));
    assert_eq!((l[0].left, l[1].left, l[3].right, l[4].left), (5, 7, 5, 7));
    assert_eq!(l[2], Links::new());

    let mut l = blank_links(8);
    relink_my_levels(&mut l, 3, 100);
    assert_eq!((l[5].left, l[6].left, l[7].left, l[7].right), (3, 3, 4, 0));
    assert_eq!((l[0].left, l[1].left, l[3].right, l[4].left), (6, 7, 6, 7));

    let mut l = blank_links(8);
    relink_my_levels(&mut l, 3, -200);
    assert_eq!((l[5].left, l[5].right), (4, 1));
    assert_eq!((l[0].left, l[1].left, l[3].right, l[4].left), (NO_ENTRY, NO_ENTRY, NO_ENTRY, NO_ENTRY));
}

#[test]
fn browse_page_links_and_marks() {
    let mut l = blank_links(9);
    relink_browse(&mut l, 1);
    assert_eq!((l[3].right, l[1].left), (8, 8));
    relink_browse(&mut l, usize::MAX);
    assert_eq!((l[3].right, l[1].left), (usize::MAX, usize::MAX));

    let by_id = browse_sub_page_links(BrowseTab::ById);
    assert_eq!(by_id, vec![Links::new().attach_up(6).attach_down(8), Links::new().attach_up(7)]);
    assert!(browse_sub_page_links(BrowseTab::Top).is_empty());

    assert_eq!(browse_grey_out(Some(true)), (false, false));
    assert_eq!(browse_grey_out(Some(false)), (true, false));
    assert_eq!(browse_grey_out(None), (true, true));

    assert_eq!(selection_marker(Some(EntryOutline::Rect(48))), Some((MarkerKind::Arrow, -3, 0)));
    assert_eq!(selection_marker(Some(EntryOutline::Rect(70))), Some((MarkerKind::Arrow, 3, 3)));
    assert_eq!(selection_marker(Some(EntryOutline::Rect(196))), Some((MarkerKind::Bar, 0, 0)));
    assert_eq!(selection_marker(Some(EntryOutline::Circle)), Some((MarkerKind::RoundFrame, -17, -17)));
    assert_eq!(selection_marker(Some(EntryOutline::Rect(50))), None);
    assert_eq!(selection_marker(None), None);
}
