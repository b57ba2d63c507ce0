use banki::input::{button_event, key_event};
use banki::clip_records::{parse_records, push_object_record, push_tile_record, tile_offset, ClipRecord};
use banki::discord::{announce_level, character_emoji, escape_discord};
use banki::input::{normalize_key, record_button, record_key, ModInput, RawInput, NO_MODIFIER};
use banki::level_stats::{is_me, LevelStats, PersonalBest, SelfLevelItem, Vote};
use banki::text::{is_control, is_whitespace, push_decimal, trim};

#[test]
fn mod_inputs() {
    let mut keys = [0u64; 8];
    record_key(&mut keys, 17, true);
    record_key(&mut keys, 16, true);
    let m = ModInput::new(RawInput::Key(90), &keys);
    assert_eq!(m.main, RawInput::Key(90));
    assert_eq!(m.modifiers, [16, 17, NO_MODIFIER, NO_MODIFIER]);
    assert_eq!(m, ModInput::from_key_ctrl_shift(90));
    record_key(&mut keys, 16, false);
    assert_eq!(ModInput::new(RawInput::Key(90), &keys), ModInput::from_key_ctrl(90));
    record_key(&mut keys, 17, false);
    assert_eq!(keys, [0; 8]);
    assert_eq!(ModInput::new(RawInput::Key(90), &keys), ModInput::from_key(90));
    let mut held = keys;
    record_key(&mut held, 90, true);
    assert_eq!(ModInput::new(RawInput::Key(90), &held), ModInput::from_key(90));
    record_key(&mut held, 600, true);
    let mut buttons = [0u64; 4];
    record_button(&mut buttons, 3, true);
    let b = ModInput::new(RawInput::ControllerButton(5), &buttons);
    assert_eq!(b.modifiers, [3, NO_MODIFIER, NO_MODIFIER, NO_MODIFIER]);
    assert_eq!(ModInput::from(RawInput::Mouse(1)).modifiers, [NO_MODIFIER; 4]);
    assert_eq!(ModInput::default().main, RawInput::default());
}

#[test]
fn key_codes_fold_left_and_right() {
    assert_eq!(normalize_key(160), 16);
    assert_eq!(normalize_key(161), 16);
    assert_eq!(normalize_key(162), 17);
    assert_eq!(normalize_key(165), 18);
    assert_eq!(normalize_key(65), 65);
}

#[test]
fn clip_records_round_trip() {
    let mut buf = vec![];
    push_tile_record(&mut buf, -1, 300, 9);
    assert!(push_object_record(&mut buf, 12, &[7; 3]));
    assert!(!push_object_record(&mut buf, 12, &[7; 256]));
    assert_eq!(buf, vec![255, 255, 255, 44, 1, 9, 12, 3, 7, 7, 7]);
    let (records, stalled) = parse_records(&buf);
    assert!(!stalled);
    assert!(matches!(records[0], ClipRecord::Tile { x: -1, y: 300, tile: 9 }));
    assert!(matches!(&records[1], ClipRecord::Object { kind: 12, payload } if payload.len() == 3));
    let (_, stalled) = parse_records(&[12, 5, 1]);
    assert!(stalled);
    assert_eq!(tile_offset(70000, 0), 70000i32 as i16);
    assert_eq!(tile_offset(3, 5), -2);
}

#[test]
fn texts() {
    assert_eq!(trim("  a b \t\n"), "a b");
    assert_eq!(trim("   "), "");
    assert_eq!(trim("\u{3000}x\u{2028}"), "x");
    assert!(is_whitespace('\u{a0}'));
    assert!(!is_whitespace('a'));
    assert!(is_control('\u{7f}'));
    assert!(!is_control(' '));
    for c in ['\t', ' ', '\u{85}', '\u{2009}', 'x', '\u{200b}', '\u{feff}'] {
        assert_eq!(is_whitespace(c), c.is_whitespace());
        assert_eq!(is_control(c), c.is_control());
    }
    let mut s = String::new();
    push_decimal(&mut s, 9007199254740993);
    assert_eq!(s, "9007199254740993");
}

#[test]
fn discord_escaping() {
    assert_eq!(escape_discord("a_b*c"), "a\\_b\\*c");
    assert_eq!(escape_discord("[x](y)"), "[x]\u{200b}(y)");
    assert_eq!(escape_discord("@everyone #general"), "@\u{200b}everyone #\u{200b}general");
    assert_eq!(escape_discord("a\tb\u{1}c"), "a bc");
    assert_eq!(character_emoji(2), "HeadCirno:1360591988747010140");
    assert_eq!(character_emoji(3), "");
    assert_eq!(
        announce_level(1, "Lv_1", "ABC", "Me", 42),
        "<@&1360562630309314660>\nNew level: <:HeadBanki:1360591984267628634> **Lv\\_1** (ABC)\nBy: [Me](<https://steamdb.info/calculator/42/>)"
    );
}

#[test]
fn level_stats() {
    let mut s = LevelStats::new(77);
    assert_eq!(s.self_id(), 77);
    assert!(is_me(77, 0));
    assert!(is_me(77, 77));
    assert!(!is_me(77, 78));
    assert_eq!(s.pb(1), None);
    assert_eq!(s.likes(1), 0);
    assert_eq!(s.get_vote(1), Vote::NoVote);
    s.set_time(1, 5, 900);
    assert_eq!(s.wr(1), Some(900));
    assert_eq!(s.pb(1), None);
    s.set_time(1, 77, 1000);
    assert_eq!(s.wr(1), Some(900));
    assert_eq!(s.pb(1), Some(1000));
    s.set_time(1, 0, 800);
    assert_eq!(s.wr(1), Some(800));
    assert_eq!(s.pb(1), Some(800));
    s.set_time(1, 77, 850);
    assert_eq!(s.pb(1), Some(800));
    s.set_likes(1, 4);
    assert_eq!(s.likes(1), 4);
    s.set_vote(1, Vote::Like);
    assert_eq!(s.get_vote(1), Vote::Like);
    let mut t = LevelStats::new(77);
    t.read_initial(
        &vec![SelfLevelItem { id: 2, wr_holder: 9, wr_time: 300, likes: 6 }],
        &vec![PersonalBest { level: 2, time: 400, vote: Vote::Like }, PersonalBest { level: 3, time: 50, vote: Vote::NoVote }],
    );
    assert_eq!(t.wr(2), Some(300));
    assert_eq!(t.pb(2), Some(400));
    assert_eq!(t.likes(2), 6);
    assert_eq!(t.get_vote(2), Vote::Like);
    assert_eq!(t.wr(3), Some(50));
}

#[test]
fn best_times_over_a_history() {
    let mut s = LevelStats::new(77);
    let calls: [(u32, u64, u32); 6] = [(5, 3, 900), (5, 77, 800), (5, 0, 850), (5, 3, 700), (6, 77, 100), (5, 77, 750)];
    for (level, user, time) in calls {
        s.set_time(level, user, time);
    }
    // The record is the least time of anyone; the best only counts the player's.
    assert_eq!(s.wr(5), Some(700));
    assert_eq!(s.pb(5), Some(750));
    assert_eq!(s.wr(6), Some(100));
    assert_eq!(s.pb(6), Some(100));
    assert_eq!(s.wr(7), None);
    assert_eq!(s.pb(7), None);
}

#[test]
fn recorded_inputs_match_the_shortcuts() {
    assert_eq!(ModInput::new(RawInput::Key(65), &[0u64; 2]), ModInput::from(RawInput::Key(65)));
    assert_eq!(ModInput::new(RawInput::ControllerButton(3), &[0u64; 4]), ModInput::from(RawInput::ControllerButton(3)));
    assert_eq!(ModInput::new(RawInput::Key(65), &[1u64 << 17]), ModInput::from_key_ctrl(65));
    assert_eq!(ModInput::new(RawInput::Key(65), &[(1u64 << 16) | (1u64 << 17)]), ModInput::from_key_ctrl_shift(65));
}

#[test]
fn likes_read_the_last_record() {
    let mut s = LevelStats::new(77);
    assert_eq!(s.likes(5), 0);
    s.set_likes(5, 3);
    s.set_time(5, 77, 100);
    s.set_vote(5, Vote::Like);
    s.set_likes(6, 9);
    assert_eq!(s.likes(5), 3);
    s.set_likes(5, 7);
    assert_eq!(s.likes(5), 7);
    assert_eq!(s.likes(6), 9);
}

#[test]
fn key_and_button_events() {
    let mut keys = [0u64; 8];
    let ctrl = key_event(&mut keys, 162, true);
    assert_eq!(ctrl, ModInput::from_key(17));
    assert_eq!(keys[0], 1u64 << 17);
    assert_eq!(key_event(&mut keys, 65, true), ModInput::from_key_ctrl(65));
    assert_eq!(keys[1], 1u64 << 1);
    key_event(&mut keys, 163, false);
    key_event(&mut keys, 65, false);
    assert_eq!(keys, [0u64; 8]);
    // Codes from 512 on are recorded but not tracked.
    assert_eq!(key_event(&mut keys, 600, true), ModInput::from_key(600));
    assert_eq!(keys, [0u64; 8]);
    let mut buttons = [0u64; 4];
    assert_eq!(button_event(&mut buttons, 70, true), ModInput::from(RawInput::ControllerButton(70)));
    assert_eq!(buttons[1], 1u64 << 6);
    let r = button_event(&mut buttons, 3, true);
    assert_eq!(r.modifiers, [70, u32::MAX, u32::MAX, u32::MAX]);
}
