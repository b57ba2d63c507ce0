use banki::level_stats::Vote;
use banki::main_menu::LevelOrdering;
use banki::server::{
    author_run_path, level_id_from, level_path, login_first_step, new_player_step, openid_message, order_column,
    request_answer, searches_by_id, seconds_since_epoch, start_of, stored_token_matches, token_pending,
    token_with_start, unpublished, valid_user_name, vote_code, vote_delta, vote_from_code, wr_run_path, wr_run_paths,
    LoginAnswer, NewPlayerStep, RequestAnswer, EPOCH,
};

#[test]
fn token_numbers_round_trip() {
    let t = token_with_start(&[0xaa; 32], 0x0102_0304_0506_0708);
    assert_eq!(&t[0..8], &[8, 7, 6, 5, 4, 3, 2, 1]);
    assert_eq!(t[8], 0xaa);
    assert_eq!(start_of(&t), 0x0102_0304_0506_0708);
    for s in [0i64, -1, i64::MIN, i64::MAX, 42] {
        assert_eq!(start_of(&token_with_start(&[0; 32], s)), s);
    }
    let mut raw = [0u8; 32];
    raw[0] = 1;
    assert_eq!(start_of(&raw), 1);
}

#[test]
fn stored_tokens() {
    let t = [7u8; 32];
    assert!(stored_token_matches(&t, Some(&t[..])));
    assert!(!stored_token_matches(&t, None));
    assert!(!stored_token_matches(&t, Some(&t[..31])));
    let mut u = t;
    u[3] = 0;
    assert!(!stored_token_matches(&t, Some(&u[..])));
}

#[test]
fn login_steps() {
    assert_eq!(login_first_step(false, 9, 1, true), LoginAnswer::BadData);
    assert_eq!(login_first_step(true, 0, 1, true), LoginAnswer::OutOfDate);
    assert_eq!(login_first_step(true, 1, 1, true), LoginAnswer::CheckToken);
    assert_eq!(login_first_step(true, 2, 1, false), LoginAnswer::CheckNewPlayer);
    assert_eq!(new_player_step(0), NewPlayerStep::Create);
    assert_eq!(new_player_step(1), NewPlayerStep::BadToken);
    assert_eq!(new_player_step(2), NewPlayerStep::Fault);
    assert_eq!(request_answer(false, true), RequestAnswer::BadRequest);
    assert_eq!(request_answer(true, false), RequestAnswer::BadAuth);
    assert_eq!(request_answer(true, true), RequestAnswer::Handle);
}

#[test]
fn openid_pages() {
    assert_eq!(openid_message(true, 1), "Logged in successfully.<br>You may return to the game.");
    assert_eq!(openid_message(false, 1), "Unable to log you in.");
    assert_eq!(openid_message(true, 0), "");
    assert_eq!(openid_message(false, 2), "");
    assert!(token_pending(Some(0)));
    assert!(!token_pending(Some(5)));
    assert!(!token_pending(None));
}

#[test]
fn votes() {
    assert_eq!(vote_code(Vote::Like), 1);
    assert_eq!(vote_code(Vote::NoVote), 0);
    assert_eq!(vote_from_code(1), Vote::Like);
    assert_eq!(vote_from_code(3), Vote::NoVote);
    assert_eq!(vote_delta(Vote::Like), 1);
    assert_eq!(vote_delta(Vote::NoVote), -1);
    for v in [Vote::Like, Vote::NoVote] {
        assert_eq!(vote_from_code(vote_code(v) as i64), v);
    }
}

#[test]
fn files_of_levels() {
    assert_eq!(level_path(0), "levels/000000");
    assert_eq!(level_path(0xabc), "levels/000abc");
    assert_eq!(level_path(0xffffff), "levels/ffffff");
    assert_eq!(level_path(0x1234567), "levels/1234567");
    assert_eq!(author_run_path(0x42), "author-runs/000042");
    assert_eq!(wr_run_path(0x10), "wr-runs/000010");
    assert_eq!(wr_run_paths(0x10), ("wr-runs/000010.tmp".to_string(), "wr-runs/000010".to_string()));
    assert_eq!(wr_run_paths(0x1234567), ("wr-runs/1234567.tmp".to_string(), "wr-runs/123456".to_string()));
    assert_eq!(level_id_from(0xdead_beef), 0xad_beef);
    assert_eq!(level_id_from(7), 7);
}

#[test]
fn searches_and_names() {
    assert_eq!(order_column(LevelOrdering::New), "publish_time");
    assert_eq!(order_column(LevelOrdering::Top), "likes");
    assert!(searches_by_id(5));
    assert!(!searches_by_id(u32::MAX));
    assert!(!valid_user_name("ab"));
    assert!(valid_user_name("abc"));
    assert!(valid_user_name("abcdefghijklmnopqrstuvwx"));
    assert!(!valid_user_name("abcdefghijklmnopqrstuvwxy"));
    assert!(valid_user_name("éé"));
    assert!(unpublished(1));
    assert!(!unpublished(0));
    assert!(!unpublished(2));
}

#[test]
fn server_time() {
    assert_eq!(seconds_since_epoch(EPOCH), 0);
    assert_eq!(seconds_since_epoch(EPOCH + 100), 100);
    assert_eq!(seconds_since_epoch(EPOCH - 1), u32::MAX);
    assert_eq!(seconds_since_epoch(EPOCH + (1u64 << 32) + 5), 5);
    assert!(banki::server::now().is_some());
}
