use banki::clipboard::{deflate_capacity, inflate_capacity};
use banki::clip_records::{parse_records, push_object_record, push_tile_record, ClipRecord};
use banki::clipboard::{copy_text, envelope_body, find, frame_compressed, paste_payload, paste_stage, push_le4, split_length};
use banki::server::server_time;

#[test]
fn finding_text() {
    let hay: Vec<char> = "abcabd".chars().collect();
    assert_eq!(find(&hay, &"abd".chars().collect()), Some(3));
    assert_eq!(find(&hay, &"ab".chars().collect()), Some(0));
    assert_eq!(find(&hay, &"x".chars().collect()), None);
    assert_eq!(find(&hay, &"abcabdx".chars().collect()), None);
}

#[test]
fn envelopes() {
    assert_eq!(envelope_body("xx<BANKI>ab c\nd</BANKI>yy"), Some("abcd".to_string()));
    assert_eq!(envelope_body("<BANKI>abc"), None);
    assert_eq!(envelope_body("</BANKI><BANKI>abc"), None);
    assert_eq!(envelope_body("<BANKI></BANKI>"), Some(String::new()));
}

#[test]
fn length_suffix() {
    let mut v = vec![9u8, 8];
    push_le4(&mut v, 0x0403_0201);
    assert_eq!(v, vec![9, 8, 1, 2, 3, 4]);
    assert_eq!(split_length(&v), Some((vec![9, 8], 0x0403_0201)));
    assert_eq!(split_length(&vec![1, 2, 3, 4]), None);
}

#[test]
fn copy_then_paste_gives_back_the_records() {
    let mut buf = vec![];
    push_tile_record(&mut buf, -2, 3, 17);
    assert!(push_object_record(&mut buf, 4, &[1, 2, 3]));
    let text = copy_text(&buf).unwrap();
    assert!(text.starts_with("<BANKI>") && text.ends_with("</BANKI>"));
    let back = paste_payload(&text).unwrap();
    assert_eq!(back, buf);
    let spaced = text.replace("<BANKI>", "<BANKI>\n ");
    assert_eq!(paste_payload(&spaced).unwrap(), buf);
    let (records, stalled) = parse_records(&back);
    assert!(!stalled);
    assert_eq!(records.len(), 2);
    assert!(matches!(records[0], ClipRecord::Tile { x: -2, y: 3, tile: 17 }));
    assert!(matches!(&records[1], ClipRecord::Object { kind: 4, payload } if payload == &vec![1, 2, 3]));
}

#[test]
fn nothing_to_copy_or_paste() {
    assert_eq!(copy_text(&vec![]), None);
    assert_eq!(paste_payload("hello"), None);
    assert_eq!(paste_payload("<BANKI>!!!!</BANKI>"), None);
    assert_eq!(paste_payload("<BANKI>AAAA</BANKI>"), None);
}

#[test]
fn framing_and_reading_back() {
    let t = frame_compressed(vec![1, 2, 3], 3).unwrap();
    assert_eq!(t, "<BANKI>AQIDAwAAAA</BANKI>");
    assert_eq!(paste_stage(&t), Some((vec![1, 2, 3], 3)));
    assert_eq!(paste_stage(" <BANKI> AQID\nAwAAAA </BANKI>"), Some((vec![1, 2, 3], 3)));
    assert_eq!(paste_stage("<BANKI>AQID</BANKI>"), None);
    assert_eq!(paste_stage("no tags"), None);
    assert_eq!(paste_stage("<BANKI>!!</BANKI>"), None);
}

#[test]
fn server_time_from_clock() {
    assert_eq!(server_time(None), None);
    assert_eq!(server_time(Some(1744544300)), Some(0));
    assert_eq!(server_time(Some(1744544310)), Some(10));
    assert_eq!(server_time(Some(1744544299)), Some(u32::MAX));
}

#[test]
fn room_given_to_flate2() {
    assert_eq!(deflate_capacity(0), 8);
    assert_eq!(deflate_capacity(100), 108);
    assert_eq!(inflate_capacity(0), 0);
    assert_eq!(inflate_capacity(4096), 4096);
    assert_eq!(inflate_capacity(0x10_0000), 0x10_0000);
    assert_eq!(inflate_capacity(u32::MAX), 0x10_0000);
}
