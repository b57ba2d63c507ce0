use banki::paste::{paste_object, paste_tile, PasteOccupant};
use banki::undo::ObjectID;

fn occ(id: ObjectID, types: u32, deletable: bool, x: i32, y: i32, tile: u8) -> PasteOccupant {
    PasteOccupant { id, types, deletable, x, y, tile }
}

#[test]
fn pasted_tile_deletes_what_shares_a_layer() {
    let cell = vec![
        occ(ObjectID::SubObject(0, 7), 1, true, 3, 4, 2),
        occ(ObjectID::Object(5), 1, true, 3, 4, 0),
        occ(ObjectID::Object(6), 2, false, 3, 4, 0),
        occ(ObjectID::SubObject(8, 1), 3, true, 3, 4, 0),
    ];
    assert_eq!(paste_tile(&cell, 1), Some(vec![ObjectID::Object(5), ObjectID::SubObject(8, 1)]));
}

#[test]
fn pasted_tile_refused_by_what_cannot_be_deleted() {
    let cell = vec![occ(ObjectID::Object(5), 1, true, 0, 0, 0), occ(ObjectID::Object(6), 4, false, 0, 0, 0)];
    assert_eq!(paste_tile(&cell, 5), None);
    assert_eq!(paste_tile(&Vec::new(), 5), Some(vec![]));
}

#[test]
fn pasted_object_clears_tiles_and_deletes_objects() {
    let under = vec![
        occ(ObjectID::SubObject(0, 7), 1, true, 3, 4, 2),
        occ(ObjectID::SubObject(0, 8), 2, true, 4, 4, 9),
        occ(ObjectID::Object(5), 1, true, 3, 4, 0),
        occ(ObjectID::Object(6), 2, false, 4, 4, 0),
    ];
    let (deleted, cleared) = paste_object(&under, 1, false).unwrap();
    assert_eq!(deleted, vec![ObjectID::Object(5)]);
    assert_eq!(cleared, vec![(3, 4, 2)]);
}

#[test]
fn pasted_object_refused() {
    let under = vec![occ(ObjectID::Object(6), 2, false, 4, 4, 0)];
    assert_eq!(paste_object(&under, 2, false), None);
    assert_eq!(paste_object(&Vec::new(), 2, true), None);
    // Part of object 0 never blocks, whatever it says of deletion.
    let tile = vec![occ(ObjectID::SubObject(0, 1), 2, false, 0, 0, 3)];
    assert_eq!(paste_object(&tile, 2, false), Some((vec![], vec![(0, 0, 3)])));
}

use banki::context_menu::{merge_items, offers_delete, selection_menu, ContextMenuItem, NO_FOCUS};

fn sprites(items: &[ContextMenuItem]) -> Vec<(i32, usize)> {
    items
        .iter()
        .map(|i| match i {
            ContextMenuItem::LabeledIcon(s, _, _) => (*s, 0),
            ContextMenuItem::IconList(v, h) => (v[0] * 100 + v.len() as i32, *h),
        })
        .collect()
}

#[test]
fn merged_entries_keep_shared_choices() {
    let a = vec![
        ContextMenuItem::LabeledIcon(7, "seven", 1),
        ContextMenuItem::IconList(vec![3, 4, 5], 1),
        ContextMenuItem::LabeledIcon(9, "nine", 1),
    ];
    let b = vec![ContextMenuItem::IconList(vec![3, 4, 5], 2), ContextMenuItem::LabeledIcon(7, "other", 2)];
    let m = merge_items(&a, &b);
    assert_eq!(sprites(&m), vec![(7, 0), (303, NO_FOCUS)]);
    match &m[0] {
        ContextMenuItem::LabeledIcon(_, label, colour) => {
            assert_eq!(*label, "seven");
            assert_eq!(*colour, 1);
        }
        _ => panic!("expected a labelled entry"),
    }
}

#[test]
fn selection_menu_folds_every_object() {
    let lists = vec![
        vec![ContextMenuItem::LabeledIcon(7, "a", 1), ContextMenuItem::LabeledIcon(8, "b", 1)],
        vec![ContextMenuItem::LabeledIcon(8, "c", 1), ContextMenuItem::LabeledIcon(7, "d", 1)],
        vec![ContextMenuItem::LabeledIcon(8, "e", 1)],
    ];
    assert_eq!(sprites(&selection_menu(lists)), vec![(8, 0)]);
    let emptied = vec![
        vec![ContextMenuItem::LabeledIcon(7, "a", 1)],
        vec![ContextMenuItem::LabeledIcon(8, "b", 1)],
        vec![ContextMenuItem::LabeledIcon(7, "c", 1)],
    ];
    assert!(selection_menu(emptied).is_empty());
    assert!(selection_menu(vec![]).is_empty());
    let single = vec![vec![ContextMenuItem::LabeledIcon(5, "a", 1)]];
    assert_eq!(sprites(&selection_menu(single)), vec![(5, 0)]);
}

#[test]
fn selection_offers_delete() {
    let can = vec![false, true, false];
    assert!(offers_delete(&vec![ObjectID::Object(2), ObjectID::Object(1)], &can));
    assert!(!offers_delete(&vec![ObjectID::Object(2), ObjectID::Object(0)], &can));
    assert!(offers_delete(&vec![ObjectID::SubObject(0, 4)], &can));
    assert!(!offers_delete(&vec![], &can));
}
