use banki::controls::get;
use banki::editor::EditorIntent;
use banki::input::{RawInput, NO_MODIFIER};
use banki::move_tool::{finish_move, move_valid, MovedObject, MovedPart, MovedTile, Occupant};
use banki::undo::{ObjectID, UndoAction};

#[test]
fn default_controls() {
    let map = get();
    assert_eq!(map.bindings.len(), 16 + 10 + 4 + 28);
    let b = &map.bindings[0];
    assert_eq!(b.intent, EditorIntent::Primary);
    assert_eq!(b.input.main, RawInput::Mouse(1));
    let one = &map.bindings[16];
    assert_eq!(one.intent, EditorIntent::SetToolFromRow(0));
    assert_eq!(one.input.main, RawInput::Key(49));
    let zero = &map.bindings[25];
    assert_eq!(zero.intent, EditorIntent::SetToolFromRow(9));
    assert_eq!(zero.input.main, RawInput::Key(48));
    let f4 = &map.bindings[29];
    assert_eq!(f4.intent, EditorIntent::SetToolRow(3));
    assert_eq!(f4.input.main, RawInput::Key(115));
    let undo = map.bindings.iter().find(|b| b.intent == EditorIntent::UseTool(4)).unwrap();
    assert_eq!(undo.input.main, RawInput::Key(90));
    assert_eq!(undo.input.modifiers, [17, NO_MODIFIER, NO_MODIFIER, NO_MODIFIER]);
    let redo = map.bindings.iter().filter(|b| b.intent == EditorIntent::UseTool(5)).count();
    assert_eq!(redo, 3);
    let cut = map.bindings.last().unwrap();
    assert_eq!(cut.intent, EditorIntent::Cut);
}

fn occ(x: i32, y: i32, id: ObjectID, types: u32) -> Occupant {
    Occupant { x, y, id, types }
}

#[test]
fn moves_collide_with_what_stays() {
    let objects = vec![MovedObject { id: 3, types: 1, cells: vec![(0, 0), (1, 0)] }];
    let parts: Vec<MovedPart> = vec![];
    let tiles: Vec<MovedTile> = vec![];
    let others = vec![occ(2, 0, ObjectID::Object(4), 1), occ(5, 5, ObjectID::Object(4), 1)];
    assert!(move_valid(&objects, &parts, &tiles, &others, 0, 1));
    assert!(!move_valid(&objects, &parts, &tiles, &others, 1, 0));
    let itself = vec![occ(1, 0, ObjectID::Object(3), 1)];
    assert!(move_valid(&objects, &parts, &tiles, &itself, 1, 0));
    let other_layer = vec![occ(2, 0, ObjectID::Object(4), 2)];
    assert!(move_valid(&objects, &parts, &tiles, &other_layer, 1, 0));
    let tile = vec![MovedTile { x: 0, y: 0, tile: 5, types: 1, target_refuses: true }];
    let tile_there = vec![occ(1, 1, ObjectID::SubObject(0, 9), 1)];
    assert!(!move_valid(&vec![], &parts, &tile, &tile_there, 1, 1));
    let tile_ok = vec![MovedTile { x: 0, y: 0, tile: 5, types: 1, target_refuses: false }];
    assert!(move_valid(&vec![], &parts, &tile_ok, &tile_there, 1, 1));
    let part = vec![MovedPart { id: 6, sid: 1, types: 8, x: 0, y: 0 }];
    let part_there = vec![occ(0, 1, ObjectID::SubObject(6, 0), 8)];
    assert!(!move_valid(&vec![], &part, &vec![], &part_there, 0, 1));
    let self_part = vec![occ(0, 1, ObjectID::SubObject(6, 1), 8)];
    assert!(move_valid(&vec![], &part, &vec![], &self_part, 0, 1));
}

#[test]
fn finishing_moves() {
    let objects = vec![MovedObject { id: 3, types: 1, cells: vec![(0, 0)] }];
    let parts = vec![MovedPart { id: 6, sid: 1, types: 8, x: 0, y: 0 }];
    let tiles = vec![MovedTile { x: 4, y: 4, tile: 5, types: 1, target_refuses: false }];
    let placed = vec![(true, 0u8)];
    let r = finish_move::<(), ()>(&objects, &parts, &tiles, &placed, true, 2, -1, true);
    assert_eq!((r.dx, r.dy), (2, -1));
    assert!(r.add_frame);
    assert_eq!(r.undo.len(), 4);
    assert!(matches!(r.undo[0], UndoAction::SetTile(4, 4, 5)));
    assert!(matches!(r.undo[1], UndoAction::MoveObject(ObjectID::Object(3), -2, 1)));
    assert!(matches!(r.undo[2], UndoAction::MoveObject(ObjectID::SubObject(6, 1), -2, 1)));
    assert!(matches!(r.undo[3], UndoAction::SetTile(6, 3, 0)));
    assert_eq!(r.selection, vec![ObjectID::Object(3), ObjectID::SubObject(6, 1)]);
    assert_eq!(r.selected_tiles, vec![(6, 3)]);
    let refused = finish_move::<(), ()>(&objects, &parts, &tiles, &vec![(false, 0)], false, 2, -1, false);
    assert_eq!((refused.dx, refused.dy), (0, 0));
    assert!(!refused.add_frame);
    assert_eq!(refused.undo.len(), 3);
    assert!(refused.selection.is_empty());
}
