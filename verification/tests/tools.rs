use banki::level_cells::{CellObject, Layers, LevelCells};
use banki::tools::{
    sort_ids, spike_extent, CannonDirection, PairedObject, PairedPlacement, Place, SimplePlacement, SpikeRow, Symbol,
    TileSplit, ToolCannon, ToolChandelier, ToolCursor, ToolDelete, ToolExtraHead, ToolFlipper, ToolMochi,
    ToolOnmyoudamaCrawl, ToolOnmyoudamaShoot, ToolPairedObject, ToolPan, ToolSelect, ToolSimple, ToolSpike,
    ToolSymbol, ToolTile, ToolTileSplit,
};
use banki::sound::{SE_CHANDELIER1, SE_CHANDELIER2, SE_HEADPLUS, SE_HOLD, SE_MESSAGE, SE_MOCHI2, SE_WARP};
use banki::undo::ObjectID;

fn layers() -> Layers {
    Layers {
        block: 1,
        immutable_block: 2,
        immutable_block_upper: 4,
        immutable_block_lower: 8,
        chandelier: 16,
        extra_head: 32,
        onmyoudama_shoot: 64,
        onmyoudama_crawl: 128 | 1,
        moving_platform: 256,
        warp: 512,
        teleporter: 1024,
        symbol: 2048,
        flipper: 4096,
        physics_object_full: 8192,
    }
}

fn level(objs: &[(i32, i32, u32)]) -> LevelCells {
    LevelCells { objects: objs.iter().map(|&(x, y, types)| CellObject { x, y, types }).collect() }
}

#[test]
fn type_matches_and_block_at() {
    let l = level(&[(1, 2, 5), (3, 3, 1)]);
    assert!(l.any_type_match(1, 2, 4));
    assert!(!l.any_type_match(1, 2, 2));
    assert!(!l.any_type_match(2, 2, 5));
    assert!(l.block_at(3, 3, 129, 1));
    assert!(!l.block_at(1, 2, 2, 1));
}

#[test]
fn simple_placements() {
    let ly = layers();
    let l = level(&[(0, 0, ly.block)]);
    assert_eq!(ToolMochi {}.use_start(&l, 0, 0, &ly), None);
    assert_eq!(ToolMochi {}.use_start(&l, 1, 0, &ly), Some(Place { x: 1, y: 0, sound: SE_MOCHI2 }));
    assert_eq!(ToolExtraHead {}.use_start(&l, 0, 0, &ly), Some(Place { x: 0, y: 0, sound: SE_HEADPLUS }));
    assert_eq!(ToolOnmyoudamaShoot {}.use_start(&l, 0, 0, &ly), Some(Place { x: 0, y: 0, sound: SE_HOLD }));
    let c = level(&[(4, 4, ly.chandelier)]);
    assert_eq!(ToolChandelier {}.use_start(&c, 5, 4, &ly), None);
    assert_eq!(ToolChandelier {}.use_start(&c, 4, 4, &ly), None);
    assert_eq!(ToolChandelier {}.use_start(&c, 7, 4, &ly), Some(Place { x: 6, y: 4, sound: SE_CHANDELIER2 }));
    assert!(ToolCursor {}.can_be_used_zoomed_out());
    assert!(!ToolPan {}.clear_selection());
    assert!(ToolSelect {}.can_be_used_zoomed_out());
    assert_eq!(ToolSelect {}.sound(2, 3), Some(SE_MESSAGE));
    assert_eq!(ToolSelect {}.sound(2, 2), None);
}

#[test]
fn paired_objects() {
    let ly = layers();
    let l = level(&[(3, 0, ly.warp)]);
    let warp = ToolPairedObject { object: PairedObject::Warp };
    assert_eq!(warp.use_start(&l, 2, 0, &ly, false), PairedPlacement::Blocked);
    assert_eq!(warp.use_start(&l, 4, 0, &ly, false), PairedPlacement::At(4, 0));
    let tele = ToolPairedObject { object: PairedObject::Teleporter };
    assert_eq!(tele.use_start(&l, 10, 0, &ly, true), PairedPlacement::Refused);
    assert_eq!(tele.use_start(&l, 10, 0, &ly, false), PairedPlacement::At(10, 0));
    assert_eq!(PairedObject::MovingPlatform.types(&ly), 256);
    assert_eq!(PairedObject::Teleporter.sound(), Some(SE_WARP));
    assert_eq!(PairedObject::MovingPlatform.sound(), None);
}

#[test]
fn spikes_span_free_cells() {
    let ly = layers();
    let l = level(&[(2, 5, ly.immutable_block_lower), (9, 5, ly.immutable_block_lower)]);
    assert_eq!(spike_extent(&l, 5, 5, 0, ly.immutable_block_lower), (3, 6));
    assert_eq!(spike_extent(&l, 5, 5, 20, ly.immutable_block_lower), (5, 9));
    assert_eq!(spike_extent(&l, 5, 5, 7, ly.immutable_block_lower), (5, 8));
    assert_eq!(spike_extent(&l, 5, 5, 5, ly.immutable_block_lower), (5, 6));
    assert_eq!(spike_extent(&l, 5, 5, 0, ly.immutable_block_upper), (0, 6));
}

#[test]
fn spike_drags() {
    let ly = layers();
    let l = level(&[(2, 5, ly.immutable_block_lower)]);
    let mut t = ToolSpike::new();
    assert!(!t.block_context_menu());
    let p = t.use_start(&l, 5, 5, false, &ly).unwrap();
    assert_eq!((p.lep, p.count, p.down), (5, 1, false));
    assert!(t.block_context_menu());
    let p = t.use_frame(&l, 0, false, &ly).unwrap();
    assert_eq!((p.lep, p.count, p.down, p.sound), (3, 3, false, true));
    assert_eq!(t.use_frame(&l, 0, false, &ly), None);
    let row = t.use_end().unwrap();
    assert_eq!(row, SpikeRow { y: 5, lep: 3, count: 3, down: false, sound: Some(SE_CHANDELIER1) });
    assert_eq!(t.use_end(), None);
    let both = level(&[(1, 1, ly.immutable_block_lower | ly.immutable_block_upper)]);
    assert_eq!(t.use_start(&both, 1, 1, false, &ly), None);
    let only_down = level(&[(1, 1, ly.immutable_block_lower)]);
    let p = t.use_start(&only_down, 1, 1, false, &ly).unwrap();
    assert!(p.down);
}

#[test]
fn flippers_need_room() {
    let ly = layers();
    let t = ToolFlipper::new();
    assert_eq!(t.use_start(&level(&[]), 0, 0, &ly), Some((0, 0, 0)));
    assert_eq!(t.use_start(&level(&[(-2, -1, ly.physics_object_full)]), 0, 0, &ly), None);
    assert_eq!(t.use_start(&level(&[(2, 0, ly.physics_object_full)]), 0, 0, &ly), Some((0, 0, 0)));
    assert_eq!(t.use_start(&level(&[(0, 0, ly.flipper)]), 0, 0, &ly), None);
    assert_eq!(t.use_start(&level(&[(1, 0, ly.flipper)]), 0, 0, &ly), Some((0, 0, 0)));
    assert_eq!(t.use_start(&level(&[(0, -1, ly.flipper)]), 0, 0, &ly), Some((0, 0, 0)));
    let mut t2 = t;
    t2.handle_context_menu_action(3);
    assert_eq!(t2.spikes, 3);
}

#[test]
fn crawlers_find_faces() {
    let ly = layers();
    let t = ToolOnmyoudamaCrawl { direction: false };
    let l = level(&[(0, 1, ly.block), (1, 0, ly.block)]);
    assert_eq!(t.use_start(&l, 0, 0, &ly), Some([true, false, false, true]));
    let occupied = level(&[(0, 0, ly.onmyoudama_crawl)]);
    assert_eq!(t.use_start(&occupied, 0, 0, &ly), None);
    let mut t2 = t;
    t2.handle_context_menu_action(true);
    assert_eq!(t2.context_menu_selection(), 0);
    assert_eq!(t.context_menu_selection(), 1);
}

#[test]
fn symbols_point_at_the_cursor() {
    let mut t = ToolSymbol::new();
    assert_eq!(t.use_new_tile(0, 0), None);
    t.placed(4, 10, 10);
    assert!(t.undirected);
    assert_eq!(t.use_new_tile(10, 10), Some(Symbol::Circle));
    assert_eq!(t.use_new_tile(9, 9), Some(Symbol::ArrowUL));
    assert_eq!(t.use_new_tile(11, 9), Some(Symbol::ArrowUR));
    assert_eq!(t.use_new_tile(10, 11), Some(Symbol::ArrowD));
    assert_eq!(t.use_new_tile(9, 10), Some(Symbol::ArrowL));
    assert!(t.use_end());
    assert!(!t.use_end());
    t.placed(4, 0, 0);
    t.pointed();
    assert!(!t.use_end());
    let ly = layers();
    assert!(!t.can_place(&level(&[(0, 0, ly.symbol)]), 0, 0, &ly));
}

#[test]
fn cannons_turn_while_held() {
    let mut c = ToolCannon::new();
    assert!(!c.use_frame(CannonDirection::Up, CannonDirection::Left));
    c.placed(3);
    assert!(c.use_frame(CannonDirection::Up, CannonDirection::Left));
    assert!(!c.use_frame(CannonDirection::Up, CannonDirection::Up));
    assert!(c.use_end());
    assert!(!c.use_end());
    c.handle_context_menu_action(true);
    assert_eq!(c.context_menu_selection(), 1);
    let ly = layers();
    assert!(!c.can_place(&level(&[(0, 0, ly.immutable_block)]), 0, 0, &ly));
}

#[test]
fn deletion_order() {
    let ids = vec![
        ObjectID::SubObject(2, 1),
        ObjectID::Object(5),
        ObjectID::SubObject(0, 7),
        ObjectID::Object(1),
        ObjectID::SubObject(2, 0),
    ];
    let sorted = sort_ids(&ids);
    assert_eq!(sorted, vec![
        ObjectID::Object(1),
        ObjectID::Object(5),
        ObjectID::SubObject(0, 7),
        ObjectID::SubObject(2, 0),
        ObjectID::SubObject(2, 1),
    ]);
    assert_eq!(ToolDelete {}.use_start(&ids), sorted);
    assert_eq!(ToolDelete {}.sound(0), None);
    assert_eq!(ToolDelete {}.sound(2), Some(SE_HOLD));
}

#[test]
fn simple_objects_and_variants() {
    let ly = layers();
    let t = ToolSimple::new(7);
    let l = level(&[(0, 0, 2)]);
    assert_eq!(t.use_start(&l, 0, 0, true, true, 2), SimplePlacement::Refused);
    assert_eq!(t.use_start(&l, 0, 0, false, true, 2), SimplePlacement::Blocked);
    assert_eq!(t.use_start(&l, 1, 0, false, false, 2), SimplePlacement::At(1, 0));
    assert_eq!(t.use_new_tile(&l, 1, 0, true, false, 2), None);
    assert_eq!(t.context_menu_selection(&vec![7]), None);
    assert_eq!(t.context_menu_selection(&vec![3, 7, 7]), Some(1));
    assert_eq!(t.context_menu_selection(&vec![3, 4]), Some(usize::MAX));
    let mut t2 = t;
    t2.handle_context_menu_action(&vec![3, 4], &vec![100, 200], 200);
    assert_eq!(t2.object, 4);
    t2.handle_context_menu_action(&vec![3, 4], &vec![100, 200], 300);
    assert_eq!(t2.object, 4);
    let _ = ly;
}

#[test]
fn tiles_and_splits() {
    let mut t = ToolTile::new(20);
    assert_eq!(t.tile(), 20);
    assert_eq!(t.context_menu_selection(20), Some(0));
    assert_eq!(t.context_menu_selection(30), None);
    t.handle_context_menu_action(20, 3);
    assert_eq!(t.tile(), 23);
    let s = ToolTileSplit {};
    assert_eq!(s.split_at(true, true, 0, 0, 0, 0), None);
    assert_eq!(s.split_at(false, true, 2, 3, 4, 5), Some(TileSplit { x: 2, y: 5, vertical: false }));
    assert_eq!(s.split_at(true, false, 2, 3, 4, 5), Some(TileSplit { x: 3, y: 4, vertical: true }));
    let mut splits = vec![];
    assert!(s.add_split(&mut splits, TileSplit { x: 1, y: 1, vertical: true }));
    assert!(!s.add_split(&mut splits, TileSplit { x: 1, y: 1, vertical: true }));
    assert_eq!(splits.len(), 1);
}
