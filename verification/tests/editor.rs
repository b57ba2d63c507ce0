use banki::context_menu::hover_target;
use banki::editor::{tool_step, ToolChoice};
use banki::editor_settings::{head_label, music_after_theme_change, music_choice, settings_colours, settings_hover, SettingsFacts};
use banki::command::Character;
use banki::main_menu::likes_text;
use banki::editor::{top_bar_colour, top_bar_tool_at, zoom_tool};
use banki::context_menu::{ContextMenu, ContextMenuItem, ContextMenuState, Direction, MenuEvent, NO_FOCUS};
use banki::editor::{
    continuous_intent_at, dropdown_slot, menu_gets_event, next_tool_row, press_continuous, prev_tool_row,
    select_all_objects, small_tool_position, tick_continuous, tick_hold, tool_from_id, use_cursor_instead,
    dropped_from_selection, EditorIntent, MassDelete, ToolSlot, ToolUndo, CONTINUOUS_INTENTS, HOLD_FOR_CONTEXT,
    ROW_COUNT,
};
use banki::editor_settings::{
    button_colour, fewer_heads, flash_button, more_heads, navigate, settings_button, settings_key_step,
    settings_menu_row_size, theme_name_sprite, zoom_step, LevelTheme, MenuMove, SettingsAction, SettingsKeyStep,
    ZoomRequest,
};
use banki::sound::{SE_HEAD, SE_HEAD2};
use banki::undo::{reverse_move, ObjectID, UndoHistory};

#[test]
fn intent_discriminants() {
    assert_eq!(EditorIntent::CursorLeft.discriminant(), 0);
    assert_eq!(EditorIntent::PanDown.discriminant(), 7);
    assert_eq!(EditorIntent::Cut.discriminant(), 28);
    for k in 0..CONTINUOUS_INTENTS {
        assert_eq!(continuous_intent_at(k).discriminant(), k);
    }
}

#[test]
fn repeating_intents() {
    let mut c = [0u32; CONTINUOUS_INTENTS];
    assert!(press_continuous(&mut c, EditorIntent::PanUp, true));
    assert!(!press_continuous(&mut c, EditorIntent::Save, true));
    assert_eq!(c[6], 1);
    let again = tick_continuous(&mut c);
    assert_eq!(again, vec![EditorIntent::PanUp]);
    assert_eq!(c[6], 2);
    assert!(press_continuous(&mut c, EditorIntent::PanUp, false));
    assert!(tick_continuous(&mut c).is_empty());
}

#[test]
fn tool_ids_and_rows() {
    assert_eq!(tool_from_id(0), Some(ToolSlot::Move));
    assert_eq!(tool_from_id(5), Some(ToolSlot::Redo));
    assert_eq!(tool_from_id(7), None);
    assert_eq!(tool_from_id(10), Some(ToolSlot::Row(0, 0)));
    assert_eq!(tool_from_id(49), Some(ToolSlot::Row(3, 9)));
    assert_eq!(tool_from_id(50), None);
    assert_eq!(dropdown_slot(23), (2, 3));
    for r in 0..ROW_COUNT {
        assert_eq!(next_tool_row(prev_tool_row(r)), r);
    }
    assert_eq!(prev_tool_row(0), ROW_COUNT - 1);
    assert_eq!(next_tool_row(ROW_COUNT - 1), 0);
    assert_eq!(small_tool_position(3), (22, 21));
    assert_eq!(small_tool_position(0), (2, 2));
}

#[test]
fn undo_and_redo_tools() {
    let mut h: UndoHistory<u32> = UndoHistory::new();
    h.add_undo_frame(vec![1, 2]);
    h.close_frame();
    h.add_undo_frame(vec![3]);
    assert_eq!(h.undo_len(), 2);
    let undo = ToolUndo::undo();
    let redo = ToolUndo::redo();
    assert!(!undo.redoes());
    let f = undo.begin(&mut h).unwrap();
    assert_eq!(f.actions, vec![3]);
    assert_eq!(undo.finish(&mut h, vec![30]), SE_HEAD2);
    assert_eq!(h.redo_len(), 1);
    let g = redo.begin(&mut h).unwrap();
    assert_eq!(g.actions, vec![30]);
    assert_eq!(redo.finish(&mut h, vec![3]), SE_HEAD);
    assert_eq!(h.undo_len(), 2);
    assert_eq!(h.redo_len(), 0);
    assert!(redo.begin(&mut h).is_none());
    h.add_undo_frame(vec![9]);
    assert_eq!(h.redo_len(), 0);
    assert_eq!(reverse_move(ObjectID::Object(1), 3, -4), (ObjectID::Object(1), -3, 4));
}

#[test]
fn selections() {
    assert_eq!(select_all_objects(&vec![0, 0, 2, 0]), vec![
        ObjectID::Object(1),
        ObjectID::SubObject(2, 0),
        ObjectID::SubObject(2, 1),
        ObjectID::Object(3),
    ]);
    assert!(select_all_objects(&vec![5]).is_empty());
    let old = vec![ObjectID::Object(1), ObjectID::Object(2), ObjectID::SubObject(3, 0)];
    let new = vec![ObjectID::Object(2)];
    assert_eq!(dropped_from_selection(&old, &new), vec![ObjectID::Object(1), ObjectID::SubObject(3, 0)]);
    let mut md = MassDelete::new();
    assert!(!md.skips(ObjectID::SubObject(4, 1)));
    md.removed_whole(ObjectID::SubObject(4, 0));
    assert!(md.skips(ObjectID::SubObject(4, 1)));
    assert!(md.skips(ObjectID::Object(4)));
    assert!(!md.skips(ObjectID::Object(5)));
}

#[test]
fn holding_opens_the_context_menu() {
    let mut d = 0;
    let mut opened = 0;
    for _ in 0..HOLD_FOR_CONTEXT {
        let (nd, open) = tick_hold(true, d, false, false);
        d = nd;
        if open {
            opened += 1;
        }
    }
    assert_eq!(opened, 1);
    assert_eq!(tick_hold(false, d, false, false), (0, false));
    assert_eq!(tick_hold(true, HOLD_FOR_CONTEXT - 1, true, false), (HOLD_FOR_CONTEXT, false));
    assert!(use_cursor_instead(true, false));
    assert!(!use_cursor_instead(false, false));
    assert!(!menu_gets_event(true, true));
    assert!(menu_gets_event(true, false));
}

#[test]
fn settings_menu() {
    assert_eq!(settings_menu_row_size(0), 1);
    assert_eq!(settings_menu_row_size(3), 3);
    assert_eq!(settings_menu_row_size(4), 0);
    assert_eq!(settings_menu_row_size(2), 2);
    assert_eq!(navigate(0, 0, MenuMove::Left), (0, 1));
    assert_eq!(navigate(0, 1, MenuMove::Left), (0, 1));
    assert_eq!(navigate(0, 1, MenuMove::Right), (0, 0));
    assert_eq!(navigate(0, 1, MenuMove::Up), (4, 0));
    assert_eq!(navigate(4, 0, MenuMove::Down), (0, 1));
    assert_eq!(navigate(2, 1, MenuMove::Down), (3, 1));
    assert_eq!(settings_button(0, 0), SettingsAction::Save);
    assert_eq!(settings_button(2, 3), SettingsAction::Music(2));
    assert_eq!(settings_button(5, 5), SettingsAction::NoAction);
    assert_eq!(flash_button(SettingsAction::Publish, false), Some(18));
    assert_eq!(flash_button(SettingsAction::Publish, true), None);
    assert_eq!(fewer_heads(0), (0, false));
    assert_eq!(fewer_heads(3), (2, true));
    assert_eq!(more_heads(9, false), (9, false));
    assert_eq!(more_heads(9, true), (10, true));
    assert_eq!(button_colour(true, true), 0x808080);
    assert_eq!(button_colour(false, true), 0xf2d5e3);
    assert_eq!(theme_name_sprite(LevelTheme::Purple), (398, 0xa53f74));
    assert_eq!(theme_name_sprite(LevelTheme::Cirno), (713, 0xffffff));
    assert_eq!(settings_key_step(true, true, true, true), SettingsKeyStep::ClearPaste);
    assert_eq!(settings_key_step(false, false, true, true), SettingsKeyStep::ZoomIn);
    assert_eq!(settings_key_step(false, false, false, false), SettingsKeyStep::OpenMenu);
    assert_eq!(zoom_step(ZoomRequest::Toggle, false, false, false, true), Some(true));
    assert_eq!(zoom_step(ZoomRequest::Toggle, true, false, false, false), Some(false));
    assert_eq!(zoom_step(ZoomRequest::Out, false, false, false, false), None);
    assert_eq!(zoom_step(ZoomRequest::In, true, true, false, true), None);
}

#[test]
fn context_menu_lifecycle() {
    let mut m = ContextMenu::new();
    assert_eq!(m.state(), ContextMenuState::Closed);
    assert_eq!(m.handle_event(MenuEvent::Tick), (0, false));
    m.open(vec![ContextMenuItem::IconList(vec![10, 11, 12, 13, 14], 1), ContextMenuItem::LabeledIcon(20, "Delete", 0x5555ff)]);
    assert_eq!(m.state(), ContextMenuState::Opening(1));
    for _ in 0..4 {
        assert_eq!(m.handle_event(MenuEvent::Tick), (1, false));
    }
    assert_eq!(m.state(), ContextMenuState::Open);
    assert_eq!(m.handle_event(MenuEvent::ReleasePrimary), (1, false));
    assert_eq!(m.handle_event(MenuEvent::Press(Some(Direction::Down))), (1, true));
    assert_eq!(m.focus().0, 0);
    assert_eq!(m.handle_event(MenuEvent::Hover(1, 0)), (1, true));
    assert_eq!(m.handle_event(MenuEvent::ReleasePrimary), (-21, false));
    assert_eq!(m.state(), ContextMenuState::Closing(4));
    for _ in 0..5 {
        m.handle_event(MenuEvent::Tick);
    }
    assert_eq!(m.state(), ContextMenuState::Closed);
    assert_eq!(m.focus().0, NO_FOCUS);
}

#[test]
fn combining_menu_entries() {
    let a = ContextMenuItem::IconList(vec![1, 2], 0);
    let b = ContextMenuItem::IconList(vec![1, 2], 1);
    assert!(matches!(a.combine(&b), Some(ContextMenuItem::IconList(v, h)) if v == vec![1, 2] && h == NO_FOCUS));
    let c = ContextMenuItem::LabeledIcon(5, "x", 1);
    assert!(a.combine(&c).is_none());
    assert!(matches!(c.combine(&ContextMenuItem::LabeledIcon(5, "y", 2)), Some(ContextMenuItem::LabeledIcon(5, "x", 1))));
    assert_eq!(a.rows(), 1);
    assert_eq!(ContextMenuItem::IconList(vec![0; 5], 0).rows(), 2);
}

#[test]
fn top_bar_hit_testing() {
    let none4 = [false; 4];
    let none10 = [false; 10];
    let mut small = none4;
    small[2] = true;
    assert_eq!(top_bar_tool_at(true, false, &small, &none10, 1, &none4), Some(ToolSlot::Select));
    // Hidden bar: nothing under the mouse there.
    assert_eq!(top_bar_tool_at(false, false, &small, &none10, 1, &none4), None);
    let mut icons = none10;
    icons[7] = true;
    assert_eq!(top_bar_tool_at(true, false, &none4, &icons, 2, &none4), Some(ToolSlot::Row(2, 7)));
    let mut zoom = none4;
    zoom[2] = true;
    assert_eq!(top_bar_tool_at(false, true, &none4, &none10, 0, &zoom), None);
    zoom[3] = true;
    assert_eq!(top_bar_tool_at(false, true, &none4, &none10, 0, &zoom), Some(ToolSlot::Pan));
    assert_eq!(zoom_tool(0), ToolSlot::Select);
    assert_eq!(zoom_tool(2), ToolSlot::Undo);
    assert_eq!(top_bar_colour(true, true), 0xffff);
    assert_eq!(top_bar_colour(false, true), 0xf2d5e3);
    assert_eq!(top_bar_colour(false, false), 0xffffff);
}

#[test]
fn settings_menu_under_the_mouse() {
    assert_eq!(settings_hover(450, 30, 2), (0, 0));
    assert_eq!(settings_hover(200, 62, 2), (-1, 2));
    assert_eq!(settings_hover(170, 62, 0), (1, 2));
    assert_eq!(settings_hover(350, 62, 0), (1, 1));
    assert_eq!(settings_hover(250, 148, 0), (3, 2));
    assert_eq!(settings_hover(200, 218, 3), (4, 0));
    // Heights just above the menu round toward zero onto the first row.
    assert_eq!(settings_hover(450, 0, 1), (0, 0));
    assert_eq!(settings_hover(450, -90, 1), (-2, 0));
}

#[test]
fn settings_menu_colours() {
    let f = SettingsFacts {
        name_focused: false,
        can_undo: false,
        can_redo: true,
        heads: 0,
        seija: false,
        music: 7,
        first_track: 7,
        second_track: 7,
        can_publish: true,
    };
    let c = settings_colours(1, 2, f);
    assert_eq!(c.fewer_heads, 0x808080);
    assert_eq!(c.undo, 0x808080);
    assert_eq!(c.redo, 0xffffff);
    assert_eq!(c.first_track, 0xffff);
    assert_eq!(c.second_track, 0x808080);
    assert_eq!(c.silence, 0xffffff);
    let c = settings_colours(0, 0, SettingsFacts { heads: 9, second_track: 8, music: 0, name_focused: true, ..f });
    assert_eq!(c.save, 0xf2d5e3);
    assert_eq!(c.more_heads, 0x808080);
    assert_eq!(c.silence, 0xffff);
    assert_eq!(c.second_track, 0xffffff);
    assert_eq!(c.name, 0xffff);
    let c = settings_colours(1, 1, SettingsFacts { heads: 9, seija: true, ..f });
    assert_eq!(c.more_heads, 0xf2d5e3);
}

#[test]
fn settings_menu_music_and_label() {
    assert_eq!(music_after_theme_change(0, 3, 5, 6), 0);
    assert_eq!(music_after_theme_change(3, 3, 5, 6), 5);
    assert_eq!(music_after_theme_change(4, 3, 5, 6), 6);
    assert_eq!(music_choice(1, 5, 6), 6);
    assert_eq!(music_choice(2, 5, 6), 5);
    assert_eq!(music_choice(3, 5, 6), 0);
    assert_eq!(head_label(Character::Banki, 3), "HEAD 3");
    assert_eq!(head_label(Character::Seija, 12), "COST 12");
    assert_eq!(head_label(Character::Cirno, 0), "ICE 0");
    assert_eq!(likes_text(42), "l42");
}

#[test]
fn focus_stays_on_an_icon() {
    let mut m = ContextMenu::new();
    m.open(vec![
        ContextMenuItem::LabeledIcon(20, "Delete", 0x5555ff),
        ContextMenuItem::IconList(vec![10, 11, 12, 13, 14, 15], 1),
    ]);
    for _ in 0..4 {
        m.handle_event(MenuEvent::Tick);
    }
    let dirs = [Direction::Down, Direction::Right, Direction::Right, Direction::Down, Direction::Up, Direction::Left,
        Direction::Left, Direction::Up, Direction::Up, Direction::Down, Direction::Down, Direction::Down];
    for d in dirs {
        m.handle_event(MenuEvent::Press(Some(d)));
        let (item, sub) = m.focus();
        assert!(item < 2);
        if item == 1 {
            assert!(sub < 6);
        }
    }
    // From no focus, moving up enters the grid at its highlight.
    let mut m = ContextMenu::new();
    m.open(vec![ContextMenuItem::IconList(vec![10, 11, 12], 2)]);
    for _ in 0..4 {
        m.handle_event(MenuEvent::Tick);
    }
    m.handle_event(MenuEvent::Press(Some(Direction::Up)));
    assert_eq!(m.focus(), (0, 2));
}

#[test]
fn tool_choice_steps() {
    let c = ToolChoice { selected: ToolSlot::Move, row: 0 };
    assert_eq!(tool_step(c, EditorIntent::SetTool(2)).selected, ToolSlot::Select);
    assert_eq!(tool_step(c, EditorIntent::SetTool(31)).selected, ToolSlot::Row(2, 1));
    assert_eq!(tool_step(c, EditorIntent::SetToolFromRow(4)), ToolChoice { selected: ToolSlot::Row(0, 4), row: 0 });
    assert_eq!(tool_step(c, EditorIntent::SetToolRow(3)), ToolChoice { selected: ToolSlot::Move, row: 3 });
    assert_eq!(tool_step(c, EditorIntent::PrevToolRow).row, ROW_COUNT - 1);
    assert_eq!(tool_step(c, EditorIntent::NextToolRow).row, 1);
    assert_eq!(tool_step(c, EditorIntent::Save), c);
}

#[test]
fn pointer_hover_targets() {
    let items = vec![
        ContextMenuItem::LabeledIcon(1, "a", 0),
        ContextMenuItem::IconList(vec![10, 11, 12, 13, 14, 15], 0),
        ContextMenuItem::LabeledIcon(2, "b", 0),
    ];
    let old = (9, 9);
    let at = |x: i32, y: i32| hover_target(&items, x, x, y, y, old);
    assert_eq!(at(45, 10), (0, 9));
    assert_eq!(at(45, 20), (NO_FOCUS, 9));
    assert_eq!(at(45, 22), (1, 2));
    assert_eq!(at(10, 45), (1, 4));
    assert_eq!(at(45, 45), (NO_FOCUS, 6));
    assert_eq!(at(75, 45), (NO_FOCUS, 7));
    assert_eq!(at(45, 62), (2, 9));
    // The border: within 2 pixels of an edge nothing is focused.
    assert_eq!(at(1, 30), (NO_FOCUS, 9));
    assert_eq!(at(45, 1), (NO_FOCUS, 9));
    assert_eq!(at(80, 62), (2, 9));
    assert_eq!(hover_target(&items, 80, 81, 62, 62, old), (NO_FOCUS, 9));
    assert_eq!(at(45, 79), (2, 9));
    assert_eq!(at(45, 80), (NO_FOCUS, 9));
    assert_eq!(hover_target(&items, 45, 45, 80, 81, old), (NO_FOCUS, 9));
}
