use vstd::prelude::*;
use crate::editor::{EditorIntent, ROW_COUNT};
use crate::input::{ModInput, NO_MODIFIER, RawInput};

verus! {

/// An input and the editor intent it triggers.
#[derive(Debug, Clone, Copy)]
pub struct Binding {
    pub intent: EditorIntent,
    pub input: ModInput,
}

/// The bindings of the editor's controls, in the order they were set.
pub struct ControlMap {
    pub bindings: Vec<Binding>,
}

/// No modifier held.
pub open spec fn no_mods() -> Seq<u32> {
    seq![NO_MODIFIER, NO_MODIFIER, NO_MODIFIER, NO_MODIFIER]
}

/// Ctrl held.
pub open spec fn ctrl_mods() -> Seq<u32> {
    seq![17u32, NO_MODIFIER, NO_MODIFIER, NO_MODIFIER]
}

/// Shift and Ctrl held.
pub open spec fn ctrl_shift_mods() -> Seq<u32> {
    seq![16u32, 17u32, NO_MODIFIER, NO_MODIFIER]
}

/// A binding as an intent, a main input and the modifiers held.
pub type BindingView = (EditorIntent, RawInput, Seq<u32>);

/// The bindings before the number-row tool keys.
pub open spec fn first_bindings() -> Seq<BindingView> {
    seq![
        (EditorIntent::Primary, RawInput::Mouse(1), no_mods()),
        (EditorIntent::Primary, RawInput::Key(89), no_mods()),
        (EditorIntent::Primary, RawInput::Key(90), no_mods()),
        (EditorIntent::CursorUp, RawInput::Key(38), no_mods()),
        (EditorIntent::CursorDown, RawInput::Key(40), no_mods()),
        (EditorIntent::CursorLeft, RawInput::Key(37), no_mods()),
        (EditorIntent::CursorRight, RawInput::Key(39), no_mods()),
        (EditorIntent::PanUp, RawInput::Key(104), no_mods()),
        (EditorIntent::PanDown, RawInput::Key(98), no_mods()),
        (EditorIntent::PanLeft, RawInput::Key(100), no_mods()),
        (EditorIntent::PanRight, RawInput::Key(102), no_mods()),
        (EditorIntent::PanUp, RawInput::Key(75), no_mods()),
        (EditorIntent::PanDown, RawInput::Key(74), no_mods()),
        (EditorIntent::PanLeft, RawInput::Key(72), no_mods()),
        (EditorIntent::PanRight, RawInput::Key(76), no_mods()),
        (EditorIntent::Play, RawInput::Key(80), no_mods()),
    ]
}

/// The keys 1 to 9 and 0 pick the tools of the current row.
pub open spec fn row_tool_bindings() -> Seq<BindingView> {
    Seq::new(10, |k: int| (EditorIntent::SetToolFromRow(k as usize), RawInput::Key((48 + (k + 1) % 10) as u32), no_mods()))
}

/// The function keys F1 to F4 pick the tool rows.
pub open spec fn row_bindings() -> Seq<BindingView> {
    Seq::new(ROW_COUNT as nat, |k: int| (EditorIntent::SetToolRow(k as usize), RawInput::Key((k + 112) as u32), no_mods()))
}

/// The bindings after the tool-row keys.
pub open spec fn last_bindings() -> Seq<BindingView> {
    seq![
        (EditorIntent::SetTool(0), RawInput::Key(81), no_mods()),
        (EditorIntent::SetTool(1), RawInput::Key(87), no_mods()),
        (EditorIntent::SetTool(2), RawInput::Key(65), no_mods()),
        (EditorIntent::SetTool(3), RawInput::Key(83), no_mods()),
        (EditorIntent::PrevToolRow, RawInput::Key(33), no_mods()),
        (EditorIntent::NextToolRow, RawInput::Key(34), no_mods()),
        (EditorIntent::ToggleToolRowSelectDropdown, RawInput::Key(9), no_mods()),
        (EditorIntent::UseTool(1), RawInput::Mouse(3), no_mods()),
        (EditorIntent::ContextMenu, RawInput::Mouse(2), no_mods()),
        (EditorIntent::UseTool(4), RawInput::Key(90), ctrl_mods()),
        (EditorIntent::UseTool(4), RawInput::Mouse(8), no_mods()),
        (EditorIntent::UseTool(5), RawInput::Key(89), ctrl_mods()),
        (EditorIntent::UseTool(5), RawInput::Key(90), ctrl_shift_mods()),
        (EditorIntent::UseTool(5), RawInput::Mouse(9), no_mods()),
        (EditorIntent::Save, RawInput::Key(83), ctrl_mods()),
        (EditorIntent::SelectAll, RawInput::Key(65), ctrl_mods()),
        (EditorIntent::MassDelete, RawInput::Key(46), no_mods()),
        (EditorIntent::ToggleSettingsMenu, RawInput::Key(27), no_mods()),
        (EditorIntent::ZoomIn, RawInput::Key(187), no_mods()),
        (EditorIntent::ZoomIn, RawInput::Mouse(4), no_mods()),
        (EditorIntent::ZoomOut, RawInput::Key(189), no_mods()),
        (EditorIntent::ZoomOut, RawInput::Mouse(5), no_mods()),
        (EditorIntent::ZoomToggle, RawInput::Key(192), no_mods()),
        (EditorIntent::Copy, RawInput::Key(67), ctrl_mods()),
        (EditorIntent::Copy, RawInput::Key(67), ctrl_shift_mods()),
        (EditorIntent::Paste, RawInput::Key(86), ctrl_mods()),
        (EditorIntent::Paste, RawInput::Key(86), ctrl_shift_mods()),
        (EditorIntent::Cut, RawInput::Key(88), ctrl_mods()),
    ]
}

/// The editor's default controls, in the order they are set.
pub open spec fn default_bindings() -> Seq<BindingView> {
    first_bindings() + row_tool_bindings() + row_bindings() + last_bindings()
}

/// A binding seen as an intent, a main input and the modifiers held.
pub open spec fn binding_view(b: Binding) -> BindingView {
    (b.intent, b.input.main, b.input.modifiers@)
}

impl ControlMap {
    /// A map with no bindings.
    pub fn new() -> (r: Self)
        ensures
            r.bindings@.len() == 0,
    {
        ControlMap { bindings: Vec::new() }
    }

    /// Binds an input to an intent, after the bindings there are.
    pub fn set_control(&mut self, intent: EditorIntent, input: ModInput)
        ensures
            final(self).bindings@ == old(self).bindings@.push(Binding { intent, input }),
    {
        self.bindings.push(Binding { intent, input });
    }

    /// The bindings seen as intents, main inputs and modifiers.
    pub open spec fn views(&self) -> Seq<BindingView> {
        self.bindings@.map_values(|b: Binding| binding_view(b))
    }
}

fn bind_key(map: &mut ControlMap, intent: EditorIntent, key: u32)
    ensures
        final(map).views() == old(map).views().push((intent, RawInput::Key(key), no_mods())),
{
    let input = ModInput::from_key(key);
    assert(input.modifiers@ =~= no_mods());
    map.set_control(intent, input);
    assert(final(map).views() =~= old(map).views().push((intent, RawInput::Key(key), no_mods())));
}

fn bind_mouse(map: &mut ControlMap, intent: EditorIntent, button: u8)
    ensures
        final(map).views() == old(map).views().push((intent, RawInput::Mouse(button), no_mods())),
{
    let input = ModInput::from(RawInput::Mouse(button));
    assert(input.modifiers@ =~= no_mods());
    map.set_control(intent, input);
    assert(final(map).views() =~= old(map).views().push((intent, RawInput::Mouse(button), no_mods())));
}

fn bind_ctrl(map: &mut ControlMap, intent: EditorIntent, key: u32)
    ensures
        final(map).views() == old(map).views().push((intent, RawInput::Key(key), ctrl_mods())),
{
    let input = ModInput::from_key_ctrl(key);
    map.set_control(intent, input);
    assert(final(map).views() =~= old(map).views().push((intent, RawInput::Key(key), ctrl_mods())));
}

fn bind_ctrl_shift(map: &mut ControlMap, intent: EditorIntent, key: u32)
    ensures
        final(map).views() == old(map).views().push((intent, RawInput::Key(key), ctrl_shift_mods())),
{
    let input = ModInput::from_key_ctrl_shift(key);
    map.set_control(intent, input);
    assert(final(map).views() =~= old(map).views().push((intent, RawInput::Key(key), ctrl_shift_mods())));
}

/// The editor's default controls.
#[verifier::rlimit(40)]
fn default() -> (r: ControlMap)
    ensures
        r.views() == default_bindings(),
{
    let mut map = ControlMap::new();
    assert(map.views() =~= Seq::<BindingView>::empty());
    bind_mouse(&mut map, EditorIntent::Primary, 1);
    bind_key(&mut map, EditorIntent::Primary, 89);
    bind_key(&mut map, EditorIntent::Primary, 90);
    bind_key(&mut map, EditorIntent::CursorUp, 38);
    bind_key(&mut map, EditorIntent::CursorDown, 40);
    bind_key(&mut map, EditorIntent::CursorLeft, 37);
    bind_key(&mut map, EditorIntent::CursorRight, 39);
    bind_key(&mut map, EditorIntent::PanUp, 104);
    bind_key(&mut map, EditorIntent::PanDown, 98);
    bind_key(&mut map, EditorIntent::PanLeft, 100);
    bind_key(&mut map, EditorIntent::PanRight, 102);
    bind_key(&mut map, EditorIntent::PanUp, 75);
    bind_key(&mut map, EditorIntent::PanDown, 74);
    bind_key(&mut map, EditorIntent::PanLeft, 72);
    bind_key(&mut map, EditorIntent::PanRight, 76);
    bind_key(&mut map, EditorIntent::Play, 80);
    assert(map.views() =~= first_bindings());
    let mut i: usize = 1;
    while i < 11
        invariant
            1 <= i <= 11,
            map.views() == first_bindings() + row_tool_bindings().take(i - 1),
        decreases 11 - i,
    {
        bind_key(&mut map, EditorIntent::SetToolFromRow(i - 1), 48 + (i as u32) % 10);
        assert(row_tool_bindings().take(i as int) =~= row_tool_bindings().take(i - 1).push(
            (EditorIntent::SetToolFromRow((i - 1) as usize), RawInput::Key((48 + (i as u32) % 10) as u32), no_mods()),
        ));
        assert(map.views() =~= first_bindings() + row_tool_bindings().take(i as int));
        i = i + 1;
    }
    assert(row_tool_bindings().take(10) =~= row_tool_bindings());
    let mut j: usize = 0;
    while j < ROW_COUNT
        invariant
            j <= ROW_COUNT,
            map.views() == first_bindings() + row_tool_bindings() + row_bindings().take(j as int),
        decreases ROW_COUNT - j,
    {
        bind_key(&mut map, EditorIntent::SetToolRow(j), j as u32 + 112);
        assert(row_bindings().take(j as int + 1) =~= row_bindings().take(j as int).push(
            (EditorIntent::SetToolRow(j), RawInput::Key((j + 112) as u32), no_mods()),
        ));
        assert(map.views() =~= first_bindings() + row_tool_bindings() + row_bindings().take(j as int + 1));
        j = j + 1;
    }
    assert(row_bindings().take(ROW_COUNT as int) =~= row_bindings());
    let ghost before = map.views();
    bind_key(&mut map, EditorIntent::SetTool(0), 81);
    bind_key(&mut map, EditorIntent::SetTool(1), 87);
    bind_key(&mut map, EditorIntent::SetTool(2), 65);
    bind_key(&mut map, EditorIntent::SetTool(3), 83);
    bind_key(&mut map, EditorIntent::PrevToolRow, 33);
    bind_key(&mut map, EditorIntent::NextToolRow, 34);
    bind_key(&mut map, EditorIntent::ToggleToolRowSelectDropdown, 9);
    bind_mouse(&mut map, EditorIntent::UseTool(1), 3);
    bind_mouse(&mut map, EditorIntent::ContextMenu, 2);
    bind_ctrl(&mut map, EditorIntent::UseTool(4), 90);
    bind_mouse(&mut map, EditorIntent::UseTool(4), 8);
    bind_ctrl(&mut map, EditorIntent::UseTool(5), 89);
    bind_ctrl_shift(&mut map, EditorIntent::UseTool(5), 90);
    bind_mouse(&mut map, EditorIntent::UseTool(5), 9);
    bind_ctrl(&mut map, EditorIntent::Save, 83);
    bind_ctrl(&mut map, EditorIntent::SelectAll, 65);
    bind_key(&mut map, EditorIntent::MassDelete, 46);
    bind_key(&mut map, EditorIntent::ToggleSettingsMenu, 27);
    bind_key(&mut map, EditorIntent::ZoomIn, 187);
    bind_mouse(&mut map, EditorIntent::ZoomIn, 4);
    bind_key(&mut map, EditorIntent::ZoomOut, 189);
    bind_mouse(&mut map, EditorIntent::ZoomOut, 5);
    bind_key(&mut map, EditorIntent::ZoomToggle, 192);
    bind_ctrl(&mut map, EditorIntent::Copy, 67);
    bind_ctrl_shift(&mut map, EditorIntent::Copy, 67);
    bind_ctrl(&mut map, EditorIntent::Paste, 86);
    bind_ctrl_shift(&mut map, EditorIntent::Paste, 86);
    bind_ctrl(&mut map, EditorIntent::Cut, 88);
    assert(map.views() =~= before + last_bindings());
    map
}

/// The editor's controls.
pub fn get() -> (r: ControlMap)
    ensures
        r.views() == default_bindings(),
{
    default()
}

} // verus!
