use vstd::prelude::*;

use crate::undo::{spec_store, spec_take, ObjectID, UndoFrame, UndoHistory, UndoHistoryView};

verus! {

/// The number of rows of placing tools.
pub const ROW_COUNT: usize = 4;

/// How many ticks the primary button must be held for the context menu to open.
pub const HOLD_FOR_CONTEXT: u32 = 50;

/// The number of intents that repeat while held (cursor and pan movement).
pub const CONTINUOUS_INTENTS: usize = 8;

/// Sound effect numbers that the editor's logic chooses among.
pub const SE_HEAD: u32 = 0;
pub const SE_HEAD2: u32 = 1;
pub const SE_NOT: u32 = 18;

/// What an editor control asks for.
#[derive(Clone, Copy, PartialEq, Eq, Structural, Debug, Hash)]
pub enum EditorIntent {
    CursorLeft,
    CursorRight,
    CursorUp,
    CursorDown,
    PanLeft,
    PanRight,
    PanUp,
    PanDown,
    Primary,
    Play,
    SetTool(usize),
    SetToolFromRow(usize),
    SetToolRow(usize),
    NextToolRow,
    PrevToolRow,
    ToggleToolRowSelectDropdown,
    UseTool(usize),
    Save,
    SelectAll,
    MassDelete,
    ToggleSettingsMenu,
    Exit,
    ContextMenu,
    ZoomIn,
    ZoomOut,
    ZoomToggle,
    Copy,
    Paste,
    Cut,
}

/// The position of an intent's variant in the declaration.
pub open spec fn spec_discriminant(i: EditorIntent) -> usize {
    match i {
        EditorIntent::CursorLeft => 0,
        EditorIntent::CursorRight => 1,
        EditorIntent::CursorUp => 2,
        EditorIntent::CursorDown => 3,
        EditorIntent::PanLeft => 4,
        EditorIntent::PanRight => 5,
        EditorIntent::PanUp => 6,
        EditorIntent::PanDown => 7,
        EditorIntent::Primary => 8,
        EditorIntent::Play => 9,
        EditorIntent::SetTool(_) => 10,
        EditorIntent::SetToolFromRow(_) => 11,
        EditorIntent::SetToolRow(_) => 12,
        EditorIntent::NextToolRow => 13,
        EditorIntent::PrevToolRow => 14,
        EditorIntent::ToggleToolRowSelectDropdown => 15,
        EditorIntent::UseTool(_) => 16,
        EditorIntent::Save => 17,
        EditorIntent::SelectAll => 18,
        EditorIntent::MassDelete => 19,
        EditorIntent::ToggleSettingsMenu => 20,
        EditorIntent::Exit => 21,
        EditorIntent::ContextMenu => 22,
        EditorIntent::ZoomIn => 23,
        EditorIntent::ZoomOut => 24,
        EditorIntent::ZoomToggle => 25,
        EditorIntent::Copy => 26,
        EditorIntent::Paste => 27,
        EditorIntent::Cut => 28,
    }
}

/// The intents that repeat while held, in the order of their counters.
pub open spec fn continuous_intent(k: int) -> EditorIntent {
    if k == 0 {
        EditorIntent::CursorLeft
    } else if k == 1 {
        EditorIntent::CursorRight
    } else if k == 2 {
        EditorIntent::CursorUp
    } else if k == 3 {
        EditorIntent::CursorDown
    } else if k == 4 {
        EditorIntent::PanLeft
    } else if k == 5 {
        EditorIntent::PanRight
    } else if k == 6 {
        EditorIntent::PanUp
    } else {
        EditorIntent::PanDown
    }
}

impl EditorIntent {
    /// The position of the intent's variant in the declaration; the first
    /// `CONTINUOUS_INTENTS` positions are the intents that repeat while held.
    pub fn discriminant(&self) -> (r: usize)
        ensures
            r == spec_discriminant(*self),
    {
        match self {
            EditorIntent::CursorLeft => 0,
            EditorIntent::CursorRight => 1,
            EditorIntent::CursorUp => 2,
            EditorIntent::CursorDown => 3,
            EditorIntent::PanLeft => 4,
            EditorIntent::PanRight => 5,
            EditorIntent::PanUp => 6,
            EditorIntent::PanDown => 7,
            EditorIntent::Primary => 8,
            EditorIntent::Play => 9,
            EditorIntent::SetTool(_) => 10,
            EditorIntent::SetToolFromRow(_) => 11,
            EditorIntent::SetToolRow(_) => 12,
            EditorIntent::NextToolRow => 13,
            EditorIntent::PrevToolRow => 14,
            EditorIntent::ToggleToolRowSelectDropdown => 15,
            EditorIntent::UseTool(_) => 16,
            EditorIntent::Save => 17,
            EditorIntent::SelectAll => 18,
            EditorIntent::MassDelete => 19,
            EditorIntent::ToggleSettingsMenu => 20,
            EditorIntent::Exit => 21,
            EditorIntent::ContextMenu => 22,
            EditorIntent::ZoomIn => 23,
            EditorIntent::ZoomOut => 24,
            EditorIntent::ZoomToggle => 25,
            EditorIntent::Copy => 26,
            EditorIntent::Paste => 27,
            EditorIntent::Cut => 28,
        }
    }
}

/// The intent that the `k`-th repeat counter stands for.
pub fn continuous_intent_at(k: usize) -> (r: EditorIntent)
    requires
        k < CONTINUOUS_INTENTS,
    ensures
        r == continuous_intent(k as int),
        spec_discriminant(r) == k,
{
    match k {
        0 => EditorIntent::CursorLeft,
        1 => EditorIntent::CursorRight,
        2 => EditorIntent::CursorUp,
        3 => EditorIntent::CursorDown,
        4 => EditorIntent::PanLeft,
        5 => EditorIntent::PanRight,
        6 => EditorIntent::PanUp,
        _ => EditorIntent::PanDown,
    }
}

/// Repeating intents are counted from their number: the counter of an intent
/// that repeats is found back at its discriminant.
pub proof fn law_continuous_counters_match(k: int)
    requires
        0 <= k < CONTINUOUS_INTENTS,
    ensures
        spec_discriminant(continuous_intent(k)) == k,
{
}

/// Starts (when pressed) or stops (when released) the repeat counter of an
/// intent that repeats; the flag tells whether the intent was one of those.
pub fn press_continuous(counters: &mut [u32; CONTINUOUS_INTENTS], intent: EditorIntent, down: bool) -> (r: bool)
    ensures
        r == (spec_discriminant(intent) < CONTINUOUS_INTENTS),
        r ==> final(counters)@ == old(counters)@.update(
            spec_discriminant(intent) as int,
            if down {
                1u32
            } else {
                0u32
            },
        ),
        !r ==> final(counters)@ == old(counters)@,
{
    let d = intent.discriminant();
    if d < CONTINUOUS_INTENTS {
        counters[d] = if down {
            1
        } else {
            0
        };
        true
    } else {
        false
    }
}

/// Advances the repeat counters by a tick: every running counter goes up by one,
/// and the intents whose counters run are returned, to be handled again.
pub fn tick_continuous(counters: &mut [u32; CONTINUOUS_INTENTS]) -> (r: Vec<EditorIntent>)
    requires
        forall|k: int| 0 <= k < CONTINUOUS_INTENTS ==> old(counters)@[k] < u32::MAX,
    ensures
        forall|k: int|
            0 <= k < CONTINUOUS_INTENTS ==> #[trigger] final(counters)@[k] == if old(counters)@[k] > 0 {
                (old(counters)@[k] + 1) as u32
            } else {
                0u32
            },
        r@ == Seq::new(CONTINUOUS_INTENTS as nat, |k: int| continuous_intent(k)).filter(
            |i: EditorIntent| old(counters)@[spec_discriminant(i) as int] > 0,
        ),
{
    let ghost start = counters@;
    let ghost all = Seq::new(CONTINUOUS_INTENTS as nat, |k: int| continuous_intent(k));
    let ghost pred = |i: EditorIntent| start[spec_discriminant(i) as int] > 0;
    let mut out: Vec<EditorIntent> = Vec::new();
    let mut k: usize = 0;
    while k < CONTINUOUS_INTENTS
        invariant
            k <= CONTINUOUS_INTENTS,
            forall|j: int| 0 <= j < CONTINUOUS_INTENTS ==> start[j] < u32::MAX,
            forall|j: int|
                0 <= j < k ==> #[trigger] counters@[j] == if start[j] > 0 {
                    (start[j] + 1) as u32
                } else {
                    0u32
                },
            forall|j: int| k <= j < CONTINUOUS_INTENTS ==> #[trigger] counters@[j] == start[j],
            all == Seq::new(CONTINUOUS_INTENTS as nat, |k: int| continuous_intent(k)),
            pred == (|i: EditorIntent| start[spec_discriminant(i) as int] > 0),
            out@ == all.take(k as int).filter(pred),
        decreases CONTINUOUS_INTENTS - k,
    {
        let c = counters[k];
        let it = continuous_intent_at(k);
        if c > 0 {
            counters[k] = c + 1;
            out.push(it);
        }
        proof {
            assert(all.take(k + 1).drop_last() =~= all.take(k as int));
            assert(all[k as int] == it);
            lemma_filter_push(all.take(k as int), pred, it);
            assert(all.take(k as int).push(it) =~= all.take(k + 1));
        }
        k = k + 1;
    }
    assert(all.take(CONTINUOUS_INTENTS as int) =~= all);
    out
}

/// Filtering a sequence with one more element at its end.
pub proof fn lemma_filter_push<A>(s: Seq<A>, pred: spec_fn(A) -> bool, x: A)
    ensures
        s.push(x).filter(pred) == if pred(x) {
            s.filter(pred).push(x)
        } else {
            s.filter(pred)
        },
{
    reveal(Seq::filter);
    assert(s.push(x).drop_last() =~= s);
}

/// A tool that the editor's tool ids name: the fixed tools, or a placing tool at
/// a row and column of the tool rows.
#[derive(Clone, Copy, PartialEq, Eq, Structural, Debug)]
pub enum ToolSlot {
    Move,
    Pan,
    Select,
    Delete,
    Undo,
    Redo,
    Row(usize, usize),
}

/// The tool that a tool id names: 0 to 5 are move, pan, select, delete, undo
/// and redo; 6 to 9 name nothing; from 10 on, id `10 * (r + 1) + c` names
/// column `c` of row `r`, up to the last row.
pub open spec fn spec_tool_from_id(id: usize) -> Option<ToolSlot> {
    if id == 0 {
        Some(ToolSlot::Move)
    } else if id == 1 {
        Some(ToolSlot::Pan)
    } else if id == 2 {
        Some(ToolSlot::Select)
    } else if id == 3 {
        Some(ToolSlot::Delete)
    } else if id == 4 {
        Some(ToolSlot::Undo)
    } else if id == 5 {
        Some(ToolSlot::Redo)
    } else if id < 10 {
        None
    } else if id >= ROW_COUNT * 10 + 10 {
        None
    } else {
        Some(ToolSlot::Row((id / 10 - 1) as usize, id % 10))
    }
}

/// The tool that a tool id names.
pub fn tool_from_id(id: usize) -> (r: Option<ToolSlot>)
    ensures
        r == spec_tool_from_id(id),
        r matches Some(ToolSlot::Row(row, col)) ==> row < ROW_COUNT && col < 10,
{
    match id {
        0 => Some(ToolSlot::Move),
        1 => Some(ToolSlot::Pan),
        2 => Some(ToolSlot::Select),
        3 => Some(ToolSlot::Delete),
        4 => Some(ToolSlot::Undo),
        5 => Some(ToolSlot::Redo),
        6..=9 => None,
        id => if id >= ROW_COUNT * 10 + 10 {
            None
        } else {
            Some(ToolSlot::Row(id / 10 - 1, id % 10))
        },
    }
}

/// Every placing tool has an id that names it.
pub proof fn law_every_row_tool_has_an_id(row: usize, col: usize)
    requires
        row < ROW_COUNT,
        col < 10,
    ensures
        spec_tool_from_id((10 * (row + 1) + col) as usize) == Some(ToolSlot::Row(row, col)),
{
    let id = 10 * (row + 1) + col;
    assert(id / 10 == row + 1 && id % 10 == col) by (nonlinear_arith)
        requires
            id == 10 * (row + 1) + col,
            col < 10,
    ;
}


/// The editor's choice of tools: the selected tool and the tool row shown in
/// the top bar.
#[derive(Clone, Copy, PartialEq, Eq, Structural, Debug)]
pub struct ToolChoice {
    pub selected: ToolSlot,
    pub row: usize,
}

/// Whether an intent can be handled in a tool choice: a tool id must name a
/// tool, a column must be one of the ten of a row, and a row must exist.
pub open spec fn tool_intent_ok(c: ToolChoice, intent: EditorIntent) -> bool {
    &&& c.row < ROW_COUNT
    &&& match intent {
        EditorIntent::SetTool(id) => spec_tool_from_id(id) is Some,
        EditorIntent::SetToolFromRow(num) => num < 10,
        EditorIntent::SetToolRow(row) => row < ROW_COUNT,
        _ => true,
    }
}

/// The tool choice after an intent: choosing a tool by id or by its column in
/// the row shown selects it; choosing a row, or the previous or next row,
/// shows that row (keeping the selected tool); other intents leave the choice.
pub open spec fn spec_tool_step(c: ToolChoice, intent: EditorIntent) -> ToolChoice {
    match intent {
        EditorIntent::SetTool(id) => ToolChoice { selected: spec_tool_from_id(id)->0, ..c },
        EditorIntent::SetToolFromRow(num) => ToolChoice { selected: ToolSlot::Row(c.row, num), ..c },
        EditorIntent::SetToolRow(row) => ToolChoice { row, ..c },
        EditorIntent::PrevToolRow => ToolChoice { row: spec_prev_row(c.row as int) as usize, ..c },
        EditorIntent::NextToolRow => ToolChoice { row: spec_next_row(c.row as int) as usize, ..c },
        _ => c,
    }
}

/// Applies an intent to the tool choice (see `spec_tool_step`).
pub fn tool_step(c: ToolChoice, intent: EditorIntent) -> (r: ToolChoice)
    requires
        tool_intent_ok(c, intent),
    ensures
        r == spec_tool_step(c, intent),
        r.row < ROW_COUNT,
{
    match intent {
        EditorIntent::SetTool(id) => match tool_from_id(id) {
            Some(t) => ToolChoice { selected: t, ..c },
            None => c,
        },
        EditorIntent::SetToolFromRow(num) => ToolChoice { selected: ToolSlot::Row(c.row, num), ..c },
        EditorIntent::SetToolRow(row) => ToolChoice { row, ..c },
        EditorIntent::PrevToolRow => ToolChoice { row: prev_tool_row(c.row), ..c },
        EditorIntent::NextToolRow => ToolChoice { row: next_tool_row(c.row), ..c },
        _ => c,
    }
}

/// The first position, from `j` on, where `s` holds.
pub open spec fn first_true(s: Seq<bool>, j: int) -> Option<int>
    decreases s.len() - j,
{
    if j < 0 || j >= s.len() {
        None
    } else if s[j] {
        Some(j)
    } else {
        first_true(s, j + 1)
    }
}

fn first_hit(s: &[bool]) -> (r: Option<usize>)
    ensures
        match r {
            Some(i) => first_true(s@, 0) == Some(i as int),
            None => first_true(s@, 0) is None,
        },
{
    let mut j: usize = 0;
    while j < s.len()
        invariant
            j <= s@.len(),
            first_true(s@, 0) == first_true(s@, j as int),
        decreases s@.len() - j,
    {
        if s[j] {
            return Some(j);
        }
        j = j + 1;
    }
    None
}

/// The tool of each button shown while zoomed out: select, move, undo, pan.
pub open spec fn spec_zoom_tool(i: int) -> ToolSlot {
    if i == 0 {
        ToolSlot::Select
    } else if i == 1 {
        ToolSlot::Move
    } else if i == 2 {
        ToolSlot::Undo
    } else {
        ToolSlot::Pan
    }
}

/// The tool of a button shown while zoomed out.
pub fn zoom_tool(i: usize) -> (r: ToolSlot)
    requires
        i < 4,
    ensures
        r == spec_zoom_tool(i as int),
{
    match i {
        0 => ToolSlot::Select,
        1 => ToolSlot::Move,
        2 => ToolSlot::Undo,
        _ => ToolSlot::Pan,
    }
}

/// The tool under the mouse in the top bar, given which of its buttons the
/// mouse is over: when the bar is shown, the first small button (by its tool
/// id), else the first icon of the current tool row; when the zoomed-out
/// buttons are shown, the first of them but the undo button; else none.
pub open spec fn spec_top_bar_tool_at(
    enabled: bool,
    zoom_enabled: bool,
    small: Seq<bool>,
    icons: Seq<bool>,
    row: usize,
    zoom: Seq<bool>,
) -> Option<ToolSlot> {
    if enabled && first_true(small, 0) is Some {
        spec_tool_from_id(first_true(small, 0)->0 as usize)
    } else if enabled && first_true(icons, 0) is Some {
        Some(ToolSlot::Row(row, first_true(icons, 0)->0 as usize))
    } else if zoom_enabled && first_true(zoom.update(2, false), 0) is Some {
        Some(spec_zoom_tool(first_true(zoom.update(2, false), 0)->0))
    } else {
        None
    }
}

/// The tool under the mouse in the top bar (see `spec_top_bar_tool_at`); the
/// flags say which small buttons, icons and zoomed-out buttons the mouse is
/// over.
pub fn top_bar_tool_at(
    enabled: bool,
    zoom_enabled: bool,
    small: &[bool; 4],
    icons: &[bool; 10],
    row: usize,
    zoom: &[bool; 4],
) -> (r: Option<ToolSlot>)
    ensures
        r == spec_top_bar_tool_at(enabled, zoom_enabled, small@, icons@, row, zoom@),
{
    if enabled {
        match first_hit(small) {
            Some(i) => {
                return tool_from_id(i);
            },
            None => {},
        }
        match first_hit(icons) {
            Some(i) => {
                return Some(ToolSlot::Row(row, i));
            },
            None => {},
        }
    }
    if zoom_enabled {
        let others = [zoom[0], zoom[1], false, zoom[3]];
        assert(others@ =~= zoom@.update(2, false));
        match first_hit(&others) {
            Some(i) => {
                assert(i < 4) by {
                    lemma_first_true_in_range(others@, 0);
                }
                return Some(zoom_tool(i));
            },
            None => {},
        }
    }
    None
}

proof fn lemma_first_true_in_range(s: Seq<bool>, j: int)
    ensures
        first_true(s, j) matches Some(i) ==> 0 <= i < s.len(),
    decreases s.len() - j,
{
    if 0 <= j < s.len() && !s[j] {
        lemma_first_true_in_range(s, j + 1);
    }
}

/// The colour of a button of the top bar: cyan for the selected tool, pink
/// under the mouse, else white.
pub fn top_bar_colour(selected: bool, hovered: bool) -> (r: u32)
    ensures
        r == if selected {
            0xffffu32
        } else if hovered {
            0xf2d5e3u32
        } else {
            0xffffffu32
        },
{
    if selected {
        0xffff
    } else if hovered {
        0xf2d5e3
    } else {
        0xffffff
    }
}

/// The row and column of an entry of the tool drop-down, which lists the tool
/// rows ten entries to a row.
pub fn dropdown_slot(index: usize) -> (r: (usize, usize))
    requires
        index < ROW_COUNT * 10,
    ensures
        r == (index / 10, index % 10),
        r.0 < ROW_COUNT,
{
    (index / 10, index % 10)
}

/// The row before `row`, wrapping from the first to the last.
pub open spec fn spec_prev_row(row: int) -> int {
    (ROW_COUNT as int - 1 + row) % (ROW_COUNT as int)
}

/// The row after `row`, wrapping from the last to the first.
pub open spec fn spec_next_row(row: int) -> int {
    (1 + row) % (ROW_COUNT as int)
}

/// The tool row after "previous row", wrapping from the first to the last.
pub fn prev_tool_row(row: usize) -> (r: usize)
    requires
        row < ROW_COUNT,
    ensures
        r == spec_prev_row(row as int),
        r < ROW_COUNT,
{
    (ROW_COUNT - 1 + row) % ROW_COUNT
}

/// The tool row after "next row", wrapping from the last to the first.
pub fn next_tool_row(row: usize) -> (r: usize)
    requires
        row < ROW_COUNT,
    ensures
        r == spec_next_row(row as int),
        r < ROW_COUNT,
{
    (1 + row) % ROW_COUNT
}

/// "Next row" undoes "previous row" and the other way round.
pub proof fn law_tool_rows_cycle(row: int)
    requires
        0 <= row < ROW_COUNT,
    ensures
        spec_next_row(spec_prev_row(row)) == row,
        spec_prev_row(spec_next_row(row)) == row,
{
}

/// The position, inside the top bar, of the small tool buttons (move, pan,
/// select, delete) laid out two by two.
pub fn small_tool_position(i: usize) -> (r: (u32, u32))
    requires
        i < 4,
    ensures
        r == ((2 + 20 * (i % 2)) as u32, (2 + 19 * (i / 2)) as u32),
{
    let a = i & 1;
    let b = (i & 2) >> 1;
    assert(a == i % 2 && b == i / 2) by (bit_vector)
        requires
            i < 4,
            a == i & 1,
            b == (i & 2) >> 1,
    ;
    ((2 + 20 * a) as u32, (2 + 19 * b) as u32)
}

/// The undo tool, or the redo tool.
pub struct ToolUndo {
    redo: bool,
}

impl ToolUndo {
    /// The undo tool.
    pub fn undo() -> (r: Self)
        ensures
            !r.is_redo(),
    {
        ToolUndo { redo: false }
    }

    /// The redo tool.
    pub fn redo() -> (r: Self)
        ensures
            r.is_redo(),
    {
        ToolUndo { redo: true }
    }

    /// Whether this is the redo tool.
    pub closed spec fn is_redo(&self) -> bool {
        self.redo
    }

    /// Whether this is the redo tool.
    pub fn redoes(&self) -> (r: bool)
        ensures
            r == self.is_redo(),
    {
        self.redo
    }

    /// Starts using the tool: takes the frame to replay off its stack (undo
    /// stack for undo, redo stack for redo).
    pub fn begin<A>(&self, history: &mut UndoHistory<A>) -> (r: Option<UndoFrame<A>>)
        ensures
            spec_take(old(history)@, self.is_redo()) == (final(history)@, match r {
                Some(f) => Some(f.actions@),
                None => None,
            }),
    {
        history.take(self.redo)
    }

    /// Finishes using the tool: the actions that take back the replayed frame go
    /// on the other stack, and the sound to play is returned (the two tools
    /// sound different).
    pub fn finish<A>(&self, history: &mut UndoHistory<A>, reverted: Vec<A>) -> (sound: u32)
        ensures
            final(history)@ == spec_store(old(history)@, self.is_redo(), reverted@),
            sound == (if self.is_redo() {
                SE_HEAD
            } else {
                SE_HEAD2
            }),
    {
        history.store(self.redo, reverted);
        if self.redo {
            SE_HEAD
        } else {
            SE_HEAD2
        }
    }
}

/// The objects that "select all" selects, given how many parts each level
/// object has: every object from 1 on, part by part for objects made of parts.
pub open spec fn spec_select_all(counts: Seq<usize>) -> Seq<ObjectID>
    decreases counts.len(),
{
    if counts.len() <= 1 {
        Seq::empty()
    } else {
        let i = (counts.len() - 1) as usize;
        let prev = spec_select_all(counts.drop_last());
        if counts.last() == 0 {
            prev.push(ObjectID::Object(i))
        } else {
            prev + Seq::new(counts.last() as nat, |j: int| ObjectID::SubObject(i, j as usize))
        }
    }
}

/// The objects that "select all" selects (tiles aside).
pub fn select_all_objects(counts: &Vec<usize>) -> (r: Vec<ObjectID>)
    ensures
        r@ == spec_select_all(counts@),
{
    let mut out: Vec<ObjectID> = Vec::new();
    let n = counts.len();
    if n <= 1 {
        return out;
    }
    let mut i: usize = 1;
    assert(counts@.take(1).len() <= 1);
    while i < n
        invariant
            1 <= i <= n,
            n == counts@.len(),
            out@ == spec_select_all(counts@.take(i as int)),
        decreases n - i,
    {
        let soc = counts[i];
        let ghost before = out@;
        proof {
            assert(counts@.take(i + 1).drop_last() =~= counts@.take(i as int));
            assert(counts@.take(i + 1).last() == soc);
        }
        if soc == 0 {
            out.push(ObjectID::Object(i));
        } else {
            let mut j: usize = 0;
            while j < soc
                invariant
                    j <= soc,
                    out@ == before + Seq::new(j as nat, |m: int| ObjectID::SubObject(i, m as usize)),
                decreases soc - j,
            {
                out.push(ObjectID::SubObject(i, j));
                j = j + 1;
                assert(out@ =~= before + Seq::new(j as nat, |m: int| ObjectID::SubObject(i, m as usize)));
            }
        }
        i = i + 1;
    }
    assert(counts@.take(n as int) =~= counts@);
    out
}

/// What holding the primary button does on a tick: while something is being
/// grabbed the hold timer counts up, and reaching the hold time opens the
/// context menu unless an action is still recording edits or the active tool
/// forbids it; otherwise the timer rests at zero. Returns the new timer and
/// whether to open the menu.
pub fn tick_hold(grabbing: bool, duration: u32, frame_open: bool, tool_blocks: bool) -> (r: (u32, bool))
    requires
        grabbing ==> duration < u32::MAX,
    ensures
        grabbing ==> r == ((duration + 1) as u32, duration + 1 == HOLD_FOR_CONTEXT && !frame_open && !tool_blocks),
        !grabbing ==> r == (0u32, false),
{
    if grabbing {
        let d = duration + 1;
        (d, d == HOLD_FOR_CONTEXT && !frame_open && !tool_blocks)
    } else {
        (0, false)
    }
}

/// The selected objects that a new selection drops.
pub fn dropped_from_selection(old_sel: &Vec<ObjectID>, new_sel: &Vec<ObjectID>) -> (r: Vec<ObjectID>)
    ensures
        r@ == old_sel@.filter(|o: ObjectID| !new_sel@.contains(o)),
{
    let mut out: Vec<ObjectID> = Vec::new();
    let ghost pred = |o: ObjectID| !new_sel@.contains(o);
    let n = old_sel.len();
    let mut k: usize = 0;
    while k < n
        invariant
            k <= n,
            n == old_sel@.len(),
            pred == (|o: ObjectID| !new_sel@.contains(o)),
            out@ == old_sel@.take(k as int).filter(pred),
        decreases n - k,
    {
        let o = old_sel[k];
        let kept = contains_id(new_sel, o);
        if !kept {
            out.push(o);
        }
        proof {
            lemma_filter_push(old_sel@.take(k as int), pred, o);
            assert(old_sel@.take(k as int).push(o) =~= old_sel@.take(k + 1));
        }
        k = k + 1;
    }
    assert(old_sel@.take(n as int) =~= old_sel@);
    out
}

fn contains_id(v: &Vec<ObjectID>, o: ObjectID) -> (r: bool)
    ensures
        r == v@.contains(o),
{
    let n = v.len();
    let mut k: usize = 0;
    while k < n
        invariant
            k <= n,
            n == v@.len(),
            forall|j: int| 0 <= j < k ==> v@[j] != o,
        decreases n - k,
    {
        if v[k] == o {
            assert(v@[k as int] == o);
            return true;
        }
        k = k + 1;
    }
    false
}

/// The objects already removed whole during a mass delete, whose other
/// parts are then skipped.
pub struct MassDelete {
    removed: Vec<usize>,
}

impl MassDelete {
    /// The objects removed whole so far.
    pub closed spec fn removed(&self) -> Seq<usize> {
        self.removed@
    }

    /// A mass delete that has removed nothing yet.
    pub fn new() -> (r: Self)
        ensures
            r.removed().len() == 0,
    {
        MassDelete { removed: Vec::new() }
    }

    /// Whether an id is skipped: its object was already removed whole.
    pub fn skips(&self, id: ObjectID) -> (r: bool)
        ensures
            r == self.removed().contains(match id {
                ObjectID::Object(i) => i,
                ObjectID::SubObject(i, _) => i,
            }),
    {
        let o = id.id();
        let mut k: usize = 0;
        while k < self.removed.len()
            invariant
                k <= self.removed@.len(),
                o == (match id {
                    ObjectID::Object(i) => i,
                    ObjectID::SubObject(i, _) => i,
                }),
                forall|j: int| 0 <= j < k ==> self.removed@[j] != o,
            decreases self.removed@.len() - k,
        {
            if self.removed[k] == o {
                assert(self.removed@[k as int] == o);
                return true;
            }
            k = k + 1;
        }
        false
    }

    /// Records that deleting an id removed its whole object.
    pub fn removed_whole(&mut self, id: ObjectID)
        ensures
            final(self).removed() == old(self).removed().push(match id {
                ObjectID::Object(i) => i,
                ObjectID::SubObject(i, _) => i,
            }),
    {
        let o = id.id();
        self.removed.push(o);
    }
}

/// Whether a click in the level uses the cursor in place of the selected tool:
/// when zoomed out with a tool that does not work zoomed out.
pub fn use_cursor_instead(zoomed_out: bool, usable_zoomed_out: bool) -> (r: bool)
    ensures
        r == (zoomed_out && !usable_zoomed_out),
{
    zoomed_out && !usable_zoomed_out
}

/// Whether an event reaches the menu: key presses and releases do not while
/// the game's text entry has the focus.
pub fn menu_gets_event(input_focused: bool, is_key_event: bool) -> (r: bool)
    ensures
        r == (!input_focused || !is_key_event),
{
    !input_focused || !is_key_event
}

} // verus!
