use vstd::prelude::*;

verus! {

/// How many ticks the context menu takes to unfold or fold.
pub const OPEN_CLOSE_FRAMES: u8 = 4;

/// Marks "no item focused".
pub const NO_FOCUS: usize = usize::MAX;

/// Where the context menu is in its life: closed, fully open, or unfolding /
/// folding (with the frame reached so far).
#[derive(Clone, Copy, PartialEq, Eq, Structural, Debug)]
pub enum ContextMenuState {
    Closed,
    Open,
    Opening(u8),
    Closing(u8),
}

/// An entry of the context menu: an icon with a label and a text colour, or a
/// grid of icons (four to a row) with the one currently in effect highlighted.
pub enum ContextMenuItem {
    LabeledIcon(i32, &'static str, u32),
    IconList(Vec<i32>, usize),
}

/// What an entry shows: a labelled icon by its sprite, label text and colour,
/// or a grid by its icons and highlight.
pub enum ItemView {
    Labeled(i32, Seq<char>, u32),
    Icons(Seq<i32>, usize),
}

impl View for ContextMenuItem {
    type V = ItemView;

    open spec fn view(&self) -> ItemView {
        match self {
            ContextMenuItem::LabeledIcon(s, t, c) => ItemView::Labeled(*s, t@, *c),
            ContextMenuItem::IconList(v, h) => ItemView::Icons(v@, *h),
        }
    }
}

/// A direction in which the focus moves.
#[derive(Clone, Copy, PartialEq, Eq, Structural, Debug)]
pub enum Direction {
    Up,
    Down,
    Left,
    Right,
}

/// The number of icon rows an entry takes (a labelled icon takes one).
pub open spec fn spec_rows(item: ItemView) -> nat {
    match item {
        ItemView::Labeled(_, _, _) => 1,
        ItemView::Icons(v, _) => ((v.len() - 1) / 4 + 1) as nat,
    }
}

impl ContextMenuItem {
    /// The number of icon rows the entry takes; a row is 20 pixels high.
    pub fn rows(&self) -> (r: usize)
        requires
            self@ is Icons ==> self@->Icons_0.len() > 0,
        ensures
            r == spec_rows(self@),
    {
        match self {
            ContextMenuItem::IconList(v, _) => (v.len() - 1) / 4 + 1,
            ContextMenuItem::LabeledIcon(_, _, _) => 1,
        }
    }

    /// Merges the entries of two objects into one entry that acts on both, when
    /// they offer the same choice: two labelled icons with the same icon keep the
    /// first one's label; two icon grids with the same icons keep the highlight if
    /// it agrees, and highlight nothing otherwise.
    pub fn combine(&self, other: &Self) -> (r: Option<Self>)
        ensures
            r is Some <==> match (self@, other@) {
                (ItemView::Labeled(s1, _, _), ItemView::Labeled(s2, _, _)) => s1 == s2,
                (ItemView::Icons(v1, _), ItemView::Icons(v2, _)) => v1 == v2,
                _ => false,
            },
            r is Some ==> match (self@, other@) {
                (ItemView::Labeled(s1, t1, c1), _) => r->Some_0@ == ItemView::Labeled(s1, t1, c1),
                (ItemView::Icons(v1, h1), ItemView::Icons(_, h2)) => r->Some_0@ == ItemView::Icons(
                    v1,
                    if h1 == h2 {
                        h1
                    } else {
                        NO_FOCUS
                    },
                ),
                _ => false,
            },
    {
        match (self, other) {
            (ContextMenuItem::LabeledIcon(s1, text, colour), ContextMenuItem::LabeledIcon(s2, _, _)) => {
                if *s1 == *s2 {
                    Some(ContextMenuItem::LabeledIcon(*s1, *text, *colour))
                } else {
                    None
                }
            },
            (ContextMenuItem::IconList(v1, h1), ContextMenuItem::IconList(v2, h2)) => {
                if same_icons(v1, v2) {
                    let h = if *h1 == *h2 {
                        *h1
                    } else {
                        NO_FOCUS
                    };
                    Some(ContextMenuItem::IconList(copy_icons(v1), h))
                } else {
                    None
                }
            },
            _ => None,
        }
    }
}

fn same_icons(a: &Vec<i32>, b: &Vec<i32>) -> (r: bool)
    ensures
        r == (a@ == b@),
{
    if a.len() != b.len() {
        return false;
    }
    let n = a.len();
    let mut k: usize = 0;
    while k < n
        invariant
            k <= n,
            n == a@.len(),
            n == b@.len(),
            forall|j: int| 0 <= j < k ==> a@[j] == b@[j],
        decreases n - k,
    {
        if a[k] != b[k] {
            return false;
        }
        k = k + 1;
    }
    assert(a@ =~= b@);
    true
}

fn copy_icons(a: &Vec<i32>) -> (r: Vec<i32>)
    ensures
        r@ == a@,
{
    let mut out: Vec<i32> = Vec::new();
    let n = a.len();
    let mut k: usize = 0;
    while k < n
        invariant
            k <= n,
            n == a@.len(),
            out@ == a@.take(k as int),
        decreases n - k,
    {
        out.push(a[k]);
        k = k + 1;
        assert(out@ =~= a@.take(k as int));
    }
    assert(a@.take(n as int) =~= a@);
    out
}


/// The entry that acts on two objects at once, when they offer the same
/// choice (see `ContextMenuItem::combine`).
pub open spec fn combined(a: ItemView, b: ItemView) -> Option<ItemView> {
    match (a, b) {
        (ItemView::Labeled(s1, t1, c1), ItemView::Labeled(s2, _, _)) => if s1 == s2 {
            Some(ItemView::Labeled(s1, t1, c1))
        } else {
            None
        },
        (ItemView::Icons(v1, h1), ItemView::Icons(v2, h2)) => if v1 == v2 {
            Some(
                ItemView::Icons(
                    v1,
                    if h1 == h2 {
                        h1
                    } else {
                        NO_FOCUS
                    },
                ),
            )
        } else {
            None
        },
        _ => None,
    }
}

/// The first entry, from position `j` of `others` on, that `i` combines with,
/// as combined with it.
pub open spec fn first_combined(i: ItemView, others: Seq<ItemView>, j: int) -> Option<ItemView>
    decreases others.len() - j,
{
    if j < 0 || j >= others.len() {
        None
    } else {
        match combined(i, others[j]) {
            Some(c) => Some(c),
            None => first_combined(i, others, j + 1),
        }
    }
}

/// The entries of a menu for two objects: each entry of the first that the
/// second also offers, combined with the first such entry of the second.
pub open spec fn merged(items: Seq<ItemView>, others: Seq<ItemView>) -> Seq<ItemView>
    decreases items.len(),
{
    if items.len() == 0 {
        Seq::empty()
    } else {
        let prev = merged(items.drop_last(), others);
        match first_combined(items.last(), others, 0) {
            Some(c) => prev.push(c),
            None => prev,
        }
    }
}

/// The entries of a menu for several objects, given each one's entries: the
/// first object's, merged with each next one's in turn; once nothing is left,
/// nothing comes back.
pub open spec fn selection_items(lists: Seq<Seq<ItemView>>) -> Seq<ItemView>
    decreases lists.len(),
{
    if lists.len() == 0 {
        Seq::empty()
    } else if lists.len() == 1 {
        lists[0]
    } else {
        let p = selection_items(lists.drop_last());
        if p.len() == 0 {
            Seq::empty()
        } else {
            merged(p, lists.last())
        }
    }
}

/// The views of a list of entries.
pub open spec fn item_views(items: Seq<ContextMenuItem>) -> Seq<ItemView> {
    items.map_values(|i: ContextMenuItem| i@)
}

/// The first entry of `others` that `item` combines with, as combined with it.
pub fn first_combination(item: &ContextMenuItem, others: &Vec<ContextMenuItem>) -> (r: Option<ContextMenuItem>)
    ensures
        match r {
            Some(c) => first_combined(item@, item_views(others@), 0) == Some(c@),
            None => first_combined(item@, item_views(others@), 0) is None,
        },
{
    let ghost ov = item_views(others@);
    let mut j: usize = 0;
    while j < others.len()
        invariant
            j <= others@.len(),
            ov == item_views(others@),
            first_combined(item@, ov, 0) == first_combined(item@, ov, j as int),
        decreases others@.len() - j,
    {
        let c = item.combine(&others[j]);
        assert(ov[j as int] == others@[j as int]@);
        match c {
            Some(c) => {
                return Some(c);
            },
            None => {},
        }
        j = j + 1;
    }
    None
}

/// The entries of a menu for two objects (see `merged`).
pub fn merge_items(items: &Vec<ContextMenuItem>, others: &Vec<ContextMenuItem>) -> (r: Vec<ContextMenuItem>)
    ensures
        item_views(r@) == merged(item_views(items@), item_views(others@)),
{
    let ghost iv = item_views(items@);
    let mut out: Vec<ContextMenuItem> = Vec::new();
    let mut k: usize = 0;
    while k < items.len()
        invariant
            k <= items@.len(),
            iv == item_views(items@),
            item_views(out@) == merged(iv.take(k as int), item_views(others@)),
        decreases items@.len() - k,
    {
        let c = first_combination(&items[k], others);
        proof {
            assert(iv.take(k + 1).drop_last() =~= iv.take(k as int));
            assert(iv.take(k + 1).last() == items@[k as int]@);
        }
        match c {
            Some(c) => {
                let ghost before = out@;
                out.push(c);
                assert(item_views(out@) =~= item_views(before).push(c@));
            },
            None => {},
        }
        k = k + 1;
    }
    assert(iv.take(items@.len() as int) =~= iv);
    out
}

/// The entries of a menu for several selected objects, given each one's
/// entries in the order of the selection (see `selection_items`).
pub fn selection_menu(lists: Vec<Vec<ContextMenuItem>>) -> (r: Vec<ContextMenuItem>)
    ensures
        item_views(r@) == selection_items(lists@.map_values(|l: Vec<ContextMenuItem>| item_views(l@))),
{
    let ghost lv = lists@.map_values(|l: Vec<ContextMenuItem>| item_views(l@));
    let total = lists.len();
    let ghost n = lists@.len();
    assert(n == total);
    let mut rest = lists;
    let mut items: Vec<ContextMenuItem> = Vec::new();
    let mut k: usize = 0;
    loop
        invariant_except_break
            k + rest@.len() == n,
            n <= usize::MAX,
            lv.len() == n,
            forall|j: int| 0 <= j < rest@.len() ==> item_views(#[trigger] rest@[j]@) == lv[k + j],
            item_views(items@) == selection_items(lv.take(k as int)),
        ensures
            item_views(items@) == selection_items(lv),
        decreases rest@.len(),
    {
        if rest.len() == 0 {
            assert(lv.take(k as int) =~= lv);
            break;
        }
        let next = rest.remove(0);
        assert(item_views(next@) == lv[k as int]);
        proof {
            assert(lv.take(k + 1).drop_last() =~= lv.take(k as int));
            assert(lv.take(k + 1).last() == lv[k as int]);
            assert(lv.take(k + 1)[0] == lv[0]);
        }
        if k == 0 {
            items = next;
            assert(item_views(items@) == selection_items(lv.take(k + 1)));
        } else {
            items = merge_items(&items, &next);
        }
        k = k + 1;
        if items.len() == 0 {
            proof {
                lemma_selection_stays_empty(lv, k as int);
            }
            break;
        }
    }
    items
}

/// Once the entries for the first `k` objects are empty, those for all of them
/// are.
proof fn lemma_selection_stays_empty(lists: Seq<Seq<ItemView>>, k: int)
    requires
        1 <= k <= lists.len(),
        selection_items(lists.take(k)).len() == 0,
    ensures
        selection_items(lists).len() == 0,
    decreases lists.len() - k,
{
    if k == lists.len() {
        assert(lists.take(k) =~= lists);
    } else {
        assert(lists.take(k + 1).drop_last() =~= lists.take(k));
        lemma_selection_stays_empty(lists, k + 1);
    }
}

/// Whether a menu for the selection offers to delete: some selected whole
/// object may be deleted, or a part of an object is selected.
pub open spec fn spec_offers_delete(sel: Seq<crate::undo::ObjectID>, can_delete: Seq<bool>) -> bool {
    exists|k: int|
        0 <= k < sel.len() && match #[trigger] sel[k] {
            crate::undo::ObjectID::Object(id) => can_delete[id as int],
            crate::undo::ObjectID::SubObject(_, _) => true,
        }
}

/// Whether a menu for the selection offers to delete, given which level
/// objects may be deleted.
pub fn offers_delete(sel: &Vec<crate::undo::ObjectID>, can_delete: &Vec<bool>) -> (r: bool)
    requires
        forall|k: int|
            0 <= k < sel@.len() ==> (#[trigger] sel@[k] matches crate::undo::ObjectID::Object(id) ==> id
                < can_delete@.len()),
    ensures
        r == spec_offers_delete(sel@, can_delete@),
{
    let mut k: usize = 0;
    while k < sel.len()
        invariant
            k <= sel@.len(),
            forall|j: int|
                0 <= j < sel@.len() ==> (#[trigger] sel@[j] matches crate::undo::ObjectID::Object(id) ==> id
                    < can_delete@.len()),
            forall|j: int|
                0 <= j < k ==> !match #[trigger] sel@[j] {
                    crate::undo::ObjectID::Object(id) => can_delete@[id as int],
                    crate::undo::ObjectID::SubObject(_, _) => true,
                },
        decreases sel@.len() - k,
    {
        let yes = match sel[k] {
            crate::undo::ObjectID::Object(id) => can_delete[id],
            crate::undo::ObjectID::SubObject(_, _) => true,
        };
        if yes {
            assert(match sel@[k as int] {
                crate::undo::ObjectID::Object(id) => can_delete@[id as int],
                crate::undo::ObjectID::SubObject(_, _) => true,
            });
            return true;
        }
        k = k + 1;
    }
    false
}

/// Entries that a context menu can show: at least one, and no empty icon grid.
pub open spec fn items_ok(items: Seq<ItemView>) -> bool {
    items.len() > 0 && forall|k: int|
        0 <= k < items.len() ==> (#[trigger] items[k] is Icons ==> items[k]->Icons_0.len() > 0)
}

/// The sub-focus that the grid at `item` starts from when it gains the focus
/// from nowhere: its highlight, or the old one for a labelled icon.
pub open spec fn enter_sub(items: Seq<ItemView>, item: int, sub: usize) -> usize {
    match items[item] {
        ItemView::Icons(_, h) => h,
        ItemView::Labeled(_, _, _) => sub,
    }
}

/// The sub-focus kept when moving up into the grid at `item`: the same column
/// in its last row (or its last icon).
pub open spec fn up_into(items: Seq<ItemView>, item: int, sub: usize) -> usize {
    match items[item] {
        ItemView::Icons(v, _) => {
            let s = ((((v.len() - 1) as usize) & !3usize) | (sub & 3usize)) as usize;
            if s >= v.len() {
                (v.len() - 1) as usize
            } else {
                s
            }
        },
        ItemView::Labeled(_, _, _) => sub,
    }
}

/// The item above `item`, wrapping from the first to the last.
pub open spec fn prev_item(n: int, item: int) -> int {
    if item == 0 {
        n - 1
    } else {
        item - 1
    }
}

/// Where a move sends the focus (`NO_FOCUS` as the item means nothing focused;
/// from there any move focuses the first item, or the last one when moving up).
pub open spec fn moved_focus(items: Seq<ItemView>, item: usize, sub: usize, dir: Direction) -> (
    usize,
    usize,
) {
    let n = items.len() as int;
    if item == NO_FOCUS {
        let target = if dir == Direction::Up {
            n - 1
        } else {
            0
        };
        (target as usize, enter_sub(items, target, sub))
    } else {
        match (dir, items[item as int]) {
            (Direction::Up, ItemView::Icons(_, _)) => if sub > 3 {
                (item, (sub - 4) as usize)
            } else {
                let p = prev_item(n, item as int);
                (p as usize, up_into(items, p, sub))
            },
            (Direction::Up, ItemView::Labeled(_, _, _)) => {
                let p = prev_item(n, item as int);
                (p as usize, up_into(items, p, sub))
            },
            (Direction::Down, ItemView::Icons(v, _)) => if sub < v.len() - 4 {
                (item, (sub + 4) as usize)
            } else {
                let nx = (item + 1) % n;
                (nx as usize, match items[nx] {
                    ItemView::Icons(v2, _) => if sub >= v2.len() {
                        0usize
                    } else {
                        sub
                    },
                    ItemView::Labeled(_, _, _) => sub,
                })
            },
            (Direction::Down, ItemView::Labeled(_, _, _)) => {
                let nx = (item + 1) % n;
                (nx as usize, match items[nx] {
                    ItemView::Icons(v2, _) => if sub % 4 >= v2.len() {
                        (v2.len() - 1) as usize
                    } else {
                        (sub % 4) as usize
                    },
                    ItemView::Labeled(_, _, _) => sub,
                })
            },
            (Direction::Left, ItemView::Icons(v, _)) => if sub == 0 {
                (item, (v.len() - 1) as usize)
            } else {
                (item, (sub - 1) as usize)
            },
            (Direction::Right, ItemView::Icons(v, _)) => (item, ((sub + 1) % (v.len() as int)) as usize),
            _ => (item, sub),
        }
    }
}

/// The moves that the menu cannot make: moving down inside a grid of fewer than
/// four icons, and moving right from the last possible sub-focus value.
pub open spec fn move_fails(items: Seq<ItemView>, item: usize, sub: usize, dir: Direction) -> bool {
    item != NO_FOCUS && match (dir, items[item as int]) {
        (Direction::Down, ItemView::Icons(v, _)) => v.len() < 4,
        (Direction::Right, ItemView::Icons(_, _)) => sub == usize::MAX,
        _ => false,
    }
}

/// Moves the focus one step in a direction.
pub fn move_focus(items: &Vec<ContextMenuItem>, item: usize, sub: usize, dir: Direction) -> (r: (
    usize,
    usize,
))
    requires
        items_ok(items@.map_values(|i: ContextMenuItem| i@)),
        item == NO_FOCUS || item < items@.len(),
        !move_fails(items@.map_values(|i: ContextMenuItem| i@), item, sub, dir),
    ensures
        r == moved_focus(items@.map_values(|i: ContextMenuItem| i@), item, sub, dir),
        r.0 < items@.len(),
{
    let ghost iv = items@.map_values(|i: ContextMenuItem| i@);
    let n = items.len();
    assert(iv[0] == items@[0]@);
    if item == NO_FOCUS {
        let target = if dir == Direction::Up {
            n - 1
        } else {
            0
        };
        assert(iv[target as int] == items@[target as int]@);
        let s = match &items[target] {
            ContextMenuItem::IconList(_, h) => *h,
            ContextMenuItem::LabeledIcon(_, _, _) => sub,
        };
        return (target, s);
    }
    assert(iv[item as int] == items@[item as int]@);
    match dir {
        Direction::Up => {
            let is_grid = match &items[item] {
                ContextMenuItem::IconList(_, _) => true,
                _ => false,
            };
            if is_grid && sub > 3 {
                return (item, sub - 4);
            }
            let p = if item == 0 {
                n - 1
            } else {
                item - 1
            };
            assert(iv[p as int] == items@[p as int]@);
            let s = match &items[p] {
                ContextMenuItem::IconList(v, _) => {
                    assert(iv[p as int] is Icons);
                    let s = ((v.len() - 1) & !3usize) | (sub & 3usize);
                    if s >= v.len() {
                        v.len() - 1
                    } else {
                        s
                    }
                },
                ContextMenuItem::LabeledIcon(_, _, _) => sub,
            };
            (p, s)
        },
        Direction::Down => {
            match &items[item] {
                ContextMenuItem::IconList(v, _) => {
                    if sub < v.len() - 4 {
                        return (item, sub + 4);
                    }
                    let nx = (item + 1) % n;
                    assert(iv[nx as int] == items@[nx as int]@);
                    let s = match &items[nx] {
                        ContextMenuItem::IconList(v2, _) => if sub >= v2.len() {
                            0
                        } else {
                            sub
                        },
                        ContextMenuItem::LabeledIcon(_, _, _) => sub,
                    };
                    (nx, s)
                },
                ContextMenuItem::LabeledIcon(_, _, _) => {
                    let nx = (item + 1) % n;
                    assert(iv[nx as int] == items@[nx as int]@);
                    let s = match &items[nx] {
                        ContextMenuItem::IconList(v2, _) => {
                            assert(iv[nx as int] is Icons);
                            let m = sub % 4;
                            if m >= v2.len() {
                                v2.len() - 1
                            } else {
                                m
                            }
                        },
                        ContextMenuItem::LabeledIcon(_, _, _) => sub,
                    };
                    (nx, s)
                },
            }
        },
        Direction::Left => {
            match &items[item] {
                ContextMenuItem::IconList(v, _) => {
                    if sub == 0 {
                        (item, v.len() - 1)
                    } else {
                        (item, sub - 1)
                    }
                },
                ContextMenuItem::LabeledIcon(_, _, _) => (item, sub),
            }
        },
        Direction::Right => {
            match &items[item] {
                ContextMenuItem::IconList(v, _) => (item, (sub + 1) % v.len()),
                ContextMenuItem::LabeledIcon(_, _, _) => (item, sub),
            }
        },
    }
}

/// An event as the context menu sees it. The controller turns raw events into
/// these: a press outside the menu (noting whether it was the primary button),
/// a press that asks to move the focus (if it maps to a direction), the entry
/// and icon under a moved mouse (as `hover_target` finds them), a release (of the "back" or the "primary" control, or
/// another one), a tick, or anything else.
#[derive(Clone, Copy, PartialEq, Eq, Structural, Debug)]
pub enum MenuEvent {
    Tick,
    PressOutside(bool),
    Press(Option<Direction>),
    Hover(usize, usize),
    ReleaseBack,
    ReleasePrimary,
    ReleaseOther,
    Other,
}

/// The context menu's state: where it is in its life, its entries and the
/// focused entry (and icon within a grid).
pub struct ContextMenu {
    state: ContextMenuState,
    items: Vec<ContextMenuItem>,
    focus_item: usize,
    focus_subitem: usize,
}

/// The contents of a `ContextMenu`.
pub struct ContextMenuView {
    pub state: ContextMenuState,
    pub items: Seq<ItemView>,
    pub focus_item: usize,
    pub focus_subitem: usize,
}

impl View for ContextMenu {
    type V = ContextMenuView;

    closed spec fn view(&self) -> ContextMenuView {
        ContextMenuView {
            state: self.state,
            items: self.items@.map_values(|i: ContextMenuItem| i@),
            focus_item: self.focus_item,
            focus_subitem: self.focus_subitem,
        }
    }
}

/// The state after a request to close: an unfolding menu folds back from where
/// it got, an open one folds from the full height, a closed or folding one is
/// left as it is.
pub open spec fn spec_close(s: ContextMenuState) -> ContextMenuState {
    match s {
        ContextMenuState::Opening(x) => ContextMenuState::Closing(x),
        ContextMenuState::Open => ContextMenuState::Closing(OPEN_CLOSE_FRAMES),
        _ => s,
    }
}

/// The state after a tick: unfolding goes on until fully open, folding until
/// closed.
pub open spec fn spec_tick(s: ContextMenuState) -> ContextMenuState {
    match s {
        ContextMenuState::Opening(x) => if x == OPEN_CLOSE_FRAMES {
            ContextMenuState::Open
        } else {
            ContextMenuState::Opening((x + 1) as u8)
        },
        ContextMenuState::Closing(x) => if x == 0 {
            ContextMenuState::Closed
        } else {
            ContextMenuState::Closing((x - 1) as u8)
        },
        _ => s,
    }
}

/// The frames that the folding states can be at.
pub open spec fn state_ok(s: ContextMenuState) -> bool {
    match s {
        ContextMenuState::Opening(x) => 1 <= x <= OPEN_CLOSE_FRAMES,
        ContextMenuState::Closing(x) => x <= OPEN_CLOSE_FRAMES,
        _ => true,
    }
}

/// What primary-clicking the focused entry chooses: nothing focused gives 1;
/// otherwise the action code `-1 - sprite` of the focused icon (an icon outside
/// the grid counts as sprite -1, which gives 0).
pub open spec fn primary_code(items: Seq<ItemView>, item: usize, sub: usize) -> int {
    if item == NO_FOCUS {
        1
    } else {
        match items[item as int] {
            ItemView::Labeled(spr, _, _) => -1 - spr,
            ItemView::Icons(v, _) => -1 - (if sub < v.len() {
                v[sub as int] as int
            } else {
                -1
            }),
        }
    }
}

impl ContextMenu {
    /// The invariant: a menu that is not closed has entries it can show, and its
    /// focus is an entry or nothing.
    pub closed spec fn wf(&self) -> bool {
        &&& state_ok(self.state)
        &&& self.state != ContextMenuState::Closed ==> items_ok(self@.items)
        &&& (self.focus_item == NO_FOCUS || self.focus_item < self.items@.len())
    }

    /// A closed menu.
    pub fn new() -> (r: Self)
        ensures
            r.wf(),
            r@.state == ContextMenuState::Closed,
    {
        ContextMenu { state: ContextMenuState::Closed, items: Vec::new(), focus_item: NO_FOCUS, focus_subitem: 0 }
    }

    /// The menu's state.
    pub fn state(&self) -> (r: ContextMenuState)
        ensures
            r == self@.state,
    {
        self.state
    }

    /// The focused entry and icon.
    pub fn focus(&self) -> (r: (usize, usize))
        ensures
            r == (self@.focus_item, self@.focus_subitem),
    {
        (self.focus_item, self.focus_subitem)
    }

    /// The menu's entries.
    pub fn items(&self) -> (r: &Vec<ContextMenuItem>)
        ensures
            r@.map_values(|i: ContextMenuItem| i@) == self@.items,
    {
        &self.items
    }

    /// Closes the menu at once, whatever it was doing.
    pub fn force_close_now(&mut self)
        ensures
            final(self).wf(),
            final(self)@.state == ContextMenuState::Closed,
            final(self)@.items.len() == 0,
            final(self)@.focus_item == NO_FOCUS,
    {
        self.state = ContextMenuState::Closed;
        self.items = Vec::new();
        self.focus_item = NO_FOCUS;
        self.focus_subitem = 0;
        assert(self@.items =~= Seq::<ItemView>::empty());
    }

    /// Opens the menu with the given entries, closing any menu shown before; it
    /// starts unfolding with nothing focused.
    pub fn open(&mut self, items: Vec<ContextMenuItem>)
        requires
            items_ok(items@.map_values(|i: ContextMenuItem| i@)),
        ensures
            final(self).wf(),
            final(self)@.state == ContextMenuState::Opening(1),
            final(self)@.items == items@.map_values(|i: ContextMenuItem| i@),
            final(self)@.focus_item == NO_FOCUS,
            final(self)@.focus_subitem == 0,
    {
        self.state = ContextMenuState::Opening(1);
        self.items = items;
        self.focus_item = NO_FOCUS;
        self.focus_subitem = 0;
    }

    /// Asks the menu to close; it folds away over the next ticks.
    pub fn close(&mut self)
        requires
            old(self).wf(),
        ensures
            final(self).wf(),
            final(self)@ == (ContextMenuView { state: spec_close(old(self)@.state), ..old(self)@ }),
    {
        self.state = match self.state {
            ContextMenuState::Opening(x) => ContextMenuState::Closing(x),
            ContextMenuState::Open => ContextMenuState::Closing(OPEN_CLOSE_FRAMES),
            s => s,
        };
    }

    /// Handles one event and returns the menu's answer: 0 when the menu is closed
    /// (or a non-primary press outside closes it), 1 when the menu took the event,
    /// or a negative action code when an entry was chosen (the menu then closes).
    /// The flag tells whether the focus highlight must be redrawn.
    pub fn handle_event(&mut self, event: MenuEvent) -> (r: (i32, bool))
        requires
            old(self).wf(),
            old(self)@.state == ContextMenuState::Open ==> match event {
                MenuEvent::Press(Some(d)) => !move_fails(
                    old(self)@.items,
                    old(self)@.focus_item,
                    old(self)@.focus_subitem,
                    d,
                ),
                MenuEvent::Hover(i, j) => focus_ok(old(self)@.items, i, j),
                _ => true,
            },
        ensures
            final(self).wf(),
            match old(self)@.state {
                ContextMenuState::Closed => r == (0i32, false) && final(self)@ == old(self)@,
                ContextMenuState::Opening(_) | ContextMenuState::Closing(_) => {
                    &&& r == (1i32, false)
                    &&& (event == MenuEvent::Tick ==> final(self)@.state == spec_tick(old(self)@.state))
                    &&& (event != MenuEvent::Tick ==> final(self)@ == old(self)@)
                    &&& (final(self)@.state != ContextMenuState::Closed ==> final(self)@.items == old(self)@.items)
                },
                ContextMenuState::Open => {
                    let o = old(self)@;
                    match event {
                        MenuEvent::PressOutside(primary) => r == (if primary {
                            1i32
                        } else {
                            0i32
                        }, false) && final(self)@ == (ContextMenuView { state: ContextMenuState::Closing(OPEN_CLOSE_FRAMES), ..o }),
                        MenuEvent::Press(Some(d)) => {
                            let m = moved_focus(o.items, o.focus_item, o.focus_subitem, d);
                            r == (1i32, true) && final(self)@ == (ContextMenuView { focus_item: m.0, focus_subitem: m.1, ..o })
                        },
                        MenuEvent::Hover(i, j) => r == (1i32, (i, j) != (o.focus_item, o.focus_subitem))
                            && final(self)@ == (ContextMenuView { focus_item: i, focus_subitem: j, ..o }),
                        MenuEvent::ReleaseBack => r == (1i32, false) && final(self)@ == (ContextMenuView { state: ContextMenuState::Closing(OPEN_CLOSE_FRAMES), ..o }),
                        MenuEvent::ReleasePrimary => {
                            let code = primary_code(o.items, o.focus_item, o.focus_subitem);
                            if code < 0 {
                                r == (code as i32, false) && final(self)@ == (ContextMenuView { state: ContextMenuState::Closing(OPEN_CLOSE_FRAMES), ..o })
                            } else {
                                r == (1i32, false) && final(self)@ == o
                            }
                        },
                        _ => r == (1i32, false) && final(self)@ == o,
                    }
                },
            },
    {
        match self.state {
            ContextMenuState::Closed => (0, false),
            ContextMenuState::Opening(x) => {
                if event == MenuEvent::Tick {
                    self.state = if x == OPEN_CLOSE_FRAMES {
                        ContextMenuState::Open
                    } else {
                        ContextMenuState::Opening(x + 1)
                    };
                }
                (1, false)
            },
            ContextMenuState::Closing(x) => {
                if event == MenuEvent::Tick {
                    if x == 0 {
                        self.force_close_now();
                    } else {
                        self.state = ContextMenuState::Closing(x - 1);
                    }
                }
                (1, false)
            },
            ContextMenuState::Open => {
                match event {
                    MenuEvent::PressOutside(primary) => {
                        self.close();
                        (if primary {
                            1
                        } else {
                            0
                        }, false)
                    },
                    MenuEvent::Press(Some(d)) => {
                        let (i, j) = move_focus(&self.items, self.focus_item, self.focus_subitem, d);
                        self.focus_item = i;
                        self.focus_subitem = j;
                        (1, true)
                    },
                    MenuEvent::Hover(i, j) => {
                        let changed = i != self.focus_item || j != self.focus_subitem;
                        self.focus_item = i;
                        self.focus_subitem = j;
                        (1, changed)
                    },
                    MenuEvent::ReleaseBack => {
                        self.close();
                        (1, false)
                    },
                    MenuEvent::ReleasePrimary => {
                        let code = self.primary_code();
                        if code < 0 {
                            self.close();
                            (code, false)
                        } else {
                            (1, false)
                        }
                    },
                    _ => (1, false),
                }
            },
        }
    }

    fn primary_code(&self) -> (r: i32)
        requires
            self.wf(),
        ensures
            r as int == primary_code(self@.items, self@.focus_item, self@.focus_subitem),
    {
        if self.focus_item == NO_FOCUS {
            return 1;
        }
        assert(self@.items[self.focus_item as int] == self.items@[self.focus_item as int]@);
        match &self.items[self.focus_item] {
            ContextMenuItem::LabeledIcon(spr, _, _) => -1 - *spr,
            ContextMenuItem::IconList(v, _) => {
                let s = if self.focus_subitem < v.len() {
                    v[self.focus_subitem]
                } else {
                    -1
                };
                -1 - s
            },
        }
    }
}


/// Whether a focus is on the menu: nothing, or an entry, and within a grid
/// one of its icons.
pub open spec fn focus_ok(items: Seq<ItemView>, item: usize, sub: usize) -> bool {
    item == NO_FOCUS || (item < items.len() && (items[item as int] matches ItemView::Icons(v, _) ==> sub < v.len()))
}

/// Moving the focus keeps it on the menu, down to the icon within a grid. A
/// move from no focus into a grid takes the grid's highlight, so there that
/// highlight must name an icon (a grid merged from entries with different
/// highlights has none, and the focus would then leave the grid).
pub proof fn law_moves_keep_the_focus_on_an_icon(items: Seq<ItemView>, item: usize, sub: usize, dir: Direction)
    requires
        items_ok(items),
        items.len() <= usize::MAX,
        focus_ok(items, item, sub),
        !move_fails(items, item, sub, dir),
        item == NO_FOCUS ==> (items[if dir == Direction::Up {
            items.len() - 1
        } else {
            0
        }] matches ItemView::Icons(v, h) ==> h < v.len()),
    ensures
        focus_ok(items, moved_focus(items, item, sub, dir).0, moved_focus(items, item, sub, dir).1),
{
    let n = items.len() as int;
    let m = moved_focus(items, item, sub, dir);
    if item == NO_FOCUS {
        let target = if dir == Direction::Up {
            n - 1
        } else {
            0
        };
        assert(items[target] is Icons ==> items[target]->Icons_0.len() > 0);
        assert(m.0 as int == target);
    } else {
        let nx = (item + 1) % n;
        assert(items[nx] is Icons ==> items[nx]->Icons_0.len() > 0);
        let p = prev_item(n, item as int);
        assert(items[p] is Icons ==> items[p]->Icons_0.len() > 0);
        assert(0 <= p < n);
        match items[item as int] {
            ItemView::Icons(v, _) => {
                assert(v.len() > 0);
                match dir {
                    Direction::Up => {
                        if sub <= 3 {
                            assert(m == (p as usize, up_into(items, p, sub)));
                        }
                    },
                    Direction::Down => {
                        if sub >= v.len() - 4 {
                            assert(m.0 as int == nx);
                        }
                    },
                    Direction::Left => {},
                    Direction::Right => {
                        assert(((sub + 1) % (v.len() as int)) < v.len());
                    },
                }
            },
            ItemView::Labeled(_, _, _) => {
                match dir {
                    Direction::Up => {
                        assert(m == (p as usize, up_into(items, p, sub)));
                    },
                    Direction::Down => {
                        assert(m.0 as int == nx);
                        if items[nx] is Icons {
                            assert((sub % 4) >= 0);
                        }
                    },
                    _ => {},
                }
            },
        }
    }
}

/// Where the pointer puts the focus, scanning the entries from `k` on with `y`
/// the pointer's height below the top of entry `k` (whole pixels; entries are
/// 20 pixels to a row, with a 2-pixel gap between them): over a labelled
/// icon it focuses that entry; over a grid, the icon in the column (`col / 20`,
/// at most the fourth) and row under it, or nothing past the grid's last icon;
/// over a gap, nothing. Below the last entry the focus stays.
pub open spec fn spec_hover(items: Seq<ItemView>, k: int, y: int, col: int, old: (usize, usize)) -> (usize, usize)
    decreases items.len() - k,
{
    if k < 0 || k >= items.len() {
        old
    } else {
        let h = 20 * spec_rows(items[k]);
        let y2 = y - h;
        if y2 < -2 {
            match items[k] {
                ItemView::Labeled(_, _, _) => (k as usize, old.1),
                ItemView::Icons(v, _) => {
                    let sub = (if col / 20 < 3 {
                        col / 20
                    } else {
                        3
                    }) + 4 * ((y2 + h) / 20);
                    (if sub >= v.len() {
                        NO_FOCUS
                    } else {
                        k as usize
                    }, sub as usize)
                },
            }
        } else if y2 < 0 {
            (NO_FOCUS, old.1)
        } else {
            spec_hover(items, k + 1, y2, col, old)
        }
    }
}

/// The focus under the pointer, at whole pixel `(col, py)` from the menu's
/// corner, inside the menu's border (see `spec_hover`; the first entry starts
/// 2 pixels down).
pub open spec fn spec_hover_inside(items: Seq<ItemView>, col: int, py: int, old: (usize, usize)) -> (usize, usize) {
    spec_hover(items, 0, py - 2, col, old)
}

/// Grids small enough for the pointer's row arithmetic on 32-bit integers.
pub open spec fn grids_fit(items: Seq<ItemView>) -> bool {
    forall|k: int| 0 <= k < items.len() ==> (#[trigger] items[k] matches ItemView::Icons(v, _) ==> v.len() <= 0x8000_0000)
}

fn scan_hover(items: &Vec<ContextMenuItem>, col: i32, py: i32, old: (usize, usize)) -> (r: (usize, usize))
    requires
        items_ok(item_views(items@)),
        grids_fit(item_views(items@)),
        0 <= col,
        2 <= py,
    ensures
        r == spec_hover_inside(item_views(items@), col as int, py as int, old),
{
    let ghost iv = item_views(items@);
    let mut y: i64 = py as i64 - 2;
    let mut k: usize = 0;
    while k < items.len()
        invariant
            iv == item_views(items@),
            items_ok(iv),
            grids_fit(iv),
            0 <= col,
            0 <= y <= py,
            k <= items@.len(),
            spec_hover_inside(iv, col as int, py as int, old) == spec_hover(iv, k as int, y as int, col as int, old),
        decreases items@.len() - k,
    {
        let it = &items[k];
        assert(iv[k as int] == it@);
        let rows = it.rows();
        assert(rows <= 0x2000_0000) by {
            if it@ is Icons {
                assert(it@->Icons_0.len() <= 0x8000_0000);
            }
        }
        let h: i64 = 20 * rows as i64;
        let y2: i64 = y - h;
        if y2 < -2 {
            match it {
                ContextMenuItem::LabeledIcon(_, _, _) => {
                    return (k, old.1);
                },
                ContextMenuItem::IconList(v, _) => {
                    let x: i64 = col as i64 / 20;
                    let m: i64 = if x < 3 {
                        x
                    } else {
                        3
                    };
                    let sub: i64 = m + 4 * ((y2 + h) / 20);
                    if sub >= v.len() as i64 {
                        return (NO_FOCUS, sub as usize);
                    } else {
                        return (k, sub as usize);
                    }
                },
            }
        } else if y2 < 0 {
            return (NO_FOCUS, old.1);
        }
        y = y2;
        k = k + 1;
    }
    old
}

/// The height of the first `k` entries: 20 pixels for each row of icons.
pub open spec fn entries_height(items: Seq<ItemView>, k: int) -> int
    decreases k,
{
    if k <= 0 || k > items.len() {
        0
    } else {
        entries_height(items, k - 1) + 20 * spec_rows(items[k - 1])
    }
}

/// The focus under the pointer. Its position from the menu's corner is given
/// by the whole pixels below (`fx`, `fy`) and above (`cx`, `cy`) it. Within 2
/// pixels of the menu's edge (left of 2, right of 80, above 2, or below the
/// entries' height, the menu being 2 pixels taller) nothing is focused and the
/// icon is kept; inside, see `spec_hover_inside`.
pub open spec fn spec_hover_target(items: Seq<ItemView>, fx: int, cx: int, fy: int, cy: int, old: (usize, usize)) -> (
    usize,
    usize,
) {
    if fx < 2 || cx > 80 || fy < 2 || cy > entries_height(items, items.len() as int) {
        (NO_FOCUS, old.1)
    } else {
        spec_hover_inside(items, fx, fy, old)
    }
}

/// Whether `y` lies below all the entries: whether it is more than their total
/// height (the sum is carried only as far as 2^33, past any `y`).
fn entries_taller_than(items: &Vec<ContextMenuItem>, y: i32) -> (r: bool)
    requires
        items_ok(item_views(items@)),
        grids_fit(item_views(items@)),
    ensures
        r == (y > entries_height(item_views(items@), items@.len() as int)),
{
    let ghost iv = item_views(items@);
    let mut h: i64 = 0;
    let mut k: usize = 0;
    while k < items.len()
        invariant
            iv == item_views(items@),
            items_ok(iv),
            grids_fit(iv),
            k <= items@.len(),
            0 <= h,
            entries_height(iv, k as int) < 0x2_0000_0000 ==> h == entries_height(iv, k as int),
            entries_height(iv, k as int) >= 0x2_0000_0000 ==> h >= 0x2_0000_0000,
            entries_height(iv, k as int) >= 0,
        decreases items@.len() - k,
    {
        let it = &items[k];
        assert(iv[k as int] == it@);
        let rows = it.rows();
        assert(rows <= 0x2000_0000) by {
            if it@ is Icons {
                assert(it@->Icons_0.len() <= 0x8000_0000);
            }
        }
        assert(entries_height(iv, k + 1) == entries_height(iv, k as int) + 20 * spec_rows(iv[k as int]));
        if h < 0x2_0000_0000 {
            h = h + 20 * rows as i64;
        }
        k = k + 1;
    }
    (y as i64) > h
}

/// The focus under the pointer (see `spec_hover_target`), given the focus
/// before, whose icon is kept over a labelled entry, a gap or the border.
pub fn hover_target(items: &Vec<ContextMenuItem>, fx: i32, cx: i32, fy: i32, cy: i32, old: (usize, usize)) -> (r: (
    usize,
    usize,
))
    requires
        items_ok(item_views(items@)),
        grids_fit(item_views(items@)),
    ensures
        r == spec_hover_target(item_views(items@), fx as int, cx as int, fy as int, cy as int, old),
{
    if fx < 2 || cx > 80 || fy < 2 || entries_taller_than(items, cy) {
        (NO_FOCUS, old.1)
    } else {
        scan_hover(items, fx, fy, old)
    }
}

/// The pointer leaves the focus on the menu: on nothing, or on an entry and,
/// within a grid, on one of its icons, whenever it was so before.
pub proof fn law_pointer_focuses_an_icon(
    items: Seq<ItemView>,
    fx: int,
    cx: int,
    fy: int,
    cy: int,
    old: (usize, usize),
)
    requires
        items_ok(items),
        items.len() <= usize::MAX,
        focus_ok(items, old.0, old.1),
    ensures
        focus_ok(
            items,
            spec_hover_target(items, fx, cx, fy, cy, old).0,
            spec_hover_target(items, fx, cx, fy, cy, old).1,
        ),
{
    if !(fx < 2 || cx > 80 || fy < 2 || cy > entries_height(items, items.len() as int)) {
        lemma_hover_focus_ok(items, 0, fy - 2, fx, old);
    }
}

proof fn lemma_hover_focus_ok(items: Seq<ItemView>, k: int, y: int, col: int, old: (usize, usize))
    requires
        items_ok(items),
        items.len() <= usize::MAX,
        0 <= col,
        0 <= y,
        0 <= k,
        focus_ok(items, old.0, old.1),
    ensures
        focus_ok(items, spec_hover(items, k, y, col, old).0, spec_hover(items, k, y, col, old).1),
    decreases items.len() - k,
{
    if k < items.len() {
        let h = 20 * spec_rows(items[k]);
        let y2 = y - h;
        if y2 < -2 {
            match items[k] {
                ItemView::Icons(v, _) => {
                    let sub = (if col / 20 < 3 {
                        col / 20
                    } else {
                        3
                    }) + 4 * ((y2 + h) / 20);
                    assert(sub >= 0);
                },
                _ => {},
            }
        } else if y2 >= 0 {
            lemma_hover_focus_ok(items, k + 1, y2, col, old);
        }
    }
}

/// A menu that is asked to close is closed at the latest five ticks later,
/// whatever it was doing.
pub proof fn law_close_then_five_ticks_is_closed(s: ContextMenuState)
    requires
        state_ok(s),
    ensures
        spec_tick(spec_tick(spec_tick(spec_tick(spec_tick(spec_close(s))))))
            == ContextMenuState::Closed,
{
}

/// A freshly opened menu is fully open after four ticks.
pub proof fn law_open_takes_four_ticks()
    ensures
        spec_tick(spec_tick(spec_tick(spec_tick(ContextMenuState::Opening(1)))))
            == ContextMenuState::Open,
        spec_tick(spec_tick(spec_tick(ContextMenuState::Opening(1)))) != ContextMenuState::Open,
{
}

/// Within a grid of icons, moving right and then left gives back the icon that
/// was focused.
pub proof fn law_right_then_left_returns(items: Seq<ItemView>, item: usize, sub: usize)
    requires
        items_ok(items),
        item < items.len(),
        item != NO_FOCUS,
        items[item as int] is Icons,
        sub < items[item as int]->Icons_0.len(),
        items[item as int]->Icons_0.len() <= usize::MAX,
    ensures
        ({
            let a = moved_focus(items, item, sub, Direction::Right);
            moved_focus(items, a.0, a.1, Direction::Left) == (item, sub)
        }),
{
    let v = items[item as int]->Icons_0;
    assert(v.len() > 0);
    let a = moved_focus(items, item, sub, Direction::Right);
    assert(a == (item, ((sub + 1) % (v.len() as int)) as usize));
    if sub + 1 < v.len() {
        vstd::arithmetic::div_mod::lemma_small_mod((sub + 1) as nat, v.len());
        assert(a.1 == sub + 1);
        assert(moved_focus(items, a.0, a.1, Direction::Left) == (item, sub));
    } else {
        assert(sub + 1 == v.len());
        vstd::arithmetic::div_mod::lemma_mod_self_0(v.len() as int);
        assert(a.1 == 0);
        assert(moved_focus(items, a.0, a.1, Direction::Left) == (item, sub));
    }
}

/// Every move ends on a real entry of the menu.
pub proof fn law_move_lands_on_an_entry(items: Seq<ItemView>, item: usize, sub: usize, dir: Direction)
    requires
        items_ok(items),
        item == NO_FOCUS || item < items.len(),
    ensures
        moved_focus(items, item, sub, dir).0 < items.len(),
{
}

} // verus!
