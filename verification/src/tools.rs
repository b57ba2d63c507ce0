use vstd::prelude::*;
use crate::undo::ObjectID;
use crate::level_cells::{CellObject, Layers, LevelCells, spec_any_type_match, spec_layer_is};
use crate::sound::{SE_CHANDELIER1, SE_CHANDELIER2, SE_HEADPLUS, SE_HOLD, SE_MESSAGE, SE_MOCHI2, SE_NOT, SE_WARP};

verus! {

/// Where a tool puts a new object, and the sound it plays doing so.
#[derive(Debug, Clone, Copy, PartialEq, Eq, Structural)]
pub struct Place {
    pub x: i32,
    pub y: i32,
    pub sound: u32,
}

/// Places at a cell unless an object of the layers of `mask` is there.
pub open spec fn place_unless(level: LevelCells, x: i32, y: i32, mask: u32, sound: u32) -> Option<Place> {
    if spec_any_type_match(level.objects@, x, y, mask) {
        None
    } else {
        Some(Place { x, y, sound })
    }
}

fn place_unless_taken(level: &LevelCells, x: i32, y: i32, mask: u32, sound: u32) -> (r: Option<Place>)
    ensures
        r == place_unless(*level, x, y, mask, sound),
{
    if level.any_type_match(x, y, mask) {
        None
    } else {
        Some(Place { x, y, sound })
    }
}

/// The tool that only moves the cursor.
#[derive(Debug, Clone, Copy, PartialEq, Eq, Structural)]
pub struct ToolCursor {}

impl ToolCursor {
    /// The cursor works zoomed out too.
    pub fn can_be_used_zoomed_out(&self) -> (r: bool)
        ensures
            r,
    {
        true
    }
}

/// The tool that drags the view.
#[derive(Debug, Clone, Copy, PartialEq, Eq, Structural)]
pub struct ToolPan {}

impl ToolPan {
    /// Panning keeps the selection.
    pub fn clear_selection(&self) -> (r: bool)
        ensures
            !r,
    {
        false
    }

    /// Panning works zoomed out too.
    pub fn can_be_used_zoomed_out(&self) -> (r: bool)
        ensures
            r,
    {
        true
    }
}

/// The tool that hangs a chandelier, two cells wide, with its right half on
/// the cell clicked.
#[derive(Debug, Clone, Copy, PartialEq, Eq, Structural)]
pub struct ToolChandelier {}

impl ToolChandelier {
    /// Hangs a chandelier from the cell left of the one clicked, unless either
    /// cell already holds one.
    pub fn use_start(&self, level: &LevelCells, x: i32, y: i32, layers: &Layers) -> (r: Option<Place>)
        requires
            x > i32::MIN,
        ensures
            r == (if spec_any_type_match(level.objects@, x, y, layers.chandelier) || spec_any_type_match(
                level.objects@,
                (x - 1) as i32,
                y,
                layers.chandelier,
            ) {
                None
            } else {
                Some(Place { x: (x - 1) as i32, y, sound: SE_CHANDELIER2 })
            }),
    {
        if level.any_type_match(x, y, layers.chandelier) || level.any_type_match(x - 1, y, layers.chandelier) {
            None
        } else {
            Some(Place { x: x - 1, y, sound: SE_CHANDELIER2 })
        }
    }
}

/// The tool that places mochi blocks, on every cell the cursor crosses.
#[derive(Debug, Clone, Copy, PartialEq, Eq, Structural)]
pub struct ToolMochi {}

impl ToolMochi {
    /// Places a mochi block unless the cell holds a block.
    pub fn use_start(&self, level: &LevelCells, x: i32, y: i32, layers: &Layers) -> (r: Option<Place>)
        ensures
            r == place_unless(*level, x, y, layers.block, SE_MOCHI2),
    {
        place_unless_taken(level, x, y, layers.block, SE_MOCHI2)
    }
}

/// The tool that places shooting yin-yang orbs.
#[derive(Debug, Clone, Copy, PartialEq, Eq, Structural)]
pub struct ToolOnmyoudamaShoot {}

impl ToolOnmyoudamaShoot {
    /// Places an orb unless the cell holds one.
    pub fn use_start(&self, level: &LevelCells, x: i32, y: i32, layers: &Layers) -> (r: Option<Place>)
        ensures
            r == place_unless(*level, x, y, layers.onmyoudama_shoot, SE_HOLD),
    {
        place_unless_taken(level, x, y, layers.onmyoudama_shoot, SE_HOLD)
    }
}

/// The tool that places extra heads.
#[derive(Debug, Clone, Copy, PartialEq, Eq, Structural)]
pub struct ToolExtraHead {}

impl ToolExtraHead {
    /// Places an extra head unless the cell holds one.
    pub fn use_start(&self, level: &LevelCells, x: i32, y: i32, layers: &Layers) -> (r: Option<Place>)
        ensures
            r == place_unless(*level, x, y, layers.extra_head, SE_HEADPLUS),
    {
        place_unless_taken(level, x, y, layers.extra_head, SE_HEADPLUS)
    }
}

/// The objects that come as a pair of ends, two cells wide.
#[derive(Debug, Clone, Copy, PartialEq, Eq, Structural)]
pub enum PairedObject {
    MovingPlatform,
    Warp,
    Teleporter,
}

impl PairedObject {
    /// The layer of the object.
    pub fn types(self, layers: &Layers) -> (r: u32)
        ensures
            r == (match self {
                PairedObject::MovingPlatform => layers.moving_platform,
                PairedObject::Warp => layers.warp,
                PairedObject::Teleporter => layers.teleporter,
            }),
    {
        match self {
            PairedObject::MovingPlatform => layers.moving_platform,
            PairedObject::Warp => layers.warp,
            PairedObject::Teleporter => layers.teleporter,
        }
    }

    /// The sound of placing the object: the warp sound for warps and
    /// teleporters; a moving platform sounds like a semisolid (`None`).
    pub fn sound(self) -> (r: Option<u32>)
        ensures
            r == (if self == PairedObject::MovingPlatform {
                None
            } else {
                Some(SE_WARP)
            }),
    {
        match self {
            PairedObject::MovingPlatform => None,
            PairedObject::Teleporter | PairedObject::Warp => Some(SE_WARP),
        }
    }
}

/// What placing a paired object comes to.
#[derive(Debug, Clone, Copy, PartialEq, Eq, Structural)]
pub enum PairedPlacement {
    /// Refused with the "not" sound: a teleporter cannot share a level with a
    /// gap ball.
    Refused,
    /// Nothing: the cell or the one to its right is taken.
    Blocked,
    /// Place the object with its left end at this cell.
    At(i32, i32),
}

/// The tool for one of the paired objects.
#[derive(Debug, Clone, Copy, PartialEq, Eq, Structural)]
pub struct ToolPairedObject {
    pub object: PairedObject,
}

impl ToolPairedObject {
    /// Places the object at the cell clicked and the one to its right, unless
    /// either holds one of its kind; a teleporter is refused in a level with a
    /// gap ball.
    pub fn use_start(&self, level: &LevelCells, x: i32, y: i32, layers: &Layers, has_gap_ball: bool) -> (r:
        PairedPlacement)
        requires
            x < i32::MAX,
        ensures
            ({
                let t = match self.object {
                    PairedObject::MovingPlatform => layers.moving_platform,
                    PairedObject::Warp => layers.warp,
                    PairedObject::Teleporter => layers.teleporter,
                };
                r == (if self.object == PairedObject::Teleporter && has_gap_ball {
                    PairedPlacement::Refused
                } else if spec_any_type_match(level.objects@, x, y, t) || spec_any_type_match(
                    level.objects@,
                    (x + 1) as i32,
                    y,
                    t,
                ) {
                    PairedPlacement::Blocked
                } else {
                    PairedPlacement::At(x, y)
                })
            }),
    {
        if self.object == PairedObject::Teleporter && has_gap_ball {
            return PairedPlacement::Refused;
        }
        let t = self.object.types(layers);
        if level.any_type_match(x, y, t) || level.any_type_match(x + 1, y, t) {
            PairedPlacement::Blocked
        } else {
            PairedPlacement::At(x, y)
        }
    }
}

/// Whether no cell of a row from `a` up to (not including) `b` holds an object
/// of the layers of `mask`.
pub open spec fn row_free(level: LevelCells, a: int, b: int, y: i32, mask: u32) -> bool {
    forall|c: int| a <= c < b ==> !#[trigger] spec_any_type_match(level.objects@, c as i32, y, mask)
}

/// The spikes a drag covers: from the start cell towards the cursor column,
/// stopping before the first cell that blocks, as the half-open range of
/// columns from `lep` to `rep`.
pub open spec fn spike_extent_ok(level: LevelCells, start_x: i32, start_y: i32, x: i32, mask: u32, lep: i32, rep: i32) -> bool {
    &&& lep <= start_x < rep
    &&& row_free(level, lep as int, start_x as int, start_y, mask)
    &&& row_free(level, start_x + 1, rep as int, start_y, mask)
    &&& (if x < start_x {
        x <= lep && (lep == x || spec_any_type_match(level.objects@, (lep - 1) as i32, start_y, mask))
    } else {
        lep == start_x
    })
    &&& (if x > start_x {
        rep <= x + 1 && (rep == x + 1 || spec_any_type_match(level.objects@, rep, start_y, mask))
    } else {
        rep == start_x + 1
    })
}

/// The columns a spike drag covers from its start cell towards the cursor.
pub fn spike_extent(level: &LevelCells, start_x: i32, start_y: i32, x: i32, mask: u32) -> (r: (i32, i32))
    requires
        start_x < i32::MAX,
        x < i32::MAX,
    ensures
        spike_extent_ok(*level, start_x, start_y, x, mask, r.0, r.1),
{
    let mut lep = start_x;
    while lep > x
        invariant
            x <= start_x ==> x <= lep,
            lep <= start_x,
            x > start_x ==> lep == start_x,
            row_free(*level, lep as int, start_x as int, start_y, mask),
        ensures
            lep <= start_x,
            row_free(*level, lep as int, start_x as int, start_y, mask),
            x < start_x ==> x <= lep && (lep == x || spec_any_type_match(level.objects@, (lep - 1) as i32, start_y, mask)),
            x >= start_x ==> lep == start_x,
        decreases lep - x,
    {
        if level.any_type_match(lep - 1, start_y, mask) {
            break;
        }
        lep = lep - 1;
        assert(row_free(*level, lep as int, start_x as int, start_y, mask));
    }
    let mut rep = start_x + 1;
    while rep <= x
        invariant
            x < i32::MAX,
            start_x < rep,
            x >= start_x ==> rep <= x + 1,
            x < start_x ==> rep == start_x + 1,
            row_free(*level, start_x + 1, rep as int, start_y, mask),
        ensures
            start_x < rep,
            row_free(*level, start_x + 1, rep as int, start_y, mask),
            x > start_x ==> rep <= x + 1 && (rep == x + 1 || spec_any_type_match(level.objects@, rep, start_y, mask)),
            x <= start_x ==> rep == start_x + 1,
        decreases x + 1 - rep,
    {
        if level.any_type_match(rep, start_y, mask) {
            break;
        }
        rep = rep + 1;
        assert(row_free(*level, start_x + 1, rep as int, start_y, mask));
    }
    (lep, rep)
}

/// A spike drag in progress: its start cell, whether the spikes point down,
/// whether that is fixed, and the cursor column and count of the last update.
#[derive(Debug, Clone, Copy, PartialEq, Eq, Structural)]
pub struct SpikeDrag {
    pub start_x: i32,
    pub start_y: i32,
    pub down: bool,
    pub down_lock: bool,
    pub px: i32,
    pub plep: i32,
    pub pcount: usize,
}

/// What an update of a spike drag shows: the preview spikes from column `lep`,
/// `count` of them, pointing down or up; whether to play the hold sound.
#[derive(Debug, Clone, Copy, PartialEq, Eq, Structural)]
pub struct SpikePreview {
    pub lep: i32,
    pub count: usize,
    pub down: bool,
    pub sound: bool,
}

/// How a spike drag moves to a cursor column: when the direction or the
/// column changed, the spikes span the free cells of the start row from the
/// start towards the cursor; else nothing changes.
pub open spec fn spec_go(
    d: SpikeDrag,
    d2: SpikeDrag,
    r: Option<SpikePreview>,
    level: LevelCells,
    x: i32,
    above_middle: bool,
    layers: Layers,
) -> bool {
    let down = if d.down_lock { d.down } else { above_middle };
    if down != d.down || x != d.px {
        let mask = if down { layers.immutable_block_upper } else { layers.immutable_block_lower };
        r matches Some(p) && {
            &&& spike_extent_ok(level, d.start_x, d.start_y, x, mask, p.lep, (p.lep + p.count) as i32)
            &&& p.down == down
            &&& p.sound == (down != d.down || p.count != d.pcount)
            &&& d2 == (SpikeDrag { down, px: x, plep: p.lep, pcount: p.count, ..d })
        }
    } else {
        r is None && d2 == d
    }
}

impl SpikeDrag {
    /// Moves the drag to a cursor column (and above or below the middle of
    /// the start row): when the direction or the column changed, the spikes
    /// span the free cells of the start row from the start towards the cursor.
    pub fn go(&mut self, level: &LevelCells, x: i32, above_middle: bool, layers: &Layers) -> (r: Option<SpikePreview>)
        requires
            old(self).start_x < i32::MAX,
            x < i32::MAX,
        ensures
            spec_go(*old(self), *final(self), r, *level, x, above_middle, *layers),
    {
        let down = if self.down_lock {
            self.down
        } else {
            above_middle
        };
        if down != self.down || x != self.px {
            let mask = if down {
                layers.immutable_block_upper
            } else {
                layers.immutable_block_lower
            };
            let (lep, rep) = spike_extent(level, self.start_x, self.start_y, x, mask);
            let count = (rep as i64 - lep as i64) as usize;
            let sound = down != self.down || count != self.pcount;
            self.down = down;
            self.px = x;
            self.plep = lep;
            self.pcount = count;
            Some(SpikePreview { lep, count, down, sound })
        } else {
            None
        }
    }
}

/// Whether a drag's last count is that of a preview.
pub open spec fn d_count_matches(drag: Option<SpikeDrag>, p: SpikePreview) -> bool {
    drag matches Some(d) && d.pcount == p.count
}

/// The tool that lays rows of spikes by dragging.
pub struct ToolSpike {
    pub drag: Option<SpikeDrag>,
}

/// What ending a spike drag places: spikes pointing down or up on the cells of
/// a row, and whether to play the sound of a long row.
#[derive(Debug, Clone, Copy, PartialEq, Eq, Structural)]
pub struct SpikeRow {
    pub y: i32,
    pub lep: i32,
    pub count: usize,
    pub down: bool,
    pub sound: Option<u32>,
}

impl ToolSpike {
    /// The tool, with no drag.
    pub fn new() -> (r: Self)
        ensures
            r.drag is None,
    {
        ToolSpike { drag: None }
    }

    /// Starts a drag at a cell, unless spikes can point neither up nor down
    /// there; where only one way is free, the spikes keep to it.
    pub fn use_start(&mut self, level: &LevelCells, x: i32, y: i32, above_middle: bool, layers: &Layers) -> (r:
        Option<SpikePreview>)
        requires
            x < i32::MAX,
        ensures
            ({
                let can_up = !spec_any_type_match(level.objects@, x, y, layers.immutable_block_lower);
                let can_down = !spec_any_type_match(level.objects@, x, y, layers.immutable_block_upper);
                let down = if !can_up { true } else if !can_down { false } else { above_middle };
                if can_up || can_down {
                    &&& final(self).drag matches Some(d) && d.start_x == x && d.start_y == y && d.px == x
                        && d.down == down && d.down_lock == (!can_up || !can_down)
                    &&& r matches Some(p) && p.down == down && d_count_matches(final(self).drag, p) && spike_extent_ok(
                        *level,
                        x,
                        y,
                        x,
                        if down { layers.immutable_block_upper } else { layers.immutable_block_lower },
                        p.lep,
                        (p.lep + p.count) as i32,
                    )
                } else {
                    r is None && final(self).drag == old(self).drag
                }
            }),
    {
        let can_up = !level.any_type_match(x, y, layers.immutable_block_lower);
        let can_down = !level.any_type_match(x, y, layers.immutable_block_upper);
        if can_up || can_down {
            let mut d = SpikeDrag { start_x: x, start_y: y, down: false, down_lock: false, px: !x, plep: x, pcount: 0 };
            if !can_up {
                d.down = true;
                d.down_lock = true;
            } else if !can_down {
                d.down_lock = true;
            }
            assert(!x != x) by (bit_vector);
            let p = d.go(level, x, above_middle, layers);
            self.drag = Some(d);
            p
        } else {
            None
        }
    }

    /// Moves the drag, if one is running.
    pub fn use_frame(&mut self, level: &LevelCells, x: i32, above_middle: bool, layers: &Layers) -> (r: Option<SpikePreview>)
        requires
            old(self).drag matches Some(d) ==> d.start_x < i32::MAX,
            x < i32::MAX,
        ensures
            old(self).drag is None ==> r is None && final(self).drag is None,
            old(self).drag matches Some(d) ==> (final(self).drag matches Some(d2) && spec_go(
                d,
                d2,
                r,
                *level,
                x,
                above_middle,
                *layers,
            )),
    {
        match self.drag {
            Some(mut d) => {
                let p = d.go(level, x, above_middle, layers);
                self.drag = Some(d);
                p
            },
            None => None,
        }
    }

    /// Ends the drag: the spikes of its last update are placed (on the start
    /// row, from column `lep`), with a sound when there is more than one.
    pub fn use_end(&mut self) -> (r: Option<SpikeRow>)
        ensures
            final(self).drag is None,
            match old(self).drag {
                None => r is None,
                Some(d) => r == Some(
                    SpikeRow {
                        y: d.start_y,
                        lep: d.plep,
                        count: d.pcount,
                        down: d.down,
                        sound: if d.pcount > 1 { Some(SE_CHANDELIER1) } else { None },
                    },
                ),
            },
    {
        match self.drag {
            Some(d) => {
                self.drag = None;
                Some(SpikeRow { y: d.start_y, lep: d.plep, count: d.pcount, down: d.down, sound: if d.pcount > 1 { Some(SE_CHANDELIER1) } else { None } })
            },
            None => None,
        }
    }

    /// The context menu is blocked while a drag runs.
    pub fn block_context_menu(&self) -> (r: bool)
        ensures
            r == self.drag is Some,
    {
        self.drag.is_some()
    }
}

/// Whether an object blocks a flipper placed at a cell: within the two rows
/// up to the cell and the columns from two left of it to one right of it, a
/// full physics object that is not a flipper, or a flipper on the cell's row
/// left of the column after it.
pub open spec fn blocks_flipper(o: CellObject, x: i32, y: i32, flipper: u32, physics: u32) -> bool {
    let i = o.x - x;
    let j = y - o.y;
    &&& -2 <= i < 2
    &&& 0 <= j < 2
    &&& ((o.types & (flipper | physics)) == physics || (i < 1 && j == 0 && (o.types & flipper) != 0))
}

/// The tool that places flippers, with the spikes it is set to.
#[derive(Debug, Clone, Copy, PartialEq, Eq, Structural)]
pub struct ToolFlipper {
    /// The direction of the spikes, by its place in the context menu (0 up).
    pub spikes: u8,
}

impl ToolFlipper {
    /// The tool, with the spikes up.
    pub fn new() -> (r: Self)
        ensures
            r.spikes == 0,
    {
        ToolFlipper { spikes: 0 }
    }

    /// Places a flipper at a cell (rounded to the nearest corner) unless an
    /// object around it blocks it; returns the cell and the spikes.
    pub fn use_start(&self, level: &LevelCells, x: i32, y: i32, layers: &Layers) -> (r: Option<(i32, i32, u8)>)
        ensures
            r == (if exists|k: int| 0 <= k < level.objects@.len() && #[trigger] blocks_flipper(
                level.objects@[k],
                x,
                y,
                layers.flipper,
                layers.physics_object_full,
            ) {
                None
            } else {
                Some((x, y, self.spikes))
            }),
    {
        let f = layers.flipper;
        let p = layers.physics_object_full;
        let n = level.objects.len();
        let mut k: usize = 0;
        while k < n
            invariant
                k <= n,
                n == level.objects@.len(),
                f == layers.flipper,
                p == layers.physics_object_full,
                forall|m: int| 0 <= m < k ==> !#[trigger] blocks_flipper(level.objects@[m], x, y, f, p),
            decreases n - k,
        {
            let o = level.objects[k];
            let i: i64 = o.x as i64 - x as i64;
            let j: i64 = y as i64 - o.y as i64;
            if -2 <= i && i < 2 && 0 <= j && j < 2 {
                if o.types & (f | p) == p || (i < 1 && j == 0 && o.types & f != 0) {
                    assert(blocks_flipper(level.objects@[k as int], x, y, f, p));
                    return None;
                }
            }
            k = k + 1;
        }
        Some((x, y, self.spikes))
    }

    /// Sets the spikes from the entry chosen in the context menu.
    pub fn handle_context_menu_action(&mut self, choice: u8)
        requires
            choice < 4,
        ensures
            final(self).spikes == choice,
    {
        self.spikes = choice;
    }
}

/// The tool that places crawling yin-yang orbs, which cling to a block face.
#[derive(Debug, Clone, Copy, PartialEq, Eq, Structural)]
pub struct ToolOnmyoudamaCrawl {
    /// Whether the orb crawls against the clock.
    pub direction: bool,
}

/// The faces an orb can cling to: the block below, left, above and right of
/// its cell, in that order.
pub open spec fn spec_faces(level: LevelCells, x: i32, y: i32, layers: Layers) -> Seq<bool> {
    seq![
        spec_layer_is(level.objects@, x, (y + 1) as i32, layers.onmyoudama_crawl, layers.block),
        spec_layer_is(level.objects@, (x - 1) as i32, y, layers.onmyoudama_crawl, layers.block),
        spec_layer_is(level.objects@, x, (y - 1) as i32, layers.onmyoudama_crawl, layers.block),
        spec_layer_is(level.objects@, (x + 1) as i32, y, layers.onmyoudama_crawl, layers.block),
    ]
}

impl ToolOnmyoudamaCrawl {
    /// Whether an orb can be placed at a cell (none is there yet), and if so
    /// which faces around it it can cling to (below, left, above, right).
    pub fn use_start(&self, level: &LevelCells, x: i32, y: i32, layers: &Layers) -> (r: Option<[bool; 4]>)
        requires
            i32::MIN < x < i32::MAX,
            i32::MIN < y < i32::MAX,
        ensures
            spec_any_type_match(level.objects@, x, y, layers.onmyoudama_crawl) ==> r is None,
            !spec_any_type_match(level.objects@, x, y, layers.onmyoudama_crawl) ==> (r matches Some(f) && f@
                == spec_faces(*level, x, y, *layers)),
    {
        if level.any_type_match(x, y, layers.onmyoudama_crawl) {
            return None;
        }
        let faces = [
            level.block_at(x, y + 1, layers.onmyoudama_crawl, layers.block),
            level.block_at(x - 1, y, layers.onmyoudama_crawl, layers.block),
            level.block_at(x, y - 1, layers.onmyoudama_crawl, layers.block),
            level.block_at(x + 1, y, layers.onmyoudama_crawl, layers.block),
        ];
        assert(faces@ =~= spec_faces(*level, x, y, *layers));
        Some(faces)
    }

    /// Sets the direction from the context menu: the swap entry makes orbs
    /// crawl against the clock.
    pub fn handle_context_menu_action(&mut self, swap: bool)
        ensures
            final(self).direction == swap,
    {
        self.direction = swap;
    }

    /// The entry of the context menu that shows the current direction.
    pub fn context_menu_selection(&self) -> (r: usize)
        ensures
            r == (if self.direction { 0usize } else { 1usize }),
    {
        if self.direction {
            0
        } else {
            1
        }
    }
}

/// The signs that a symbol object shows.
#[derive(Debug, Clone, Copy, PartialEq, Eq, Structural)]
pub enum Symbol {
    ArrowUL,
    ArrowU,
    ArrowUR,
    ArrowL,
    Circle,
    ArrowR,
    ArrowDL,
    ArrowD,
    ArrowDR,
}

/// The sign that points from the placed symbol to the cell the cursor is on.
pub open spec fn spec_symbol_towards(x: int, y: int, sx: int, sy: int) -> Symbol {
    if y < sy {
        if x < sx { Symbol::ArrowUL } else if x == sx { Symbol::ArrowU } else { Symbol::ArrowUR }
    } else if y == sy {
        if x < sx { Symbol::ArrowL } else if x == sx { Symbol::Circle } else { Symbol::ArrowR }
    } else {
        if x < sx { Symbol::ArrowDL } else if x == sx { Symbol::ArrowD } else { Symbol::ArrowDR }
    }
}

/// The tool that places symbols and points them by dragging.
#[derive(Debug, Clone, Copy, PartialEq, Eq, Structural)]
pub struct ToolSymbol {
    /// The symbol being placed (0 while none is).
    pub object: u32,
    pub x: i16,
    pub y: i16,
    /// Whether the symbol was not pointed yet.
    pub undirected: bool,
}

impl ToolSymbol {
    /// The tool, placing nothing.
    pub fn new() -> (r: Self)
        ensures
            r == (ToolSymbol { object: 0, x: 0, y: 0, undirected: false }),
    {
        ToolSymbol { object: 0, x: 0, y: 0, undirected: false }
    }

    /// Whether a symbol can be placed at a cell: none is there yet.
    pub fn can_place(&self, level: &LevelCells, x: i32, y: i32, layers: &Layers) -> (r: bool)
        ensures
            r == !spec_any_type_match(level.objects@, x, y, layers.symbol),
    {
        !level.any_type_match(x, y, layers.symbol)
    }

    /// Records the symbol just placed (the object's number and its cell, kept
    /// to 16 bits as the game does); it is not pointed yet.
    pub fn placed(&mut self, object: u32, x: i16, y: i16)
        ensures
            *final(self) == (ToolSymbol { object, x, y, undirected: true }),
    {
        self.object = object;
        self.x = x;
        self.y = y;
        self.undirected = true;
    }

    /// When the cursor enters another cell while a symbol is being placed, the
    /// sign pointing from it to that cell.
    pub fn use_new_tile(&self, x: i16, y: i16) -> (r: Option<Symbol>)
        ensures
            self.object == 0 ==> r is None,
            self.object != 0 ==> r == Some(spec_symbol_towards(x as int, y as int, self.x as int, self.y as int)),
    {
        if self.object == 0 {
            return None;
        }
        let sx = self.x;
        let sy = self.y;
        let s = if y < sy {
            if x < sx { Symbol::ArrowUL } else if x == sx { Symbol::ArrowU } else { Symbol::ArrowUR }
        } else if y == sy {
            if x < sx { Symbol::ArrowL } else if x == sx { Symbol::Circle } else { Symbol::ArrowR }
        } else {
            if x < sx { Symbol::ArrowDL } else if x == sx { Symbol::ArrowD } else { Symbol::ArrowDR }
        };
        Some(s)
    }

    /// Records that the symbol took a sign.
    pub fn pointed(&mut self)
        ensures
            *final(self) == (ToolSymbol { undirected: false, ..*old(self) }),
    {
        self.undirected = false;
    }

    /// Ends the placement; returns whether to play the hold sound (for a
    /// symbol that was never pointed).
    pub fn use_end(&mut self) -> (r: bool)
        ensures
            r == old(self).undirected,
            *final(self) == (ToolSymbol { object: 0, undirected: false, ..*old(self) }),
    {
        self.object = 0;
        if self.undirected {
            self.undirected = false;
            true
        } else {
            false
        }
    }
}

/// Dragging back onto the placed symbol's own cell shows the circle, and any
/// other cell gives an arrow: the sign is the circle exactly on the symbol.
pub proof fn law_circle_only_on_the_symbol(x: int, y: int, sx: int, sy: int)
    ensures
        (spec_symbol_towards(x, y, sx, sy) == Symbol::Circle) <==> (x == sx && y == sy),
{
}

/// The four ways a cannon points.
#[derive(Debug, Clone, Copy, PartialEq, Eq, Structural)]
pub enum CannonDirection {
    Up,
    Down,
    Left,
    Right,
}

/// The tool that places cannons and aims them by dragging.
#[derive(Debug, Clone, Copy, PartialEq, Eq, Structural)]
pub struct ToolCannon {
    /// Whether the cannons placed are switch cannons.
    pub switch: bool,
    /// The cannon being aimed (0 while none is).
    pub object: u32,
}

impl ToolCannon {
    /// The tool, placing plain cannons.
    pub fn new() -> (r: Self)
        ensures
            r == (ToolCannon { switch: false, object: 0 }),
    {
        ToolCannon { switch: false, object: 0 }
    }

    /// Whether a cannon can be placed at a cell: no immutable block is there.
    pub fn can_place(&self, level: &LevelCells, x: i32, y: i32, layers: &Layers) -> (r: bool)
        ensures
            r == !spec_any_type_match(level.objects@, x, y, layers.immutable_block),
    {
        !level.any_type_match(x, y, layers.immutable_block)
    }

    /// Records the cannon just placed, to aim it while the button is held.
    pub fn placed(&mut self, object: u32)
        ensures
            *final(self) == (ToolCannon { object, ..*old(self) }),
    {
        self.object = object;
    }

    /// Aims the cannon being placed; returns whether it turned (and so the
    /// message sound plays and its sprite changes).
    pub fn use_frame(&self, current: CannonDirection, wanted: CannonDirection) -> (r: bool)
        ensures
            r == (self.object != 0 && current != wanted),
    {
        self.object != 0 && current != wanted
    }

    /// Ends the placement; returns whether to play the head sound (a cannon was
    /// being placed).
    pub fn use_end(&mut self) -> (r: bool)
        ensures
            r == (old(self).object != 0),
            *final(self) == (ToolCannon { object: 0, ..*old(self) }),
    {
        let r = self.object != 0;
        self.object = 0;
        r
    }

    /// Sets the kind of cannon from the context menu (the second entry is the
    /// switch cannon).
    pub fn handle_context_menu_action(&mut self, switch: bool)
        ensures
            *final(self) == (ToolCannon { switch, ..*old(self) }),
    {
        self.switch = switch;
    }

    /// The entry of the context menu that shows the current kind.
    pub fn context_menu_selection(&self) -> (r: usize)
        ensures
            r == (if self.switch { 1usize } else { 0usize }),
    {
        if self.switch {
            1
        } else {
            0
        }
    }
}

/// The order of object ids: whole objects before parts, each by number (parts
/// by object, then by part).
pub open spec fn id_le(a: ObjectID, b: ObjectID) -> bool {
    match (a, b) {
        (ObjectID::Object(i), ObjectID::Object(j)) => i <= j,
        (ObjectID::Object(_), ObjectID::SubObject(_, _)) => true,
        (ObjectID::SubObject(_, _), ObjectID::Object(_)) => false,
        (ObjectID::SubObject(i, k), ObjectID::SubObject(j, l)) => i < j || (i == j && k <= l),
    }
}

fn id_le_exec(a: ObjectID, b: ObjectID) -> (r: bool)
    ensures
        r == id_le(a, b),
{
    match (a, b) {
        (ObjectID::Object(i), ObjectID::Object(j)) => i <= j,
        (ObjectID::Object(_), ObjectID::SubObject(_, _)) => true,
        (ObjectID::SubObject(_, _), ObjectID::Object(_)) => false,
        (ObjectID::SubObject(i, k), ObjectID::SubObject(j, l)) => i < j || (i == j && k <= l),
    }
}

/// Whether ids are in order.
pub open spec fn ids_sorted(s: Seq<ObjectID>) -> bool {
    forall|i: int, j: int| 0 <= i < j < s.len() ==> id_le(s[i], s[j])
}

/// The ids of the objects under the cursor, sorted, in the order the delete
/// tool removes them.
pub fn sort_ids(ids: &Vec<ObjectID>) -> (r: Vec<ObjectID>)
    ensures
        ids_sorted(r@),
        r@.to_multiset() == ids@.to_multiset(),
{
    let mut r: Vec<ObjectID> = Vec::new();
    let n = ids.len();
    let mut k: usize = 0;
    assert(ids@.take(0) =~= r@);
    while k < n
        invariant
            k <= n,
            n == ids@.len(),
            ids_sorted(r@),
            r@.to_multiset() == ids@.take(k as int).to_multiset(),
        decreases n - k,
    {
        let x = ids[k];
        let mut p: usize = 0;
        while p < r.len() && id_le_exec(r[p], x)
            invariant
                p <= r@.len(),
                forall|m: int| 0 <= m < p ==> id_le(r@[m], x),
            decreases r@.len() - p,
        {
            p = p + 1;
        }
        let ghost before = r@;
        r.insert(p, x);
        assert(r@ == before.insert(p as int, x));
        assert(ids_sorted(r@)) by {
            assert forall|i: int, j: int| 0 <= i < j < r@.len() implies id_le(r@[i], r@[j]) by {
                if j < p {
                } else if j == p {
                } else if i < p {
                    assert(id_le(before[i], x));
                    if p < before.len() {
                        assert(!id_le(before[p as int], x));
                        assert(id_le(before[p as int], before[j - 1]) || j - 1 == p);
                    }
                } else if i == p {
                    if p < before.len() {
                        assert(!id_le(before[p as int], x));
                        assert(id_le(before[p as int], before[j - 1]) || j - 1 == p);
                    }
                } else {
                }
            }
        }
        assert(ids@.take(k as int + 1) =~= ids@.take(k as int).push(x));
        assert(r@.to_multiset() == before.insert(p as int, x).to_multiset());
        proof {
            vstd::seq_lib::to_multiset_insert(before, p as int, x);
            vstd::seq_lib::to_multiset_build(ids@.take(k as int), x);
        }
        k = k + 1;
    }
    assert(ids@.take(n as int) =~= ids@);
    r
}

/// The tool that deletes what is under the cursor.
#[derive(Debug, Clone, Copy, PartialEq, Eq, Structural)]
pub struct ToolDelete {}

impl ToolDelete {
    /// The objects under the cursor in the order they are deleted.
    pub fn use_start(&self, under_cursor: &Vec<ObjectID>) -> (r: Vec<ObjectID>)
        ensures
            ids_sorted(r@),
            r@.to_multiset() == under_cursor@.to_multiset(),
    {
        sort_ids(under_cursor)
    }

    /// The sound after deleting: the hold sound when anything was deleted.
    pub fn sound(&self, deleted: usize) -> (r: Option<u32>)
        ensures
            r == (if deleted > 0 { Some(SE_HOLD) } else { None }),
    {
        if deleted > 0 {
            Some(SE_HOLD)
        } else {
            None
        }
    }
}

/// What placing a simple object comes to.
#[derive(Debug, Clone, Copy, PartialEq, Eq, Structural)]
pub enum SimplePlacement {
    /// Refused with the "not" sound: the object is unique and the level has one.
    Refused,
    /// Nothing: the cell holds an object of its layers.
    Blocked,
    /// Place the object at this cell.
    At(i32, i32),
}

/// The tool that places one kind of simple object (by its number), which the
/// context menu can change to another variant.
#[derive(Debug, Clone, Copy, PartialEq, Eq, Structural)]
pub struct ToolSimple {
    pub object: u32,
}

impl ToolSimple {
    /// The tool for a kind of object.
    pub fn new(object: u32) -> (r: Self)
        ensures
            r.object == object,
    {
        ToolSimple { object }
    }

    /// Places the object at a cell: a unique object the level already has is
    /// refused, and a cell holding an object of its layers is left alone.
    pub fn use_start(&self, level: &LevelCells, x: i32, y: i32, unique: bool, level_has_one: bool, types: u32) -> (r:
        SimplePlacement)
        ensures
            r == (if unique && level_has_one {
                SimplePlacement::Refused
            } else if spec_any_type_match(level.objects@, x, y, types) {
                SimplePlacement::Blocked
            } else {
                SimplePlacement::At(x, y)
            }),
    {
        if unique && level_has_one {
            SimplePlacement::Refused
        } else if level.any_type_match(x, y, types) {
            SimplePlacement::Blocked
        } else {
            SimplePlacement::At(x, y)
        }
    }

    /// The same on a cell the cursor drags onto, where a unique object is never
    /// placed again.
    pub fn use_new_tile(&self, level: &LevelCells, x: i32, y: i32, unique: bool, level_has_one: bool, types: u32) -> (r:
        Option<SimplePlacement>)
        ensures
            unique ==> r is None,
            !unique ==> r == Some(
                if spec_any_type_match(level.objects@, x, y, types) {
                    SimplePlacement::Blocked
                } else {
                    SimplePlacement::At(x, y)
                },
            ),
    {
        if unique {
            None
        } else {
            Some(self.use_start(level, x, y, unique, level_has_one, types))
        }
    }

    /// The entry of the context menu for the current variant, given the
    /// variants of the object (`usize::MAX` when it is not among them), or
    /// `None` when there is nothing to choose.
    pub fn context_menu_selection(&self, variants: &Vec<u32>) -> (r: Option<usize>)
        ensures
            variants@.len() <= 1 ==> r is None,
            variants@.len() > 1 ==> (r matches Some(k) && ((k < variants@.len() && variants@[k as int] == self.object
                && forall|m: int| 0 <= m < k ==> variants@[m] != self.object) || (k == usize::MAX && !variants@.contains(
                self.object,
            )))),
    {
        if variants.len() <= 1 {
            return None;
        }
        let mut k: usize = 0;
        while k < variants.len()
            invariant
                k <= variants@.len(),
                variants@.len() > 1,
                forall|m: int| 0 <= m < k ==> variants@[m] != self.object,
            decreases variants@.len() - k,
        {
            if variants[k] == self.object {
                return Some(k);
            }
            k = k + 1;
        }
        Some(usize::MAX)
    }

    /// Switches to the first variant whose sprite is the one chosen in the
    /// context menu (nothing changes when none is).
    pub fn handle_context_menu_action(&mut self, variants: &Vec<u32>, sprites: &Vec<i32>, action: i32)
        requires
            variants@.len() == sprites@.len(),
        ensures
            (exists|k: int| 0 <= k < sprites@.len() && sprites@[k] == action) ==> exists|k: int|
                0 <= k < sprites@.len() && sprites@[k] == action && final(self).object == variants@[k] && forall|m: int|
                    0 <= m < k ==> sprites@[m] != action,
            !(exists|k: int| 0 <= k < sprites@.len() && sprites@[k] == action) ==> final(self).object == old(self).object,
    {
        let mut k: usize = 0;
        while k < variants.len()
            invariant
                k <= variants@.len(),
                variants@.len() == sprites@.len(),
                forall|m: int| 0 <= m < k ==> sprites@[m] != action,
                self.object == old(self).object,
            decreases variants@.len() - k,
        {
            if sprites[k] == action {
                self.object = variants[k];
                return;
            }
            k = k + 1;
        }
    }
}

/// The tool that places tiles of one kind (by its number).
#[derive(Debug, Clone, Copy, PartialEq, Eq, Structural)]
pub struct ToolTile {
    pub tile_id: u8,
}

impl ToolTile {
    /// The tool for a kind of tile.
    pub fn new(tile: u8) -> (r: Self)
        ensures
            r.tile_id == tile,
    {
        ToolTile { tile_id: tile }
    }

    /// The kind of tile placed.
    pub fn tile(&self) -> (r: u8)
        ensures
            r == self.tile_id,
    {
        self.tile_id
    }

    /// For the coloured blocks (four kinds numbered from `block_red`), the
    /// entry of the context menu that shows the current colour.
    pub fn context_menu_selection(&self, block_red: u8) -> (r: Option<usize>)
        ensures
            r == (if block_red <= self.tile_id < block_red + 4 {
                Some((self.tile_id - block_red) as usize)
            } else {
                None
            }),
    {
        if block_red <= self.tile_id && (self.tile_id as u16) < block_red as u16 + 4 {
            Some((self.tile_id - block_red) as usize)
        } else {
            None
        }
    }

    /// Switches to the colour chosen in the context menu.
    pub fn handle_context_menu_action(&mut self, block_red: u8, choice: u8)
        requires
            choice < 4,
            block_red + choice < 256,
        ensures
            final(self).tile_id == block_red + choice,
    {
        self.tile_id = block_red + choice;
    }
}

/// A split between two cells of the tile layer: on the top edge of a cell, or
/// on its left edge when vertical.
#[derive(Debug, Clone, Copy, PartialEq, Eq, Structural)]
pub struct TileSplit {
    pub x: i32,
    pub y: i32,
    pub vertical: bool,
}

/// The tool that splits tiles along the edge nearest the cursor.
#[derive(Debug, Clone, Copy, PartialEq, Eq, Structural)]
pub struct ToolTileSplit {}

impl ToolTileSplit {
    /// The split at the cursor: it must be near exactly one kind of grid line
    /// (a row line, giving a horizontal split of the cell column the cursor is
    /// in, or a column line, giving a vertical split of the cell row).
    /// `x_floor`/`x_round` are the cursor column rounded down and to nearest,
    /// and the same for rows.
    pub fn split_at(&self, x_near: bool, y_near: bool, x_floor: i32, x_round: i32, y_floor: i32, y_round: i32) -> (r:
        Option<TileSplit>)
        ensures
            x_near == y_near ==> r is None,
            x_near != y_near && y_near ==> r == Some(TileSplit { x: x_floor, y: y_round, vertical: false }),
            x_near != y_near && x_near ==> r == Some(TileSplit { x: x_round, y: y_floor, vertical: true }),
    {
        if x_near == y_near {
            None
        } else if y_near {
            Some(TileSplit { x: x_floor, y: y_round, vertical: false })
        } else {
            Some(TileSplit { x: x_round, y: y_floor, vertical: true })
        }
    }

    /// Adds a split to the splits of the level, unless it is there already;
    /// returns whether it was added.
    pub fn add_split(&self, splits: &mut Vec<TileSplit>, split: TileSplit) -> (r: bool)
        ensures
            r == !old(splits)@.contains(split),
            r ==> final(splits)@ == old(splits)@.push(split),
            !r ==> final(splits)@ == old(splits)@,
    {
        let mut k: usize = 0;
        while k < splits.len()
            invariant
                k <= splits@.len(),
                splits@ == old(splits)@,
                forall|m: int| 0 <= m < k ==> splits@[m] != split,
            decreases splits@.len() - k,
        {
            if splits[k] == split {
                assert(old(splits)@.contains(split));
                return false;
            }
            k = k + 1;
        }
        splits.push(split);
        true
    }
}

/// The tool that selects what a dragged box covers.
#[derive(Debug, Clone, Copy, PartialEq, Eq, Structural)]
pub struct ToolSelect {}

impl ToolSelect {
    /// Selecting works zoomed out too.
    pub fn can_be_used_zoomed_out(&self) -> (r: bool)
        ensures
            r,
    {
        true
    }

    /// The sound as the box changes: the message sound whenever it covers a
    /// different number of objects.
    pub fn sound(&self, before: usize, after: usize) -> (r: Option<u32>)
        ensures
            r == (if before != after { Some(SE_MESSAGE) } else { None }),
    {
        if before != after {
            Some(SE_MESSAGE)
        } else {
            None
        }
    }
}

/// The spikes follow the cursor's half of the start row: when their direction
/// is not fixed and the cursor crosses to the other half, an update turns the
/// drag and shows spikes pointing the new way, whatever the column; when
/// neither the direction nor the column changes, nothing is shown.
pub proof fn law_spikes_follow_the_cursor(
    d: SpikeDrag,
    d2: SpikeDrag,
    r: Option<SpikePreview>,
    level: LevelCells,
    x: i32,
    above_middle: bool,
    layers: Layers,
)
    requires
        spec_go(d, d2, r, level, x, above_middle, layers),
    ensures
        !d.down_lock && above_middle != d.down ==> (r matches Some(p) && p.down == above_middle && d2.down
            == above_middle && p.sound),
        d.down_lock ==> d2.down == d.down,
        (d.down_lock || above_middle == d.down) && x == d.px ==> r is None && d2 == d,
{
}

} // verus!
