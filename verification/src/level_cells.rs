use vstd::prelude::*;

verus! {

/// An object of a level as the editor's tools see it: a cell it covers, and
/// the layers (a bit set) it belongs to there.
#[derive(Debug, Clone, Copy, PartialEq, Eq, Structural)]
pub struct CellObject {
    pub x: i32,
    pub y: i32,
    pub types: u32,
}

/// The objects of a level, cell by cell: an object covering several cells
/// appears once for each.
pub struct LevelCells {
    pub objects: Vec<CellObject>,
}

/// The bit masks of the layers that the tools test (the game's layer table).
#[derive(Debug, Clone, Copy, PartialEq, Eq, Structural)]
pub struct Layers {
    pub block: u32,
    pub immutable_block: u32,
    pub immutable_block_upper: u32,
    pub immutable_block_lower: u32,
    pub chandelier: u32,
    pub extra_head: u32,
    pub onmyoudama_shoot: u32,
    pub onmyoudama_crawl: u32,
    pub moving_platform: u32,
    pub warp: u32,
    pub teleporter: u32,
    pub symbol: u32,
    pub flipper: u32,
    pub physics_object_full: u32,
}

/// Whether some object at a cell belongs to one of the layers of `mask`.
pub open spec fn spec_any_type_match(objects: Seq<CellObject>, x: i32, y: i32, mask: u32) -> bool {
    exists|i: int| 0 <= i < objects.len() && objects[i].x == x && objects[i].y == y && #[trigger] (objects[i].types & mask) != 0
}

/// Whether some object at a cell has, among the layers of `layer`, exactly
/// those of `wanted`.
pub open spec fn spec_layer_is(objects: Seq<CellObject>, x: i32, y: i32, layer: u32, wanted: u32) -> bool {
    exists|i: int| 0 <= i < objects.len() && objects[i].x == x && objects[i].y == y && #[trigger] (objects[i].types & layer) == wanted
}

impl LevelCells {
    /// Whether some object at a cell belongs to one of the layers of `mask`.
    pub fn any_type_match(&self, x: i32, y: i32, mask: u32) -> (r: bool)
        ensures
            r == spec_any_type_match(self.objects@, x, y, mask),
    {
        let n = self.objects.len();
        let mut k: usize = 0;
        while k < n
            invariant
                k <= n,
                n == self.objects@.len(),
                forall|i: int| 0 <= i < k ==> !(self.objects@[i].x == x && self.objects@[i].y == y && #[trigger] (
                    self.objects@[i].types & mask) != 0),
            decreases n - k,
        {
            let o = self.objects[k];
            if o.x == x && o.y == y && o.types & mask != 0 {
                return true;
            }
            k = k + 1;
        }
        false
    }

    /// Whether some object at a cell has, among the layers of `layer`, exactly
    /// those of `wanted`; with a crawler's layer and the block layer, whether a
    /// crawler can cling to the cell.
    pub fn block_at(&self, x: i32, y: i32, layer: u32, wanted: u32) -> (r: bool)
        ensures
            r == spec_layer_is(self.objects@, x, y, layer, wanted),
    {
        let n = self.objects.len();
        let mut k: usize = 0;
        while k < n
            invariant
                k <= n,
                n == self.objects@.len(),
                forall|i: int| 0 <= i < k ==> !(self.objects@[i].x == x && self.objects@[i].y == y && #[trigger] (
                    self.objects@[i].types & layer) == wanted),
            decreases n - k,
        {
            let o = self.objects[k];
            if o.x == x && o.y == y && o.types & layer == wanted {
                return true;
            }
            k = k + 1;
        }
        false
    }
}

} // verus!
