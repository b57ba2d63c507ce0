use vstd::prelude::*;
use crate::undo::ObjectID;

verus! {

/// What stands at a cell where a pasted tile or object lands: its id, its
/// layers there (for a tile of the tile layer, the tile's own layers), whether
/// the editor may delete it, its cell, and (for a tile of the tile layer) the
/// tile number.
#[derive(Debug, Clone, Copy, PartialEq, Eq, Structural)]
pub struct PasteOccupant {
    pub id: ObjectID,
    pub types: u32,
    pub deletable: bool,
    pub x: i32,
    pub y: i32,
    pub tile: u8,
}

/// Whether an id names a tile of the tile layer (a part of object 0).
pub open spec fn is_tile_part(id: ObjectID) -> bool {
    id matches ObjectID::SubObject(0, _)
}

/// Whether an occupant stands in the way of a pasted tile with layers `tt`:
/// it is not itself a tile and shares a layer with the tile.
pub open spec fn tile_conflict(o: PasteOccupant, tt: u32) -> bool {
    !is_tile_part(o.id) && (o.types & tt) != 0
}

/// The occupants in the way of a pasted tile, in order.
pub open spec fn tile_conflicts(occ: Seq<PasteOccupant>, tt: u32) -> Seq<ObjectID>
    decreases occ.len(),
{
    if occ.len() == 0 {
        Seq::empty()
    } else {
        let prev = tile_conflicts(occ.drop_last(), tt);
        if tile_conflict(occ.last(), tt) {
            prev.push(occ.last().id)
        } else {
            prev
        }
    }
}

/// Whether a pasted tile is refused: something in its way cannot be deleted.
pub open spec fn tile_refused(occ: Seq<PasteOccupant>, tt: u32) -> bool {
    exists|k: int| 0 <= k < occ.len() && #[trigger] tile_conflict(occ[k], tt) && !occ[k].deletable
}

/// Decides a pasted tile with layers `tt` at a cell with the given occupants:
/// `None` when something in its way cannot be deleted (the tile is not
/// placed), otherwise the ids to delete so that it can be placed.
pub fn paste_tile(occ: &Vec<PasteOccupant>, tt: u32) -> (r: Option<Vec<ObjectID>>)
    ensures
        r is None <==> tile_refused(occ@, tt),
        r matches Some(v) ==> v@ == tile_conflicts(occ@, tt),
{
    let mut out: Vec<ObjectID> = Vec::new();
    let mut k: usize = 0;
    while k < occ.len()
        invariant
            k <= occ@.len(),
            out@ == tile_conflicts(occ@.take(k as int), tt),
            forall|j: int| 0 <= j < k ==> !(#[trigger] tile_conflict(occ@[j], tt) && !occ@[j].deletable),
        decreases occ@.len() - k,
    {
        let o = occ[k];
        proof {
            assert(occ@.take(k + 1).drop_last() =~= occ@.take(k as int));
            assert(occ@.take(k + 1).last() == o);
        }
        let conflict = match o.id {
            ObjectID::SubObject(0, _) => false,
            _ => (o.types & tt) != 0,
        };
        if conflict {
            if !o.deletable {
                assert(tile_conflict(occ@[k as int], tt) && !occ@[k as int].deletable);
                return None;
            }
            out.push(o.id);
        }
        k = k + 1;
    }
    assert(occ@.take(occ@.len() as int) =~= occ@);
    Some(out)
}

/// The level object that an id names.
pub open spec fn object_index(id: ObjectID) -> usize {
    match id {
        ObjectID::Object(i) => i,
        ObjectID::SubObject(i, _) => i,
    }
}

/// Whether an occupant refuses a pasted object with layers `ot`: it shares a
/// layer with the object, cannot be deleted, and is not part of object 0.
pub open spec fn object_blocker(o: PasteOccupant, ot: u32) -> bool {
    !o.deletable && object_index(o.id) > 0 && (o.types & ot) != 0
}

/// Whether a pasted object with layers `ot` is refused: its kind may stand only
/// once in a level and already does, or something under it refuses it.
pub open spec fn object_refused(occ: Seq<PasteOccupant>, ot: u32, unique_present: bool) -> bool {
    unique_present || exists|k: int| 0 <= k < occ.len() && #[trigger] object_blocker(occ[k], ot)
}

/// The occupants under a pasted object that are deleted to make room: those
/// that are not tiles and share a layer with it, in order.
pub open spec fn object_deletes(occ: Seq<PasteOccupant>, ot: u32) -> Seq<ObjectID>
    decreases occ.len(),
{
    if occ.len() == 0 {
        Seq::empty()
    } else {
        let prev = object_deletes(occ.drop_last(), ot);
        let o = occ.last();
        if !is_tile_part(o.id) && (o.types & ot) != 0 {
            prev.push(o.id)
        } else {
            prev
        }
    }
}

/// The tiles under a pasted object that are cleared: those that share a layer
/// with it, each with its cell and the tile that was there, in order.
pub open spec fn object_cleared_tiles(occ: Seq<PasteOccupant>, ot: u32) -> Seq<(i32, i32, u8)>
    decreases occ.len(),
{
    if occ.len() == 0 {
        Seq::empty()
    } else {
        let prev = object_cleared_tiles(occ.drop_last(), ot);
        let o = occ.last();
        if is_tile_part(o.id) && (o.types & ot) != 0 {
            prev.push((o.x, o.y, o.tile))
        } else {
            prev
        }
    }
}

/// Decides a pasted object with layers `ot`, given everything at the cells its
/// box covers and whether its kind may stand only once and already does:
/// `None` when it is refused, otherwise the ids to delete and the tiles to
/// clear (cell and old tile, to be put back on undo).
pub fn paste_object(occ: &Vec<PasteOccupant>, ot: u32, unique_present: bool) -> (r: Option<
    (Vec<ObjectID>, Vec<(i32, i32, u8)>),
>)
    ensures
        r is None <==> object_refused(occ@, ot, unique_present),
        r matches Some(p) ==> p.0@ == object_deletes(occ@, ot) && p.1@ == object_cleared_tiles(occ@, ot),
{
    if unique_present {
        return None;
    }
    let mut k: usize = 0;
    while k < occ.len()
        invariant
            k <= occ@.len(),
            forall|j: int| 0 <= j < k ==> !#[trigger] object_blocker(occ@[j], ot),
        decreases occ@.len() - k,
    {
        let o = occ[k];
        if !o.deletable && o.id.id() > 0 && (o.types & ot) != 0 {
            assert(object_blocker(occ@[k as int], ot));
            return None;
        }
        k = k + 1;
    }
    let mut deletes: Vec<ObjectID> = Vec::new();
    let mut cleared: Vec<(i32, i32, u8)> = Vec::new();
    let mut k: usize = 0;
    while k < occ.len()
        invariant
            k <= occ@.len(),
            deletes@ == object_deletes(occ@.take(k as int), ot),
            cleared@ == object_cleared_tiles(occ@.take(k as int), ot),
        decreases occ@.len() - k,
    {
        let o = occ[k];
        proof {
            assert(occ@.take(k + 1).drop_last() =~= occ@.take(k as int));
            assert(occ@.take(k + 1).last() == o);
        }
        let shares = (o.types & ot) != 0;
        match o.id {
            ObjectID::SubObject(0, _) => {
                if shares {
                    cleared.push((o.x, o.y, o.tile));
                }
            },
            _ => {
                if shares {
                    deletes.push(o.id);
                }
            },
        }
        k = k + 1;
    }
    assert(occ@.take(occ@.len() as int) =~= occ@);
    Some((deletes, cleared))
}

} // verus!
