use vstd::prelude::*;
use crate::undo::{ObjectID, UndoAction};

verus! {

/// A whole object being moved: its number, its layers, and the cells its box
/// covers.
pub struct MovedObject {
    pub id: usize,
    pub types: u32,
    pub cells: Vec<(i32, i32)>,
}

/// A part of an object being moved (such as one end of a pair): its object,
/// its number, its layers and its cell.
#[derive(Debug, Clone, Copy, PartialEq, Eq, Structural)]
pub struct MovedPart {
    pub id: usize,
    pub sid: usize,
    pub types: u32,
    pub x: i32,
    pub y: i32,
}

/// A tile being moved: its cell, its kind and layers, and whether the tile at
/// the cell it moves to refuses to be overwritten by it.
#[derive(Debug, Clone, Copy, PartialEq, Eq, Structural)]
pub struct MovedTile {
    pub x: i32,
    pub y: i32,
    pub tile: u8,
    pub types: u32,
    pub target_refuses: bool,
}

/// What stands at a cell of the level: its id and its layers there.
#[derive(Debug, Clone, Copy, PartialEq, Eq, Structural)]
pub struct Occupant {
    pub x: i32,
    pub y: i32,
    pub id: ObjectID,
    pub types: u32,
}

/// Whether an id belongs to what is being moved: a whole object by its
/// number, a part by its object and number.
pub open spec fn is_moved(objects: Seq<MovedObject>, parts: Seq<MovedPart>, id: ObjectID) -> bool {
    match id {
        ObjectID::Object(oid) => exists|k: int| 0 <= k < objects.len() && #[trigger] objects[k].id == oid,
        ObjectID::SubObject(oid, sid) => exists|k: int| 0 <= k < parts.len() && #[trigger] parts[k].id == oid && parts[k].sid == sid,
    }
}

/// Whether something with layers `types` would collide, at the cell it moves
/// to, with an occupant that stays.
pub open spec fn collides(types: u32, o: Occupant, objects: Seq<MovedObject>, parts: Seq<MovedPart>) -> bool {
    (types & o.types) != 0 && !is_moved(objects, parts, o.id)
}

/// Whether an occupant stands at the cell `(x, y)` moved by the offset.
pub open spec fn at_target(o: Occupant, x: i32, y: i32, dx: i32, dy: i32) -> bool {
    o.x == x + dx && o.y == y + dy
}

/// Whether a tile moved by the offset is refused at its new cell: by an object
/// that shares a layer with it and stays, or by any part (a tile among them)
/// when the tile there refuses to be overwritten.
pub open spec fn tile_blocked(t: MovedTile, o: Occupant, objects: Seq<MovedObject>, parts: Seq<MovedPart>) -> bool {
    match o.id {
        ObjectID::Object(_) => collides(t.types, o, objects, parts),
        ObjectID::SubObject(_, _) => t.target_refuses,
    }
}

/// Whether a move by an offset is allowed: no whole object, part or tile lands
/// on something it collides with.
pub open spec fn spec_move_valid(
    objects: Seq<MovedObject>,
    parts: Seq<MovedPart>,
    tiles: Seq<MovedTile>,
    occ: Seq<Occupant>,
    dx: i32,
    dy: i32,
) -> bool {
    &&& forall|a: int, c: int, k: int|
        0 <= a < objects.len() && 0 <= c < objects[a].cells@.len() && 0 <= k < occ.len() && #[trigger] at_target(
            occ[k],
            objects[a].cells@[c].0,
            objects[a].cells@[c].1,
            dx,
            dy,
        ) ==> !collides(objects[a].types, occ[k], objects, parts)
    &&& forall|p: int, k: int|
        0 <= p < parts.len() && 0 <= k < occ.len() && #[trigger] at_target(occ[k], parts[p].x, parts[p].y, dx, dy)
            ==> !collides(parts[p].types, occ[k], objects, parts)
    &&& forall|t: int, k: int|
        0 <= t < tiles.len() && 0 <= k < occ.len() && #[trigger] at_target(occ[k], tiles[t].x, tiles[t].y, dx, dy)
            ==> !tile_blocked(tiles[t], occ[k], objects, parts)
}

fn moved_id(objects: &Vec<MovedObject>, parts: &Vec<MovedPart>, id: ObjectID) -> (r: bool)
    ensures
        r == is_moved(objects@, parts@, id),
{
    match id {
        ObjectID::Object(oid) => {
            let mut k: usize = 0;
            while k < objects.len()
                invariant
                    id == ObjectID::Object(oid),
                    k <= objects@.len(),
                    forall|j: int| 0 <= j < k ==> #[trigger] objects@[j].id != oid,
                decreases objects@.len() - k,
            {
                if objects[k].id == oid {
                    assert(objects@[k as int].id == oid);
                    return true;
                }
                k = k + 1;
            }
            false
        },
        ObjectID::SubObject(oid, sid) => {
            let mut k: usize = 0;
            while k < parts.len()
                invariant
                    id == ObjectID::SubObject(oid, sid),
                    k <= parts@.len(),
                    forall|j: int| 0 <= j < k ==> !(#[trigger] parts@[j].id == oid && parts@[j].sid == sid),
                decreases parts@.len() - k,
            {
                if parts[k].id == oid && parts[k].sid == sid {
                    assert(parts@[k as int].id == oid && parts@[k as int].sid == sid);
                    return true;
                }
                k = k + 1;
            }
            false
        },
    }
}

fn lands_on(o: &Occupant, x: i32, y: i32, dx: i32, dy: i32) -> (r: bool)
    ensures
        r == at_target(*o, x, y, dx, dy),
{
    o.x as i64 == x as i64 + dx as i64 && o.y as i64 == y as i64 + dy as i64
}

/// Whether a move by an offset is allowed.
pub fn move_valid(
    objects: &Vec<MovedObject>,
    parts: &Vec<MovedPart>,
    tiles: &Vec<MovedTile>,
    occ: &Vec<Occupant>,
    dx: i32,
    dy: i32,
) -> (r: bool)
    ensures
        r == spec_move_valid(objects@, parts@, tiles@, occ@, dx, dy),
{
    let mut a: usize = 0;
    while a < objects.len()
        invariant
            a <= objects@.len(),
            forall|a2: int, c: int, k: int|
                0 <= a2 < a && 0 <= c < objects@[a2].cells@.len() && 0 <= k < occ@.len() && #[trigger] at_target(
                    occ@[k],
                    objects@[a2].cells@[c].0,
                    objects@[a2].cells@[c].1,
                    dx,
                    dy,
                ) ==> !collides(objects@[a2].types, occ@[k], objects@, parts@),
        decreases objects@.len() - a,
    {
        let mut c: usize = 0;
        while c < objects[a].cells.len()
            invariant
                a < objects@.len(),
                c <= objects@[a as int].cells@.len(),
                forall|c2: int, k: int|
                    0 <= c2 < c && 0 <= k < occ@.len() && #[trigger] at_target(
                        occ@[k],
                        objects@[a as int].cells@[c2].0,
                        objects@[a as int].cells@[c2].1,
                        dx,
                        dy,
                    ) ==> !collides(objects@[a as int].types, occ@[k], objects@, parts@),
            decreases objects@[a as int].cells@.len() - c,
        {
            let (x, y) = objects[a].cells[c];
            let mut k: usize = 0;
            while k < occ.len()
                invariant
                    a < objects@.len(),
                    c < objects@[a as int].cells@.len(),
                    (x, y) == objects@[a as int].cells@[c as int],
                    k <= occ@.len(),
                    forall|k2: int|
                        0 <= k2 < k && #[trigger] at_target(occ@[k2], x, y, dx, dy) ==> !collides(
                            objects@[a as int].types,
                            occ@[k2],
                            objects@,
                            parts@,
                        ),
                decreases occ@.len() - k,
            {
                if lands_on(&occ[k], x, y, dx, dy) {
                    if objects[a].types & occ[k].types != 0 && !moved_id(objects, parts, occ[k].id) {
                        assert(collides(objects@[a as int].types, occ@[k as int], objects@, parts@));
                        assert(at_target(
                            occ@[k as int],
                            objects@[a as int].cells@[c as int].0,
                            objects@[a as int].cells@[c as int].1,
                            dx,
                            dy,
                        ));
                        return false;
                    }
                }
                k = k + 1;
            }
            c = c + 1;
        }
        a = a + 1;
    }
    let mut p: usize = 0;
    while p < parts.len()
        invariant
            p <= parts@.len(),
            forall|p2: int, k: int|
                0 <= p2 < p && 0 <= k < occ@.len() && #[trigger] at_target(occ@[k], parts@[p2].x, parts@[p2].y, dx, dy)
                    ==> !collides(parts@[p2].types, occ@[k], objects@, parts@),
        decreases parts@.len() - p,
    {
        let part = parts[p];
        let mut k: usize = 0;
        while k < occ.len()
            invariant
                p < parts@.len(),
                part == parts@[p as int],
                k <= occ@.len(),
                forall|k2: int|
                    0 <= k2 < k && #[trigger] at_target(occ@[k2], part.x, part.y, dx, dy) ==> !collides(
                        part.types,
                        occ@[k2],
                        objects@,
                        parts@,
                    ),
            decreases occ@.len() - k,
        {
            if lands_on(&occ[k], part.x, part.y, dx, dy) {
                if part.types & occ[k].types != 0 && !moved_id(objects, parts, occ[k].id) {
                    assert(at_target(occ@[k as int], parts@[p as int].x, parts@[p as int].y, dx, dy));
                    return false;
                }
            }
            k = k + 1;
        }
        p = p + 1;
    }
    let mut t: usize = 0;
    while t < tiles.len()
        invariant
            t <= tiles@.len(),
            forall|t2: int, k: int|
                0 <= t2 < t && 0 <= k < occ@.len() && #[trigger] at_target(occ@[k], tiles@[t2].x, tiles@[t2].y, dx, dy)
                    ==> !tile_blocked(tiles@[t2], occ@[k], objects@, parts@),
        decreases tiles@.len() - t,
    {
        let tile = tiles[t];
        let mut k: usize = 0;
        while k < occ.len()
            invariant
                t < tiles@.len(),
                tile == tiles@[t as int],
                k <= occ@.len(),
                forall|k2: int|
                    0 <= k2 < k && #[trigger] at_target(occ@[k2], tile.x, tile.y, dx, dy) ==> !tile_blocked(
                        tile,
                        occ@[k2],
                        objects@,
                        parts@,
                    ),
            decreases occ@.len() - k,
        {
            if lands_on(&occ[k], tile.x, tile.y, dx, dy) {
                let blocked = match occ[k].id {
                    ObjectID::Object(_) => tile.types & occ[k].types != 0 && !moved_id(objects, parts, occ[k].id),
                    ObjectID::SubObject(_, _) => tile.target_refuses,
                };
                if blocked {
                    assert(at_target(occ@[k as int], tiles@[t as int].x, tiles@[t as int].y, dx, dy));
                    assert(tile_blocked(tiles@[t as int], occ@[k as int], objects@, parts@));
                    return false;
                }
            }
            k = k + 1;
        }
        t = t + 1;
    }
    true
}

/// The undo actions recorded when tiles are picked up: each tile is put back
/// where it was.
pub open spec fn pickup_actions<O, K>(tiles: Seq<MovedTile>) -> Seq<UndoAction<O, K>> {
    Seq::new(tiles.len(), |k: int| UndoAction::SetTile(tiles[k].x, tiles[k].y, tiles[k].tile))
}

/// The undo actions that move the whole objects back.
pub open spec fn object_moves<O, K>(objects: Seq<MovedObject>, dx: i32, dy: i32) -> Seq<UndoAction<O, K>> {
    Seq::new(objects.len(), |k: int| UndoAction::MoveObject(ObjectID::Object(objects[k].id), -dx as i32, -dy as i32))
}

/// The undo actions that move the parts back.
pub open spec fn part_moves<O, K>(parts: Seq<MovedPart>, dx: i32, dy: i32) -> Seq<UndoAction<O, K>> {
    Seq::new(
        parts.len(),
        |k: int| UndoAction::MoveObject(ObjectID::SubObject(parts[k].id, parts[k].sid), -dx as i32, -dy as i32),
    )
}

/// The undo actions that restore the tiles a moved tile overwrote, for the
/// first `n` tiles: those that were placed (`placed[k].0`), with the tile that
/// was there (`placed[k].1`).
pub open spec fn placed_tile_actions<O, K>(tiles: Seq<MovedTile>, placed: Seq<(bool, u8)>, dx: i32, dy: i32, n: nat) -> Seq<
    UndoAction<O, K>,
>
    decreases n,
{
    if n == 0 {
        Seq::empty()
    } else {
        let rest = placed_tile_actions(tiles, placed, dx, dy, (n - 1) as nat);
        let k = n - 1;
        if placed[k].0 {
            rest.push(UndoAction::SetTile((tiles[k].x + dx) as i32, (tiles[k].y + dy) as i32, placed[k].1))
        } else {
            rest
        }
    }
}

/// How a move ends.
pub struct MoveOutcome<O, K> {
    /// The offset applied: none when the move was refused.
    pub dx: i32,
    pub dy: i32,
    /// The actions that take the move back.
    pub undo: Vec<UndoAction<O, K>>,
    /// Whether they form a new undo frame (only when something moved).
    pub add_frame: bool,
    /// What is selected again when the move started from a selection: the
    /// objects, the parts, then the cells of the tiles.
    pub selection: Vec<ObjectID>,
    pub selected_tiles: Vec<(i32, i32)>,
}

fn push_moves<O, K>(undo: &mut Vec<UndoAction<O, K>>, objects: &Vec<MovedObject>, parts: &Vec<MovedPart>, dx: i32, dy: i32)
    requires
        dx != i32::MIN,
        dy != i32::MIN,
    ensures
        final(undo)@ == old(undo)@ + object_moves::<O, K>(objects@, dx, dy) + part_moves::<O, K>(parts@, dx, dy),
{
    let ghost start = undo@;
    let mut k: usize = 0;
    while k < objects.len()
        invariant
            dx != i32::MIN,
            dy != i32::MIN,
            k <= objects@.len(),
            undo@ == start + object_moves::<O, K>(objects@, dx, dy).take(k as int),
        decreases objects@.len() - k,
    {
        undo.push(UndoAction::MoveObject(ObjectID::Object(objects[k].id), -dx, -dy));
        k = k + 1;
        assert(undo@ =~= start + object_moves::<O, K>(objects@, dx, dy).take(k as int));
    }
    assert(object_moves::<O, K>(objects@, dx, dy).take(k as int) =~= object_moves::<O, K>(objects@, dx, dy));
    let ghost mid = undo@;
    let mut j: usize = 0;
    while j < parts.len()
        invariant
            dx != i32::MIN,
            dy != i32::MIN,
            j <= parts@.len(),
            undo@ == mid + part_moves::<O, K>(parts@, dx, dy).take(j as int),
        decreases parts@.len() - j,
    {
        undo.push(UndoAction::MoveObject(ObjectID::SubObject(parts[j].id, parts[j].sid), -dx, -dy));
        j = j + 1;
        assert(undo@ =~= mid + part_moves::<O, K>(parts@, dx, dy).take(j as int));
    }
    assert(part_moves::<O, K>(parts@, dx, dy).take(j as int) =~= part_moves::<O, K>(parts@, dx, dy));
    assert(undo@ =~= start + object_moves::<O, K>(objects@, dx, dy) + part_moves::<O, K>(parts@, dx, dy));
}

/// Whether every tile stays within the coordinates after an offset.
pub open spec fn tiles_fit(tiles: Seq<MovedTile>, dx: i32, dy: i32) -> bool {
    forall|k: int|
        0 <= k < tiles.len() ==> i32::MIN <= #[trigger] tiles[k].x + dx <= i32::MAX && i32::MIN <= tiles[k].y + dy
            <= i32::MAX
}

/// Ends a move: a refused move (not `valid`) moves nothing; the undo actions put
/// back the tiles picked up, move the objects and parts back and restore the
/// tiles that moved tiles overwrote; they form a frame only when something
/// moved; a move that started from a selection selects what moved again.
pub fn finish_move<O, K>(
    objects: &Vec<MovedObject>,
    parts: &Vec<MovedPart>,
    tiles: &Vec<MovedTile>,
    placed: &Vec<(bool, u8)>,
    valid: bool,
    dx: i32,
    dy: i32,
    from_selection: bool,
) -> (r: MoveOutcome<O, K>)
    requires
        placed@.len() == tiles@.len(),
        dx != i32::MIN,
        dy != i32::MIN,
        tiles_fit(tiles@, dx, dy),
    ensures
        r.dx == (if valid { dx } else { 0 }),
        r.dy == (if valid { dy } else { 0 }),
        r.undo@ == pickup_actions::<O, K>(tiles@) + object_moves::<O, K>(objects@, r.dx, r.dy) + part_moves::<O, K>(
            parts@,
            r.dx,
            r.dy,
        ) + placed_tile_actions::<O, K>(tiles@, placed@, r.dx, r.dy, tiles@.len()),
        r.add_frame == (r.dx != 0 || r.dy != 0),
        from_selection ==> r.selection@ == Seq::new(objects@.len(), |k: int| ObjectID::Object(objects@[k].id)) + Seq::new(
            parts@.len(),
            |k: int| ObjectID::SubObject(parts@[k].id, parts@[k].sid),
        ) && r.selected_tiles@ == Seq::new(
            tiles@.len(),
            |k: int| ((tiles@[k].x + r.dx) as i32, (tiles@[k].y + r.dy) as i32),
        ),
        !from_selection ==> r.selection@.len() == 0 && r.selected_tiles@.len() == 0,
{
    let (ox, oy) = if valid {
        (dx, dy)
    } else {
        (0i32, 0i32)
    };
    let mut undo: Vec<UndoAction<O, K>> = Vec::new();
    let mut k: usize = 0;
    while k < tiles.len()
        invariant
            k <= tiles@.len(),
            undo@ == pickup_actions::<O, K>(tiles@).take(k as int),
        decreases tiles@.len() - k,
    {
        undo.push(UndoAction::SetTile(tiles[k].x, tiles[k].y, tiles[k].tile));
        k = k + 1;
        assert(undo@ =~= pickup_actions::<O, K>(tiles@).take(k as int));
    }
    assert(pickup_actions::<O, K>(tiles@).take(k as int) =~= pickup_actions::<O, K>(tiles@));
    push_moves(&mut undo, objects, parts, ox, oy);
    let ghost before_tiles = undo@;
    let mut t: usize = 0;
    while t < tiles.len()
        invariant
            t <= tiles@.len(),
            placed@.len() == tiles@.len(),
            tiles_fit(tiles@, dx, dy),
            (ox == dx && oy == dy) || (ox == 0 && oy == 0),
            undo@ == before_tiles + placed_tile_actions::<O, K>(tiles@, placed@, ox, oy, t as nat),
        decreases tiles@.len() - t,
    {
        let (places, old_tile) = placed[t];
        assert(i32::MIN <= tiles@[t as int].x + dx <= i32::MAX);
        if places {
            undo.push(UndoAction::SetTile(tiles[t].x + ox, tiles[t].y + oy, old_tile));
        }
        t = t + 1;
        assert(undo@ =~= before_tiles + placed_tile_actions::<O, K>(tiles@, placed@, ox, oy, t as nat));
    }
    let mut selection: Vec<ObjectID> = Vec::new();
    let mut selected_tiles: Vec<(i32, i32)> = Vec::new();
    if from_selection {
        let mut a: usize = 0;
        while a < objects.len()
            invariant
                a <= objects@.len(),
                selection@ == Seq::new(objects@.len(), |k: int| ObjectID::Object(objects@[k].id)).take(a as int),
            decreases objects@.len() - a,
        {
            selection.push(ObjectID::Object(objects[a].id));
            a = a + 1;
            assert(selection@ =~= Seq::new(objects@.len(), |k: int| ObjectID::Object(objects@[k].id)).take(a as int));
        }
        let ghost objs = selection@;
        assert(objs =~= Seq::new(objects@.len(), |k: int| ObjectID::Object(objects@[k].id)));
        let mut b: usize = 0;
        while b < parts.len()
            invariant
                b <= parts@.len(),
                selection@ == objs + Seq::new(parts@.len(), |k: int| ObjectID::SubObject(parts@[k].id, parts@[k].sid)).take(
                    b as int,
                ),
            decreases parts@.len() - b,
        {
            selection.push(ObjectID::SubObject(parts[b].id, parts[b].sid));
            b = b + 1;
            assert(selection@ =~= objs + Seq::new(
                parts@.len(),
                |k: int| ObjectID::SubObject(parts@[k].id, parts@[k].sid),
            ).take(b as int));
        }
        assert(Seq::new(parts@.len(), |k: int| ObjectID::SubObject(parts@[k].id, parts@[k].sid)).take(b as int) =~= Seq::new(
            parts@.len(),
            |k: int| ObjectID::SubObject(parts@[k].id, parts@[k].sid),
        ));
        let mut c: usize = 0;
        while c < tiles.len()
            invariant
                c <= tiles@.len(),
                tiles_fit(tiles@, dx, dy),
                (ox == dx && oy == dy) || (ox == 0 && oy == 0),
                selected_tiles@ == Seq::new(
                    tiles@.len(),
                    |k: int| ((tiles@[k].x + ox) as i32, (tiles@[k].y + oy) as i32),
                ).take(c as int),
            decreases tiles@.len() - c,
        {
            assert(i32::MIN <= tiles@[c as int].x + dx <= i32::MAX);
            selected_tiles.push((tiles[c].x + ox, tiles[c].y + oy));
            c = c + 1;
            assert(selected_tiles@ =~= Seq::new(
                tiles@.len(),
                |k: int| ((tiles@[k].x + ox) as i32, (tiles@[k].y + oy) as i32),
            ).take(c as int));
        }
        assert(selected_tiles@ =~= Seq::new(
            tiles@.len(),
            |k: int| ((tiles@[k].x + ox) as i32, (tiles@[k].y + oy) as i32),
        ));
    }
    MoveOutcome { dx: ox, dy: oy, undo, add_frame: ox != 0 || oy != 0, selection, selected_tiles }
}

} // verus!
