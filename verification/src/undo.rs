use vstd::prelude::*;

verus! {

/// An object of the level, or a part of one (a tile of the tile layer is part
/// `index` of object 0; the points of a chain are parts of the chain object).
#[derive(Clone, Copy, PartialEq, Eq, Structural, Debug, Hash)]
pub enum ObjectID {
    Object(usize),
    SubObject(usize, usize),
}

impl ObjectID {
    /// The index of the level object this names.
    pub fn id(&self) -> (r: usize)
        ensures
            r == match self {
                ObjectID::Object(i) => *i,
                ObjectID::SubObject(i, _) => *i,
            },
    {
        match self {
            ObjectID::Object(i) => *i,
            ObjectID::SubObject(i, _) => *i,
        }
    }
}

/// A change to the level that can be replayed to take back an edit. `O` is the
/// type of a level object and `K` the type of a simple object's kind; tiles are
/// given by their tile number.
pub enum UndoAction<O, K> {
    Nop,
    Delete(ObjectID),
    SetTile(i32, i32, u8),
    AddObject(usize, O),
    MoveObject(ObjectID, i32, i32),
    SetSimpleObjectType(usize, K),
    ContextMenuAction(usize, i32),
    SeijaPowerToggle(i32),
    MPInsert(usize, usize, i32, i32, bool),
}

/// The edits of one user action, taken back together.
pub struct UndoFrame<A> {
    pub actions: Vec<A>,
}

/// The move that takes back a move by (`x`, `y`).
pub fn reverse_move(oid: ObjectID, x: i32, y: i32) -> (r: (ObjectID, i32, i32))
    requires
        x != i32::MIN,
        y != i32::MIN,
    ensures
        r.0 == oid,
        r.1 == -x,
        r.2 == -y,
{
    (oid, -x, -y)
}

/// The undo and redo stacks of the editor, and whether the newest undo frame
/// is still taking the edits of an action in progress.
pub struct UndoHistory<A> {
    undo: Vec<UndoFrame<A>>,
    redo: Vec<UndoFrame<A>>,
    open: bool,
}

/// The contents of an `UndoHistory`: each frame as the sequence of its actions.
pub struct UndoHistoryView<A> {
    pub undo: Seq<Seq<A>>,
    pub redo: Seq<Seq<A>>,
    pub open: bool,
}

impl<A> View for UndoHistory<A> {
    type V = UndoHistoryView<A>;

    closed spec fn view(&self) -> UndoHistoryView<A> {
        UndoHistoryView {
            undo: self.undo@.map_values(|f: UndoFrame<A>| f.actions@),
            redo: self.redo@.map_values(|f: UndoFrame<A>| f.actions@),
            open: self.open,
        }
    }
}

/// The history after the edits `actions` have been recorded: nothing happens for
/// no edits; otherwise the redo stack is dropped and the edits join the open
/// frame, or start a new frame that stays open.
pub open spec fn spec_add<A>(h: UndoHistoryView<A>, actions: Seq<A>) -> UndoHistoryView<A> {
    if actions.len() == 0 {
        h
    } else if h.open {
        UndoHistoryView {
            undo: h.undo.update(h.undo.len() - 1, h.undo.last() + actions),
            redo: Seq::empty(),
            open: true,
        }
    } else {
        UndoHistoryView { undo: h.undo.push(actions), redo: Seq::empty(), open: true }
    }
}

/// Takes the newest frame off the undo stack (or the redo stack).
pub open spec fn spec_take<A>(h: UndoHistoryView<A>, from_redo: bool) -> (
    UndoHistoryView<A>,
    Option<Seq<A>>,
) {
    let s = if from_redo {
        h.redo
    } else {
        h.undo
    };
    if s.len() == 0 {
        (h, None)
    } else if from_redo {
        (UndoHistoryView { redo: s.drop_last(), ..h }, Some(s.last()))
    } else {
        (UndoHistoryView { undo: s.drop_last(), ..h }, Some(s.last()))
    }
}

/// Puts a frame that takes back an undone (or redone) frame on the other stack.
pub open spec fn spec_store<A>(h: UndoHistoryView<A>, from_redo: bool, frame: Seq<A>) -> UndoHistoryView<A> {
    if from_redo {
        UndoHistoryView { undo: h.undo.push(frame), ..h }
    } else {
        UndoHistoryView { redo: h.redo.push(frame), ..h }
    }
}

impl<A> UndoHistory<A> {
    /// An empty history.
    pub fn new() -> (r: Self)
        ensures
            r@.undo.len() == 0,
            r@.redo.len() == 0,
            !r@.open,
    {
        let r = UndoHistory { undo: Vec::new(), redo: Vec::new(), open: false };
        assert(r@.undo =~= Seq::<Seq<A>>::empty());
        assert(r@.redo =~= Seq::<Seq<A>>::empty());
        r
    }

    /// A history made of given stacks, with no frame open.
    pub fn from_stacks(undo: Vec<UndoFrame<A>>, redo: Vec<UndoFrame<A>>) -> (r: Self)
        ensures
            r@.undo == undo@.map_values(|f: UndoFrame<A>| f.actions@),
            r@.redo == redo@.map_values(|f: UndoFrame<A>| f.actions@),
            !r@.open,
    {
        UndoHistory { undo, redo, open: false }
    }

    /// Gives up the two stacks (undo first).
    pub fn into_stacks(self) -> (r: (Vec<UndoFrame<A>>, Vec<UndoFrame<A>>))
        ensures
            r.0@.map_values(|f: UndoFrame<A>| f.actions@) == self@.undo,
            r.1@.map_values(|f: UndoFrame<A>| f.actions@) == self@.redo,
    {
        (self.undo, self.redo)
    }

    /// How many frames can be undone.
    pub fn undo_len(&self) -> (r: usize)
        ensures
            r == self@.undo.len(),
    {
        self.undo.len()
    }

    /// How many frames can be redone.
    pub fn redo_len(&self) -> (r: usize)
        ensures
            r == self@.redo.len(),
    {
        self.redo.len()
    }

    /// Whether the newest frame still takes edits.
    pub fn is_open(&self) -> (r: bool)
        ensures
            r == self@.open,
    {
        self.open
    }

    /// Records the edits of an action in progress.
    pub fn add_undo_frame(&mut self, actions: Vec<A>)
        requires
            old(self)@.open && actions@.len() > 0 ==> old(self)@.undo.len() > 0,
        ensures
            final(self)@ == spec_add(old(self)@, actions@),
    {
        if actions.len() != 0 {
            self.redo = Vec::new();
            if self.open {
                let ghost added = actions@;
                let mut frame = self.undo.pop().unwrap();
                let mut actions = actions;
                frame.actions.append(&mut actions);
                self.undo.push(frame);
                proof {
                    assert(self@.undo =~= old(self)@.undo.update(
                        old(self)@.undo.len() - 1,
                        old(self)@.undo.last() + added,
                    ));
                }
            } else {
                self.undo.push(UndoFrame { actions });
                self.open = true;
                proof {
                    assert(self@.undo =~= old(self)@.undo.push(actions@));
                }
            }
            assert(self@.redo =~= Seq::<Seq<A>>::empty());
        }
    }

    /// Records the edits of a finished action: they are added as by
    /// `add_undo_frame` and the frame is closed.
    pub fn add_undo_frame_complete(&mut self, actions: Vec<A>)
        requires
            old(self)@.open && actions@.len() > 0 ==> old(self)@.undo.len() > 0,
        ensures
            final(self)@ == (UndoHistoryView { open: false, ..spec_add(old(self)@, actions@) }),
    {
        self.add_undo_frame(actions);
        self.open = false;
    }

    /// Closes the newest frame: later edits start a new one.
    pub fn close_frame(&mut self)
        ensures
            final(self)@ == (UndoHistoryView { open: false, ..old(self)@ }),
    {
        self.open = false;
    }

    /// Takes the newest frame off the undo stack (`from_redo` false) or off the
    /// redo stack.
    pub fn take(&mut self, from_redo: bool) -> (r: Option<UndoFrame<A>>)
        ensures
            spec_take(old(self)@, from_redo) == (final(self)@, match r {
                Some(f) => Some(f.actions@),
                None => None,
            }),
    {
        let r = if from_redo {
            self.redo.pop()
        } else {
            self.undo.pop()
        };
        proof {
            if from_redo && old(self)@.redo.len() > 0 {
                assert(self@.redo =~= old(self)@.redo.drop_last());
            } else if !from_redo && old(self)@.undo.len() > 0 {
                assert(self@.undo =~= old(self)@.undo.drop_last());
            }
        }
        r
    }

    /// Puts the frame that takes back the frame just taken on the other stack.
    pub fn store(&mut self, from_redo: bool, actions: Vec<A>)
        ensures
            final(self)@ == spec_store(old(self)@, from_redo, actions@),
    {
        if from_redo {
            self.undo.push(UndoFrame { actions });
            assert(self@.undo =~= old(self)@.undo.push(actions@));
        } else {
            self.redo.push(UndoFrame { actions });
            assert(self@.redo =~= old(self)@.redo.push(actions@));
        }
    }
}

/// Recording edits clears the redo stack: after a new edit there is nothing to
/// redo.
pub proof fn law_new_edit_clears_redo<A>(h: UndoHistoryView<A>, actions: Seq<A>)
    requires
        actions.len() > 0,
    ensures
        spec_add(h, actions).redo.len() == 0,
        spec_add(h, actions).open,
{
}

/// A finished action that follows a closed frame adds exactly one frame.
pub proof fn law_complete_action_adds_one_frame<A>(h: UndoHistoryView<A>, actions: Seq<A>)
    requires
        actions.len() > 0,
        !h.open,
    ensures
        spec_add(h, actions).undo == h.undo.push(actions),
{
}

/// Storing a frame on one stack and taking from that stack gives the frame back
/// and leaves the history as it was.
pub proof fn law_take_gives_back_stored<A>(h: UndoHistoryView<A>, from_redo: bool, frame: Seq<A>)
    ensures
        spec_take(spec_store(h, from_redo, frame), !from_redo) == (h, Some(frame)),
{
    let s = spec_store(h, from_redo, frame);
    if from_redo {
        assert(s.undo.drop_last() =~= h.undo);
    } else {
        assert(s.redo.drop_last() =~= h.redo);
    }
}

/// An undo followed by a redo restores the history, when replaying each action
/// gives an action that replays back to it: the undone frame is replayed newest
/// edit first onto the redo stack, and replaying that frame the same way puts
/// the original frame back.
pub proof fn law_undo_then_redo_restores<A>(h: UndoHistoryView<A>, revert: spec_fn(A) -> A)
    requires
        h.undo.len() > 0,
        forall|a: A| #[trigger] revert(revert(a)) == a,
    ensures
        ({
            let (h1, f) = spec_take(h, false);
            let undone = f.unwrap().reverse().map_values(revert);
            let h2 = spec_store(h1, false, undone);
            let (h3, g) = spec_take(h2, true);
            let redone = g.unwrap().reverse().map_values(revert);
            spec_store(h3, true, redone) == h
        }),
{
    let (h1, f) = spec_take(h, false);
    let frame = f.unwrap();
    let undone = frame.reverse().map_values(revert);
    let h2 = spec_store(h1, false, undone);
    let (h3, g) = spec_take(h2, true);
    assert(h2.redo.drop_last() =~= h1.redo);
    assert(g.unwrap() == undone);
    let redone = undone.reverse().map_values(revert);
    assert(redone =~= frame) by {
        assert forall|k: int| 0 <= k < frame.len() implies redone[k] == frame[k] by {
            assert(undone.reverse()[k] == undone[frame.len() - 1 - k]);
            assert(undone[frame.len() - 1 - k] == revert(frame.reverse()[frame.len() - 1 - k]));
            assert(frame.reverse()[frame.len() - 1 - k] == frame[k]);
        }
    }
    assert(h1.undo.push(frame) =~= h.undo);
}

/// Edits recorded while the newest frame is open join it at its end: the
/// frame that undo takes back afterwards is the old frame followed by the new
/// edits, so the older edits come first and are undone last.
pub proof fn law_open_frame_keeps_edits_in_order<A>(h: UndoHistoryView<A>, actions: Seq<A>)
    requires
        h.open,
        h.undo.len() > 0,
        actions.len() > 0,
    ensures
        spec_add(h, actions).undo.len() == h.undo.len(),
        spec_add(h, actions).undo.last().len() == h.undo.last().len() + actions.len(),
        spec_add(h, actions).undo.last().take(h.undo.last().len() as int) == h.undo.last(),
        spec_add(h, actions).undo.last().skip(h.undo.last().len() as int) == actions,
        forall|k: int| 0 <= k < h.undo.len() - 1 ==> #[trigger] spec_add(h, actions).undo[k] == h.undo[k],
{
    let f = spec_add(h, actions).undo.last();
    assert(f.take(h.undo.last().len() as int) =~= h.undo.last());
    assert(f.skip(h.undo.last().len() as int) =~= actions);
}

} // verus!
