use vstd::prelude::*;

use std::collections::HashMap;

verus! {

broadcast use vstd::std_specs::hash::group_hash_axioms;

/// A player's vote on a level.
#[derive(Debug, Clone, Copy, PartialEq, Eq, Structural)]
pub enum Vote {
    NoVote,
    Like,
}

impl Default for Vote {
    fn default() -> (r: Self)
        ensures
            r == Vote::NoVote,
    {
        Vote::NoVote
    }
}

/// Whether `id` names the local player: id 0 stands for "me", and so does the
/// player's own id.
pub open spec fn spec_is_me(self_id: u64, id: u64) -> bool {
    id == 0 || id == self_id
}

/// Whether `id` names the local player, whose id is `self_id`.
pub fn is_me(self_id: u64, id: u64) -> (r: bool)
    ensures
        r == spec_is_me(self_id, id),
{
    id == 0 || id == self_id
}

/// A level of the player's own, as the server reports it at log-in.
pub struct SelfLevelItem {
    pub id: u32,
    pub wr_holder: u64,
    pub wr_time: u32,
    pub likes: u32,
}

/// A personal best of the player, with the player's vote on that level.
pub struct PersonalBest {
    pub level: u32,
    pub time: u32,
    pub vote: Vote,
}

/// What the client knows of online levels: the player's best times, the world
/// records with their holders, like counts and the player's votes.
pub struct LevelStats {
    self_id: u64,
    pbs: HashMap<u32, u32>,
    wrs: HashMap<u32, (u64, u32)>,
    likes: HashMap<u32, u32>,
    votes: HashMap<u32, Vote>,
}

/// The contents of a `LevelStats`.
pub struct LevelStatsView {
    pub self_id: u64,
    pub pbs: Map<u32, u32>,
    pub wrs: Map<u32, (u64, u32)>,
    pub likes: Map<u32, u32>,
    pub votes: Map<u32, Vote>,
}

impl View for LevelStats {
    type V = LevelStatsView;

    closed spec fn view(&self) -> LevelStatsView {
        LevelStatsView {
            self_id: self.self_id,
            pbs: self.pbs@,
            wrs: self.wrs@,
            likes: self.likes@,
            votes: self.votes@,
        }
    }
}

/// The personal best of a level, if one is known.
pub open spec fn spec_pb(s: LevelStatsView, level: u32) -> Option<u32> {
    if s.pbs.contains_key(level) {
        Some(s.pbs[level])
    } else {
        None
    }
}

/// The like count of a level (0 when unknown).
pub open spec fn spec_likes(s: LevelStatsView, level: u32) -> u32 {
    if s.likes.contains_key(level) {
        s.likes[level]
    } else {
        0
    }
}

/// The world-record time of a level, if one is known.
pub open spec fn spec_wr(s: LevelStatsView, level: u32) -> Option<u32> {
    if s.wrs.contains_key(level) {
        Some(s.wrs[level].1)
    } else {
        None
    }
}

/// Whether a new time improves on a record (any time improves on no record).
pub open spec fn improves(old: Option<u32>, time: u32) -> bool {
    match old {
        Some(t) => t > time,
        None => true,
    }
}

/// The stats after a time has been set by `user` on `level`: it becomes the
/// world record if it improves on it, and the personal best if the user is the
/// local player and it improves on the player's best.
pub open spec fn after_set_time(s: LevelStatsView, level: u32, user: u64, time: u32) -> LevelStatsView {
    LevelStatsView {
        wrs: if improves(spec_wr(s, level), time) {
            s.wrs.insert(level, (user, time))
        } else {
            s.wrs
        },
        pbs: if spec_is_me(s.self_id, user) && improves(spec_pb(s, level), time) {
            s.pbs.insert(level, time)
        } else {
            s.pbs
        },
        ..s
    }
}

/// The stats after the log-in data has been read: each own level sets its world
/// record and like count, then each personal best sets the player's time and
/// vote.
pub open spec fn after_own_levels(s: LevelStatsView, items: Seq<(u32, u64, u32, u32)>) -> LevelStatsView
    decreases items.len(),
{
    if items.len() == 0 {
        s
    } else {
        let last = items.last();
        let prev = after_own_levels(s, items.drop_last());
        let t = after_set_time(prev, last.0, last.1, last.2);
        LevelStatsView { likes: t.likes.insert(last.0, last.3), ..t }
    }
}

/// See `after_own_levels`.
pub open spec fn after_own_bests(s: LevelStatsView, bests: Seq<(u32, u32, Vote)>) -> LevelStatsView
    decreases bests.len(),
{
    if bests.len() == 0 {
        s
    } else {
        let last = bests.last();
        let prev = after_own_bests(s, bests.drop_last());
        let t = after_set_time(prev, last.0, prev.self_id, last.1);
        LevelStatsView { votes: t.votes.insert(last.0, last.2), ..t }
    }
}

impl LevelStats {
    /// No stats known yet, for the local player `self_id`.
    pub fn new(self_id: u64) -> (r: Self)
        ensures
            r@.self_id == self_id,
            r@.pbs == Map::<u32, u32>::empty(),
            r@.wrs == Map::<u32, (u64, u32)>::empty(),
            r@.likes == Map::<u32, u32>::empty(),
            r@.votes == Map::<u32, Vote>::empty(),
    {
        LevelStats {
            self_id,
            pbs: HashMap::new(),
            wrs: HashMap::new(),
            likes: HashMap::new(),
            votes: HashMap::new(),
        }
    }

    /// The local player's id.
    pub fn self_id(&self) -> (r: u64)
        ensures
            r == self@.self_id,
    {
        self.self_id
    }

    /// The personal best of a level.
    pub fn pb(&self, level_id: u32) -> (r: Option<u32>)
        ensures
            r == spec_pb(self@, level_id),
    {
        match self.pbs.get(&level_id) {
            Some(t) => Some(*t),
            None => None,
        }
    }

    /// The world-record time of a level.
    pub fn wr(&self, level_id: u32) -> (r: Option<u32>)
        ensures
            r == spec_wr(self@, level_id),
    {
        match self.wrs.get(&level_id) {
            Some(p) => Some(p.1),
            None => None,
        }
    }

    /// The like count of a level (0 when unknown).
    pub fn likes(&self, level_id: u32) -> (r: u32)
        ensures
            r == spec_likes(self@, level_id),
    {
        match self.likes.get(&level_id) {
            Some(n) => *n,
            None => 0,
        }
    }

    /// The player's vote on a level (no vote when unknown).
    pub fn get_vote(&self, level_id: u32) -> (r: Vote)
        ensures
            r == (if self@.votes.contains_key(level_id) {
                self@.votes[level_id]
            } else {
                Vote::NoVote
            }),
    {
        match self.votes.get(&level_id) {
            Some(v) => *v,
            None => Vote::NoVote,
        }
    }

    /// Records that `user` finished `level_id` in `time` ticks.
    pub fn set_time(&mut self, level_id: u32, user: u64, time: u32)
        ensures
            final(self)@ == after_set_time(old(self)@, level_id, user, time),
    {
        let cur_wr = self.wr(level_id);
        let beats_wr = match cur_wr {
            Some(t) => t > time,
            None => true,
        };
        if beats_wr {
            self.wrs.insert(level_id, (user, time));
        }
        let mine = is_me(self.self_id, user);
        let cur_pb = self.pb(level_id);
        let beats_pb = match cur_pb {
            Some(t) => t > time,
            None => true,
        };
        if mine && beats_pb {
            self.pbs.insert(level_id, time);
        }
    }

    /// Records the like count of a level.
    pub fn set_likes(&mut self, level_id: u32, likes: u32)
        ensures
            final(self)@ == (LevelStatsView { likes: old(self)@.likes.insert(level_id, likes), ..old(self)@ }),
    {
        self.likes.insert(level_id, likes);
    }

    /// Records the player's vote on a level.
    pub fn set_vote(&mut self, level_id: u32, vote: Vote)
        ensures
            final(self)@ == (LevelStatsView { votes: old(self)@.votes.insert(level_id, vote), ..old(self)@ }),
    {
        self.votes.insert(level_id, vote);
    }

    /// Reads what the server sends at log-in: the player's own levels, then the
    /// player's personal bests.
    pub fn read_initial(&mut self, own: &Vec<SelfLevelItem>, bests: &Vec<PersonalBest>)
        ensures
            final(self)@ == after_own_bests(
                after_own_levels(
                    old(self)@,
                    own@.map_values(|l: SelfLevelItem| (l.id, l.wr_holder, l.wr_time, l.likes)),
                ),
                bests@.map_values(|b: PersonalBest| (b.level, b.time, b.vote)),
            ),
    {
        let ghost start = self@;
        let ghost items = own@.map_values(
            |l: SelfLevelItem| (l.id, l.wr_holder, l.wr_time, l.likes),
        );
        let n = own.len();
        let mut k: usize = 0;
        while k < n
            invariant
                k <= n,
                n == own@.len(),
                items == own@.map_values(
                    |l: SelfLevelItem| (l.id, l.wr_holder, l.wr_time, l.likes),
                ),
                self@ == after_own_levels(start, items.take(k as int)),
            decreases n - k,
        {
            let item = &own[k];
            self.set_time(item.id, item.wr_holder, item.wr_time);
            self.set_likes(item.id, item.likes);
            assert(items.take(k + 1).drop_last() =~= items.take(k as int));
            k = k + 1;
        }
        assert(items.take(n as int) =~= items);
        let ghost mid = self@;
        let ghost bs = bests@.map_values(|b: PersonalBest| (b.level, b.time, b.vote));
        let m = bests.len();
        let mut j: usize = 0;
        while j < m
            invariant
                j <= m,
                m == bests@.len(),
                bs == bests@.map_values(|b: PersonalBest| (b.level, b.time, b.vote)),
                self@ == after_own_bests(mid, bs.take(j as int)),
            decreases m - j,
        {
            let b = &bests[j];
            let me = self.self_id;
            proof {
                assert(bs.take(j + 1).drop_last() =~= bs.take(j as int));
                assert(after_own_bests(mid, bs.take(j as int)).self_id == mid.self_id) by {
                    lemma_bests_keep_self(mid, bs.take(j as int));
                }
            }
            self.set_time(b.level, me, b.time);
            self.set_vote(b.level, b.vote);
            j = j + 1;
        }
        assert(bs.take(m as int) =~= bs);
    }
}

proof fn lemma_bests_keep_self(s: LevelStatsView, bests: Seq<(u32, u32, Vote)>)
    ensures
        after_own_bests(s, bests).self_id == s.self_id,
    decreases bests.len(),
{
    if bests.len() > 0 {
        lemma_bests_keep_self(s, bests.drop_last());
    }
}

/// A world record never gets worse: after a time is set, the level's record is
/// the better of the old record and the new time, and other levels keep theirs.
pub proof fn law_world_record_is_minimum(s: LevelStatsView, level: u32, user: u64, time: u32, other: u32)
    requires
        other != level,
    ensures
        spec_wr(after_set_time(s, level, user, time), level) == Some(
            match spec_wr(s, level) {
                Some(t) => if t < time {
                    t
                } else {
                    time
                },
                None => time,
            },
        ),
        spec_wr(after_set_time(s, level, user, time), other) == spec_wr(s, other),
        spec_pb(after_set_time(s, level, user, time), other) == spec_pb(s, other),
{
}

/// Another player's time never becomes the local player's personal best.
pub proof fn law_others_times_leave_pb(s: LevelStatsView, level: u32, user: u64, time: u32)
    requires
        !spec_is_me(s.self_id, user),
    ensures
        spec_pb(after_set_time(s, level, user, time), level) == spec_pb(s, level),
{
}

/// Reading a like count gives back what was last written for that level.
pub proof fn law_likes_read_what_was_written(s: LevelStatsView, level: u32, likes: u32)
    ensures
        ({
            let t = LevelStatsView { likes: s.likes.insert(level, likes), ..s };
            t.likes.contains_key(level) && t.likes[level] == likes
        }),
{
}


/// The stats after a run of times has been set, in order: each entry is a
/// level, a user and a time.
pub open spec fn after_times(s: LevelStatsView, calls: Seq<(u32, u64, u32)>) -> LevelStatsView
    decreases calls.len(),
{
    if calls.len() == 0 {
        s
    } else {
        let last = calls.last();
        after_set_time(after_times(s, calls.drop_last()), last.0, last.1, last.2)
    }
}

/// Setting times never changes who the local player is.
pub proof fn lemma_times_keep_self(s: LevelStatsView, calls: Seq<(u32, u64, u32)>)
    ensures
        after_times(s, calls).self_id == s.self_id,
    decreases calls.len(),
{
    if calls.len() > 0 {
        lemma_times_keep_self(s, calls.drop_last());
    }
}

/// The world record of a level is the best time seen for it: after any run of
/// times, there is none exactly when there was none and no time was set on the
/// level; otherwise it is at most the old record and every time set on the
/// level, and it is one of them.
pub proof fn law_world_record_is_best_seen(s: LevelStatsView, calls: Seq<(u32, u64, u32)>, level: u32)
    ensures
        spec_wr(after_times(s, calls), level) is None <==> (spec_wr(s, level) is None && forall|k: int|
            0 <= k < calls.len() ==> #[trigger] calls[k].0 != level),
        spec_wr(after_times(s, calls), level) matches Some(m) ==> {
            &&& forall|k: int| 0 <= k < calls.len() && #[trigger] calls[k].0 == level ==> m <= calls[k].2
            &&& (spec_wr(s, level) matches Some(o) ==> m <= o)
            &&& (spec_wr(s, level) == Some(m) || exists|k: int|
                0 <= k < calls.len() && #[trigger] calls[k].0 == level && calls[k].2 == m)
        },
    decreases calls.len(),
{
    if calls.len() > 0 {
        let prev = calls.drop_last();
        law_world_record_is_best_seen(s, prev, level);
        let last = calls.last();
        let n = calls.len() - 1;
        assert forall|k: int| 0 <= k < n implies #[trigger] calls[k] == prev[k] by {}
        assert(calls[n] == last);
        let a = after_times(s, prev);
        assert(after_times(s, calls) == after_set_time(a, last.0, last.1, last.2));
        let w = spec_wr(a, level);
        assert((forall|k: int| 0 <= k < calls.len() ==> #[trigger] calls[k].0 != level) <==> ((forall|k: int|
            0 <= k < prev.len() ==> #[trigger] prev[k].0 != level) && last.0 != level)) by {
            if forall|k: int| 0 <= k < calls.len() ==> #[trigger] calls[k].0 != level {
                assert forall|k: int| 0 <= k < prev.len() implies #[trigger] prev[k].0 != level by {
                    assert(calls[k].0 != level);
                }
                assert(calls[n].0 != level);
            }
        }
        let w2 = spec_wr(after_times(s, calls), level);
        if last.0 == level {
            assert(w2 == if improves(w, last.2) { Some(last.2) } else { w });
        } else {
            assert(w2 == w);
        }
        if let Some(m) = w {
            if !(spec_wr(s, level) == Some(m)) {
                let k = choose|k: int| 0 <= k < prev.len() && #[trigger] prev[k].0 == level && prev[k].2 == m;
                assert(calls[k].0 == level && calls[k].2 == m);
            }
        }
        if let Some(m2) = w2 {
            if last.0 == level && w2 == Some(last.2) {
                assert(calls[n].0 == level && calls[n].2 == m2);
            }
        }
        if w2 is None {
            assert(last.0 != level);
        }
    }
}

/// The personal best of a level is the local player's best time seen for it:
/// after any run of times, there is none exactly when there was none and the
/// player set no time on the level; otherwise it is at most the old best and
/// every time the player set on the level, and it is one of them.
pub proof fn law_personal_best_is_best_seen(s: LevelStatsView, calls: Seq<(u32, u64, u32)>, level: u32)
    ensures
        spec_pb(after_times(s, calls), level) is None <==> (spec_pb(s, level) is None && forall|k: int|
            0 <= k < calls.len() ==> !(#[trigger] calls[k].0 == level && spec_is_me(s.self_id, calls[k].1))),
        spec_pb(after_times(s, calls), level) matches Some(m) ==> {
            &&& forall|k: int|
                0 <= k < calls.len() && #[trigger] calls[k].0 == level && spec_is_me(s.self_id, calls[k].1) ==> m
                    <= calls[k].2
            &&& (spec_pb(s, level) matches Some(o) ==> m <= o)
            &&& (spec_pb(s, level) == Some(m) || exists|k: int|
                0 <= k < calls.len() && #[trigger] calls[k].0 == level && spec_is_me(s.self_id, calls[k].1)
                    && calls[k].2 == m)
        },
    decreases calls.len(),
{
    if calls.len() > 0 {
        let prev = calls.drop_last();
        law_personal_best_is_best_seen(s, prev, level);
        lemma_times_keep_self(s, prev);
        let last = calls.last();
        let n = calls.len() - 1;
        assert forall|k: int| 0 <= k < n implies #[trigger] calls[k] == prev[k] by {}
        assert(calls[n] == last);
        let a = after_times(s, prev);
        assert(after_times(s, calls) == after_set_time(a, last.0, last.1, last.2));
        assert(a.self_id == s.self_id);
        let me = s.self_id;
        assert((forall|k: int| 0 <= k < calls.len() ==> !(#[trigger] calls[k].0 == level && spec_is_me(me, calls[k].1)))
            <==> ((forall|k: int| 0 <= k < prev.len() ==> !(#[trigger] prev[k].0 == level && spec_is_me(me, prev[k].1)))
            && !(last.0 == level && spec_is_me(me, last.1)))) by {
            if forall|k: int| 0 <= k < calls.len() ==> !(#[trigger] calls[k].0 == level && spec_is_me(me, calls[k].1)) {
                assert forall|k: int| 0 <= k < prev.len() implies !(#[trigger] prev[k].0 == level && spec_is_me(me, prev[k].1)) by {
                    assert(!(calls[k].0 == level && spec_is_me(me, calls[k].1)));
                }
                assert(!(calls[n].0 == level && spec_is_me(me, calls[n].1)));
            }
        }
        let p = spec_pb(a, level);
        let p2 = spec_pb(after_times(s, calls), level);
        if last.0 == level && spec_is_me(s.self_id, last.1) {
            assert(p2 == if improves(p, last.2) { Some(last.2) } else { p });
        } else {
            assert(p2 == p);
        }
        if let Some(m2) = p2 {
            if last.0 == level && spec_is_me(s.self_id, last.1) && p2 == Some(last.2) {
                assert(calls[n].0 == level && spec_is_me(s.self_id, calls[n].1) && calls[n].2 == m2);
            }
        }
        if p2 is None {
            assert(!(last.0 == level && spec_is_me(s.self_id, last.1)));
        }
        if let Some(m) = p {
            if !(spec_pb(s, level) == Some(m)) {
                let k = choose|k: int|
                    0 <= k < prev.len() && #[trigger] prev[k].0 == level && spec_is_me(s.self_id, prev[k].1)
                        && prev[k].2 == m;
                assert(calls[k].0 == level && calls[k].2 == m);
            }
        }
    }
}

/// A change to the stats: a time set by a user on a level, a like count
/// recorded for a level, or the player's vote on a level.
pub enum StatsOp {
    Time(u32, u64, u32),
    Likes(u32, u32),
    Vote(u32, Vote),
}

/// The stats after one change (as `set_time`, `set_likes` and `set_vote` make
/// it).
pub open spec fn apply_op(s: LevelStatsView, op: StatsOp) -> LevelStatsView {
    match op {
        StatsOp::Time(level, user, time) => after_set_time(s, level, user, time),
        StatsOp::Likes(level, n) => LevelStatsView { likes: s.likes.insert(level, n), ..s },
        StatsOp::Vote(level, v) => LevelStatsView { votes: s.votes.insert(level, v), ..s },
    }
}

/// The stats after a run of changes, in order.
pub open spec fn after_ops(s: LevelStatsView, ops: Seq<StatsOp>) -> LevelStatsView
    decreases ops.len(),
{
    if ops.len() == 0 {
        s
    } else {
        apply_op(after_ops(s, ops.drop_last()), ops.last())
    }
}

/// The like count last recorded for a level in a run of changes.
pub open spec fn last_likes(ops: Seq<StatsOp>, level: u32) -> Option<u32>
    decreases ops.len(),
{
    if ops.len() == 0 {
        None
    } else {
        match ops.last() {
            StatsOp::Likes(l, n) => if l == level {
                Some(n)
            } else {
                last_likes(ops.drop_last(), level)
            },
            _ => last_likes(ops.drop_last(), level),
        }
    }
}

/// The like count of a level reads what was last recorded for it: after any
/// run of changes, it is the count of the last like record for the level, or
/// what it was before when there is none (0 for stats just made, which know
/// no counts). Times and votes leave like counts alone.
pub proof fn law_likes_read_the_last_record(s: LevelStatsView, ops: Seq<StatsOp>, level: u32)
    ensures
        spec_likes(after_ops(s, ops), level) == match last_likes(ops, level) {
            Some(n) => n,
            None => spec_likes(s, level),
        },
    decreases ops.len(),
{
    if ops.len() > 0 {
        law_likes_read_the_last_record(s, ops.drop_last(), level);
    }
}

/// Running two runs of changes one after the other is running the joined run.
pub proof fn lemma_after_ops_append(s: LevelStatsView, a: Seq<StatsOp>, b: Seq<StatsOp>)
    ensures
        after_ops(s, a + b) == after_ops(after_ops(s, a), b),
    decreases b.len(),
{
    if b.len() > 0 {
        lemma_after_ops_append(s, a, b.drop_last());
        assert((a + b).drop_last() =~= a + b.drop_last());
        assert((a + b).last() == b.last());
    }
}

/// The changes that the log-in data of the player's own levels makes: for
/// each level, its world-record time, then its like count.
pub open spec fn own_level_ops(items: Seq<(u32, u64, u32, u32)>) -> Seq<StatsOp>
    decreases items.len(),
{
    if items.len() == 0 {
        Seq::empty()
    } else {
        let l = items.last();
        own_level_ops(items.drop_last()) + seq![StatsOp::Time(l.0, l.1, l.2), StatsOp::Likes(l.0, l.3)]
    }
}

/// The changes that the log-in data of the player's personal bests makes: for
/// each, the player's time, then the player's vote.
pub open spec fn own_best_ops(self_id: u64, bests: Seq<(u32, u32, Vote)>) -> Seq<StatsOp>
    decreases bests.len(),
{
    if bests.len() == 0 {
        Seq::empty()
    } else {
        let b = bests.last();
        own_best_ops(self_id, bests.drop_last()) + seq![StatsOp::Time(b.0, self_id, b.1), StatsOp::Vote(b.0, b.2)]
    }
}

/// Reading the log-in data is a run of changes, so the laws on runs of
/// changes hold across it.
pub proof fn lemma_read_initial_is_a_run(s: LevelStatsView, items: Seq<(u32, u64, u32, u32)>, bests: Seq<(u32, u32, Vote)>)
    ensures
        after_own_levels(s, items) == after_ops(s, own_level_ops(items)),
        after_own_bests(s, bests) == after_ops(s, own_best_ops(s.self_id, bests)),
    decreases items.len() + bests.len(),
{
    if items.len() > 0 {
        lemma_read_initial_is_a_run(s, items.drop_last(), bests);
        let l = items.last();
        let tail = seq![StatsOp::Time(l.0, l.1, l.2), StatsOp::Likes(l.0, l.3)];
        lemma_after_ops_append(s, own_level_ops(items.drop_last()), tail);
        let m = after_ops(s, own_level_ops(items.drop_last()));
        assert(after_ops(m, tail) == apply_op(apply_op(m, tail[0]), tail[1])) by {
            assert(tail.drop_last() =~= seq![tail[0]]);
            assert(seq![tail[0]].drop_last() =~= Seq::<StatsOp>::empty());
            assert(after_ops(m, Seq::<StatsOp>::empty()) == m);
            assert(after_ops(m, seq![tail[0]]) == apply_op(m, tail[0]));
            assert(after_ops(m, tail) == apply_op(after_ops(m, tail.drop_last()), tail.last()));
        }
    }
    if bests.len() > 0 {
        lemma_read_initial_is_a_run(s, items, bests.drop_last());
        lemma_bests_keep_self(s, bests.drop_last());
        let b = bests.last();
        let tail = seq![StatsOp::Time(b.0, s.self_id, b.1), StatsOp::Vote(b.0, b.2)];
        lemma_after_ops_append(s, own_best_ops(s.self_id, bests.drop_last()), tail);
        let m = after_ops(s, own_best_ops(s.self_id, bests.drop_last()));
        assert(after_ops(m, tail) == apply_op(apply_op(m, tail[0]), tail[1])) by {
            assert(tail.drop_last() =~= seq![tail[0]]);
            assert(seq![tail[0]].drop_last() =~= Seq::<StatsOp>::empty());
            assert(after_ops(m, Seq::<StatsOp>::empty()) == m);
            assert(after_ops(m, seq![tail[0]]) == apply_op(m, tail[0]));
            assert(after_ops(m, tail) == apply_op(after_ops(m, tail.drop_last()), tail.last()));
        }
    }
}

} // verus!
