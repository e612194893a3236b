//! The level's objects and the placement engine.
//!
//! A level is a table of `WorldObject` records keyed by a stable id: tiles
//! and hazards (each carrying the atlas index it was placed with), mobs, and
//! at most one player marker.  The placement engine applies the active tool
//! to a grid-snapped world position: the draw tools append a new object,
//! `Erase` removes every object whose position equals the clicked cell
//! exactly, and `PlacePlayer` relocates the existing player marker or
//! creates it.  Stacking is allowed: placing twice at one cell keeps both
//! objects.

use vstd::prelude::*;

verus! {

use crate::geometry::WorldPos;

/// What a placed object is, with the atlas index it was placed with where
/// one applies.  Mobs have a fixed visual and the player marker is unique.
#[derive(Clone, Copy, PartialEq, Eq, Structural, Debug)]
pub enum ObjectKind {
    Tile(usize),
    Hazard(usize),
    Mob,
    Player,
}

/// One placed object: a stable id, its kind, and the cell-centre position
/// it was snapped to.
#[derive(Clone, Copy, PartialEq, Eq, Structural, Debug)]
pub struct WorldObject {
    pub id: u64,
    pub kind: ObjectKind,
    pub pos: WorldPos,
}

/// The exclusive editing tool, selected from the toolbar.
#[derive(Clone, Copy, PartialEq, Eq, Structural, Debug)]
pub enum Tool {
    DrawTile,
    DrawHazard,
    DrawMob,
    Erase,
    PlacePlayer,
}

pub open spec fn is_player(o: WorldObject) -> bool {
    o.kind == ObjectKind::Player
}

/// How many objects sit exactly at `pos`.
pub open spec fn count_at(s: Seq<WorldObject>, pos: WorldPos) -> nat
    decreases s.len(),
{
    if s.len() == 0 {
        0
    } else {
        count_at(s.drop_last(), pos) + if s.last().pos == pos {
            1nat
        } else {
            0nat
        }
    }
}

/// How many player markers the table holds.
pub open spec fn player_count(s: Seq<WorldObject>) -> nat
    decreases s.len(),
{
    if s.len() == 0 {
        0
    } else {
        player_count(s.drop_last()) + if is_player(s.last()) {
            1nat
        } else {
            0nat
        }
    }
}

/// Some player marker sits at `pos`.
pub open spec fn has_player_at(s: Seq<WorldObject>, pos: WorldPos) -> bool {
    exists|i: int| 0 <= i < s.len() && #[trigger] is_player(s[i]) && s[i].pos == pos
}

/// The table after erasing at `pos`: every object whose position equals
/// `pos` exactly is removed, all others stay, in order.
pub open spec fn erase_at_spec(s: Seq<WorldObject>, pos: WorldPos) -> Seq<WorldObject>
    decreases s.len(),
{
    if s.len() == 0 {
        s
    } else {
        let rest = erase_at_spec(s.drop_last(), pos);
        if s.last().pos == pos {
            rest
        } else {
            rest.push(s.last())
        }
    }
}

/// The same object, moved to `pos`.
pub open spec fn relocated_player(o: WorldObject, pos: WorldPos) -> WorldObject {
    WorldObject { id: o.id, kind: o.kind, pos }
}

/// Every player marker moved to `pos`; all other objects untouched.
pub open spec fn relocate_players(s: Seq<WorldObject>, pos: WorldPos) -> Seq<WorldObject> {
    Seq::new(
        s.len(),
        |i: int|
            if is_player(s[i]) {
                relocated_player(s[i], pos)
            } else {
                s[i]
            },
    )
}

/// The table after the `PlacePlayer` tool fires at `pos`: the existing
/// player marker is relocated, or a fresh one with id `id` is created.
pub open spec fn place_player_spec(s: Seq<WorldObject>, id: u64, pos: WorldPos) -> Seq<
    WorldObject,
> {
    if player_count(s) == 0 {
        s.push(WorldObject { id, kind: ObjectKind::Player, pos })
    } else {
        relocate_players(s, pos)
    }
}

/// The object table after one tool application.
pub open spec fn next_world_objects(
    s: Seq<WorldObject>,
    id: u64,
    tool: Tool,
    pos: WorldPos,
    selected_tile: usize,
) -> Seq<WorldObject> {
    match tool {
        Tool::DrawTile => s.push(WorldObject { id, kind: ObjectKind::Tile(selected_tile), pos }),
        Tool::DrawHazard => s.push(
            WorldObject { id, kind: ObjectKind::Hazard(selected_tile), pos },
        ),
        Tool::DrawMob => s.push(WorldObject { id, kind: ObjectKind::Mob, pos }),
        Tool::Erase => erase_at_spec(s, pos),
        Tool::PlacePlayer => place_player_spec(s, id, pos),
    }
}

/// The id counter after one tool application: it advances exactly when an
/// object was created.
pub open spec fn next_world_id(s: Seq<WorldObject>, id: u64, tool: Tool) -> int {
    match tool {
        Tool::DrawTile => id + 1,
        Tool::DrawHazard => id + 1,
        Tool::DrawMob => id + 1,
        Tool::Erase => id as int,
        Tool::PlacePlayer => if player_count(s) == 0 {
            id + 1
        } else {
            id as int
        },
    }
}

/// The placed objects of the level, keyed by a stable id.
pub struct World {
    pub objects: Vec<WorldObject>,
    pub next_id: u64,
}

impl World {
    /// Ids are unique and below the id counter, and at most one player
    /// marker exists.
    pub open spec fn wf(self) -> bool {
        &&& forall|i: int, j: int|
            #![trigger self.objects@[i].id, self.objects@[j].id]
            0 <= i < j < self.objects@.len() ==> self.objects@[i].id != self.objects@[j].id
        &&& forall|i: int|
            0 <= i < self.objects@.len() ==> (#[trigger] self.objects@[i].id) < self.next_id
        &&& player_count(self.objects@) <= 1
    }

    /// An empty level.
    pub fn new() -> (w: World)
        ensures
            w.wf(),
            w.objects@ == Seq::<WorldObject>::empty(),
            w.next_id == 0,
    {
        World { objects: Vec::new(), next_id: 0 }
    }

    /// Appends a new tile, hazard or mob at `pos` under a fresh id.  The
    /// player marker is managed by `place_player` instead.
    pub fn spawn(&mut self, kind: ObjectKind, pos: WorldPos)
        requires
            old(self).wf(),
            old(self).next_id < u64::MAX,
            kind != ObjectKind::Player,
        ensures
            final(self).wf(),
            final(self).objects@ == old(self).objects@.push(
                (WorldObject { id: old(self).next_id, kind, pos }),
            ),
            final(self).next_id == old(self).next_id + 1,
    {
        let id = self.next_id;
        self.objects.push(WorldObject { id, kind, pos });
        self.next_id = self.next_id + 1;
        proof {
            lemma_player_count_push(old(self).objects@, WorldObject { id, kind, pos });
        }
    }

    /// Removes every object whose position equals `pos` exactly.  Removing
    /// at an empty cell changes nothing.
    pub fn erase_at(&mut self, pos: WorldPos)
        requires
            old(self).wf(),
        ensures
            final(self).wf(),
            final(self).objects@ == erase_at_spec(old(self).objects@, pos),
            final(self).next_id == old(self).next_id,
    {
        let n = self.objects.len();
        let mut kept: Vec<WorldObject> = Vec::new();
        let mut i: usize = 0;
        while i < n
            invariant
                i <= n,
                n == self.objects.len(),
                self.objects@ == old(self).objects@,
                self.next_id == old(self).next_id,
                kept@ == erase_at_spec(old(self).objects@.subrange(0, i as int), pos),
            decreases n - i,
        {
            let o = self.objects[i];
            if !(o.pos == pos) {
                kept.push(o);
            }
            proof {
                let pre = old(self).objects@.subrange(0, i as int);
                let cur = old(self).objects@.subrange(0, i as int + 1);
                assert(cur.drop_last() =~= pre);
                assert(cur.last() == o);
            }
            i = i + 1;
        }
        proof {
            assert(old(self).objects@.subrange(0, n as int) =~= old(self).objects@);
            lemma_erase_at_preserves(old(self).objects@, pos, old(self).next_id);
        }
        self.objects = kept;
    }

    /// Relocates the player marker to `pos`, or creates it there under a
    /// fresh id if none exists.  Afterwards exactly one player exists, at
    /// `pos`.
    pub fn place_player(&mut self, pos: WorldPos)
        requires
            old(self).wf(),
            old(self).next_id < u64::MAX,
        ensures
            final(self).wf(),
            final(self).objects@ == place_player_spec(old(self).objects@, old(self).next_id, pos),
            player_count(old(self).objects@) == 0 ==> final(self).next_id == old(self).next_id
                + 1,
            player_count(old(self).objects@) > 0 ==> final(self).next_id == old(self).next_id,
            player_count(final(self).objects@) == 1,
            has_player_at(final(self).objects@, pos),
    {
        let ghost s0 = old(self).objects@;
        let n = self.objects.len();
        let mut found = false;
        let mut i: usize = 0;
        while i < n
            invariant
                i <= n,
                n == s0.len(),
                s0 == old(self).objects@,
                self.next_id == old(self).next_id,
                self.objects@.len() == s0.len(),
                found == (player_count(s0.subrange(0, i as int)) > 0),
                forall|j: int|
                    0 <= j < s0.len() ==> #[trigger] self.objects@[j] == (if j < i && is_player(
                        s0[j],
                    ) {
                        relocated_player(s0[j], pos)
                    } else {
                        s0[j]
                    }),
            decreases n - i,
        {
            let o = self.objects[i];
            if o.kind == ObjectKind::Player {
                self.objects[i] = WorldObject { id: o.id, kind: o.kind, pos };
                found = true;
            }
            proof {
                let pre = s0.subrange(0, i as int);
                let cur = s0.subrange(0, i as int + 1);
                assert(cur.drop_last() =~= pre);
                assert(cur.last() == s0[i as int]);
            }
            i = i + 1;
        }
        proof {
            assert(s0.subrange(0, n as int) =~= s0);
        }
        if found {
            proof {
                assert(self.objects@ =~= relocate_players(s0, pos));
                lemma_player_count_pointwise(s0, relocate_players(s0, pos));
                lemma_player_count_positive_exists(s0);
                let j = choose|j: int| 0 <= j < s0.len() && is_player(s0[j]);
                assert(is_player(self.objects@[j]) && self.objects@[j].pos == pos);
            }
        } else {
            proof {
                assert forall|j: int| 0 <= j < s0.len() implies !is_player(#[trigger] s0[j]) by {
                    if is_player(s0[j]) {
                        lemma_player_index_positive(s0, j);
                    }
                }
                assert(self.objects@ =~= s0);
            }
            let id = self.next_id;
            self.objects.push(WorldObject { id, kind: ObjectKind::Player, pos });
            self.next_id = self.next_id + 1;
            proof {
                lemma_player_count_push(s0, WorldObject { id, kind: ObjectKind::Player, pos });
                assert(is_player(self.objects@[s0.len() as int]));
            }
        }
    }

    /// Removes every object, as the clear-canvas shortcut does.  The id
    /// counter is kept, so ids stay stable across a reset.
    pub fn clear(&mut self)
        requires
            old(self).wf(),
        ensures
            final(self).wf(),
            final(self).objects@ == Seq::<WorldObject>::empty(),
            final(self).next_id == old(self).next_id,
    {
        self.objects.clear();
    }

    /// The placement engine: applies the active tool to a world position,
    /// reading the selected atlas index for tiles and hazards.
    pub fn apply_tool(&mut self, tool: Tool, pos: WorldPos, selected_tile: usize)
        requires
            old(self).wf(),
            old(self).next_id < u64::MAX,
        ensures
            final(self).wf(),
            final(self).objects@ == next_world_objects(
                old(self).objects@,
                old(self).next_id,
                tool,
                pos,
                selected_tile,
            ),
            final(self).next_id == next_world_id(old(self).objects@, old(self).next_id, tool),
    {
        match tool {
            Tool::DrawTile => self.spawn(ObjectKind::Tile(selected_tile), pos),
            Tool::DrawHazard => self.spawn(ObjectKind::Hazard(selected_tile), pos),
            Tool::DrawMob => self.spawn(ObjectKind::Mob, pos),
            Tool::Erase => self.erase_at(pos),
            Tool::PlacePlayer => self.place_player(pos),
        }
    }
}

/// Appending one object adds to a cell's count exactly when it sits there.
pub proof fn lemma_count_at_push(s: Seq<WorldObject>, o: WorldObject, pos: WorldPos)
    ensures
        count_at(s.push(o), pos) == count_at(s, pos) + if o.pos == pos {
            1nat
        } else {
            0nat
        },
{
    assert(s.push(o).drop_last() =~= s);
    assert(s.push(o).last() == o);
}

/// Appending one object raises the player count exactly when it is the
/// player marker.
pub proof fn lemma_player_count_push(s: Seq<WorldObject>, o: WorldObject)
    ensures
        player_count(s.push(o)) == player_count(s) + if is_player(o) {
            1nat
        } else {
            0nat
        },
{
    assert(s.push(o).drop_last() =~= s);
    assert(s.push(o).last() == o);
}

/// Two tables whose entries agree on being the player marker, index by
/// index, hold the same number of players.
pub proof fn lemma_player_count_pointwise(s: Seq<WorldObject>, t: Seq<WorldObject>)
    requires
        s.len() == t.len(),
        forall|j: int| 0 <= j < s.len() ==> is_player(s[j]) == is_player(#[trigger] t[j]),
    ensures
        player_count(s) == player_count(t),
    decreases s.len(),
{
    if s.len() > 0 {
        lemma_player_count_pointwise(s.drop_last(), t.drop_last());
    }
}

/// A player marker at any index makes the player count positive.
pub proof fn lemma_player_index_positive(s: Seq<WorldObject>, j: int)
    requires
        0 <= j < s.len(),
        is_player(s[j]),
    ensures
        player_count(s) > 0,
    decreases s.len(),
{
    if j < s.len() - 1 {
        assert(s.drop_last()[j] == s[j]);
        lemma_player_index_positive(s.drop_last(), j);
    }
}

/// A positive player count names a player somewhere in the table.
pub proof fn lemma_player_count_positive_exists(s: Seq<WorldObject>)
    requires
        player_count(s) > 0,
    ensures
        exists|j: int| 0 <= j < s.len() && is_player(#[trigger] s[j]),
    decreases s.len(),
{
    if is_player(s.last()) {
        assert(0 <= s.len() - 1 < s.len() && is_player(s[s.len() - 1]));
    } else {
        lemma_player_count_positive_exists(s.drop_last());
        let j = choose|j: int| 0 <= j < s.drop_last().len() && is_player(s.drop_last()[j]);
        assert(0 <= j < s.len() && is_player(s[j]));
    }
}

/// Erasing keeps a subset of the table: every surviving object was there
/// before, ids stay unique and below the id counter, and the player count
/// does not grow.
pub proof fn lemma_erase_at_preserves(s: Seq<WorldObject>, pos: WorldPos, id_bound: u64)
    requires
        forall|i: int, j: int|
            #![trigger s[i].id, s[j].id]
            0 <= i < j < s.len() ==> s[i].id != s[j].id,
        forall|i: int| 0 <= i < s.len() ==> (#[trigger] s[i].id) < id_bound,
    ensures
        erase_at_spec(s, pos).len() <= s.len(),
        forall|i: int|
            0 <= i < erase_at_spec(s, pos).len() ==> s.contains(#[trigger] erase_at_spec(s, pos)[i]),
        forall|i: int, j: int|
            #![trigger erase_at_spec(s, pos)[i].id, erase_at_spec(s, pos)[j].id]
            0 <= i < j < erase_at_spec(s, pos).len() ==> erase_at_spec(s, pos)[i].id != erase_at_spec(
                s,
                pos,
            )[j].id,
        forall|i: int|
            0 <= i < erase_at_spec(s, pos).len() ==> (#[trigger] erase_at_spec(s, pos)[i].id)
                < id_bound,
        player_count(erase_at_spec(s, pos)) <= player_count(s),
    decreases s.len(),
{
    if s.len() == 0 {
    } else {
        let prefix = s.drop_last();
        assert forall|i: int| 0 <= i < prefix.len() implies prefix.contains(#[trigger] s[i]) by {
            assert(prefix[i] == s[i]);
        }
        lemma_erase_at_preserves(prefix, pos, id_bound);
        let rest = erase_at_spec(prefix, pos);
        assert forall|i: int| 0 <= i < rest.len() implies s.contains(#[trigger] rest[i]) by {
            let k = choose|k: int| 0 <= k < prefix.len() && prefix[k] == rest[i];
            assert(s[k] == rest[i]);
        }
        if s.last().pos == pos {
        } else {
            let out = rest.push(s.last());
            lemma_player_count_push(rest, s.last());
            assert(s.contains(s.last())) by {
                assert(s[s.len() - 1] == s.last());
            }
            assert forall|i: int, j: int| 0 <= i < j < out.len() implies out[i].id != out[j].id by {
                if j < rest.len() {
                } else {
                    assert(out[j] == s.last());
                    let k = choose|k: int| 0 <= k < prefix.len() && prefix[k] == rest[i];
                    assert(s[k].id != s[s.len() - 1].id);
                }
            }
        }
    }
}

/// After erasing at a cell, no object sits there: every overlapping object
/// at the cell is removed in one action.
pub proof fn lemma_erase_clears_cell(s: Seq<WorldObject>, pos: WorldPos)
    ensures
        count_at(erase_at_spec(s, pos), pos) == 0,
    decreases s.len(),
{
    if s.len() > 0 {
        lemma_erase_clears_cell(s.drop_last(), pos);
        if s.last().pos == pos {
        } else {
            lemma_count_at_push(erase_at_spec(s.drop_last(), pos), s.last(), pos);
        }
    }
}

/// Erasing touches only the erased cell: counts at every other cell are
/// unchanged.
pub proof fn lemma_erase_keeps_other_cells(s: Seq<WorldObject>, pos: WorldPos, other: WorldPos)
    requires
        other != pos,
    ensures
        count_at(erase_at_spec(s, pos), other) == count_at(s, other),
    decreases s.len(),
{
    if s.len() > 0 {
        lemma_erase_keeps_other_cells(s.drop_last(), pos, other);
        if s.last().pos == pos {
        } else {
            lemma_count_at_push(erase_at_spec(s.drop_last(), pos), s.last(), other);
        }
    }
}

/// Erasing at a cell with no object present is a no-op: the table is
/// returned unchanged.
pub proof fn lemma_erase_absent_noop(s: Seq<WorldObject>, pos: WorldPos)
    requires
        count_at(s, pos) == 0,
    ensures
        erase_at_spec(s, pos) == s,
    decreases s.len(),
{
    if s.len() > 0 {
        lemma_erase_absent_noop(s.drop_last(), pos);
        assert(s.drop_last().push(s.last()) =~= s);
    }
}

/// Placing a tile at a cell and then erasing there leaves the cell with no
/// objects, whatever the table held before.
pub proof fn lemma_place_then_erase_empty(
    s: Seq<WorldObject>,
    id: u64,
    selected_tile: usize,
    pos: WorldPos,
)
    ensures
        count_at(
            next_world_objects(
                next_world_objects(s, id, Tool::DrawTile, pos, selected_tile),
                id,
                Tool::Erase,
                pos,
                selected_tile,
            ),
            pos,
        ) == 0,
{
    lemma_erase_clears_cell(next_world_objects(s, id, Tool::DrawTile, pos, selected_tile), pos);
}

/// One `PlacePlayer` application leaves exactly one player marker, at the
/// given position.
pub proof fn lemma_place_player_one(s: Seq<WorldObject>, id: u64, pos: WorldPos)
    requires
        player_count(s) <= 1,
    ensures
        player_count(place_player_spec(s, id, pos)) == 1,
        has_player_at(place_player_spec(s, id, pos), pos),
{
    let t = place_player_spec(s, id, pos);
    if player_count(s) == 0 {
        lemma_player_count_push(s, WorldObject { id, kind: ObjectKind::Player, pos });
        assert(is_player(t[s.len() as int]) && t[s.len() as int].pos == pos);
    } else {
        lemma_player_count_pointwise(s, t);
        lemma_player_count_positive_exists(s);
        let j = choose|j: int| 0 <= j < s.len() && is_player(s[j]);
        assert(is_player(t[j]) && t[j].pos == pos);
    }
}

/// Placing the player twice, at any two positions, leaves exactly one
/// player marker, located at the second position.
pub proof fn lemma_place_player_twice(
    s: Seq<WorldObject>,
    id1: u64,
    pos1: WorldPos,
    id2: u64,
    pos2: WorldPos,
)
    requires
        player_count(s) <= 1,
    ensures
        player_count(place_player_spec(place_player_spec(s, id1, pos1), id2, pos2)) == 1,
        has_player_at(place_player_spec(place_player_spec(s, id1, pos1), id2, pos2), pos2),
{
    lemma_place_player_one(s, id1, pos1);
    lemma_place_player_one(place_player_spec(s, id1, pos1), id2, pos2);
}

} // verus!
