//! A loaded level: its heroes, its point-of-interest tiles, and the cosmetic
//! data the surrounding game shows.  The points of interest act as a map from
//! grid cell to tile; with distinct cells the association list below is that
//! map, looked up by first match.

use vstd::prelude::*;
use crate::geometry::GridPos;
use crate::hero::Hero;
use crate::tile::Tile;

verus! {

/// Everything a level defines, fixed for the level's duration.
#[derive(Clone, Debug)]
pub struct LevelScene {
    pub level_name: String,
    pub background_texture: String,
    pub music: String,
    /// The heroes spawned at level start.
    pub heros: Vec<Hero>,
    /// One-time-trigger tiles, keyed by grid cell.
    pub points_of_interest: Vec<(GridPos, Tile)>,
    /// Which level this scene was loaded from.
    pub level: usize,
}

/// The tile at `cell`, by first match in the association list.
pub open spec fn poi_lookup(pois: Seq<(GridPos, Tile)>, cell: GridPos) -> Option<Tile>
    decreases pois.len(),
{
    if pois.len() == 0 {
        None
    } else if pois[0].0 == cell {
        Some(pois[0].1)
    } else {
        poi_lookup(pois.drop_first(), cell)
    }
}

/// When the first `i` entries miss `cell`, the lookup is decided by the rest.
proof fn lemma_poi_lookup_skip(pois: Seq<(GridPos, Tile)>, cell: GridPos, i: int)
    requires
        0 <= i <= pois.len(),
        forall|k: int| 0 <= k < i ==> (#[trigger] pois[k]).0 != cell,
    ensures
        poi_lookup(pois, cell) == poi_lookup(pois.skip(i), cell),
    decreases i,
{
    if i > 0 {
        lemma_poi_lookup_skip(pois.drop_first(), cell, i - 1);
        assert(pois.drop_first().skip(i - 1) =~= pois.skip(i));
    } else {
        assert(pois.skip(0) =~= pois);
    }
}

impl LevelScene {
    /// Point-of-interest cells are distinct and the spawned heroes are
    /// well formed.
    pub open spec fn wf(self) -> bool {
        &&& forall|i: int, j: int|
            0 <= i < j < self.points_of_interest@.len()
                ==> (#[trigger] self.points_of_interest@[i]).0
                    != (#[trigger] self.points_of_interest@[j]).0
        &&& forall|i: int| 0 <= i < self.heros@.len() ==> (#[trigger] self.heros@[i]).wf()
    }

    /// The tile this scene defines at `cell`, if any.
    pub fn poi_at(&self, cell: GridPos) -> (t: Option<Tile>)
        ensures
            t == poi_lookup(self.points_of_interest@, cell),
    {
        let n = self.points_of_interest.len();
        for i in 0..n
            invariant
                n == self.points_of_interest@.len(),
                forall|k: int| 0 <= k < i ==> (#[trigger] self.points_of_interest@[k]).0 != cell,
        {
            let (c, tile) = self.points_of_interest[i];
            if c == cell {
                proof {
                    lemma_poi_lookup_skip(self.points_of_interest@, cell, i as int);
                }
                return Some(tile);
            }
        }
        proof {
            lemma_poi_lookup_skip(self.points_of_interest@, cell, n as int);
        }
        None
    }
}

}
