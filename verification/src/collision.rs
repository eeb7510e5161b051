use crate::config::Config;
use crate::desert::EnvObject;
use crate::dino::Player;
use vstd::prelude::*;

verus! {

/// An axis-aligned box, known by its centre and its size.
#[derive(Clone, Copy, Debug, PartialEq, Eq, Structural)]
pub struct BoundingBox {
    /// Horizontal position of the centre.
    pub x: i32,
    /// Vertical position of the centre.
    pub y: i32,
    /// Extent from left to right.
    pub width: i32,
    /// Extent from bottom to top.
    pub height: i32,
}

/// How far apart two coordinates are.
pub open spec fn distance(a: int, b: int) -> int {
    if a >= b {
        a - b
    } else {
        b - a
    }
}

impl BoundingBox {
    /// Whether the two boxes overlap: on each axis their centres are closer
    /// than half the sum of their extents. Boxes that only touch do not
    /// overlap.
    pub open spec fn overlaps(&self, other: BoundingBox) -> bool {
        &&& 2 * distance(self.x as int, other.x as int) < self.width + other.width
        &&& 2 * distance(self.y as int, other.y as int) < self.height + other.height
    }

    /// Twice the coordinate of the left edge.
    pub open spec fn left2(&self) -> int {
        2 * self.x - self.width
    }

    /// Twice the coordinate of the right edge.
    pub open spec fn right2(&self) -> int {
        2 * self.x + self.width
    }

    /// Twice the coordinate of the lower edge.
    pub open spec fn bottom2(&self) -> int {
        2 * self.y - self.height
    }

    /// Twice the coordinate of the upper edge.
    pub open spec fn top2(&self) -> int {
        2 * self.y + self.height
    }
}

/// The box that the player fills.
pub open spec fn player_box(player: Player, cfg: Config) -> BoundingBox {
    BoundingBox { x: player.x, y: player.y, width: cfg.player_width, height: cfg.player_height }
}

/// The box that a hazard fills.
pub open spec fn obstacle_box(object: EnvObject, cfg: Config) -> BoundingBox {
    BoundingBox {
        x: object.x,
        y: object.y,
        width: cfg.obstacle_width,
        height: cfg.obstacle_height,
    }
}

/// Whether the player has run into the object: it is a hazard and its box
/// overlaps the player's.
pub open spec fn strikes(player: Player, object: EnvObject, cfg: Config) -> bool {
    object.is_obstacle() && player_box(player, cfg).overlaps(obstacle_box(object, cfg))
}

/// The places in `sky` of the objects that the player has run into, in
/// rising order.
pub open spec fn collisions(player: Player, sky: Seq<EnvObject>, cfg: Config) -> Seq<usize>
    decreases sky.len(),
{
    if sky.len() == 0 {
        Seq::empty()
    } else {
        let before = collisions(player, sky.drop_last(), cfg);
        if strikes(player, sky.last(), cfg) {
            before.push((sky.len() - 1) as usize)
        } else {
            before
        }
    }
}

/// Tells whether two boxes overlap.
pub fn collide(a: &BoundingBox, b: &BoundingBox) -> (hit: bool)
    ensures
        hit == a.overlaps(*b),
{
    let dx: i64 = if a.x >= b.x {
        a.x as i64 - b.x as i64
    } else {
        b.x as i64 - a.x as i64
    };
    let dy: i64 = if a.y >= b.y {
        a.y as i64 - b.y as i64
    } else {
        b.y as i64 - a.y as i64
    };
    2 * dx < a.width as i64 + b.width as i64 && 2 * dy < a.height as i64 + b.height as i64
}

/// Finds the hazards that the player has run into and gives their places in
/// `objects`, each hit on its own.
pub fn handle_collisions(player: &Player, objects: &Vec<EnvObject>, cfg: &Config) -> (hits: Vec<
    usize,
>)
    ensures
        hits@ == collisions(*player, objects@, *cfg),
{
    let body: BoundingBox = BoundingBox {
        x: player.x,
        y: player.y,
        width: cfg.player_width,
        height: cfg.player_height,
    };
    let count: usize = objects.len();
    let mut hits: Vec<usize> = Vec::new();
    let mut i: usize = 0;
    while i < count
        invariant
            i <= count,
            objects@.len() == count,
            body == player_box(*player, *cfg),
            hits@ == collisions(*player, objects@.take(i as int), *cfg),
        decreases count - i,
    {
        let object: EnvObject = objects[i];
        proof {
            assert(objects@.take(i + 1).drop_last() == objects@.take(i as int));
        }
        if object.severity.is_some() {
            let other: BoundingBox = BoundingBox {
                x: object.x,
                y: object.y,
                width: cfg.obstacle_width,
                height: cfg.obstacle_height,
            };
            if collide(&body, &other) {
                hits.push(i);
            }
        }
        i += 1;
    }
    proof {
        assert(objects@.take(count as int) == objects@);
    }
    hits
}

/// Overlap is the test on the edges: each box begins before the other ends,
/// on both axes.
pub proof fn lemma_overlap_by_edges(a: BoundingBox, b: BoundingBox)
    ensures
        a.overlaps(b) <==> (a.left2() < b.right2() && a.right2() > b.left2() && a.bottom2()
            < b.top2() && a.top2() > b.bottom2()),
{
}

/// Overlap does not depend on which box is named first.
pub proof fn lemma_overlap_symmetric(a: BoundingBox, b: BoundingBox)
    ensures
        a.overlaps(b) == b.overlaps(a),
{
}

/// Boxes whose edges only touch on one axis do not overlap, whatever the
/// other axis says.
pub proof fn lemma_touching_is_no_overlap(a: BoundingBox, b: BoundingBox)
    requires
        a.right2() == b.left2() || b.right2() == a.left2() || a.top2() == b.bottom2() || b.top2()
            == a.bottom2(),
        a.width >= 0,
        a.height >= 0,
        b.width >= 0,
        b.height >= 0,
    ensures
        !a.overlaps(b),
{
}

/// The report holds exactly the places of the hazards that overlap the
/// player, each once and in rising order; with no objects it is empty.
pub proof fn lemma_collisions_exact(player: Player, sky: Seq<EnvObject>, cfg: Config)
    requires
        sky.len() <= usize::MAX,
    ensures
        forall|k: int|
            0 <= k < collisions(player, sky, cfg).len() ==> {
                let place = #[trigger] collisions(player, sky, cfg)[k];
                0 <= place < sky.len() && strikes(player, sky[place as int], cfg)
            },
        forall|j: int, k: int|
            0 <= j < k < collisions(player, sky, cfg).len() ==> collisions(player, sky, cfg)[j]
                < collisions(player, sky, cfg)[k],
        forall|i: int|
            0 <= i < sky.len() && strikes(player, #[trigger] sky[i], cfg) ==> collisions(
                player,
                sky,
                cfg,
            ).contains(i as usize),
        sky.len() == 0 ==> collisions(player, sky, cfg).len() == 0,
    decreases sky.len(),
{
    if sky.len() > 0 {
        let head = sky.drop_last();
        lemma_collisions_exact(player, head, cfg);
        let before = collisions(player, head, cfg);
        let all = collisions(player, sky, cfg);
        assert forall|i: int| 0 <= i < sky.len() && strikes(player, #[trigger] sky[i], cfg) implies all.contains(
            i as usize,
        ) by {
            if i < sky.len() - 1 {
                assert(head[i] == sky[i]);
                assert(before.contains(i as usize));
                let k = choose|k: int| 0 <= k < before.len() && before[k] == i as usize;
                assert(all[k] == i as usize);
            } else {
                assert(all[all.len() - 1] == i as usize);
            }
        }
        assert forall|k: int| 0 <= k < all.len() implies {
            let place = #[trigger] all[k];
            0 <= place < sky.len() && strikes(player, sky[place as int], cfg)
        } by {
            if k < before.len() {
                assert(all[k] == before[k]);
                assert(head[before[k] as int] == sky[before[k] as int]);
            }
        }
        assert forall|j: int, k: int| 0 <= j < k < all.len() implies all[j] < all[k] by {
            if k < before.len() {
                assert(all[j] == before[j] && all[k] == before[k]);
            } else {
                assert(all[j] == before[j]);
            }
        }
    }
}

} // verus!
