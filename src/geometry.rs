use vstd::prelude::*;

verus! {

/// Sub-units per pixel, and ticks (microseconds) per second.
pub const SCALE: i64 = 1_000_000;

/// A pair of fixed-point coordinates.
#[derive(Clone, Copy, Debug, PartialEq, Eq, Structural)]
pub struct Vector2 {
    pub x: i64,
    pub y: i64,
}

/// An axis-aligned box: its top-left corner and its extent.
#[derive(Clone, Copy, Debug, PartialEq, Eq, Structural)]
pub struct PhysicsObject {
    pub pos: Vector2,
    pub dim: Vector2,
}

impl PhysicsObject {
    /// The far corner can be computed without overflow.
    pub open spec fn fits(&self) -> bool {
        &&& i64::MIN <= self.pos.x + self.dim.x <= i64::MAX
        &&& i64::MIN <= self.pos.y + self.dim.y <= i64::MAX
    }

    /// `p` lies strictly inside the box: a point on its boundary is not contained.
    pub open spec fn contains_spec(&self, p: Vector2) -> bool {
        &&& self.pos.x < p.x
        &&& p.x < self.pos.x + self.dim.x
        &&& self.pos.y < p.y
        &&& p.y < self.pos.y + self.dim.y
    }

    /// The four corners: top-left, top-right, bottom-left, bottom-right.
    pub open spec fn corners_spec(&self) -> Seq<Vector2> {
        seq![
            Vector2 { x: self.pos.x, y: self.pos.y },
            Vector2 { x: (self.pos.x + self.dim.x) as i64, y: self.pos.y },
            Vector2 { x: self.pos.x, y: (self.pos.y + self.dim.y) as i64 },
            Vector2 { x: (self.pos.x + self.dim.x) as i64, y: (self.pos.y + self.dim.y) as i64 },
        ]
    }

    /// Some corner of `other` lies strictly inside `self`.
    pub open spec fn holds_corner_of(&self, other: PhysicsObject) -> bool {
        exists|i: int| 0 <= i < 4 && #[trigger] self.contains_spec(other.corners_spec()[i])
    }

    /// Corner-containment overlap: a corner of either box lies strictly inside the other.
    pub open spec fn overlaps(&self, other: PhysicsObject) -> bool {
        other.holds_corner_of(*self) || self.holds_corner_of(other)
    }

    pub fn contains_point(&self, point: &Vector2) -> (r: bool)
        requires
            self.fits(),
        ensures
            r == self.contains_spec(*point),
    {
        point.x > self.pos.x && point.x < self.pos.x + self.dim.x && point.y > self.pos.y
            && point.y < self.pos.y + self.dim.y
    }

    pub fn corners(&self) -> (r: [Vector2; 4])
        requires
            self.fits(),
        ensures
            r@ == self.corners_spec(),
    {
        let r = [
            Vector2 { x: self.pos.x, y: self.pos.y },
            Vector2 { x: self.pos.x + self.dim.x, y: self.pos.y },
            Vector2 { x: self.pos.x, y: self.pos.y + self.dim.y },
            Vector2 { x: self.pos.x + self.dim.x, y: self.pos.y + self.dim.y },
        ];
        assert(r@ =~= self.corners_spec());
        r
    }

    pub fn get_physics_object(&self) -> (r: PhysicsObject)
        ensures
            r == *self,
    {
        *self
    }

    /// Whether the two boxes collide under the corner-containment rule.
    pub fn is_colliding(&self, other: &PhysicsObject) -> (r: bool)
        requires
            self.fits(),
            other.fits(),
        ensures
            r == self.overlaps(*other),
    {
        let mine = self.corners();
        let theirs = other.corners();
        let mut i: usize = 0;
        while i < 4
            invariant
                0 <= i <= 4,
                self.fits(),
                other.fits(),
                mine@ == self.corners_spec(),
                forall|j: int| 0 <= j < i ==> !other.contains_spec(#[trigger] mine@[j]),
            decreases 4 - i,
        {
            if other.contains_point(&mine[i]) {
                return true;
            }
            i = i + 1;
        }
        let mut k: usize = 0;
        while k < 4
            invariant
                0 <= k <= 4,
                self.fits(),
                other.fits(),
                theirs@ == other.corners_spec(),
                forall|j: int| 0 <= j < k ==> !self.contains_spec(#[trigger] theirs@[j]),
            decreases 4 - k,
        {
            if self.contains_point(&theirs[k]) {
                return true;
            }
            k = k + 1;
        }
        false
    }
}

} // verus!
