use vstd::prelude::*;

verus! {

/// A pair of integer coordinates: a point, a velocity or a pair of extents.
#[derive(Clone, Copy, Debug, PartialEq, Eq, Structural)]
pub struct Vec2 {
    pub x: i64,
    pub y: i64,
}

/// An axis-aligned box: `pos` is its center, `vel` the distance it covers in one
/// unit of time, `size` its width and height. The box spans `pos ± size / 2`.
///
/// All edge positions are handled at twice their value, so that a box of odd
/// size still has its edges on whole numbers and every comparison is exact.
#[derive(Clone, Copy, Debug, PartialEq, Eq, Structural)]
pub struct GameObject {
    pub pos: Vec2,
    pub vel: Vec2,
    pub size: Vec2,
}

pub open spec fn abs(x: int) -> int {
    if x < 0 {
        -x
    } else {
        x
    }
}

impl GameObject {
    /// Both extents are strictly positive.
    pub open spec fn wf(&self) -> bool {
        self.size.x > 0 && self.size.y > 0
    }

    /// Twice the x coordinate of the left edge.
    pub open spec fn left2(&self) -> int {
        2 * self.pos.x - self.size.x
    }

    /// Twice the x coordinate of the right edge.
    pub open spec fn right2(&self) -> int {
        2 * self.pos.x + self.size.x
    }

    /// Twice the y coordinate of the top edge (y grows downwards).
    pub open spec fn top2(&self) -> int {
        2 * self.pos.y - self.size.y
    }

    /// Twice the y coordinate of the bottom edge.
    pub open spec fn bottom2(&self) -> int {
        2 * self.pos.y + self.size.y
    }

    /// The two boxes overlap strictly on both axes; touching edges do not count.
    pub open spec fn overlaps(&self, other: GameObject) -> bool {
        &&& self.left2() < other.right2()
        &&& self.right2() > other.left2()
        &&& self.top2() < other.bottom2()
        &&& self.bottom2() > other.top2()
    }

    /// The four penetration depths (doubled) in the order in which they are
    /// ranked: pushed out on the left, right, top and bottom side of `self`.
    pub open spec fn depth(&self, other: GameObject, side: int) -> int {
        if side == 0 {
            abs(self.left2() - other.right2())
        } else if side == 1 {
            abs(self.right2() - other.left2())
        } else if side == 2 {
            abs(self.top2() - other.bottom2())
        } else {
            abs(self.bottom2() - other.top2())
        }
    }

    /// The push-out direction along the side of least penetration; among equal
    /// depths the side ranked first wins. `None` when the boxes do not overlap.
    pub open spec fn normal_spec(&self, other: GameObject) -> Option<Vec2> {
        let d0 = self.depth(other, 0);
        let d1 = self.depth(other, 1);
        let d2 = self.depth(other, 2);
        let d3 = self.depth(other, 3);
        if !self.overlaps(other) {
            None
        } else if d0 <= d1 && d0 <= d2 && d0 <= d3 {
            Some(Vec2 { x: 1, y: 0 })
        } else if d1 <= d2 && d1 <= d3 {
            Some(Vec2 { x: -1i64, y: 0 })
        } else if d2 <= d3 {
            Some(Vec2 { x: 0, y: -1i64 })
        } else {
            Some(Vec2 { x: 0, y: 1 })
        }
    }

    /// A box at rest at the origin with the given extents; `None` unless both
    /// extents are strictly positive.
    pub fn with_size(size: Vec2) -> (r: Option<GameObject>)
        ensures
            (size.x > 0 && size.y > 0) <==> r is Some,
            r matches Some(o) ==> o.wf() && o.size == size && o.pos == (Vec2 { x: 0, y: 0 })
                && o.vel == (Vec2 { x: 0, y: 0 }),
    {
        if size.x > 0 && size.y > 0 {
            Some(GameObject { pos: Vec2 { x: 0, y: 0 }, vel: Vec2 { x: 0, y: 0 }, size })
        } else {
            None
        }
    }

    /// Whether the two boxes overlap strictly on both axes.
    pub fn intersects(&self, other: &GameObject) -> (r: bool)
        ensures
            r == self.overlaps(*other),
    {
        let l = 2 * (self.pos.x as i128) - (self.size.x as i128);
        let r = 2 * (self.pos.x as i128) + (self.size.x as i128);
        let t = 2 * (self.pos.y as i128) - (self.size.y as i128);
        let b = 2 * (self.pos.y as i128) + (self.size.y as i128);
        let ol = 2 * (other.pos.x as i128) - (other.size.x as i128);
        let or = 2 * (other.pos.x as i128) + (other.size.x as i128);
        let ot = 2 * (other.pos.y as i128) - (other.size.y as i128);
        let ob = 2 * (other.pos.y as i128) + (other.size.y as i128);
        l < or && r > ol && t < ob && b > ot
    }

    /// The unit vector along which `self` is pushed out of `other` by the least
    /// distance, or `None` when the two do not intersect.
    pub fn collision_normal(&self, other: &GameObject) -> (r: Option<Vec2>)
        ensures
            r == self.normal_spec(*other),
    {
        if !self.intersects(other) {
            return None;
        }
        let diffs: [i128; 4] = [
            abs_diff(
                2 * (self.pos.x as i128) - (self.size.x as i128),
                2 * (other.pos.x as i128) + (other.size.x as i128),
            ),
            abs_diff(
                2 * (self.pos.x as i128) + (self.size.x as i128),
                2 * (other.pos.x as i128) - (other.size.x as i128),
            ),
            abs_diff(
                2 * (self.pos.y as i128) - (self.size.y as i128),
                2 * (other.pos.y as i128) + (other.size.y as i128),
            ),
            abs_diff(
                2 * (self.pos.y as i128) + (self.size.y as i128),
                2 * (other.pos.y as i128) - (other.size.y as i128),
            ),
        ];
        let normals: [Vec2; 4] = [
            Vec2 { x: 1, y: 0 },
            Vec2 { x: -1i64, y: 0 },
            Vec2 { x: 0, y: -1i64 },
            Vec2 { x: 0, y: 1 },
        ];
        let mut min_d: i128 = diffs[0];
        let mut normal: Vec2 = normals[0];
        let mut i: usize = 1;
        while i < 4
            invariant
                1 <= i <= 4,
                forall|k: int| 0 <= k < 4 ==> diffs[k] as int == self.depth(*other, k),
                normals@ == seq![
                    Vec2 { x: 1, y: 0 },
                    Vec2 { x: -1i64, y: 0 },
                    Vec2 { x: 0, y: -1i64 },
                    Vec2 { x: 0, y: 1 },
                ],
                exists|j: int|
                    0 <= j < i && min_d == diffs[j] && normal == normals[j] && (forall|k: int|
                        0 <= k < j ==> diffs[k] > diffs[j]) && (forall|k: int|
                        j <= k < i ==> diffs[j] <= diffs[k]),
            decreases 4 - i,
        {
            if diffs[i] < min_d {
                min_d = diffs[i];
                normal = normals[i];
            }
            i = i + 1;
        }
        Some(normal)
    }
}

/// `|a - b|` for values far inside the range of `i128`.
fn abs_diff(a: i128, b: i128) -> (r: i128)
    requires
        -0x1000_0000_0000_0000_0000 < a < 0x1000_0000_0000_0000_0000,
        -0x1000_0000_0000_0000_0000 < b < 0x1000_0000_0000_0000_0000,
    ensures
        r == abs(a - b),
{
    if a < b {
        b - a
    } else {
        a - b
    }
}

/// Intersection is symmetric: `a` meets `b` exactly when `b` meets `a`.
pub proof fn lemma_intersects_symmetric(a: GameObject, b: GameObject)
    ensures
        a.overlaps(b) == b.overlaps(a),
{
}

/// Boxes separated by a gap on either axis do not intersect, and no collision
/// normal exists for them.
pub proof fn lemma_separated_no_collision(a: GameObject, b: GameObject)
    requires
        a.right2() < b.left2() || b.right2() < a.left2() || a.bottom2() < b.top2()
            || b.bottom2() < a.top2(),
    ensures
        !a.overlaps(b),
        !b.overlaps(a),
        a.normal_spec(b) is None,
        b.normal_spec(a) is None,
{
}

/// A box that enters another from the left, reaching into it by less than half
/// their combined widths and by no more than its own height, and that lies
/// within the other's vertical extent, is pushed out towards negative x.
pub proof fn lemma_left_penetration_normal(a: GameObject, b: GameObject)
    requires
        a.wf(),
        b.wf(),
        a.left2() < b.left2(),
        b.left2() < a.right2(),
        2 * (a.right2() - b.left2()) < 2 * a.size.x + 2 * b.size.x,
        a.right2() - b.left2() <= 2 * a.size.y,
        b.top2() <= a.top2(),
        a.bottom2() <= b.bottom2(),
    ensures
        a.overlaps(b),
        a.normal_spec(b) == Some(Vec2 { x: -1i64, y: 0 }),
{
}

impl Default for GameObject {
    /// A unit box at rest at the origin.
    fn default() -> (r: GameObject)
        ensures
            r.pos == (Vec2 { x: 0, y: 0 }),
            r.vel == (Vec2 { x: 0, y: 0 }),
            r.size == (Vec2 { x: 1, y: 1 }),
    {
        GameObject { pos: Vec2 { x: 0, y: 0 }, vel: Vec2 { x: 0, y: 0 }, size: Vec2 { x: 1, y: 1 } }
    }
}

} // verus!
