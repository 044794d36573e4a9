//! Object shapes and the polygons that outline them.

use crate::scalar::Scalar;
use crate::vector::NVec2;
use vstd::prelude::*;

verus! {

/// The number of vertices of the polygon that stands for a circle.
pub const CIRCLE_RESOLUTION: usize = 50;

/// The raw radius of the default circle: ten.
pub const DEFAULT_RADIUS_RAW: i64 = 10_000_000_000_000;

/// The raw cosine of one fiftieth of a full turn.
pub const STEP_COS_RAW: i64 = 992_114_701_314;

/// The raw sine of one fiftieth of a full turn.
pub const STEP_SIN_RAW: i64 = 125_333_233_564;

/// A circle around the object's position.
#[derive(Clone, Copy, Debug, PartialEq, Eq, Structural)]
pub struct Circle {
    pub radius: Scalar,
}

/// An axis-aligned rectangle centred on the object's position.
#[derive(Clone, Copy, Debug, PartialEq, Eq, Structural)]
pub struct Rect {
    pub width: Scalar,
    pub height: Scalar,
}

/// The shape of an object. Only circles take part in collisions.
#[derive(Clone, Copy, Debug, PartialEq, Eq, Structural)]
pub enum ObjectShape {
    Circle(Circle),
    Rect(Rect),
}

/// A shape that can be outlined by a polygon.
pub trait Shape {
    /// The vertices of the polygon, around the origin.
    spec fn outline(&self) -> Seq<NVec2>;

    /// The vertices of the polygon for this shape, around the origin.
    fn get_points(&self) -> (r: Vec<NVec2>)
        ensures
            r@ == self.outline(),
    ;
}

/// `p` turned counter-clockwise by one fiftieth of a full turn.
pub open spec fn spec_turn(p: NVec2) -> NVec2 {
    let c = Scalar { raw: STEP_COS_RAW };
    let s = Scalar { raw: STEP_SIN_RAW };
    NVec2 {
        x: p.x.spec_mul(c).spec_sub(p.y.spec_mul(s)),
        y: p.x.spec_mul(s).spec_add(p.y.spec_mul(c)),
    }
}

/// Vertex `k` of the polygon for a circle of the given radius around the origin:
/// the point `(radius, 0)` turned `k` times.
pub open spec fn circle_vertex(radius: Scalar, k: nat) -> NVec2
    decreases k,
{
    if k == 0 {
        NVec2 { x: radius, y: Scalar { raw: 0 } }
    } else {
        spec_turn(circle_vertex(radius, (k - 1) as nat))
    }
}

/// `points`, each moved by `offset`.
pub open spec fn moved_points(points: Seq<NVec2>, offset: NVec2) -> Seq<NVec2> {
    Seq::new(points.len(), |i: int| points[i].spec_add(offset))
}

fn turn(p: NVec2) -> (r: NVec2)
    ensures
        r == spec_turn(p),
{
    let c = Scalar::from_raw(STEP_COS_RAW);
    let s = Scalar::from_raw(STEP_SIN_RAW);
    NVec2 { x: p.x.mul(c).sub(p.y.mul(s)), y: p.x.mul(s).add(p.y.mul(c)) }
}

impl Circle {
    /// The vertices of the polygon for this circle, around the origin.
    pub open spec fn spec_points(self) -> Seq<NVec2> {
        Seq::new(CIRCLE_RESOLUTION as nat, |k: int| circle_vertex(self.radius, k as nat))
    }
}

impl Shape for Circle {
    open spec fn outline(&self) -> Seq<NVec2> {
        self.spec_points()
    }

    /// The vertices of the fifty-sided polygon that stands for this circle,
    /// around the origin, counter-clockwise from `(radius, 0)`.
    fn get_points(&self) -> (r: Vec<NVec2>) {
        let mut points: Vec<NVec2> = Vec::new();
        let mut p = NVec2 { x: self.radius, y: Scalar::zero() };
        let mut k: usize = 0;
        while k < CIRCLE_RESOLUTION
            invariant
                k <= CIRCLE_RESOLUTION,
                points.len() == k,
                p == circle_vertex(self.radius, k as nat),
                forall|i: int| 0 <= i < k ==> points[i] == circle_vertex(self.radius, i as nat),
            decreases CIRCLE_RESOLUTION - k,
        {
            points.push(p);
            p = turn(p);
            k = k + 1;
        }
        proof {
            assert(points@ =~= self.spec_points());
        }
        points
    }
}

impl Default for Circle {
    fn default() -> (r: Circle)
        ensures
            r.radius.raw == DEFAULT_RADIUS_RAW,
    {
        Circle { radius: Scalar::from_raw(DEFAULT_RADIUS_RAW) }
    }
}

impl Rect {
    /// The four corners around the origin.
    pub open spec fn spec_points(self) -> Seq<NVec2> {
        let two = Scalar::spec_from_int(2);
        let left = self.width.spec_neg().spec_div(two);
        let right = self.width.spec_div(two);
        let bottom = self.height.spec_neg().spec_div(two);
        let top = self.height.spec_div(two);
        seq![
            NVec2 { x: left, y: bottom },
            NVec2 { x: right, y: bottom },
            NVec2 { x: right, y: top },
            NVec2 { x: left, y: top },
        ]
    }
}

impl Shape for Rect {
    open spec fn outline(&self) -> Seq<NVec2> {
        self.spec_points()
    }

    /// The four corners around the origin, counter-clockwise from the lower
    /// left.
    fn get_points(&self) -> (r: Vec<NVec2>) {
        let two = Scalar::from_int(2);
        let left = self.width.neg().div(two);
        let right = self.width.div(two);
        let bottom = self.height.neg().div(two);
        let top = self.height.div(two);
        let mut points: Vec<NVec2> = Vec::new();
        points.push(NVec2 { x: left, y: bottom });
        points.push(NVec2 { x: right, y: bottom });
        points.push(NVec2 { x: right, y: top });
        points.push(NVec2 { x: left, y: top });
        proof {
            assert(points@ =~= self.spec_points());
        }
        points
    }
}

impl ObjectShape {
    /// The vertices of the polygon for this shape, around the origin.
    pub open spec fn spec_points(self) -> Seq<NVec2> {
        match self {
            ObjectShape::Circle(circle) => circle.spec_points(),
            ObjectShape::Rect(rect) => rect.spec_points(),
        }
    }

    /// The vertices of the polygon for this shape around `center`.
    pub open spec fn spec_outline_at(self, center: NVec2) -> Seq<NVec2> {
        moved_points(self.spec_points(), center)
    }

    /// A circle of the given radius.
    pub fn circle(radius: Scalar) -> (r: ObjectShape)
        ensures
            r == ObjectShape::Circle(Circle { radius }),
    {
        ObjectShape::Circle(Circle { radius })
    }

    /// A rectangle of the given width and height.
    pub fn rect(width: Scalar, height: Scalar) -> (r: ObjectShape)
        ensures
            r == ObjectShape::Rect(Rect { width, height }),
    {
        ObjectShape::Rect(Rect { width, height })
    }

    /// The vertices of the polygon for this shape, around the origin.
    pub fn get_points(&self) -> (r: Vec<NVec2>)
        ensures
            r@ == self.spec_points(),
    {
        match self {
            ObjectShape::Circle(circle) => circle.get_points(),
            ObjectShape::Rect(rect) => rect.get_points(),
        }
    }

    /// The vertices of the polygon for this shape around `center`: every
    /// vertex moved by `center`.
    pub fn outline_at(&self, center: NVec2) -> (r: Vec<NVec2>)
        ensures
            r@ == self.spec_outline_at(center),
    {
        let points = self.get_points();
        let mut outline: Vec<NVec2> = Vec::new();
        let mut i: usize = 0;
        while i < points.len()
            invariant
                i <= points.len(),
                outline.len() == i,
                forall|k: int| 0 <= k < i ==> outline[k] == points[k].spec_add(center),
            decreases points.len() - i,
        {
            outline.push(points[i].add(center));
            i = i + 1;
        }
        proof {
            assert(outline@ =~= moved_points(points@, center));
        }
        outline
    }
}

impl Default for ObjectShape {
    fn default() -> (r: ObjectShape)
        ensures
            r == ObjectShape::Circle(Circle { radius: Scalar { raw: DEFAULT_RADIUS_RAW } }),
    {
        ObjectShape::Circle(Circle::default())
    }
}

} // verus!
