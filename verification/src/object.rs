//! Named, colored rigid bodies.
//!
//! An object is a color, a list of points, lists of edges and surfaces that
//! reference points by their *position* in the point list (not by identity
//! number), and a cached centroid.  The centroid must be the arithmetic
//! mean of the point coordinates; every mutation of the point list updates
//! it in the same step.

use crate::fixed::{lemma_div_stays_in_range, COEF_LIMIT};
use crate::matrix::Matrix;
use crate::point::{is_transformed, transform, Point};
use vstd::arithmetic::div_mod::{lemma_div_is_ordered, lemma_div_multiples_vanish};
use vstd::prelude::*;

verus! {

/// An edge: the positions, in the owning object's point list, of the two
/// endpoints of a line segment.
pub type Edge = Vec<i32>;

/// A surface: the positions, in the owning object's point list, of the
/// corners of a filled polygon, visited in order as a closed path.
pub type Surface = Vec<i32>;

/// A colored rigid body in world space.
pub struct Object {
    /// Color of the object, as a rendering-system color string; the engine
    /// carries it through without interpreting it.
    pub colour: String,
    /// The vertices of the object.
    pub points: Vec<Point>,
    /// Pairs of point positions to connect by edges.
    pub edges: Vec<Edge>,
    /// Point positions to connect in order, each defining a surface.
    pub surfaces: Vec<Surface>,
    /// The centroid of the object: the arithmetic mean of the points.
    /// Used for the cheap painter's-rule depth sort.
    pub mid_point: Point,
}

/// The sum of the X coordinates of a sequence of points.
pub open spec fn sum_x(s: Seq<Point>) -> int
    decreases s.len(),
{
    if s.len() == 0 {
        0
    } else {
        sum_x(s.drop_last()) + s.last().x
    }
}

/// The sum of the Y coordinates of a sequence of points.
pub open spec fn sum_y(s: Seq<Point>) -> int
    decreases s.len(),
{
    if s.len() == 0 {
        0
    } else {
        sum_y(s.drop_last()) + s.last().y
    }
}

/// The sum of the Z coordinates of a sequence of points.
pub open spec fn sum_z(s: Seq<Point>) -> int
    decreases s.len(),
{
    if s.len() == 0 {
        0
    } else {
        sum_z(s.drop_last()) + s.last().z
    }
}

/// A list of point positions stays within an object of `n` points.
pub open spec fn indices_valid(s: Seq<i32>, n: int) -> bool {
    forall|i: int| 0 <= i < s.len() ==> 0 <= #[trigger] s[i] < n
}

impl Object {
    /// The edge and surface lists only reference positions that exist in
    /// the point list: every edge has exactly two endpoints and every
    /// surface at least three corners, all in range.
    pub open spec fn geometry_wf(&self) -> bool {
        &&& forall|e: int| 0 <= e < self.edges.len() ==> {
            &&& (#[trigger] self.edges[e])@.len() == 2
            &&& indices_valid(self.edges[e]@, self.points.len() as int)
        }
        &&& forall|s: int| 0 <= s < self.surfaces.len() ==> {
            &&& (#[trigger] self.surfaces[s])@.len() >= 3
            &&& indices_valid(self.surfaces[s]@, self.points.len() as int)
        }
    }

    /// Every point coordinate, and the centroid, lies within `c` of zero.
    pub open spec fn coords_within(&self, c: int) -> bool {
        &&& forall|i: int| 0 <= i < self.points.len() ==> (#[trigger] self.points[i]).within(c)
        &&& self.mid_point.within(c)
    }

    /// The cached centroid is the arithmetic mean of the point coordinates
    /// (floor division by the point count), with identity number zero.
    pub open spec fn centroid_wf(&self) -> bool {
        &&& self.points.len() > 0
        &&& self.mid_point.num == 0
        &&& self.mid_point.x == sum_x(self.points@) / self.points.len() as int
        &&& self.mid_point.y == sum_y(self.points@) / self.points.len() as int
        &&& self.mid_point.z == sum_z(self.points@) / self.points.len() as int
    }

    /// An empty object: no color, no points, no edges, no surfaces, and a
    /// zero centroid.
    pub fn new() -> (r: Object)
        ensures
            r.colour@ == Seq::<char>::empty(),
            r.points@ == Seq::<Point>::empty(),
            r.edges@ == Seq::<Edge>::empty(),
            r.surfaces@ == Seq::<Surface>::empty(),
            r.mid_point == (Point { num: 0, x: 0, y: 0, z: 0 }),
    {
        Object {
            colour: String::new(),
            points: Vec::new(),
            edges: Vec::new(),
            surfaces: Vec::new(),
            mid_point: Point { num: 0, x: 0, y: 0, z: 0 },
        }
    }

    /// Runtime check for [`Object::geometry_wf`]: reports whether every
    /// edge and surface references only positions that exist, so a caller
    /// can fail fast on malformed geometry instead of reading out of range.
    pub fn geometry_valid(&self) -> (b: bool)
        ensures
            b == self.geometry_wf(),
    {
        let n = self.points.len();
        let mut e: usize = 0;
        while e < self.edges.len()
            invariant
                e <= self.edges.len(),
                n == self.points.len(),
                forall|i: int| 0 <= i < e ==> {
                    &&& (#[trigger] self.edges[i])@.len() == 2
                    &&& indices_valid(self.edges[i]@, n as int)
                },
            decreases self.edges.len() - e,
        {
            if !indices_list_valid(&self.edges[e], n) || self.edges[e].len() != 2 {
                return false;
            }
            e = e + 1;
        }
        let mut s: usize = 0;
        while s < self.surfaces.len()
            invariant
                s <= self.surfaces.len(),
                n == self.points.len(),
                forall|e: int| 0 <= e < self.edges.len() ==> {
                    &&& (#[trigger] self.edges[e])@.len() == 2
                    &&& indices_valid(self.edges[e]@, n as int)
                },
                forall|i: int| 0 <= i < s ==> {
                    &&& (#[trigger] self.surfaces[i])@.len() >= 3
                    &&& indices_valid(self.surfaces[i]@, n as int)
                },
            decreases self.surfaces.len() - s,
        {
            if !indices_list_valid(&self.surfaces[s], n) || self.surfaces[s].len() < 3 {
                return false;
            }
            s = s + 1;
        }
        true
    }

    /// Runtime check for [`Object::coords_within`] against `COEF_LIMIT`,
    /// so an unverified caller can establish the bound the transforming
    /// functions ask for.
    pub fn fits_coef_limit(&self) -> (b: bool)
        ensures
            b == self.coords_within(COEF_LIMIT as int),
    {
        let mut i: usize = 0;
        while i < self.points.len()
            invariant
                i <= self.points.len(),
                forall|j: int| 0 <= j < i ==> (#[trigger] self.points[j]).within(COEF_LIMIT as int),
            decreases self.points.len() - i,
        {
            if !self.points[i].fits_coef_limit() {
                return false;
            }
            i = i + 1;
        }
        self.mid_point.fits_coef_limit()
    }
}

/// Reports whether every position in the list is a valid index into a
/// point list of length `n`.
fn indices_list_valid(s: &Vec<i32>, n: usize) -> (b: bool)
    ensures
        b == indices_valid(s@, n as int),
{
    let mut i: usize = 0;
    while i < s.len()
        invariant
            i <= s.len(),
            forall|j: int| 0 <= j < i ==> 0 <= #[trigger] s@[j] < n,
        decreases s.len() - i,
    {
        let v = s[i];
        if v < 0 || v as usize >= n {
            return false;
        }
        i = i + 1;
    }
    true
}

/// Computes the centroid of a non-empty point list: the floor of the mean
/// of each coordinate, with identity number zero.
pub fn centroid(points: &Vec<Point>) -> (r: Point)
    requires
        points.len() >= 1,
        forall|i: int| 0 <= i < points.len() ==> (#[trigger] points[i]).within(COEF_LIMIT as int),
    ensures
        r.num == 0,
        r.x == sum_x(points@) / points.len() as int,
        r.y == sum_y(points@) / points.len() as int,
        r.z == sum_z(points@) / points.len() as int,
        r.within(COEF_LIMIT as int),
{
    let mut sx: i128 = 0;
    let mut sy: i128 = 0;
    let mut sz: i128 = 0;
    let mut i: usize = 0;
    while i < points.len()
        invariant
            i <= points.len(),
            forall|j: int| 0 <= j < points.len() ==> (#[trigger] points[j]).within(COEF_LIMIT as int),
            sx == sum_x(points@.take(i as int)),
            sy == sum_y(points@.take(i as int)),
            sz == sum_z(points@.take(i as int)),
            -(i as int) * (COEF_LIMIT as int) <= sx <= (i as int) * (COEF_LIMIT as int),
            -(i as int) * (COEF_LIMIT as int) <= sy <= (i as int) * (COEF_LIMIT as int),
            -(i as int) * (COEF_LIMIT as int) <= sz <= (i as int) * (COEF_LIMIT as int),
        decreases points.len() - i,
    {
        let p = points[i];
        proof {
            assert(points[i as int].within(COEF_LIMIT as int));
            assert(points@.take(i + 1).drop_last() =~= points@.take(i as int));
            assert(points@.take(i + 1).last() == points@[i as int]);
            lemma_sum_step(i as int, COEF_LIMIT as int, sx as int, p.x as int);
            lemma_sum_step(i as int, COEF_LIMIT as int, sy as int, p.y as int);
            lemma_sum_step(i as int, COEF_LIMIT as int, sz as int, p.z as int);
        }
        sx = sx + p.x as i128;
        sy = sy + p.y as i128;
        sz = sz + p.z as i128;
        i = i + 1;
    }
    proof {
        assert(points@.take(points.len() as int) =~= points@);
    }
    let n = points.len() as i128;
    proof {
        let n_int = points.len() as int;
        lemma_avg_in_range(sx as int, n_int, COEF_LIMIT as int);
        lemma_avg_in_range(sy as int, n_int, COEF_LIMIT as int);
        lemma_avg_in_range(sz as int, n_int, COEF_LIMIT as int);
    }
    Point {
        num: 0,
        x: sx.checked_div_euclid(n).unwrap() as i64,
        y: sy.checked_div_euclid(n).unwrap() as i64,
        z: sz.checked_div_euclid(n).unwrap() as i64,
    }
}

/// One step of a coordinate sum: adding a value within `c` of zero to a sum
/// of `i` such values keeps the sum within `(i + 1) * c` of zero, far inside
/// the 128-bit range for any vector that fits in memory.
proof fn lemma_sum_step(i: int, c: int, s: int, x: int)
    by (nonlinear_arith)
    requires
        0 <= i <= 0xFFFF_FFFF_FFFF_FFFF,
        0 <= c <= 0x100_0000_0000,
        -(i * c) <= s <= i * c,
        -c <= x <= c,
    ensures
        -((i + 1) * c) <= s + x <= (i + 1) * c,
        -0x1_0000_0000_0000_0000_0000_0000_0000 <= s + x <= 0x1_0000_0000_0000_0000_0000_0000_0000,
{
}

/// The floor of the mean of `n` values, each within `c` of zero, is itself
/// within `c` of zero.
proof fn lemma_avg_in_range(s: int, n: int, c: int)
    requires
        1 <= n,
        0 <= c,
        -(n * c) <= s <= n * c,
    ensures
        -c <= s / n <= c,
{
    lemma_div_is_ordered(s, n * c, n);
    lemma_div_multiples_vanish(c, n);
    lemma_div_is_ordered(-(n * c), s, n);
    lemma_div_multiples_vanish(-c, n);
    assert(-(n * c) == n * (-c)) by (nonlinear_arith);
}

/// `r` is `o` with every point and the centroid transformed by the matrix
/// `m`, and the color, edge list and surface list carried over unchanged.
pub open spec fn is_transformed_object(m: Seq<int>, o: Object, r: Object) -> bool {
    &&& r.colour@ == o.colour@
    &&& r.points.len() == o.points.len()
    &&& forall|i: int| 0 <= i < o.points.len() ==>
        is_transformed(m, o.points[i], #[trigger] r.points[i])
    &&& r.edges.len() == o.edges.len()
    &&& forall|e: int| 0 <= e < o.edges.len() ==> (#[trigger] r.edges[e])@ == o.edges[e]@
    &&& r.surfaces.len() == o.surfaces.len()
    &&& forall|s: int| 0 <= s < o.surfaces.len() ==> (#[trigger] r.surfaces[s])@ == o.surfaces[s]@
    &&& is_transformed(m, o.mid_point, r.mid_point)
}

/// Builds a new object whose points and centroid are `o`'s transformed by
/// `m`, with the color, edges and surfaces copied across unchanged.
pub fn transform_object(m: &Matrix, o: &Object) -> (r: Object)
    requires
        m.within(COEF_LIMIT as int),
        o.coords_within(COEF_LIMIT as int),
    ensures
        is_transformed_object(m@, *o, r),
{
    let mut new_object = Object::new();

    // Transform the points across from the original object.
    let mut new_points: Vec<Point> = Vec::new();
    let mut i: usize = 0;
    while i < o.points.len()
        invariant
            i <= o.points.len(),
            m.within(COEF_LIMIT as int),
            o.coords_within(COEF_LIMIT as int),
            new_points.len() == i,
            forall|j: int| 0 <= j < i ==> is_transformed(m@, o.points[j], #[trigger] new_points[j]),
        decreases o.points.len() - i,
    {
        new_points.push(transform(m, o.points[i]));
        i = i + 1;
    }
    new_object.points = new_points;

    // Copy the edges across from the original object.
    let mut new_edges: Vec<Edge> = Vec::new();
    let mut e: usize = 0;
    while e < o.edges.len()
        invariant
            e <= o.edges.len(),
            new_edges.len() == e,
            forall|j: int| 0 <= j < e ==> (#[trigger] new_edges[j])@ == o.edges[j]@,
        decreases o.edges.len() - e,
    {
        new_edges.push(copy_indices(&o.edges[e]));
        e = e + 1;
    }
    new_object.edges = new_edges;

    // Copy the surfaces across from the original object.
    let mut new_surfaces: Vec<Surface> = Vec::new();
    let mut s: usize = 0;
    while s < o.surfaces.len()
        invariant
            s <= o.surfaces.len(),
            new_surfaces.len() == s,
            forall|j: int| 0 <= j < s ==> (#[trigger] new_surfaces[j])@ == o.surfaces[j]@,
        decreases o.surfaces.len() - s,
    {
        new_surfaces.push(copy_indices(&o.surfaces[s]));
        s = s + 1;
    }
    new_object.surfaces = new_surfaces;

    // Copy the colour across from the original object.
    new_object.colour = o.colour.clone();

    // Transform the centroid, so it can keep ordering objects by depth
    // without a recomputation over all the points.
    new_object.mid_point = transform(m, o.mid_point);

    new_object
}

/// Copies a list of point positions.
pub(crate) fn copy_indices(s: &Vec<i32>) -> (r: Vec<i32>)
    ensures
        r@ == s@,
{
    let mut r: Vec<i32> = Vec::new();
    let mut i: usize = 0;
    while i < s.len()
        invariant
            i <= s.len(),
            r@ == s@.take(i as int),
        decreases s.len() - i,
    {
        r.push(s[i]);
        proof {
            assert(r@ =~= s@.take(i + 1));
        }
        i = i + 1;
    }
    proof {
        assert(r@ =~= s@);
    }
    r
}

} // verus!
