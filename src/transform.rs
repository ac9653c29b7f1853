use vstd::prelude::*;

use crate::drawing::Brush;

verus! {

/// A quarter turn about a signed coordinate axis.
#[derive(Clone, Copy, PartialEq, Eq, Structural, Debug)]
pub enum Rotation {
    XPos,
    XNeg,
    YPos,
    YNeg,
    ZPos,
    ZNeg,
}

/// An axis-aligned reflection plane.
#[derive(Clone, Copy, PartialEq, Eq, Structural, Debug)]
pub enum Plane {
    XZ,
    XY,
    YZ,
}

/// One rigid-motion step of a transform.
#[derive(Clone, Copy, PartialEq, Eq, Structural, Debug)]
pub enum TransformStep {
    Rotate(Rotation),
    Translate { dx: i32, dy: i32, dz: i32 },
    Mirror(Plane),
}

pub open spec fn rotate_point(r: Rotation, p: (int, int, int)) -> (int, int, int) {
    match r {
        Rotation::XPos => (p.0, -p.2, p.1),
        Rotation::XNeg => (p.0, p.2, -p.1),
        Rotation::YPos => (p.2, p.1, -p.0),
        Rotation::YNeg => (-p.2, p.1, p.0),
        Rotation::ZPos => (-p.1, p.0, p.2),
        Rotation::ZNeg => (p.1, -p.0, p.2),
    }
}

pub open spec fn mirror_point(m: Plane, p: (int, int, int)) -> (int, int, int) {
    match m {
        Plane::XY => (p.0, p.1, -p.2),
        Plane::XZ => (p.0, -p.1, p.2),
        Plane::YZ => (-p.0, p.1, p.2),
    }
}

/// Where one step moves a point; translations are measured in units of `scale`.
pub open spec fn step_point(s: TransformStep, scale: int, p: (int, int, int)) -> (int, int, int) {
    match s {
        TransformStep::Rotate(r) => rotate_point(r, p),
        TransformStep::Translate { dx, dy, dz } => (
            p.0 + dx * scale,
            p.1 + dy * scale,
            p.2 + dz * scale,
        ),
        TransformStep::Mirror(m) => mirror_point(m, p),
    }
}

/// The steps applied one after another, the first step first.
pub open spec fn steps_point(steps: Seq<TransformStep>, scale: int, p: (int, int, int)) -> (
    int,
    int,
    int,
)
    decreases steps.len(),
{
    if steps.len() == 0 {
        p
    } else {
        step_point(steps.last(), scale, steps_point(steps.drop_last(), scale, p))
    }
}

/// The rotation steps alone applied one after another; translations and
/// mirrors are passed over.
pub open spec fn rotations_point(steps: Seq<TransformStep>, p: (int, int, int)) -> (
    int,
    int,
    int,
)
    decreases steps.len(),
{
    if steps.len() == 0 {
        p
    } else {
        let q = rotations_point(steps.drop_last(), p);
        match steps.last() {
            TransformStep::Rotate(r) => rotate_point(r, q),
            _ => q,
        }
    }
}

pub open spec fn scale_point(scale: int, p: (int, int, int)) -> (int, int, int) {
    (scale * p.0, scale * p.1, scale * p.2)
}

pub open spec fn in_i32(v: int) -> bool {
    i32::MIN <= v <= i32::MAX
}

pub open spec fn point_in_i32(p: (int, int, int)) -> bool {
    in_i32(p.0) && in_i32(p.1) && in_i32(p.2)
}

/// Every point on the way, from the start through each step, fits in `i32`.
pub open spec fn steps_fit(steps: Seq<TransformStep>, scale: int, p: (int, int, int)) -> bool
    decreases steps.len(),
{
    if steps.len() == 0 {
        point_in_i32(p)
    } else {
        steps_fit(steps.drop_last(), scale, p) && point_in_i32(steps_point(steps, scale, p))
    }
}

pub open spec fn rotate_brush(r: Rotation, b: Brush) -> Brush {
    match (r, b) {
        (Rotation::XPos, Brush::YPos) => Brush::ZPos,
        (Rotation::XPos, Brush::YNeg) => Brush::ZNeg,
        (Rotation::XPos, Brush::ZPos) => Brush::YNeg,
        (Rotation::XPos, Brush::ZNeg) => Brush::YPos,
        (Rotation::XNeg, Brush::YPos) => Brush::ZNeg,
        (Rotation::XNeg, Brush::YNeg) => Brush::ZPos,
        (Rotation::XNeg, Brush::ZPos) => Brush::YPos,
        (Rotation::XNeg, Brush::ZNeg) => Brush::YNeg,
        (Rotation::YPos, Brush::XPos) => Brush::ZNeg,
        (Rotation::YPos, Brush::XNeg) => Brush::ZPos,
        (Rotation::YPos, Brush::ZPos) => Brush::XPos,
        (Rotation::YPos, Brush::ZNeg) => Brush::XNeg,
        (Rotation::YNeg, Brush::XPos) => Brush::ZPos,
        (Rotation::YNeg, Brush::XNeg) => Brush::ZNeg,
        (Rotation::YNeg, Brush::ZPos) => Brush::XNeg,
        (Rotation::YNeg, Brush::ZNeg) => Brush::XPos,
        (Rotation::ZPos, Brush::XPos) => Brush::YPos,
        (Rotation::ZPos, Brush::XNeg) => Brush::YNeg,
        (Rotation::ZPos, Brush::YPos) => Brush::XNeg,
        (Rotation::ZPos, Brush::YNeg) => Brush::XPos,
        (Rotation::ZNeg, Brush::XPos) => Brush::YNeg,
        (Rotation::ZNeg, Brush::XNeg) => Brush::YPos,
        (Rotation::ZNeg, Brush::YPos) => Brush::XPos,
        (Rotation::ZNeg, Brush::YNeg) => Brush::XNeg,
        (_, b) => b,
    }
}

pub open spec fn mirror_brush(m: Plane, b: Brush) -> Brush {
    match (m, b) {
        (Plane::XY, Brush::ZPos) => Brush::ZNeg,
        (Plane::XY, Brush::ZNeg) => Brush::ZPos,
        (Plane::XZ, Brush::YPos) => Brush::YNeg,
        (Plane::XZ, Brush::YNeg) => Brush::YPos,
        (Plane::YZ, Brush::XPos) => Brush::XNeg,
        (Plane::YZ, Brush::XNeg) => Brush::XPos,
        (_, b) => b,
    }
}

pub open spec fn step_brush(s: TransformStep, b: Brush) -> Brush {
    match s {
        TransformStep::Rotate(r) => rotate_brush(r, b),
        TransformStep::Translate { .. } => b,
        TransformStep::Mirror(m) => mirror_brush(m, b),
    }
}

/// A brush carried through the steps, the first step first.
pub open spec fn steps_brush(steps: Seq<TransformStep>, b: Brush) -> Brush
    decreases steps.len(),
{
    if steps.len() == 0 {
        b
    } else {
        step_brush(steps.last(), steps_brush(steps.drop_last(), b))
    }
}

/// The unit vector that a directional brush points along; `Full` has none.
pub open spec fn brush_unit(b: Brush) -> (int, int, int) {
    match b {
        Brush::Full => (0, 0, 0),
        Brush::XPos => (1, 0, 0),
        Brush::XNeg => (-1, 0, 0),
        Brush::YPos => (0, 1, 0),
        Brush::YNeg => (0, -1, 0),
        Brush::ZPos => (0, 0, 1),
        Brush::ZNeg => (0, 0, -1),
    }
}

/// The quarter turn that undoes `r`.
pub open spec fn inverse_rotation(r: Rotation) -> Rotation {
    match r {
        Rotation::XPos => Rotation::XNeg,
        Rotation::XNeg => Rotation::XPos,
        Rotation::YPos => Rotation::YNeg,
        Rotation::YNeg => Rotation::YPos,
        Rotation::ZPos => Rotation::ZNeg,
        Rotation::ZNeg => Rotation::ZPos,
    }
}

/// An ordered list of rigid-motion steps and a uniform scale that is applied
/// to a point before the first step.
#[derive(Clone, Debug)]
pub struct Transform {
    pub steps: Vec<TransformStep>,
    pub scaling: i32,
}

impl Transform {
    /// The steps of this transform, in the order they are applied.
    pub open spec fn step_seq(&self) -> Seq<TransformStep> {
        self.steps@
    }

    /// Where the transform moves the point `p`.
    pub open spec fn map_point(&self, p: (int, int, int)) -> (int, int, int) {
        steps_point(self.step_seq(), self.scaling as int, scale_point(self.scaling as int, p))
    }

    /// Mapping `p` stays within `i32` at every step.
    pub open spec fn fits(&self, p: (int, int, int)) -> bool {
        steps_fit(self.step_seq(), self.scaling as int, scale_point(self.scaling as int, p))
    }

    /// A transform with the same steps and scale.
    pub fn duplicate(&self) -> (r: Self)
        ensures
            r.step_seq() == self.step_seq(),
            r.scaling == self.scaling,
    {
        Transform { steps: Vec::new(), scaling: self.scaling }.followed_by(self)
    }

    pub fn new() -> (r: Self)
        ensures
            r.step_seq() == Seq::<TransformStep>::empty(),
            r.scaling == 1,
    {
        Transform { steps: Vec::new(), scaling: 1 }
    }

    pub fn with_scale(scaling: u32) -> (r: Self)
        requires
            scaling <= i32::MAX,
        ensures
            r.step_seq() == Seq::<TransformStep>::empty(),
            r.scaling == scaling,
    {
        Transform { steps: Vec::new(), scaling: scaling as i32 }
    }

    /// Appends one step.
    pub fn step(self, step: TransformStep) -> (r: Self)
        ensures
            r.step_seq() == self.step_seq().push(step),
            r.scaling == self.scaling,
    {
        let mut s = self;
        s.steps.push(step);
        s
    }

    pub fn rotate(self, rotation: Rotation) -> (r: Self)
        ensures
            r.step_seq() == self.step_seq().push(TransformStep::Rotate(rotation)),
            r.scaling == self.scaling,
    {
        self.step(TransformStep::Rotate(rotation))
    }

    pub fn translate(self, dx: i32, dy: i32, dz: i32) -> (r: Self)
        ensures
            r.step_seq() == self.step_seq().push(TransformStep::Translate { dx, dy, dz }),
            r.scaling == self.scaling,
    {
        self.step(TransformStep::Translate { dx, dy, dz })
    }

    pub fn mirror(self, plane: Plane) -> (r: Self)
        ensures
            r.step_seq() == self.step_seq().push(TransformStep::Mirror(plane)),
            r.scaling == self.scaling,
    {
        self.step(TransformStep::Mirror(plane))
    }

    /// This transform followed by the steps of `other`; the scale of `self` is kept.
    pub fn followed_by(self, other: &Transform) -> (r: Self)
        ensures
            r.step_seq() == self.step_seq() + other.step_seq(),
            r.scaling == self.scaling,
    {
        let mut s = self;
        let ghost first = s.steps@;
        let mut i: usize = 0;
        while i < other.steps.len()
            invariant
                i <= other.steps@.len(),
                s.steps@ == first + other.steps@.take(i as int),
                s.scaling == self.scaling,
            decreases other.steps@.len() - i,
        {
            s.steps.push(other.steps[i]);
            i = i + 1;
            assert(other.steps@.take(i as int) =~= other.steps@.take(i - 1).push(
                other.steps@[i - 1],
            ));
        }
        assert(other.steps@.take(i as int) =~= other.steps@);
        s
    }

    /// Scales the point, then applies each step in turn; `None` when a
    /// coordinate leaves the range of `i32` on the way.
    pub fn checked_apply(&self, x: i32, y: i32, z: i32) -> (r: Option<(i32, i32, i32)>)
        ensures
            r is Some <==> self.fits((x as int, y as int, z as int)),
            r matches Some(q) ==> (q.0 as int, q.1 as int, q.2 as int) == self.map_point(
                (x as int, y as int, z as int),
            ),
    {
        let ghost p = (x as int, y as int, z as int);
        let ghost start = scale_point(self.scaling as int, p);
        let sx = mul_wide(self.scaling, x);
        let sy = mul_wide(self.scaling, y);
        let sz = mul_wide(self.scaling, z);
        if !(fits_i32(sx) && fits_i32(sy) && fits_i32(sz)) {
            proof {
                assert(self.steps@.take(0) =~= Seq::<TransformStep>::empty());
                if steps_fit(self.steps@, self.scaling as int, start) {
                    lemma_steps_fit_prefix(self.steps@, self.scaling as int, start, 0);
                }
            }
            return None;
        }
        let mut cur: (i32, i32, i32) = (sx as i32, sy as i32, sz as i32);
        proof {
            assert(self.steps@.take(0) =~= Seq::<TransformStep>::empty());
        }
        let mut i: usize = 0;
        while i < self.steps.len()
            invariant
                i <= self.steps@.len(),
                steps_fit(self.steps@.take(i as int), self.scaling as int, start),
                (cur.0 as int, cur.1 as int, cur.2 as int) == steps_point(
                    self.steps@.take(i as int),
                    self.scaling as int,
                    start,
                ),
                start == scale_point(self.scaling as int, p),
                p == (x as int, y as int, z as int),
            decreases self.steps@.len() - i,
        {
            let ghost pre = self.steps@.take(i as int);
            let ghost post = self.steps@.take(i + 1);
            proof {
                assert(post.drop_last() =~= pre);
                assert(post.last() == self.steps@[i as int]);
            }
            match checked_step(self.steps[i], cur, self.scaling) {
                Some(next) => {
                    cur = next;
                },
                None => {
                    proof {
                        assert(steps_point(post, self.scaling as int, start) == step_point(
                            self.steps@[i as int],
                            self.scaling as int,
                            steps_point(pre, self.scaling as int, start),
                        ));
                        assert(!steps_fit(post, self.scaling as int, start));
                        if steps_fit(self.steps@, self.scaling as int, start) {
                            lemma_steps_fit_prefix(
                                self.steps@,
                                self.scaling as int,
                                start,
                                i + 1,
                            );
                        }
                    }
                    return None;
                },
            }
            i = i + 1;
        }
        proof {
            assert(self.steps@.take(i as int) =~= self.steps@);
        }
        Some(cur)
    }

    /// Scales the point, then applies each step in turn.
    pub fn apply(&self, x: i32, y: i32, z: i32) -> (r: (i32, i32, i32))
        requires
            self.fits((x as int, y as int, z as int)),
        ensures
            (r.0 as int, r.1 as int, r.2 as int) == self.map_point((x as int, y as int, z as int)),
    {
        match self.checked_apply(x, y, z) {
            Some(q) => q,
            None => (0, 0, 0),
        }
    }

    /// Applies the rotation steps alone, unscaled, to a direction vector.
    pub fn rotate_only(&self, x: i32, y: i32, z: i32) -> (r: (i32, i32, i32))
        requires
            x > i32::MIN,
            y > i32::MIN,
            z > i32::MIN,
        ensures
            (r.0 as int, r.1 as int, r.2 as int) == rotations_point(
                self.step_seq(),
                (x as int, y as int, z as int),
            ),
    {
        let ghost p = (x as int, y as int, z as int);
        let mut cur: (i32, i32, i32) = (x, y, z);
        proof {
            assert(self.steps@.take(0) =~= Seq::<TransformStep>::empty());
        }
        let mut i: usize = 0;
        while i < self.steps.len()
            invariant
                i <= self.steps@.len(),
                cur.0 > i32::MIN,
                cur.1 > i32::MIN,
                cur.2 > i32::MIN,
                (cur.0 as int, cur.1 as int, cur.2 as int) == rotations_point(
                    self.steps@.take(i as int),
                    p,
                ),
            decreases self.steps@.len() - i,
        {
            proof {
                assert(self.steps@.take(i + 1).drop_last() =~= self.steps@.take(i as int));
            }
            match self.steps[i] {
                TransformStep::Rotate(r) => {
                    cur = rotate_exact(r, cur);
                },
                _ => {},
            }
            i = i + 1;
        }
        proof {
            assert(self.steps@.take(i as int) =~= self.steps@);
        }
        cur
    }

    /// Carries a brush through the steps: rotations turn it, mirrors flip it,
    /// translations leave it.
    pub fn brush(&self, brush: Brush) -> (r: Brush)
        ensures
            r == steps_brush(self.step_seq(), brush),
    {
        let mut cur = brush;
        proof {
            assert(self.steps@.take(0) =~= Seq::<TransformStep>::empty());
        }
        let mut i: usize = 0;
        while i < self.steps.len()
            invariant
                i <= self.steps@.len(),
                cur == steps_brush(self.steps@.take(i as int), brush),
            decreases self.steps@.len() - i,
        {
            proof {
                assert(self.steps@.take(i + 1).drop_last() =~= self.steps@.take(i as int));
            }
            cur = self.steps[i].brush(cur);
            i = i + 1;
        }
        proof {
            assert(self.steps@.take(i as int) =~= self.steps@);
        }
        cur
    }
}

impl TransformStep {
    /// Applies this step to a point; translations are multiplied by `scaling`.
    pub fn apply(&self, x: i32, y: i32, z: i32, scaling: i32) -> (r: (i32, i32, i32))
        requires
            point_in_i32(step_point(*self, scaling as int, (x as int, y as int, z as int))),
        ensures
            (r.0 as int, r.1 as int, r.2 as int) == step_point(
                *self,
                scaling as int,
                (x as int, y as int, z as int),
            ),
    {
        match checked_step(*self, (x, y, z), scaling) {
            Some(q) => q,
            None => (0, 0, 0),
        }
    }

    /// Carries a brush through this step.
    pub fn brush(&self, brush: Brush) -> (r: Brush)
        ensures
            r == step_brush(*self, brush),
    {
        match self {
            TransformStep::Rotate(r) => match (r, brush) {
                (Rotation::XPos, Brush::YPos) => Brush::ZPos,
                (Rotation::XPos, Brush::YNeg) => Brush::ZNeg,
                (Rotation::XPos, Brush::ZPos) => Brush::YNeg,
                (Rotation::XPos, Brush::ZNeg) => Brush::YPos,
                (Rotation::XNeg, Brush::YPos) => Brush::ZNeg,
                (Rotation::XNeg, Brush::YNeg) => Brush::ZPos,
                (Rotation::XNeg, Brush::ZPos) => Brush::YPos,
                (Rotation::XNeg, Brush::ZNeg) => Brush::YNeg,
                (Rotation::YPos, Brush::XPos) => Brush::ZNeg,
                (Rotation::YPos, Brush::XNeg) => Brush::ZPos,
                (Rotation::YPos, Brush::ZPos) => Brush::XPos,
                (Rotation::YPos, Brush::ZNeg) => Brush::XNeg,
                (Rotation::YNeg, Brush::XPos) => Brush::ZPos,
                (Rotation::YNeg, Brush::XNeg) => Brush::ZNeg,
                (Rotation::YNeg, Brush::ZPos) => Brush::XNeg,
                (Rotation::YNeg, Brush::ZNeg) => Brush::XPos,
                (Rotation::ZPos, Brush::XPos) => Brush::YPos,
                (Rotation::ZPos, Brush::XNeg) => Brush::YNeg,
                (Rotation::ZPos, Brush::YPos) => Brush::XNeg,
                (Rotation::ZPos, Brush::YNeg) => Brush::XPos,
                (Rotation::ZNeg, Brush::XPos) => Brush::YNeg,
                (Rotation::ZNeg, Brush::XNeg) => Brush::YPos,
                (Rotation::ZNeg, Brush::YPos) => Brush::XPos,
                (Rotation::ZNeg, Brush::YNeg) => Brush::XNeg,
                (_, b) => b,
            },
            TransformStep::Translate { .. } => brush,
            TransformStep::Mirror(p) => match (p, brush) {
                (Plane::XY, Brush::ZPos) => Brush::ZNeg,
                (Plane::XY, Brush::ZNeg) => Brush::ZPos,
                (Plane::XZ, Brush::YPos) => Brush::YNeg,
                (Plane::XZ, Brush::YNeg) => Brush::YPos,
                (Plane::YZ, Brush::XPos) => Brush::XNeg,
                (Plane::YZ, Brush::XNeg) => Brush::XPos,
                (_, b) => b,
            },
        }
    }
}

fn mul_wide(a: i32, b: i32) -> (r: i64)
    ensures
        r == a * b,
        -0x4000_0000_0000_0000 <= r <= 0x4000_0000_0000_0000,
{
    proof {
        assert(-0x4000_0000_0000_0000 <= (a as int) * (b as int) <= 0x4000_0000_0000_0000)
            by (nonlinear_arith)
            requires
                i32::MIN <= a <= i32::MAX,
                i32::MIN <= b <= i32::MAX,
        ;
    }
    (a as i64) * (b as i64)
}

fn fits_i32(v: i64) -> (r: bool)
    ensures
        r == in_i32(v as int),
{
    i32::MIN as i64 <= v && v <= i32::MAX as i64
}

/// A rotation applied to a point whose coordinates all lie above `i32::MIN`.
fn rotate_exact(r: Rotation, p: (i32, i32, i32)) -> (q: (i32, i32, i32))
    requires
        p.0 > i32::MIN,
        p.1 > i32::MIN,
        p.2 > i32::MIN,
    ensures
        (q.0 as int, q.1 as int, q.2 as int) == rotate_point(r, (p.0 as int, p.1 as int, p.2 as int)),
        q.0 > i32::MIN,
        q.1 > i32::MIN,
        q.2 > i32::MIN,
{
    let (x, y, z) = p;
    match r {
        Rotation::XPos => (x, -z, y),
        Rotation::XNeg => (x, z, -y),
        Rotation::YPos => (z, y, -x),
        Rotation::YNeg => (-z, y, x),
        Rotation::ZPos => (-y, x, z),
        Rotation::ZNeg => (y, -x, z),
    }
}

/// One step on a point, or `None` when the result leaves the range of `i32`.
fn checked_step(s: TransformStep, p: (i32, i32, i32), scaling: i32) -> (r: Option<(i32, i32, i32)>)
    ensures
        r is Some <==> point_in_i32(step_point(s, scaling as int, (p.0 as int, p.1 as int, p.2 as int))),
        r matches Some(q) ==> (q.0 as int, q.1 as int, q.2 as int) == step_point(
            s,
            scaling as int,
            (p.0 as int, p.1 as int, p.2 as int),
        ),
{
    let x = p.0 as i64;
    let y = p.1 as i64;
    let z = p.2 as i64;
    let (nx, ny, nz): (i64, i64, i64) = match s {
        TransformStep::Rotate(r) => match r {
            Rotation::XPos => (x, -z, y),
            Rotation::XNeg => (x, z, -y),
            Rotation::YPos => (z, y, -x),
            Rotation::YNeg => (-z, y, x),
            Rotation::ZPos => (-y, x, z),
            Rotation::ZNeg => (y, -x, z),
        },
        TransformStep::Translate { dx, dy, dz } => (
            x + mul_wide(dx, scaling),
            y + mul_wide(dy, scaling),
            z + mul_wide(dz, scaling),
        ),
        TransformStep::Mirror(m) => match m {
            Plane::XY => (x, y, -z),
            Plane::XZ => (x, -y, z),
            Plane::YZ => (-x, y, z),
        },
    };
    if fits_i32(nx) && fits_i32(ny) && fits_i32(nz) {
        Some((nx as i32, ny as i32, nz as i32))
    } else {
        None
    }
}

proof fn lemma_steps_fit_prefix(steps: Seq<TransformStep>, scale: int, p: (int, int, int), k: int)
    requires
        0 <= k <= steps.len(),
        steps_fit(steps, scale, p),
    ensures
        steps_fit(steps.take(k), scale, p),
    decreases steps.len(),
{
    if k < steps.len() {
        assert(steps.drop_last().take(k) =~= steps.take(k));
        lemma_steps_fit_prefix(steps.drop_last(), scale, p, k);
    } else {
        assert(steps.take(k) =~= steps);
    }
}

/// Running a concatenation of steps is running the first part, then the second.
pub proof fn lemma_steps_point_concat(
    a: Seq<TransformStep>,
    b: Seq<TransformStep>,
    scale: int,
    p: (int, int, int),
)
    ensures
        steps_point(a + b, scale, p) == steps_point(b, scale, steps_point(a, scale, p)),
    decreases b.len(),
{
    if b.len() == 0 {
        assert(a + b =~= a);
    } else {
        assert((a + b).drop_last() =~= a + b.drop_last());
        lemma_steps_point_concat(a, b.drop_last(), scale, p);
    }
}

/// Carrying a brush through a concatenation of steps is carrying it through
/// the first part, then the second.
pub proof fn lemma_steps_brush_concat(a: Seq<TransformStep>, b: Seq<TransformStep>, br: Brush)
    ensures
        steps_brush(a + b, br) == steps_brush(b, steps_brush(a, br)),
    decreases b.len(),
{
    if b.len() == 0 {
        assert(a + b =~= a);
    } else {
        assert((a + b).drop_last() =~= a + b.drop_last());
        lemma_steps_brush_concat(a, b.drop_last(), br);
    }
}

/// Composition keeps the literal order of steps: a point mapped by `a`
/// followed by `b` followed by `c` (all at the scale of `a`) is scaled once,
/// then moved by the steps of `a`, then those of `b`, then those of `c`; and the
/// same holds of a brush carried through them.
pub proof fn lemma_followed_by_applies_in_sequence(
    a: Transform,
    b: Transform,
    c: Transform,
    composed: Transform,
    p: (int, int, int),
    br: Brush,
)
    requires
        composed.step_seq() == a.step_seq() + b.step_seq() + c.step_seq(),
        composed.scaling == a.scaling,
    ensures
        composed.map_point(p) == steps_point(
            c.step_seq(),
            a.scaling as int,
            steps_point(b.step_seq(), a.scaling as int, a.map_point(p)),
        ),
        composed.brush_spec(br) == steps_brush(
            c.step_seq(),
            steps_brush(b.step_seq(), steps_brush(a.step_seq(), br)),
        ),
{
    let s = a.scaling as int;
    let start = scale_point(s, p);
    lemma_steps_point_concat(a.step_seq() + b.step_seq(), c.step_seq(), s, start);
    lemma_steps_point_concat(a.step_seq(), b.step_seq(), s, start);
    lemma_steps_brush_concat(a.step_seq() + b.step_seq(), c.step_seq(), br);
    lemma_steps_brush_concat(a.step_seq(), b.step_seq(), br);
}

impl Transform {
    /// The brush that `brush` becomes under this transform.
    pub open spec fn brush_spec(&self, br: Brush) -> Brush {
        steps_brush(self.step_seq(), br)
    }
}

/// Each quarter turn permutes the six directional brushes: none is sent to
/// `Full`, no two are sent to the same brush, and the opposite turn undoes it.
/// `Full` stays `Full`, and a directional brush turns exactly as its unit
/// vector does under the same rotation of points.
pub proof fn lemma_rotation_permutes_directions(r: Rotation)
    ensures
        rotate_brush(r, Brush::Full) == Brush::Full,
        forall|b: Brush| b != Brush::Full ==> #[trigger] rotate_brush(r, b) != Brush::Full,
        forall|a: Brush, b: Brush| #[trigger]
            rotate_brush(r, a) == #[trigger] rotate_brush(r, b) ==> a == b,
        forall|b: Brush| #[trigger]
            rotate_brush(r, rotate_brush(inverse_rotation(r), b)) == b,
        forall|b: Brush| #[trigger] brush_unit(rotate_brush(r, b)) == rotate_point(r, brush_unit(b)),
{
}

/// Mirroring twice across the same plane gives back the point and the brush.
pub proof fn lemma_mirror_involution(m: Plane, p: (int, int, int), b: Brush)
    ensures
        mirror_point(m, mirror_point(m, p)) == p,
        mirror_brush(m, mirror_brush(m, b)) == b,
{
}

/// Two mirror steps across the same plane, appended to any steps, change
/// neither where a point goes nor what a brush becomes.
pub proof fn lemma_double_mirror_step(
    steps: Seq<TransformStep>,
    m: Plane,
    scale: int,
    p: (int, int, int),
    b: Brush,
)
    ensures
        steps_point(
            steps.push(TransformStep::Mirror(m)).push(TransformStep::Mirror(m)),
            scale,
            p,
        ) == steps_point(steps, scale, p),
        steps_brush(steps.push(TransformStep::Mirror(m)).push(TransformStep::Mirror(m)), b)
            == steps_brush(steps, b),
{
    let s1 = steps.push(TransformStep::Mirror(m));
    let s2 = s1.push(TransformStep::Mirror(m));
    assert(s2.drop_last() =~= s1);
    assert(s1.drop_last() =~= steps);
    let q = steps_point(steps, scale, p);
    assert(steps_point(s1, scale, p) == mirror_point(m, q));
    assert(steps_point(s2, scale, p) == mirror_point(m, mirror_point(m, q)));
    let c = steps_brush(steps, b);
    assert(steps_brush(s1, b) == mirror_brush(m, c));
    assert(steps_brush(s2, b) == mirror_brush(m, mirror_brush(m, c)));
}

} // verus!
